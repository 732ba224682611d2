//! Settings of the server.

use vstd::prelude::*;
use vstd::string::StringExecFns;
use crate::text::parse_number;
use crate::text::parsed_number;

verus! {

/// Where the server listens and which database it uses.
#[derive(Debug)]
pub struct Config {
    server_port: u16,
    server_addr: String,
    db_url: String,
    pool_size: u32,
}

/// What a `Config` holds.
pub struct ConfigView {
    pub server_port: u16,
    pub server_addr: Seq<char>,
    pub db_url: Seq<char>,
    pub pool_size: u32,
}

impl View for Config {
    type V = ConfigView;

    closed spec fn view(&self) -> ConfigView {
        ConfigView {
            server_port: self.server_port,
            server_addr: self.server_addr@,
            db_url: self.db_url@,
            pool_size: self.pool_size,
        }
    }
}

/// The number of database connections that are kept where no number is set.
pub const DEFAULT_POOL_SIZE: u32 = 10;

/// A setting that is missing or cannot be read.
#[derive(Debug, Clone, Copy, PartialEq, Eq)]
pub enum ConfigError {
    MissingPort,
    BadPort,
    MissingAddr,
    MissingDbUrl,
    BadPoolSize,
}

impl ConfigError {
    /// The cause in words.
    pub fn cause(&self) -> (text: String)
        ensures
            text@ == match *self {
                ConfigError::MissingPort => "SERVER_PORT not found in .env"@,
                ConfigError::BadPort => "Wrong value for SERVER_PORT"@,
                ConfigError::MissingAddr => "SERVER_ADDR not found in .env"@,
                ConfigError::MissingDbUrl => "DATABASE_URL not found in .env"@,
                ConfigError::BadPoolSize => "wrong POOL_SIZE provided in .env"@,
            },
    {
        match self {
            ConfigError::MissingPort => String::from_str("SERVER_PORT not found in .env"),
            ConfigError::BadPort => String::from_str("Wrong value for SERVER_PORT"),
            ConfigError::MissingAddr => String::from_str("SERVER_ADDR not found in .env"),
            ConfigError::MissingDbUrl => String::from_str("DATABASE_URL not found in .env"),
            ConfigError::BadPoolSize => String::from_str("wrong POOL_SIZE provided in .env"),
        }
    }
}

/// The pool size that a setting asks for: the default where nothing is set,
/// and nothing where the setting is no number of 32 bits.
pub open spec fn pool_size_of(setting: Option<String>) -> Option<int> {
    match setting {
        Some(text) => parsed_number(text@, u32::MAX as int),
        None => Some(DEFAULT_POOL_SIZE as int),
    }
}

/// The first setting that is missing or cannot be read, taken in the order
/// port, address, database, pool size; nothing where all are in order.
pub open spec fn first_fault(
    server_port: Option<String>,
    server_addr: Option<String>,
    db_url: Option<String>,
    pool_size: Option<String>,
) -> Option<ConfigError> {
    if server_port is None {
        Some(ConfigError::MissingPort)
    } else if parsed_number(server_port->0@, u16::MAX as int) is None {
        Some(ConfigError::BadPort)
    } else if server_addr is None {
        Some(ConfigError::MissingAddr)
    } else if db_url is None {
        Some(ConfigError::MissingDbUrl)
    } else if pool_size_of(pool_size) is None {
        Some(ConfigError::BadPoolSize)
    } else {
        None
    }
}

impl Config {
    /// Settings read from the texts in which they are kept. The port, the
    /// address and the database are needed; the pool size has a default.
    pub fn from_settings(
        server_port: Option<String>,
        server_addr: Option<String>,
        db_url: Option<String>,
        pool_size: Option<String>,
    ) -> (outcome: Result<Config, ConfigError>)
        ensures
            match outcome {
                Ok(config) => {
                    &&& first_fault(server_port, server_addr, db_url, pool_size) is None
                    &&& Some(config@.server_port as int) == parsed_number(
                        server_port->0@,
                        u16::MAX as int,
                    )
                    &&& config@.server_addr == server_addr->0@
                    &&& config@.db_url == db_url->0@
                    &&& Some(config@.pool_size as int) == pool_size_of(pool_size)
                },
                Err(fault) => first_fault(server_port, server_addr, db_url, pool_size) == Some(
                    fault,
                ),
            },
    {
        let port: u16 = match &server_port {
            Some(text) => match parse_number(text.as_str(), 65535) {
                Some(number) => number as u16,
                None => {
                    return Err(ConfigError::BadPort);
                },
            },
            None => {
                return Err(ConfigError::MissingPort);
            },
        };
        let addr: String = match server_addr {
            Some(text) => text,
            None => {
                return Err(ConfigError::MissingAddr);
            },
        };
        let url: String = match db_url {
            Some(text) => text,
            None => {
                return Err(ConfigError::MissingDbUrl);
            },
        };
        let size: u32 = match &pool_size {
            Some(text) => match parse_number(text.as_str(), 4294967295) {
                Some(number) => number,
                None => {
                    return Err(ConfigError::BadPoolSize);
                },
            },
            None => DEFAULT_POOL_SIZE,
        };
        Ok(Config::new(port, addr, url, size))
    }

    /// Settings made of the given values.
    pub fn new(server_port: u16, server_addr: String, db_url: String, pool_size: u32) -> (config:
        Config)
        ensures
            config@ == (ConfigView {
                server_port,
                server_addr: server_addr@,
                db_url: db_url@,
                pool_size,
            }),
    {
        Config { server_port, server_addr, db_url, pool_size }
    }

    /// The address that the server listens on.
    pub fn get_srv_addr(&self) -> (addr: &str)
        ensures
            addr@ == self@.server_addr,
    {
        self.server_addr.as_str()
    }

    /// The port that the server listens on.
    pub fn get_srv_port(&self) -> (port: &u16)
        ensures
            *port == self@.server_port,
    {
        &self.server_port
    }

    /// The address of the database.
    pub fn get_db_url(&self) -> (url: &str)
        ensures
            url@ == self@.db_url,
    {
        self.db_url.as_str()
    }

    /// The number of database connections that are kept.
    pub fn get_pool_size(&self) -> (size: &u32)
        ensures
            *size == self@.pool_size,
    {
        &self.pool_size
    }
}

} // verus!
