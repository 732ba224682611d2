use fs_store::config::{Config, ConfigError, DEFAULT_POOL_SIZE};
use fs_store::text::{parse_number, push_decimal};
use fs_store::utils::utils::server_banner;

fn some(text: &str) -> Option<String> {
    Some(text.to_owned())
}

#[test]
fn settings_are_returned_as_they_were_given() {
    let config = Config::new(8080, "127.0.0.1".to_owned(), "postgres://db".to_owned(), 4);
    assert_eq!(config.get_srv_addr(), "127.0.0.1");
    assert_eq!(*config.get_srv_port(), 8080);
    assert_eq!(config.get_db_url(), "postgres://db");
    assert_eq!(*config.get_pool_size(), 4);
}

#[test]
fn settings_are_read_from_text() {
    let config =
        Config::from_settings(some("8080"), some("0.0.0.0"), some("postgres://db"), some("25"))
            .expect("all settings are in order");
    assert_eq!(*config.get_srv_port(), 8080);
    assert_eq!(config.get_srv_addr(), "0.0.0.0");
    assert_eq!(config.get_db_url(), "postgres://db");
    assert_eq!(*config.get_pool_size(), 25);
}

#[test]
fn pool_size_defaults_to_ten() {
    assert_eq!(DEFAULT_POOL_SIZE, 10);
    let config = Config::from_settings(some("1"), some("a"), some("b"), None).expect("in order");
    assert_eq!(*config.get_pool_size(), 10);
}

#[test]
fn limits_of_port_and_pool_size() {
    let config = Config::from_settings(some("65535"), some("a"), some("b"), some("4294967295"))
        .expect("in order");
    assert_eq!((*config.get_srv_port(), *config.get_pool_size()), (65535, u32::MAX));
    let config =
        Config::from_settings(some("+0"), some(""), some(""), some("000")).expect("in order");
    assert_eq!((*config.get_srv_port(), *config.get_pool_size()), (0, 0));
    assert_eq!(
        Config::from_settings(some("65536"), some("a"), some("b"), None).unwrap_err(),
        ConfigError::BadPort
    );
    assert_eq!(
        Config::from_settings(some("1"), some("a"), some("b"), some("4294967296")).unwrap_err(),
        ConfigError::BadPoolSize
    );
}

#[test]
fn first_faulty_setting_is_reported() {
    let fault = |port: Option<&str>, addr: Option<&str>, url: Option<&str>, pool: Option<&str>| {
        let owned = |text: Option<&str>| text.map(str::to_owned);
        Config::from_settings(owned(port), owned(addr), owned(url), owned(pool)).unwrap_err()
    };
    assert_eq!(fault(None, None, None, Some("x")), ConfigError::MissingPort);
    assert_eq!(fault(Some("http"), None, None, None), ConfigError::BadPort);
    assert_eq!(fault(Some(""), Some("a"), Some("b"), None), ConfigError::BadPort);
    assert_eq!(fault(Some("80"), None, None, Some("x")), ConfigError::MissingAddr);
    assert_eq!(fault(Some("80"), Some("a"), None, Some("x")), ConfigError::MissingDbUrl);
    assert_eq!(fault(Some("80"), Some("a"), Some("b"), Some("x")), ConfigError::BadPoolSize);
    assert_eq!(fault(Some("80"), Some("a"), Some("b"), Some("-1")), ConfigError::BadPoolSize);
}

#[test]
fn faults_name_their_cause() {
    assert_eq!(ConfigError::MissingPort.cause(), "SERVER_PORT not found in .env");
    assert_eq!(ConfigError::BadPort.cause(), "Wrong value for SERVER_PORT");
    assert_eq!(ConfigError::MissingAddr.cause(), "SERVER_ADDR not found in .env");
    assert_eq!(ConfigError::MissingDbUrl.cause(), "DATABASE_URL not found in .env");
    assert_eq!(ConfigError::BadPoolSize.cause(), "wrong POOL_SIZE provided in .env");
}

#[test]
fn numbers_are_read_as_the_standard_library_reads_them() {
    for text in [
        "0", "7", "10", "007", "+5", "+0", "65535", "65536", "4294967295", "4294967296",
        "99999999999999999999999", "", "+", "-", "-0", "-5", "++5", "+-5", "5+", " 5", "5 ",
        "1_000",
        "0x10", "1e3", "12a", "a12", "\u{661}\u{662}", "1\u{a0}", "٣",
    ] {
        assert_eq!(parse_number(text, u32::MAX), text.parse::<u32>().ok(), "{:?} as u32", text);
        assert_eq!(
            parse_number(text, 65535),
            text.parse::<u16>().ok().map(u32::from),
            "{:?} as u16",
            text
        );
    }
    assert_eq!(parse_number("11", 10), None);
    assert_eq!(parse_number("10", 10), Some(10));
    assert_eq!(parse_number("0", 0), Some(0));
    assert_eq!(parse_number("1", 0), None);
}

#[test]
fn numbers_are_written_in_decimal() {
    for number in [0i64, 1, 9, 10, 11, 99, 100, 101, 12345, 1_000_000, i32::MAX as i64, i64::MAX] {
        let mut text = String::from("n=");
        push_decimal(&mut text, number);
        assert_eq!(text, format!("n={}", number));
    }
}

#[test]
fn banner_names_address_and_port() {
    let config = Config::new(8080, "127.0.0.1".to_owned(), "postgres://db".to_owned(), 4);
    assert_eq!(
        server_banner(&config),
        vec![
            "",
            "//////////////////////////////////////",
            "// Server running on 127.0.0.1:8080 //",
            "//////////////////////////////////////",
        ]
    );
    let other = Config::new(0, "localhost".to_owned(), String::new(), 1);
    assert_eq!(server_banner(&other)[2], "// Server running on localhost:0 //");
    let high = Config::new(65535, "::1".to_owned(), String::new(), 1);
    assert_eq!(server_banner(&high)[2], "// Server running on ::1:65535 //");
}
