//! The lines that announce a running server.

use vstd::prelude::*;
use vstd::string::StringExecFns;
use crate::config::Config;
use crate::text::decimal;
use crate::text::push_decimal;

verus! {

/// The line that names the address and the port of the server.
pub open spec fn running_line(addr: Seq<char>, port: int) -> Seq<char> {
    "// Server running on "@ + addr + ":"@ + decimal(port) + " //"@
}

/// The lines to print once the server runs: an empty line, and the address
/// and port between two rules.
pub fn server_banner(config: &Config) -> (lines: Vec<String>)
    ensures
        lines@.len() == 4,
        lines@[0]@ == ""@,
        lines@[1]@ == "//////////////////////////////////////"@,
        lines@[2]@ == running_line(config@.server_addr, config@.server_port as int),
        lines@[3]@ == "//////////////////////////////////////"@,
{
    let mut announcement: String = String::from_str("// Server running on ");
    announcement.append(config.get_srv_addr());
    announcement.append(":");
    push_decimal(&mut announcement, *config.get_srv_port() as i64);
    announcement.append(" //");
    let mut lines: Vec<String> = Vec::new();
    lines.push(String::from_str(""));
    lines.push(String::from_str("//////////////////////////////////////"));
    lines.push(announcement);
    lines.push(String::from_str("//////////////////////////////////////"));
    lines
}

} // verus!
