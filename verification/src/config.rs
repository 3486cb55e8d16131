//! What the command line and the environment settle before either side runs.

use crate::decimal::{decimal_text, parse_u16, parse_unsigned, write_decimal};
use crate::listener::DEFAULT_SERVER_PORT;
use vstd::prelude::*;
use vstd::string::StringExecFns;

verus! {

/// What the program is to do.
#[derive(Debug)]
pub enum Mode {
    /// Listen on this port and run what arrives.
    Server { port: u16 },
    /// Send this command line to a server and relay the reply.
    Client { command: String },
    /// Neither was asked for: say how the program is used.
    Usage,
}

/// The mode that the arguments ask for. The server flag and the server
/// subcommand both ask for a server, the subcommand bringing its port; a
/// command asks for a client only where no server was asked for.
pub open spec fn mode_of(
    server_flag: bool,
    server_port: Option<u16>,
    command: Option<String>,
) -> Mode {
    match server_port {
        Some(port) => Mode::Server { port },
        None => if server_flag {
            Mode::Server { port: DEFAULT_SERVER_PORT }
        } else {
            match command {
                Some(command) => Mode::Client { command },
                None => Mode::Usage,
            }
        },
    }
}

/// Picks the mode. `server_port` is the port of the server subcommand, if
/// that was given.
pub fn select_mode(server_flag: bool, server_port: Option<u16>, command: Option<String>) -> (mode:
    Mode)
    ensures
        mode == mode_of(server_flag, server_port, command),
{
    match server_port {
        Some(port) => Mode::Server { port },
        None => {
            if server_flag {
                Mode::Server { port: DEFAULT_SERVER_PORT }
            } else {
                match command {
                    Some(command) => Mode::Client { command },
                    None => Mode::Usage,
                }
            }
        },
    }
}

/// The port to listen on: the configured one where the configuration names
/// a port, and the chosen one where it names none or nothing that reads as
/// a port.
pub open spec fn listen_port_of(configured: Option<Seq<char>>, chosen: u16) -> u16 {
    match configured {
        Some(text) => match parse_unsigned(text, u16::MAX as nat) {
            Some(port) => port as u16,
            None => chosen,
        },
        None => chosen,
    }
}

/// The port a server listens on.
pub fn listen_port(configured: Option<&str>, chosen: u16) -> (port: u16)
    ensures
        port == listen_port_of(
            match configured {
                Some(text) => Some(text@),
                None => None,
            },
            chosen,
        ),
{
    match configured {
        Some(text) => match parse_u16(text) {
            Some(port) => port,
            None => chosen,
        },
        None => chosen,
    }
}

/// The address a server binds: every interface, and the port.
pub fn listen_address(port: u16) -> (address: String)
    ensures
        address@ == "0.0.0.0:"@ + decimal_text(port as nat),
{
    let mut address = String::from_str("0.0.0.0:");
    let number = write_decimal(port as u32);
    address.append(number.as_str());
    address
}

/// The address a client connects to: this machine, and the configured port
/// as it is written, or the port that the server's is forwarded to where
/// none is configured.
pub fn target_address(configured: Option<&str>) -> (address: String)
    ensures
        address@ == "127.0.0.1:"@ + match configured {
            Some(text) => text@,
            None => "47330"@,
        },
{
    let mut address = String::from_str("127.0.0.1:");
    match configured {
        Some(text) => {
            address.append(text);
        },
        None => {
            address.append("47330");
        },
    }
    address
}

} // verus!
