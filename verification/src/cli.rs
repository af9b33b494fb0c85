//! The command-line surface of the supervisor driver: one command per stdin
//! line, dispatched to the controller.
//!
//! Recognised lines: `shutdown`, `reload`,
//! `create_service <name> <svc_port> <host_addr> <host_port>`, `backup`;
//! anything else is reported back as unknown. A `create_service` line with
//! missing arguments or unparseable ports is the driver's fatal input.

use crate::configuration::HiddenService;
use crate::configuration::HiddenServiceModel;
use crate::text::spec_parse_u32;
use crate::text::parse_decimal_u32;
use crate::text::split_spaces;
use crate::text::split_spaces_spec;
use crate::text::lemma_split_spaces_len;
use vstd::prelude::*;
use vstd::string::*;

verus! {

pub enum CliCommandModel {
    Shutdown,
    Reload,
    CreateService { service: HiddenServiceModel },
    Backup,
    Unknown { line: Seq<char> },
}

/// One parsed command line.
pub enum CliCommand {
    Shutdown,
    Reload,
    CreateService { service: HiddenService },
    Backup,
    Unknown { line: String },
}

impl View for CliCommand {
    type V = CliCommandModel;

    open spec fn view(&self) -> CliCommandModel {
        match self {
            CliCommand::Shutdown => CliCommandModel::Shutdown,
            CliCommand::Reload => CliCommandModel::Reload,
            CliCommand::CreateService { service } => CliCommandModel::CreateService {
                service: service@,
            },
            CliCommand::Backup => CliCommandModel::Backup,
            CliCommand::Unknown { line } => CliCommandModel::Unknown { line: line@ },
        }
    }
}

/// A port number: a decimal string whose value fits in a `u16`.
pub open spec fn spec_parse_port(s: Seq<char>) -> Option<u16> {
    match spec_parse_u32(s) {
        Some(v) => if v <= 0xffff {
            Some(v as u16)
        } else {
            None
        },
        None => None,
    }
}

/// How a command line is understood: the first space-separated word selects
/// the command. `create_service` needs four further words with both ports
/// parsing as `u16`; `None` marks such a line that is malformed, which the
/// driver treats as fatal. Extra words after a complete command are ignored,
/// and any unrecognised first word yields `Unknown` with the whole line.
pub open spec fn parse_command_model(line: Seq<char>) -> Option<CliCommandModel> {
    let tokens = split_spaces_spec(line);
    if tokens[0] == "shutdown"@ {
        Some(CliCommandModel::Shutdown)
    } else if tokens[0] == "reload"@ {
        Some(CliCommandModel::Reload)
    } else if tokens[0] == "backup"@ {
        Some(CliCommandModel::Backup)
    } else if tokens[0] == "create_service"@ {
        if tokens.len() >= 5 {
            match (spec_parse_port(tokens[2]), spec_parse_port(tokens[4])) {
                (Some(service_port), Some(host_port)) => Some(
                    CliCommandModel::CreateService {
                        service: HiddenServiceModel {
                            service_name: tokens[1],
                            service_port,
                            host_address: tokens[3],
                            host_port,
                        },
                    },
                ),
                _ => None,
            }
        } else {
            None
        }
    } else {
        Some(CliCommandModel::Unknown { line })
    }
}

fn parse_port(s: &str) -> (r: Option<u16>)
    ensures
        r == spec_parse_port(s@),
{
    match parse_decimal_u32(s) {
        Some(v) => if v <= 0xffff {
            Some(v as u16)
        } else {
            None
        },
        None => None,
    }
}

/// Parses one stdin line, exactly as `parse_command_model` describes.
pub fn parse_command_line(line: &str) -> (r: Option<CliCommand>)
    ensures
        r matches Some(c) ==> parse_command_model(line@) == Some(c@),
        r is None ==> parse_command_model(line@) is None,
{
    proof {
        lemma_split_spaces_len(line@);
    }
    let tokens = split_spaces(line);
    let ghost token_views = split_spaces_spec(line@);
    proof {
        assert(tokens.deep_view() == token_views);
        assert(tokens@.len() == token_views.len());
        assert(tokens@[0]@ == token_views[0]);
    }
    let command = &tokens[0];
    if *command == "shutdown".to_owned() {
        Some(CliCommand::Shutdown)
    } else if *command == "reload".to_owned() {
        Some(CliCommand::Reload)
    } else if *command == "backup".to_owned() {
        Some(CliCommand::Backup)
    } else if *command == "create_service".to_owned() {
        if tokens.len() < 5 {
            return None;
        }
        proof {
            assert(tokens@[1]@ == token_views[1]);
            assert(tokens@[2]@ == token_views[2]);
            assert(tokens@[3]@ == token_views[3]);
            assert(tokens@[4]@ == token_views[4]);
        }
        let service_port = match parse_port(tokens[2].as_str()) {
            Some(p) => p,
            None => {
                return None;
            },
        };
        let host_port = match parse_port(tokens[4].as_str()) {
            Some(p) => p,
            None => {
                return None;
            },
        };
        let service = HiddenService {
            service_name: tokens[1].clone(),
            service_port,
            host_address: tokens[3].clone(),
            host_port,
        };
        Some(CliCommand::CreateService { service })
    } else {
        Some(CliCommand::Unknown { line: line.to_owned() })
    }
}

/// The platform launch line of the driver: the production Tor binary, or the
/// scripted stub used for integration runs.
pub fn create_command(use_stub: bool) -> (r: (&'static str, bool))
    ensures
        !use_stub ==> r.0@ == "tor"@ && r.1 == false,
        use_stub ==> r.0@ == "./target/debug/tor-stub"@ && r.1 == false,
{
    if use_stub {
        ("./target/debug/tor-stub", false)
    } else {
        ("tor", false)
    }
}

} // verus!
