//! The recipe for launching the supervised child. The supervisor runs the
//! program in a new session (`setsid`) so that a terminal interrupt delivered
//! to the supervisor's process group is not also delivered to the child, and
//! passes the torrc path with `-f`.

use crate::text::split_spaces;
use crate::text::split_spaces_spec;
use vstd::prelude::*;
use vstd::string::*;

verus! {

pub struct CommandModel {
    pub program: Seq<char>,
    pub no_window_support: bool,
    pub tor_rc: Seq<char>,
}

#[derive(Clone)]
pub struct Command {
    program: String,
    no_window_support: bool,
    tor_rc: String,
}

/// A ready-to-spawn child descriptor: the executable and its arguments.
pub struct SpawnRecipe {
    pub program: String,
    pub args: Vec<String>,
}

impl View for Command {
    type V = CommandModel;

    closed spec fn view(&self) -> CommandModel {
        CommandModel {
            program: self.program@,
            no_window_support: self.no_window_support,
            tor_rc: self.tor_rc@,
        }
    }
}

/// The argument list of the spawned child: the space-separated words of the
/// configured program line, then `-f <torrc-path>`.
pub open spec fn spawn_args(program: Seq<char>, tor_rc: Seq<char>) -> Seq<Seq<char>> {
    split_spaces_spec(program) + seq!["-f"@, tor_rc]
}

impl Command {
    /// Captures the launch recipe for the program at `program`, reading its
    /// configuration from `tor_rc`. `no_window_support` marks binaries built
    /// without console support; it only matters on platforms that launch
    /// through a shell wrapper, and is recorded here unchanged.
    pub fn new(program: &str, tor_rc: &str, no_window_support: bool) -> (r: Command)
        ensures
            r@.program == program@,
            r@.tor_rc == tor_rc@,
            r@.no_window_support == no_window_support,
    {
        Command { program: program.to_owned(), no_window_support, tor_rc: tor_rc.to_owned() }
    }

    /// Produces the spawn descriptor: `setsid` runs the program line in a new
    /// session, with `-f <torrc>` appended.
    pub fn create(&self) -> (r: SpawnRecipe)
        ensures
            r.program@ == "setsid"@,
            r.args.deep_view() == spawn_args(self@.program, self@.tor_rc),
    {
        let mut args = split_spaces(self.program.as_str());
        let ghost words = args.deep_view();
        args.push("-f".to_owned());
        let ghost with_flag = args.deep_view();
        proof {
            assert(with_flag =~= words.push("-f"@));
        }
        args.push(self.tor_rc.clone());
        proof {
            assert(args.deep_view() =~= with_flag.push(self@.tor_rc));
            assert(args.deep_view() =~= spawn_args(self@.program, self@.tor_rc));
        }
        SpawnRecipe { program: "setsid".to_owned(), args }
    }
}

} // verus!
