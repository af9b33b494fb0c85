//! The deployment environment selector read from the process configuration.

use crate::text::lower_char;
use crate::text::to_ascii_lowercase_string;
use vstd::prelude::*;
use vstd::string::*;

verus! {

#[derive(Debug, Clone, Copy, PartialEq, Eq, Structural)]
pub enum Environment {
    Local,
    Production,
}

/// ASCII case folding of a whole string.
pub open spec fn folded(s: Seq<char>) -> Seq<char> {
    s.map_values(|c: char| lower_char(c))
}

impl Environment {
    pub fn as_str(&self) -> (r: &str)
        ensures
            *self is Local ==> r@ == "local"@,
            *self is Production ==> r@ == "production"@,
    {
        match self {
            Environment::Local => "local",
            Environment::Production => "production",
        }
    }

    /// Recognises an environment name, ignoring ASCII case; any other value
    /// is rejected with a diagnostic built from the folded input.
    pub fn try_from(value: String) -> (r: Result<Environment, String>)
        ensures
            folded(value@) == "local"@ ==> r == Ok::<Environment, String>(Environment::Local),
            folded(value@) == "production"@ ==> r == Ok::<Environment, String>(
                Environment::Production,
            ),
            folded(value@) != "local"@ && folded(value@) != "production"@ ==> (r matches Err(e)
                && e@ == folded(value@)
                + " is not a supported environment. Use either `local` or `production`."@),
    {
        let lower = to_ascii_lowercase_string(value.as_str());
        proof {
            reveal_strlit("local");
            reveal_strlit("production");
            assert(lower@ =~= folded(value@));
        }
        if lower == "local".to_owned() {
            Ok(Environment::Local)
        } else if lower == "production".to_owned() {
            Ok(Environment::Production)
        } else {
            Err(lower.concat(" is not a supported environment. Use either `local` or `production`."))
        }
    }
}

} // verus!
