//! The PID file: a persisted slot holding the decimal encoding of the
//! supervised child's process id.
//!
//! The `Pid` value mirrors what the file on disk holds: `None` models an
//! absent file, `Some(text)` a file with exactly that text. The caller that
//! owns the real file seeds the mirror from disk and persists it after every
//! mutation.

use crate::error::SupervisorError;
use crate::text::dec_string;
use crate::text::parse_decimal_u32;
use crate::text::spec_parse_u32;
use crate::text::u64_to_string;
use crate::text::lemma_parse_dec_roundtrip;
use vstd::prelude::*;

verus! {

/// The mirrored file: its path, and its contents if it exists.
pub struct PidModel {
    pub path: Seq<char>,
    pub contents: Option<Seq<char>>,
}

/// What reading the mirrored file yields: nothing if the file is absent, the
/// decimal value if its text parses, and a corruption error otherwise.
pub open spec fn spec_read(contents: Option<Seq<char>>) -> Result<Option<u32>, SupervisorError> {
    match contents {
        None => Ok(None),
        Some(s) => match spec_parse_u32(s) {
            Some(p) => Ok(Some(p)),
            None => Err(SupervisorError::OnDiskCorruption),
        },
    }
}

pub struct Pid {
    path: String,
    contents: Option<String>,
}

impl View for Pid {
    type V = PidModel;

    closed spec fn view(&self) -> PidModel {
        PidModel {
            path: self.path@,
            contents: match self.contents {
                None => None,
                Some(ref s) => Some(s@),
            },
        }
    }
}

impl Pid {
    /// A slot whose file does not exist yet.
    pub fn new(path: String) -> (r: Pid)
        ensures
            r@.path == path@,
            r@.contents is None,
    {
        Pid { path, contents: None }
    }

    /// A slot mirroring a file already on disk: `None` for an absent file,
    /// `Some(text)` for a file holding `text`.
    pub fn with_contents(path: String, contents: Option<String>) -> (r: Pid)
        ensures
            r@.path == path@,
            contents matches Some(s) ==> r@.contents == Some(s@),
            contents is None ==> r@.contents is None,
    {
        Pid { path, contents }
    }

    /// Reads the published PID, exactly as `spec_read` describes.
    pub fn read(&self) -> (r: Result<Option<u32>, SupervisorError>)
        ensures
            r == spec_read(self@.contents),
    {
        match &self.contents {
            None => Ok(None),
            Some(s) => match parse_decimal_u32(s.as_str()) {
                Some(p) => Ok(Some(p)),
                None => Err(SupervisorError::OnDiskCorruption),
            },
        }
    }

    /// Publishes `pid`: the file now holds its decimal encoding.
    pub fn update(&mut self, pid: u32)
        ensures
            final(self)@.path == old(self)@.path,
            final(self)@.contents == Some(dec_string(pid as nat)),
    {
        self.contents = Some(u64_to_string(pid as u64));
    }

    /// Clears the slot to the explicit sentinel: the file now holds `0`.
    pub fn reset(&mut self)
        ensures
            final(self)@.path == old(self)@.path,
            final(self)@.contents == Some(dec_string(0)),
    {
        self.contents = Some(u64_to_string(0));
    }

    /// Removes the file, whether or not it existed.
    pub fn delete(&mut self)
        ensures
            final(self)@.path == old(self)@.path,
            final(self)@.contents is None,
    {
        self.contents = None;
    }

    /// The mirrored file contents, for the owner of the real file to persist.
    pub fn contents(&self) -> (r: &Option<String>)
        ensures
            r is Some <==> self@.contents is Some,
            r matches Some(s) ==> self@.contents == Some(s@),
    {
        &self.contents
    }

    pub fn path(&self) -> (r: &String)
        ensures
            r@ == self@.path,
    {
        &self.path
    }
}

/// A pid file updated with `p` reads back as exactly `Some(p)`.
pub proof fn lemma_update_then_read(p: u32)
    ensures
        spec_read(Some(dec_string(p as nat))) == Ok::<Option<u32>, SupervisorError>(Some(p)),
{
    lemma_parse_dec_roundtrip(p);
}

/// A reset pid file still exists and reads back as zero.
pub proof fn lemma_reset_then_read()
    ensures
        spec_read(Some(dec_string(0))) == Ok::<Option<u32>, SupervisorError>(Some(0u32)),
{
    lemma_parse_dec_roundtrip(0);
}

} // verus!

