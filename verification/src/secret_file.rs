//! Secret files held in hidden service directories: an opaque byte payload
//! under a relative path. No textual rendering ever exposes the payload.

use crate::text::dec_string;
use crate::text::u64_to_string;
use vstd::prelude::*;
use vstd::string::*;

verus! {

/// What a secret file is mathematically: a path and a byte payload.
pub struct SecretFileModel {
    pub path: Seq<char>,
    pub contents: Seq<u8>,
}

/// The path forms this supervisor accepts for a secret file: non-empty and
/// not absolute.
pub open spec fn is_valid_relative_path(p: Seq<char>) -> bool {
    p.len() > 0 && p[0] != '/'
}

pub struct SecretFile {
    relative_path: String,
    contents: Vec<u8>,
}

impl View for SecretFile {
    type V = SecretFileModel;

    closed spec fn view(&self) -> SecretFileModel {
        SecretFileModel { path: self.relative_path@, contents: self.contents@ }
    }
}

impl DeepView for SecretFile {
    type V = SecretFileModel;

    open spec fn deep_view(&self) -> SecretFileModel {
        self.view()
    }
}

impl SecretFile {
    pub open spec fn wf(&self) -> bool {
        is_valid_relative_path(self@.path)
    }

    /// Accepts exactly the valid relative paths and preserves path and
    /// contents; an absolute or empty path is rejected.
    pub fn from(relative_path: String, contents: Vec<u8>) -> (r: Result<SecretFile, ()>)
        ensures
            r is Ok <==> is_valid_relative_path(relative_path@),
            r matches Ok(f) ==> f@.path == relative_path@ && f@.contents == contents@ && f.wf(),
    {
        if relative_path.as_str().unicode_len() == 0 {
            return Err(());
        }
        if relative_path.as_str().get_char(0) == '/' {
            return Err(());
        }
        Ok(SecretFile { relative_path, contents })
    }

    pub fn relative_path(&self) -> (r: &String)
        ensures
            r@ == self@.path,
    {
        &self.relative_path
    }

    pub fn contents(&self) -> (r: &Vec<u8>)
        ensures
            r@ == self@.contents,
    {
        &self.contents
    }

    /// The human-readable form: name and byte count only, never the payload.
    pub fn display_string(&self) -> (r: String)
        ensures
            r@ == self@.path + " ("@ + dec_string(self@.contents.len()) + " bytes)"@,
    {
        let mut r = self.relative_path.clone();
        r.append(" (");
        let digits = u64_to_string(self.contents.len() as u64);
        r.append(digits.as_str());
        r.append(" bytes)");
        r
    }
}

} // verus!
