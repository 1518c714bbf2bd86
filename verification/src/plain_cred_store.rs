//! A credential store that saves the credentials in a plaintext JSON file in
//! the user's config directory.

use vstd::prelude::*;

verus! {

/// A credential store that saves the credentials in a plaintext JSON file,
/// `credentials.json` in the user's config directory.
///
/// The file is read and written by the driver; this type holds where it is.
#[derive(Debug, Clone)]
pub struct PlainCredStore {
    filename: String,
}

impl PlainCredStore {
    /// The path of the credentials file.
    pub closed spec fn spec_filename(&self) -> Seq<char> {
        self.filename@
    }

    /// A store for the credentials file at `filename`.
    pub fn new(filename: String) -> (s: Self)
        ensures
            s.spec_filename() == filename@,
    {
        PlainCredStore { filename }
    }

    /// The path of the credentials file.
    pub fn filename(&self) -> (f: &str)
        ensures
            f@ == self.spec_filename(),
    {
        self.filename.as_str()
    }
}

} // verus!
