//! A credential store that saves the credentials in a plaintext JSON file.

use vstd::prelude::*;

verus! {

/// A credential store that saves the credentials in a plaintext JSON file.
///
/// The record is read from and written to the file by the driver; this type
/// holds where the file is.
#[derive(Debug, Clone)]
pub struct PlaintextCredStore {
    filename: String,
}

impl PlaintextCredStore {
    /// The path of the credentials file.
    pub closed spec fn spec_filename(&self) -> Seq<char> {
        self.filename@
    }

    /// Creates a new plaintext credential store with the given filename.
    ///
    /// Use different paths for different Montrose accounts.
    pub fn new(filename: String) -> (s: Self)
        ensures
            s.spec_filename() == filename@,
    {
        PlaintextCredStore { filename }
    }

    /// The path of the credentials file.
    pub fn filename(&self) -> (f: &str)
        ensures
            f@ == self.spec_filename(),
    {
        self.filename.as_str()
    }
}

} // verus!
