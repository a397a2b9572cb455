use vstd::prelude::*;

verus! {

/// Why an installation did not complete.
#[derive(Clone, Copy, Debug, PartialEq, Eq, Structural)]
pub enum InstallError {
    /// A connection could not be made, or a transfer failed.
    Network,
    /// A document was not well-formed JSON, or not of the expected shape.
    Parse,
    /// The requested version is not listed in the catalog.
    NotFound,
    /// A directory or file could not be created or written.
    Filesystem,
}

impl InstallError {
    /// The text shown for this error.
    pub open spec fn message_text(self) -> Seq<char> {
        match self {
            InstallError::Network => "Network request failed"@,
            InstallError::Parse => "Malformed document"@,
            InstallError::NotFound => "Version not found"@,
            InstallError::Filesystem => "File could not be written"@,
        }
    }

    /// A short description of the error, for display.
    pub fn message(&self) -> (text: String)
        ensures
            text@ == self.message_text(),
    {
        match self {
            InstallError::Network => "Network request failed".to_owned(),
            InstallError::Parse => "Malformed document".to_owned(),
            InstallError::NotFound => "Version not found".to_owned(),
            InstallError::Filesystem => "File could not be written".to_owned(),
        }
    }
}

} // verus!
