//! Failure modes of an icon build.
//!
//! Every error terminates the build: there is no recovery path.  The
//! diagnostic text that accompanies each failure is part of the contract.

use vstd::prelude::*;
use vstd::string::*;

verus! {

/// Why an icon build failed.
#[derive(Debug)]
pub enum BuildError {
    /// A file in the custom icon folder does not end in `.svg`.
    NonIconFile { file_name: String },
    /// Two discovered icons share one name.
    DuplicateIcon { name: String },
    /// A requested icon was not found in any shipped icon directory.
    IconNotFound { name: String },
    /// The configuration names no icon folder and no fallback was given.
    MissingIconsFolder,
    /// Creating the archive data of one file failed.
    FileDataFailed,
    /// Serializing the resource archive failed.
    ArchiveFailed,
}

/// The diagnostic text that belongs to an error.
pub open spec fn error_message_spec(e: BuildError) -> Seq<char> {
    match e {
        BuildError::NonIconFile { file_name } => "Found non-icon file `"@ + file_name@ + "`"@,
        BuildError::DuplicateIcon { name } => "Icon with name `"@ + name@ + "` exists twice"@,
        BuildError::IconNotFound { name } => "Icon "@ + name@ + " not found in shipped icons"@,
        BuildError::MissingIconsFolder => "Could not find icons folder specified in config"@,
        BuildError::FileDataFailed => "Failed to create file data"@,
        BuildError::ArchiveFailed => "Failed to build resource bundle"@,
    }
}

impl BuildError {
    /// The diagnostic text of this error.
    pub fn message(&self) -> (r: String)
        ensures
            r@ == error_message_spec(*self),
    {
        match self {
            BuildError::NonIconFile { file_name } => {
                let mut s = String::from_str("Found non-icon file `");
                s.append(file_name.as_str());
                s.append("`");
                s
            },
            BuildError::DuplicateIcon { name } => {
                let mut s = String::from_str("Icon with name `");
                s.append(name.as_str());
                s.append("` exists twice");
                s
            },
            BuildError::IconNotFound { name } => {
                let mut s = String::from_str("Icon ");
                s.append(name.as_str());
                s.append(" not found in shipped icons");
                s
            },
            BuildError::MissingIconsFolder => {
                String::from_str("Could not find icons folder specified in config")
            },
            BuildError::FileDataFailed => String::from_str("Failed to create file data"),
            BuildError::ArchiveFailed => String::from_str("Failed to build resource bundle"),
        }
    }
}

} // verus!
