//! What can go wrong in one run, and how each failure reads to the user.

use vstd::prelude::*;
use vstd::string::*;

use crate::roles::{role_name, role_name_at, ROLE_COUNT};

verus! {

/// Why a path was turned down as an image.
#[derive(Clone, Copy, Debug, PartialEq, Eq, Structural)]
pub enum PathFault {
    /// The path names a directory.
    Directory,
    /// Nothing exists at the path.
    Missing,
    /// The file's extension is not one of an image format that is read.
    Extension,
}

/// A failure of a run.
///
/// The library itself reports `InvalidArgument`, `NotAnImage`,
/// `UnreadablePath` and `MissingRole`. The other kinds come up where the
/// caller decodes the image, writes the files and signals the status bar;
/// they are here so that every failure is reported in one vocabulary.
#[derive(Clone, Copy, Debug, PartialEq, Eq, Structural)]
pub enum ThemeError {
    /// No image path was given.
    InvalidArgument,
    /// The path does not lead to an image file.
    NotAnImage(PathFault),
    /// The path has no extension to tell its format by.
    UnreadablePath,
    /// The image file could not be decoded.
    DecodeFailure,
    /// No theme could be derived from the source colour.
    GenerationFailure,
    /// The scheme has no entry for the role at this index of the table.
    MissingRole(usize),
    /// An output file could not be written.
    WriteFailure,
    /// The status bar could not be told to reload.
    SignalFailure,
}

impl ThemeError {
    /// The text that reports this failure.
    pub open spec fn message_text(self) -> Seq<char> {
        match self {
            ThemeError::InvalidArgument => "no image path was given"@,
            ThemeError::NotAnImage(PathFault::Directory) => "the given path is a directory"@,
            ThemeError::NotAnImage(PathFault::Missing) => "the given path does not exist"@,
            ThemeError::NotAnImage(PathFault::Extension) => "not an image"@,
            ThemeError::UnreadablePath =>
                "couldn't parse file extension, is either empty or something else happened"@,
            ThemeError::DecodeFailure => "failed to read image"@,
            ThemeError::GenerationFailure => "failed to generate the theme"@,
            ThemeError::MissingRole(index) => if index < ROLE_COUNT {
                "the scheme has no color for role "@ + role_name_at(index as int)
            } else {
                "the scheme has no color for a role"@
            },
            ThemeError::WriteFailure => "failed to write file"@,
            ThemeError::SignalFailure => "error while restarting Waybar"@,
        }
    }

    /// The text that reports this failure.
    pub fn message(&self) -> (text: String)
        ensures
            text@ == self.message_text(),
    {
        match *self {
            ThemeError::InvalidArgument => String::from_str("no image path was given"),
            ThemeError::NotAnImage(PathFault::Directory) => String::from_str(
                "the given path is a directory",
            ),
            ThemeError::NotAnImage(PathFault::Missing) => String::from_str(
                "the given path does not exist",
            ),
            ThemeError::NotAnImage(PathFault::Extension) => String::from_str("not an image"),
            ThemeError::UnreadablePath => String::from_str(
                "couldn't parse file extension, is either empty or something else happened",
            ),
            ThemeError::DecodeFailure => String::from_str("failed to read image"),
            ThemeError::GenerationFailure => String::from_str("failed to generate the theme"),
            ThemeError::MissingRole(index) => {
                if index < ROLE_COUNT {
                    let mut text = String::from_str("the scheme has no color for role ");
                    text.append(role_name(index));
                    text
                } else {
                    String::from_str("the scheme has no color for a role")
                }
            },
            ThemeError::WriteFailure => String::from_str("failed to write file"),
            ThemeError::SignalFailure => String::from_str("error while restarting Waybar"),
        }
    }
}

} // verus!
