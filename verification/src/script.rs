//! Which paths may be run or formatted: an existing regular file whose name
//! carries the language's extension.

use vstd::prelude::*;
use crate::text::{ends_with, has_suffix};

verus! {

/// The extension every script must carry: `.gl`.
pub open spec fn extension() -> Seq<char> {
    seq!['.', 'g', 'l']
}

/// What the file system says about a path.
#[derive(Clone, Copy, Debug, PartialEq, Eq, Structural)]
pub struct Probe {
    /// Something exists at the path.
    pub exists: bool,
    /// What exists there is a regular file.
    pub is_file: bool,
}

/// Why a path is turned away.
#[derive(Clone, Copy, Debug, PartialEq, Eq, Structural)]
pub enum Rejection {
    /// Nothing that can be opened as a file is at the path.
    NoSuchFile,
    /// The file is there, but its name does not end in `.gl`.
    WrongExtension,
}

/// The verdict on a path: a missing file is reported before a wrong
/// extension.
pub open spec fn verdict(filename: Seq<char>, probe: Probe) -> Result<(), Rejection> {
    if !(probe.exists && probe.is_file) {
        Err(Rejection::NoSuchFile)
    } else if !ends_with(filename, extension()) {
        Err(Rejection::WrongExtension)
    } else {
        Ok(())
    }
}

/// Decides whether the file at `filename` may be handed to the pipeline.
pub fn validate(filename: &str, probe: Probe) -> (result: Result<(), Rejection>)
    ensures
        result == verdict(filename@, probe),
{
    proof {
        reveal_strlit(".gl");
        assert(".gl"@ =~= extension());
    }
    if !(probe.exists && probe.is_file) {
        Err(Rejection::NoSuchFile)
    } else if !has_suffix(filename, ".gl") {
        Err(Rejection::WrongExtension)
    } else {
        Ok(())
    }
}

/// The line that tells the user why `filename` was turned away.
pub open spec fn complaint(rejection: Rejection, filename: Seq<char>) -> Seq<char> {
    match rejection {
        Rejection::NoSuchFile => "GL: Can't open file '"@ + filename + "': No such file"@,
        Rejection::WrongExtension =>
            "GL: Invalid file extension, expected file with extension '.gl'"@,
    }
}

/// Writes the line that tells the user why `filename` was turned away.
pub fn describe(rejection: Rejection, filename: &str) -> (line: String)
    ensures
        line@ == complaint(rejection, filename@),
{
    match rejection {
        Rejection::NoSuchFile => {
            let mut line = String::from_str("GL: Can't open file '");
            line.append(filename);
            line.append("': No such file");
            line
        },
        Rejection::WrongExtension => String::from_str(
            "GL: Invalid file extension, expected file with extension '.gl'",
        ),
    }
}

} // verus!
