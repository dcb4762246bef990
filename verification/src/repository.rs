//! Reporting what a repository clone came to.

use vstd::prelude::*;
use vstd::string::*;

verus! {

/// The report of a clone to `path` that left a working directory at
/// `workdir`.
pub open spec fn cloned_text(path: Seq<char>, workdir: Seq<char>) -> Seq<char> {
    "Successfully cloned repository to "@ + path + " (Working directory: "@ + workdir + ")"@
}

/// The report of a clone, given what the clone returned: the working
/// directory of the new repository (none for a bare one), or the error in
/// words.
pub open spec fn clone_outcome(path: Seq<char>, cloned: Result<Option<Seq<char>>, Seq<char>>)
    -> Result<Seq<char>, Seq<char>> {
    match cloned {
        Ok(Some(workdir)) => Ok(cloned_text(path, workdir)),
        Ok(None) => Err("Could not get repository working directory"@),
        Err(detail) => Err("Failed to clone repository: "@ + detail),
    }
}

/// The texts of what a clone returned.
pub open spec fn cloned_view(cloned: Result<Option<String>, String>) -> Result<
    Option<Seq<char>>,
    Seq<char>,
> {
    match cloned {
        Ok(Some(workdir)) => Ok(Some(workdir@)),
        Ok(None) => Ok(None),
        Err(detail) => Err(detail@),
    }
}

/// The texts of a report.
pub open spec fn report_view(report: Result<String, String>) -> Result<Seq<char>, Seq<char>> {
    match report {
        Ok(text) => Ok(text@),
        Err(text) => Err(text@),
    }
}

/// Reports a clone to `path`: success names the destination and the working
/// directory; a repository without working directory and a failed clone are
/// errors, the latter with the collaborator's words after a fixed prefix.
pub fn clone_report(path: &str, cloned: Result<Option<String>, String>) -> (report: Result<
    String,
    String,
>)
    ensures
        report_view(report) == clone_outcome(path@, cloned_view(cloned)),
{
    match cloned {
        Ok(Some(workdir)) => {
            let mut text = String::from_str("Successfully cloned repository to ");
            text.append(path);
            text.append(" (Working directory: ");
            text.append(workdir.as_str());
            text.append(")");
            Ok(text)
        },
        Ok(None) => Err(String::from_str("Could not get repository working directory")),
        Err(detail) => {
            let mut text = String::from_str("Failed to clone repository: ");
            text.append(detail.as_str());
            Err(text)
        },
    }
}

} // verus!
