//! The decisions inside the file operations: what a closed dialog, a finished
//! read and a finished write turn into, and where a save writes.
use vstd::prelude::*;
use crate::error::Error;

verus! {

/// Where a save goes first.
#[derive(Debug, PartialEq, Eq)]
pub enum SaveStep {
    /// Write the text to this path, with no dialog.
    Write(String),
    /// Ask the user for a destination, then write there.
    ChooseDestination,
}

/// The default document: `src/main.rs` under the given directory.
pub open spec fn default_file_spec(base: Seq<char>) -> Seq<char> {
    base + "/src/main.rs"@
}

/// The document that is opened at startup, under the given base directory.
pub fn default_file(base: &str) -> (r: String)
    ensures
        r@ == default_file_spec(base@),
{
    let mut r = String::from_str(base);
    r.append("/src/main.rs");
    r
}

/// What a file dialog's outcome becomes: the chosen path, or `DialogClosed`
/// when the user closed it without choosing.
pub open spec fn chosen_spec(choice: Option<String>) -> Result<String, Error> {
    match choice {
        Some(p) => Ok(p),
        None => Err(Error::DialogClosed),
    }
}

/// Turns the outcome of an open or a save dialog into a path or an error.
pub fn chosen(choice: Option<String>) -> (r: Result<String, Error>)
    ensures
        r == chosen_spec(choice),
{
    match choice {
        Some(p) => Ok(p),
        None => Err(Error::DialogClosed),
    }
}

/// What a finished read of `path` becomes: the path with the text, or the
/// kind of the failure.
pub open spec fn read_finished_spec(
    path: String,
    result: Result<String, std::io::ErrorKind>,
) -> Result<(String, String), Error> {
    match result {
        Ok(t) => Ok((path, t)),
        Err(k) => Err(Error::IO(k)),
    }
}

/// Turns the result of reading `path` into the result that the open reports.
pub fn read_finished(path: String, result: Result<String, std::io::ErrorKind>) -> (r: Result<
    (String, String),
    Error,
>)
    ensures
        r == read_finished_spec(path, result),
{
    match result {
        Ok(t) => Ok((path, t)),
        Err(k) => Err(Error::IO(k)),
    }
}

/// Where a save of a document with the given path writes: to that path, or
/// first to a dialog when the document has none.
pub open spec fn save_target_spec(path: Option<String>) -> SaveStep {
    match path {
        Some(p) => SaveStep::Write(p),
        None => SaveStep::ChooseDestination,
    }
}

/// Decides where a save writes.
pub fn save_target(path: Option<String>) -> (r: SaveStep)
    ensures
        r == save_target_spec(path),
{
    match path {
        Some(p) => SaveStep::Write(p),
        None => SaveStep::ChooseDestination,
    }
}

/// What a finished write to `path` becomes: the path, or the kind of the
/// failure.
pub open spec fn write_finished_spec(
    path: String,
    result: Result<(), std::io::ErrorKind>,
) -> Result<String, Error> {
    match result {
        Ok(_) => Ok(path),
        Err(k) => Err(Error::IO(k)),
    }
}

/// Turns the result of writing `path` into the result that the save reports.
pub fn write_finished(path: String, result: Result<(), std::io::ErrorKind>) -> (r: Result<
    String,
    Error,
>)
    ensures
        r == write_finished_spec(path, result),
{
    match result {
        Ok(_) => Ok(path),
        Err(k) => Err(Error::IO(k)),
    }
}

/// The outcome of a whole open: the user's choice in the dialog, then the
/// read of the chosen file.
pub open spec fn open_result(
    choice: Option<String>,
    read: Result<String, std::io::ErrorKind>,
) -> Result<(String, String), Error> {
    match chosen_spec(choice) {
        Ok(p) => read_finished_spec(p, read),
        Err(x) => Err(x),
    }
}

/// The outcome of a whole save of a document with path `path`: the dialog,
/// where the document has no path, then the write.
pub open spec fn save_result(
    path: Option<String>,
    choice: Option<String>,
    write: Result<(), std::io::ErrorKind>,
) -> Result<String, Error> {
    match save_target_spec(path) {
        SaveStep::Write(p) => write_finished_spec(p, write),
        SaveStep::ChooseDestination => match chosen_spec(choice) {
            Ok(p) => write_finished_spec(p, write),
            Err(x) => Err(x),
        },
    }
}

} // verus!
