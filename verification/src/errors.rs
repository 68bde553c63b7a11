//! Errors of looking up the running program's name.

use vstd::prelude::*;
use vstd::string::to_string_from_display_ensures;

verus! {

/// `std::io::Error`, carried through as an opaque value.
#[verifier::external_type_specification]
#[verifier::external_body]
pub struct ExIoError(std::io::Error);

/// Why the program's name could not be found.
#[derive(Debug)]
pub enum ProgError {
    /// The executable's path has no file name.
    NoFile,
    /// The file name is not valid UTF-8.
    NotUtf8,
    /// Reading the executable's path failed.
    Io(std::io::Error),
}

impl ProgError {
    /// The error's text: a fixed sentence, or for an I/O error "IO error: "
    /// followed by that error's own text.
    pub fn describe(&self) -> (text: String)
        ensures
            match self {
                ProgError::NoFile => text@ == "no file found"@,
                ProgError::NotUtf8 => text@ == "content is not valid UTF-8"@,
                ProgError::Io(err) => exists|err_text: String|
                    #![trigger to_string_from_display_ensures::<std::io::Error>(err, err_text)]
                    to_string_from_display_ensures::<std::io::Error>(err, err_text) && text@
                        == "IO error: "@ + err_text@,
            },
    {
        match self {
            ProgError::NoFile => String::from_str("no file found"),
            ProgError::NotUtf8 => String::from_str("content is not valid UTF-8"),
            ProgError::Io(err) => {
                let err_text: String = err.to_string();
                let mut text: String = String::from_str("IO error: ");
                text.append(err_text.as_str());
                text
            },
        }
    }

    /// The I/O error behind this error, if there is one.
    pub fn source(&self) -> (cause: Option<&std::io::Error>)
        ensures
            match self {
                ProgError::Io(err) => cause == Some(err),
                _ => cause is None,
            },
    {
        match self {
            ProgError::Io(err) => Some(err),
            _ => None,
        }
    }
}

/// The program's name, from what looking up the running executable gave:
/// the error of reading the executable's path; or, for a path, its file name
/// if it has one, as a string if that file name is valid UTF-8. A failed
/// read is an I/O error, a path without file name `NoFile`, a file name that
/// is not UTF-8 `NotUtf8`; otherwise the name is the file name.
pub fn get_program_name(exe_file_name: Result<Option<Option<String>>, std::io::Error>) -> (name:
    Result<String, ProgError>)
    ensures
        match exe_file_name {
            Err(err) => name == Err::<String, ProgError>(ProgError::Io(err)),
            Ok(None) => name == Err::<String, ProgError>(ProgError::NoFile),
            Ok(Some(None)) => name == Err::<String, ProgError>(ProgError::NotUtf8),
            Ok(Some(Some(file_name))) => name == Ok::<String, ProgError>(file_name),
        },
{
    match exe_file_name {
        Err(err) => Err(ProgError::Io(err)),
        Ok(None) => Err(ProgError::NoFile),
        Ok(Some(None)) => Err(ProgError::NotUtf8),
        Ok(Some(Some(file_name))) => Ok(file_name),
    }
}

impl From<std::io::Error> for ProgError {
    fn from(err: std::io::Error) -> (converted: ProgError) {
        ProgError::Io(err)
    }
}

impl vstd::std_specs::convert::FromSpecImpl<std::io::Error> for ProgError {
    open spec fn obeys_from_spec() -> bool {
        true
    }

    open spec fn from_spec(err: std::io::Error) -> ProgError {
        ProgError::Io(err)
    }
}

} // verus!
