use crate::error::Error;
use vstd::prelude::*;

verus! {

/// What `std::str::from_utf8` makes of a byte sequence: the decoded text, or
/// `None` where the bytes are not valid UTF-8.
pub uninterp spec fn utf8_decoded(bytes: Seq<u8>) -> Option<Seq<char>>;

/// What `str::trim` leaves of a text: the text without leading and trailing
/// whitespace.
pub uninterp spec fn trimmed(text: Seq<char>) -> Seq<char>;

/// Relies on `std::str::from_utf8`: decodes the bytes when they are valid UTF-8.
#[verifier::external_body]
fn decode_utf8(bytes: &[u8]) -> (r: Result<&str, String>)
    ensures
        r matches Ok(text) ==> utf8_decoded(bytes@) == Some(text@),
        r is Err ==> utf8_decoded(bytes@) is None,
{
    std::str::from_utf8(bytes).map_err(|e| e.to_string())
}

/// Relies on `str::trim`: removes leading and trailing whitespace; an empty
/// text stays empty.
#[verifier::external_body]
fn trim_whitespace(text: &str) -> (r: &str)
    ensures
        r@ == trimmed(text@),
        text@.len() == 0 ==> r@.len() == 0,
{
    text.trim()
}

/// The trimmed text of a captured output stream, if it is valid UTF-8.
pub open spec fn output_text(bytes: Seq<u8>) -> Option<Seq<char>> {
    match utf8_decoded(bytes) {
        Some(t) => Some(trimmed(t)),
        None => None,
    }
}

/// Decodes and trims one captured output stream.
fn decode_output(bytes: &Vec<u8>) -> (r: Result<String, Error>)
    ensures
        r matches Ok(text) ==> output_text(bytes@) == Some(text@),
        r is Err ==> output_text(bytes@) is None && r matches Err(Error::Utf8 { .. }),
{
    match decode_utf8(bytes.as_slice()) {
        Ok(text) => Ok(trim_whitespace(text).to_owned()),
        Err(message) => Err(Error::Utf8 { message }),
    }
}

/// The result of one executed command: its exit code (`None` when it was
/// ended by a signal) and its captured output streams.
#[derive(Debug)]
pub struct CommandResult {
    pub code: Option<i32>,
    pub stdout: Vec<u8>,
    pub stderr: Vec<u8>,
}

impl CommandResult {
    /// A command succeeds when it exits with code 0.
    pub open spec fn spec_success(&self) -> bool {
        self.code == Some(0i32)
    }

    /// The exit code reported for a failed command; -1 when there is none.
    pub open spec fn spec_exit_code(&self) -> i32 {
        match self.code {
            Some(c) => c,
            None => -1i32,
        }
    }

    pub fn success(&self) -> (r: bool)
        ensures
            r == self.spec_success(),
    {
        match self.code {
            Some(c) => c == 0,
            None => false,
        }
    }

    pub fn exit_code(&self) -> (r: i32)
        ensures
            r == self.spec_exit_code(),
    {
        match self.code {
            Some(c) => c,
            None => -1,
        }
    }

    /// The captured standard error, decoded and trimmed.
    pub fn stderr(&self) -> (r: Result<String, Error>)
        ensures
            r matches Ok(text) ==> output_text(self.stderr@) == Some(text@),
            r is Err ==> output_text(self.stderr@) is None && r matches Err(Error::Utf8 { .. }),
    {
        decode_output(&self.stderr)
    }

    /// The captured standard output, decoded and trimmed.
    pub fn stdout(&self) -> (r: Result<String, Error>)
        ensures
            r matches Ok(text) ==> output_text(self.stdout@) == Some(text@),
            r is Err ==> output_text(self.stdout@) is None && r matches Err(Error::Utf8 { .. }),
    {
        decode_output(&self.stdout)
    }

    /// The message that reports this command's failure: its standard error,
    /// or a note that it could not be read.
    pub fn failure_message(&self) -> (r: String)
        ensures
            output_text(self.stderr@) matches Some(text) ==> r@ == text,
            output_text(self.stderr@) is None ==> exists|reason: Seq<char>|
                r@ == "Failed to read command error output: "@ + reason,
    {
        match self.stderr() {
            Ok(text) => text,
            Err(Error::Utf8 { message }) => {
                let prefix = String::from_str("Failed to read command error output: ");
                let full = prefix.concat(message.as_str());
                assert(full@ == "Failed to read command error output: "@ + message@);
                full
            },
            Err(_) => String::new(),
        }
    }
}

} // verus!
