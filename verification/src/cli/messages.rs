//! The texts that the command line builds from what it read.

use vstd::prelude::*;
use vstd::string::StringExecFns;
use crate::cli::error::CliError;
use crate::cli::error::CliErrorView;
use crate::text::signed_decimal;
use crate::text::signed_decimal_string;

verus! {

/// Why reading or writing a file failed, as far as the command line tells
/// the cases apart.
#[derive(Debug, Clone, Copy, PartialEq, Eq, Structural)]
pub enum IoErrorKind {
    NotFound,
    PermissionDenied,
    InvalidData,
    Other,
}

/// The words for a failed file operation.
pub open spec fn io_error_text(kind: IoErrorKind) -> Seq<char> {
    match kind {
        IoErrorKind::NotFound => "File not found"@,
        IoErrorKind::PermissionDenied => "Permission denied"@,
        IoErrorKind::InvalidData => "Invalid data"@,
        IoErrorKind::Other => "Unknown I/O error"@,
    }
}

/// The words in which the command line reports a failed file operation.
pub fn msg_from_io_error(kind: IoErrorKind) -> (message: String)
    ensures
        message@ == io_error_text(kind),
{
    match kind {
        IoErrorKind::NotFound => String::from_str("File not found"),
        IoErrorKind::PermissionDenied => String::from_str("Permission denied"),
        IoErrorKind::InvalidData => String::from_str("Invalid data"),
        IoErrorKind::Other => String::from_str("Unknown I/O error"),
    }
}

/// What was being done with a key file when it failed.
#[derive(Debug, Clone, Copy, PartialEq, Eq, Structural)]
pub enum KeyFileStep {
    Open,
    Read,
}

/// The message of the error for a key file that cannot be opened or read.
pub open spec fn key_file_message(
    step: KeyFileStep,
    file_name: Seq<char>,
    kind: IoErrorKind,
) -> Seq<char> {
    match step {
        KeyFileStep::Open => "Unable to open key file '"@ + file_name + "': "@ + io_error_text(
            kind,
        ),
        KeyFileStep::Read => "Unable to read key file '"@ + file_name + "': "@ + io_error_text(
            kind,
        ),
    }
}

/// The error for a key file that cannot be opened or read: which step
/// failed, on which file, and why.
pub fn key_file_error(step: KeyFileStep, file_name: &str, kind: IoErrorKind) -> (err: CliError)
    ensures
        err@ == CliErrorView::EnvironmentError(key_file_message(step, file_name@, kind)),
{
    let mut message = match step {
        KeyFileStep::Open => String::from_str("Unable to open key file '"),
        KeyFileStep::Read => String::from_str("Unable to read key file '"),
    };
    message.append(file_name);
    message.append("': ");
    let reason = msg_from_io_error(kind);
    message.append(reason.as_str());
    CliError::EnvironmentError(message)
}

/// The message of the error for a file whose owner could not be changed.
pub open spec fn chown_message(path: Seq<char>, code: int) -> Seq<char> {
    "Error chowning file "@ + path + ": "@ + signed_decimal(code)
}

/// What the status that `chown` returned means: zero is success, anything
/// else an error that names the file and the status.
pub fn chown_result(path: &str, code: i32) -> (changed: Result<(), CliError>)
    ensures
        code == 0 ==> changed is Ok,
        code != 0 ==> changed is Err && changed->Err_0@ == CliErrorView::EnvironmentError(
            chown_message(path@, code as int),
        ),
{
    if code == 0 {
        Ok(())
    } else {
        let mut message = String::from_str("Error chowning file ");
        message.append(path);
        message.append(": ");
        let digits = signed_decimal_string(code as i64);
        message.append(digits.as_str());
        Err(CliError::EnvironmentError(message))
    }
}

/// The error for a token that could not be built, with the signer's reason.
pub fn token_error(reason: &str) -> (err: CliError)
    ensures
        err@ == CliErrorView::ActionError("failed to build json web token: "@ + reason@),
{
    let mut message = String::from_str("failed to build json web token: ");
    message.append(reason);
    CliError::ActionError(message)
}

/// The value of the authorization header for a signed token.
pub fn cylinder_bearer(encoded_token: &str) -> (header: String)
    ensures
        header@ == "Bearer Cylinder:"@ + encoded_token@,
{
    let mut header = String::from_str("Bearer Cylinder:");
    header.append(encoded_token);
    header
}

/// What `str::trim` keeps of a text.
pub uninterp spec fn trimmed(text: Seq<char>) -> Seq<char>;

/// `str::trim` of the standard library: the text without the white space at
/// its start and at its end, white space being what Unicode calls so. The
/// contract only names the result.
#[verifier::external_body]
fn trim(text: &str) -> (kept: &str)
    ensures
        kept@ == trimmed(text@),
{
    text.trim()
}

/// The private key that a key file holds: its contents without the white
/// space around them.
pub fn private_key_text(contents: &str) -> (key: String)
    ensures
        key@ == trimmed(contents@),
{
    trim(contents).to_owned()
}

} // verus!
