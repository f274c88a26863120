//! The fixed wording of diagnostics and commit messages.

use vstd::prelude::*;
use crate::text::{decimal, push_decimal};

verus! {

/// Diagnostic for a remote file that already matches.
pub open spec fn unchanged_line(path: Seq<char>) -> Seq<char> {
    "[github content] File contents at "@ + path + " are the same, no update needed"@
}

/// Diagnostic printed once an update has been attempted.
pub open spec fn updated_line(path: Seq<char>) -> Seq<char> {
    "[github content] Updated file at "@ + path
}

/// Diagnostic printed once a creation has been attempted.
pub open spec fn created_line(path: Seq<char>) -> Seq<char> {
    "[github content] Created file at "@ + path
}

/// Diagnostic for a read that failed for a reason other than rate limiting
/// or size.
pub open spec fn read_failed_line(path: Seq<char>, detail: Seq<char>) -> Seq<char> {
    "[github content] Getting the file at "@ + path + " failed: "@ + detail
}

/// Diagnostic for a rate-limited read; `secs` is the wait the service asked
/// for, in whole seconds.
pub open spec fn rate_limited_line(secs: nat) -> Seq<char> {
    "got rate limited, sleeping for "@ + decimal(secs) + "s"@
}

/// Diagnostic for a file written to disk.
pub open spec fn wrote_file_line(path: Seq<char>) -> Seq<char> {
    "wrote file: "@ + path
}

/// Commit message for a write to `path`; `verb` says which kind.
pub open spec fn commit_message(verb: Seq<char>, path: Seq<char>) -> Seq<char> {
    verb + " file content "@ + path
        + " programatically\n\nThis is done from the cio repo utils::create_or_update_file function."@
}

/// Commit message of an update.
pub open spec fn update_message(path: Seq<char>) -> Seq<char> {
    commit_message("Updating"@, path)
}

/// Commit message of a creation.
pub open spec fn create_message(path: Seq<char>) -> Seq<char> {
    commit_message("Creating"@, path)
}

/// The diagnostic for a remote file that already matches.
pub fn unchanged_notice(path: &str) -> (line: String)
    ensures
        line@ == unchanged_line(path@),
{
    let mut line = String::from_str("[github content] File contents at ");
    line.append(path);
    line.append(" are the same, no update needed");
    line
}

/// The diagnostic printed once an update has been attempted.
pub fn updated_notice(path: &str) -> (line: String)
    ensures
        line@ == updated_line(path@),
{
    let mut line = String::from_str("[github content] Updated file at ");
    line.append(path);
    line
}

/// The diagnostic printed once a creation has been attempted.
pub fn created_notice(path: &str) -> (line: String)
    ensures
        line@ == created_line(path@),
{
    let mut line = String::from_str("[github content] Created file at ");
    line.append(path);
    line
}

/// The diagnostic for a read that failed.
pub fn read_failed_notice(path: &str, detail: &str) -> (line: String)
    ensures
        line@ == read_failed_line(path@, detail@),
{
    let mut line = String::from_str("[github content] Getting the file at ");
    line.append(path);
    line.append(" failed: ");
    line.append(detail);
    line
}

/// The diagnostic for a rate-limited read.
pub fn rate_limited_notice(secs: u64) -> (line: String)
    ensures
        line@ == rate_limited_line(secs as nat),
{
    let mut line = String::from_str("got rate limited, sleeping for ");
    push_decimal(&mut line, secs);
    line.append("s");
    line
}

/// The diagnostic for a file written to disk.
pub fn wrote_file_notice(path: &str) -> (line: String)
    ensures
        line@ == wrote_file_line(path@),
{
    let mut line = String::from_str("wrote file: ");
    line.append(path);
    line
}

/// Builds the commit message for a write to `path`.
pub fn commit_message_text(verb: &str, path: &str) -> (message: String)
    ensures
        message@ == commit_message(verb@, path@),
{
    let mut message = String::from_str(verb);
    message.append(" file content ");
    message.append(path);
    message.append(
        " programatically\n\nThis is done from the cio repo utils::create_or_update_file function.",
    );
    message
}

} // verus!
