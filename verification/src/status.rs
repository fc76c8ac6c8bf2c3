//! Exit-status checking for external commands.
//!
//! Every external-command invocation in the system is held to these checks:
//! a nonzero exit is always fatal to the current operation.  The process
//! itself is spawned outside the crate; the exit code (or its absence, when
//! the process was ended by a signal) and the captured stdout are handed in
//! as plain values.

use vstd::prelude::*;

use crate::error::{Error, ErrorKind};
use crate::text::{dec_digits_signed, i32_to_dec, spec_trim, trim};

verus! {

/// The message reported for a command that exited with the given code, or
/// was ended by a signal when there is none.
pub open spec fn exit_message(tool: Seq<char>, code: Option<i32>) -> Seq<char> {
    match code {
        Some(c) => tool + " exited with "@ + dec_digits_signed(c as int),
        None => tool + " exited with signal"@,
    }
}

/// Succeeds exactly when the process exited with code 0; any other outcome
/// is an `Other` error naming the tool and the status.
pub fn check_status(tool: &str, code: Option<i32>) -> (r: Result<(), Error>)
    ensures
        r is Ok <==> code == Some(0i32),
        r matches Err(e) ==> e.kind == ErrorKind::Other && e.message@ == exit_message(
            tool@,
            code,
        ),
{
    match code {
        Some(c) => {
            if c == 0 {
                Ok(())
            } else {
                let message = tool.to_owned().concat(" exited with ").concat(
                    i32_to_dec(c).as_str(),
                );
                assert(message@ =~= exit_message(tool@, code));
                Err(Error { kind: ErrorKind::Other, message })
            }
        },
        None => {
            let message = tool.to_owned().concat(" exited with signal");
            assert(message@ =~= exit_message(tool@, code));
            Err(Error { kind: ErrorKind::Other, message })
        },
    }
}

/// As `check_status`, and on success hands back the captured stdout bytes.
pub fn check_output(tool: &str, code: Option<i32>, stdout: Vec<u8>) -> (r: Result<Vec<u8>, Error>)
    ensures
        r is Ok <==> code == Some(0i32),
        r matches Ok(v) ==> v@ == stdout@,
        r matches Err(e) ==> e.kind == ErrorKind::Other && e.message@ == exit_message(
            tool@,
            code,
        ),
{
    match check_status(tool, code) {
        Ok(()) => Ok(stdout),
        Err(e) => Err(e),
    }
}

/// The message reported when a tool's stdout is not valid UTF-8.
pub open spec fn invalid_utf8_message(tool: Seq<char>) -> Seq<char> {
    tool + " output is not valid UTF-8"@
}

/// Checks a command's captured stdout: the exit status must be 0 and the
/// bytes must have decoded as UTF-8 (`text` is the decoded text, absent
/// when decoding failed).  On success returns the text with surrounding
/// whitespace removed.
pub fn captured_text(tool: &str, code: Option<i32>, text: Option<String>) -> (r: Result<
    String,
    Error,
>)
    ensures
        r is Ok <==> code == Some(0i32) && text is Some,
        r matches Ok(s) ==> text matches Some(t) && s@ == spec_trim(t@),
        r matches Err(e) ==> e.kind == ErrorKind::Other || e.kind == ErrorKind::InvalidData,
        code != Some(0i32) ==> (r matches Err(e) && e.kind == ErrorKind::Other && e.message@
            == exit_message(tool@, code)),
        code == Some(0i32) && text is None ==> (r matches Err(e) && e.kind
            == ErrorKind::InvalidData && e.message@ == invalid_utf8_message(tool@)),
{
    match check_status(tool, code) {
        Ok(()) => match text {
            Some(t) => Ok(trim(t.as_str())),
            None => {
                let message = tool.to_owned().concat(" output is not valid UTF-8");
                assert(message@ =~= invalid_utf8_message(tool@));
                Err(Error { kind: ErrorKind::InvalidData, message })
            },
        },
        Err(e) => Err(e),
    }
}

} // verus!
