//! The lines by which the client tells the platform log of its own health.

use crate::fallback::{
    emit, emitted, first_nul, lemma_emitted_whole, lemma_first_nul_after_prefix, nul_free,
    FallbackLine, FallbackLineView,
};
use crate::priority::AndroidLogPriority;
use crate::wire::push_bytes;
use nix::errno::Errno;
use vstd::prelude::*;
use vstd::string::*;

verus! {

/// The bytes of a text that is written in ASCII.
pub open spec fn ascii_bytes(text: Seq<char>) -> Seq<u8> {
    Seq::new(text.len(), |i: int| text[i] as u8)
}

/// The tag under which the client writes its diagnostics.
pub open spec fn diagnostic_tag() -> Seq<u8> {
    ascii_bytes("NotCatClient"@)
}

/// The message that tells of a lost connection.
pub open spec fn connection_lost_message() -> Seq<u8> {
    ascii_bytes("Connection to NotCat server lost"@)
}

/// The words that open the message about a record that could not be sent.
pub open spec fn send_failure_prefix() -> Seq<u8> {
    ascii_bytes("Failed to send log message: "@)
}

/// The line that tells of a lost connection.
pub open spec fn connection_lost_line() -> FallbackLineView {
    FallbackLineView {
        priority: AndroidLogPriority::Error,
        tag: diagnostic_tag(),
        message: connection_lost_message(),
    }
}

/// The line about a record that could not be sent, where `reason` says why:
/// the prefix and the reason, up to the first NUL byte in the reason.
pub open spec fn send_failure_line(reason: Seq<u8>) -> FallbackLineView {
    FallbackLineView {
        priority: AndroidLogPriority::Verbose,
        tag: diagnostic_tag(),
        message: send_failure_prefix() + reason.take(first_nul(reason)),
    }
}

/// The text by which nix describes an error number: the name of the error,
/// a colon and a short description.
pub uninterp spec fn errno_description(errno: i32) -> Seq<u8>;

/// `nix::errno::Errno::from_raw`, and the `Display` of the `Errno` that it
/// returns, as bytes.
///
/// Not proved: that the text depends on the number alone, which is what
/// giving it the name `errno_description` claims. Nothing is claimed of
/// what the text says.
#[verifier::external_body]
fn describe_errno(errno: i32) -> (text: Vec<u8>)
    ensures
        text@ == errno_description(errno),
{
    format!("{}", Errno::from_raw(errno)).into_bytes()
}

fn text_bytes(text: &'static str) -> (bytes: &'static [u8])
    requires
        is_ascii(text),
    ensures
        bytes@ == ascii_bytes(text@),
{
    proof {
        is_ascii_spec_bytes(text);
    }
    text.as_bytes()
}

/// The fixed texts are free of NUL bytes.
pub proof fn lemma_fixed_texts_nul_free()
    ensures
        nul_free(diagnostic_tag()),
        nul_free(connection_lost_message()),
        nul_free(send_failure_prefix()),
        send_failure_prefix().len() == 28,
{
    reveal_strlit("NotCatClient");
    reveal_strlit("Connection to NotCat server lost");
    reveal_strlit("Failed to send log message: ");
}

/// Builds the line that tells of a lost connection.
pub fn report_connection_lost() -> (line: FallbackLine)
    ensures
        line@ == connection_lost_line(),
        emitted(AndroidLogPriority::Error, diagnostic_tag(), connection_lost_message()) == Some(
            line@,
        ),
{
    proof {
        reveal_strlit("NotCatClient");
        reveal_strlit("Connection to NotCat server lost");
        lemma_fixed_texts_nul_free();
        lemma_emitted_whole(
            AndroidLogPriority::Error,
            diagnostic_tag(),
            connection_lost_message(),
        );
    }
    let tag = text_bytes("NotCatClient");
    let message = text_bytes("Connection to NotCat server lost");
    emit(AndroidLogPriority::Error, tag, message).unwrap()
}

/// Builds the line about a record that could not be sent; `reason` says
/// why. The line is always written: a NUL byte in the reason cuts it short
/// there, and the prefix stays.
pub fn report_send_failure(reason: &[u8]) -> (line: FallbackLine)
    ensures
        line@ == send_failure_line(reason@),
        emitted(AndroidLogPriority::Verbose, diagnostic_tag(), send_failure_prefix() + reason@)
            == Some(line@),
{
    proof {
        reveal_strlit("NotCatClient");
        reveal_strlit("Failed to send log message: ");
        lemma_fixed_texts_nul_free();
        lemma_first_nul_after_prefix(send_failure_prefix(), reason@);
    }
    let tag = text_bytes("NotCatClient");
    let mut message: Vec<u8> = Vec::new();
    push_bytes(&mut message, text_bytes("Failed to send log message: "));
    push_bytes(&mut message, reason);
    assert((send_failure_prefix() + reason@)[0] == send_failure_prefix()[0]);
    emit(AndroidLogPriority::Verbose, tag, message.as_slice()).unwrap()
}

/// Builds the line about a record that could not be sent because of the
/// error with the number `errno`: the reason is the text by which nix
/// describes that error.
pub fn report_send_errno(errno: i32) -> (line: FallbackLine)
    ensures
        line@ == send_failure_line(errno_description(errno)),
{
    let reason = describe_errno(errno);
    report_send_failure(reason.as_slice())
}

} // verus!
