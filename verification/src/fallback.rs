//! The fallback sink: what reaches the platform's native log.
//!
//! The platform log takes its tag and message as NUL-terminated strings, so
//! a line can hold no NUL byte. A message is cut at its first NUL; a line
//! whose tag holds one, or whose message starts with one, is not written.

use crate::priority::AndroidLogPriority;
use crate::wire::push_bytes;
use vstd::prelude::*;
use vstd::slice::slice_subrange;

verus! {

/// One line for the platform log. Neither `tag` nor `message` holds a NUL
/// byte when the line comes from [`emit`].
#[derive(Debug)]
pub struct FallbackLine {
    pub priority: AndroidLogPriority,
    pub tag: Vec<u8>,
    pub message: Vec<u8>,
}

/// A [`FallbackLine`] as contracts see it.
pub struct FallbackLineView {
    pub priority: AndroidLogPriority,
    pub tag: Seq<u8>,
    pub message: Seq<u8>,
}

impl View for FallbackLine {
    type V = FallbackLineView;

    open spec fn view(&self) -> FallbackLineView {
        FallbackLineView { priority: self.priority, tag: self.tag@, message: self.message@ }
    }
}

/// Holds if no byte of `s` is NUL.
pub open spec fn nul_free(s: Seq<u8>) -> bool {
    forall|i: int| 0 <= i < s.len() ==> s[i] != 0
}

/// Holds if `k` is where the first NUL byte of `s` stands, or the length of
/// `s` if it has none.
pub open spec fn is_first_nul(s: Seq<u8>, k: int) -> bool {
    &&& 0 <= k <= s.len()
    &&& nul_free(s.take(k))
    &&& k < s.len() ==> s[k] == 0
}

/// Where the first NUL byte of `s` stands, or the length of `s` if it has none.
pub open spec fn first_nul(s: Seq<u8>) -> int {
    choose|k: int| is_first_nul(s, k)
}

/// What [`emit`] writes for a tag and a message: nothing if the tag holds a
/// NUL byte or the message starts with one, else the tag with the message up
/// to its first NUL byte.
pub open spec fn emitted(priority: AndroidLogPriority, tag: Seq<u8>, message: Seq<u8>) -> Option<
    FallbackLineView,
> {
    if !nul_free(tag) || (message.len() > 0 && message[0] == 0) {
        None
    } else {
        Some(FallbackLineView { priority, tag, message: message.take(first_nul(message)) })
    }
}

/// Every byte string has exactly one place that `is_first_nul` accepts, and
/// `first_nul` names it.
pub proof fn lemma_first_nul_unique(s: Seq<u8>, k: int)
    requires
        is_first_nul(s, k),
    ensures
        first_nul(s) == k,
{
    let j = first_nul(s);
    assert(is_first_nul(s, j));
    if j < k {
        assert(s.take(k)[j] == s[j]);
    } else if k < j {
        assert(s.take(j)[k] == s[k]);
    }
}

/// A byte string without a NUL byte has its "first NUL" at its end.
pub proof fn lemma_first_nul_of_nul_free(s: Seq<u8>)
    requires
        nul_free(s),
    ensures
        first_nul(s) == s.len(),
{
    assert(s.take(s.len() as int) =~= s);
    lemma_first_nul_unique(s, s.len() as int);
}

/// Behind a prefix without a NUL byte, the first NUL byte is that of the
/// rest.
pub proof fn lemma_first_nul_after_prefix(prefix: Seq<u8>, rest: Seq<u8>)
    requires
        nul_free(prefix),
    ensures
        first_nul(prefix + rest) == prefix.len() + first_nul(rest),
        (prefix + rest).take(first_nul(prefix + rest)) == prefix + rest.take(first_nul(rest)),
{
    let k = lemma_first_nul_exists(rest);
    lemma_first_nul_unique(rest, k);
    let whole = prefix + rest;
    let at = prefix.len() + k;
    assert forall|i: int| 0 <= i < at implies #[trigger] whole.take(at)[i] != 0 by {
        if i >= prefix.len() {
            assert(rest.take(k)[i - prefix.len()] == rest[i - prefix.len()]);
        }
    }
    lemma_first_nul_unique(whole, at);
    assert(whole.take(at) =~= prefix + rest.take(k));
}

/// Every byte string has a place that `is_first_nul` accepts.
pub proof fn lemma_first_nul_exists(s: Seq<u8>) -> (k: int)
    ensures
        is_first_nul(s, k),
    decreases s.len(),
{
    if s.len() == 0 {
        0
    } else if s[0] == 0 {
        assert(s.take(0).len() == 0);
        0
    } else {
        let j = lemma_first_nul_exists(s.drop_first());
        let k = j + 1;
        assert forall|i: int| 0 <= i < k implies #[trigger] s.take(k)[i] != 0 by {
            if i > 0 {
                assert(s.drop_first().take(j)[i - 1] == s[i]);
            }
        }
        k
    }
}

/// A line whose tag and message hold no NUL byte is written as it is.
pub proof fn lemma_emitted_whole(priority: AndroidLogPriority, tag: Seq<u8>, message: Seq<u8>)
    requires
        nul_free(tag),
        nul_free(message),
    ensures
        emitted(priority, tag, message) == Some(FallbackLineView { priority, tag, message }),
{
    lemma_first_nul_of_nul_free(message);
    assert(message.take(message.len() as int) =~= message);
}

/// A message whose first NUL byte stands at offset `k` is written cut down
/// to its first `k` bytes, and not at all where `k` is 0.
pub proof fn lemma_emitted_cut_at_nul(
    priority: AndroidLogPriority,
    tag: Seq<u8>,
    message: Seq<u8>,
    k: int,
)
    requires
        nul_free(tag),
        0 <= k < message.len(),
        message[k] == 0,
        nul_free(message.take(k)),
    ensures
        k == 0 ==> emitted(priority, tag, message) is None,
        k > 0 ==> emitted(priority, tag, message) == Some(
            FallbackLineView { priority, tag, message: message.take(k) },
        ),
{
    lemma_first_nul_unique(message, k);
    if k > 0 {
        assert(message.take(k)[0] == message[0]);
    }
}

/// A line whose tag holds a NUL byte is not written.
pub proof fn lemma_emitted_nothing_for_nul_in_tag(
    priority: AndroidLogPriority,
    tag: Seq<u8>,
    message: Seq<u8>,
    k: int,
)
    requires
        0 <= k < tag.len(),
        tag[k] == 0,
    ensures
        emitted(priority, tag, message) is None,
{
}

/// Finds the first NUL byte of `s`.
pub fn find_first_nul(s: &[u8]) -> (k: usize)
    ensures
        k == first_nul(s@),
        is_first_nul(s@, k as int),
{
    let n = s.len();
    let mut i: usize = 0;
    while i < n && s[i] != 0
        invariant
            n == s@.len(),
            i <= n,
            nul_free(s@.take(i as int)),
        decreases n - i,
    {
        i = i + 1;
        assert forall|j: int| 0 <= j < i implies s@.take(i as int)[j] != 0 by {
            if j < i - 1 {
                assert(s@.take(i - 1)[j] == s@[j]);
            }
        }
    }
    proof {
        lemma_first_nul_unique(s@, i as int);
    }
    i
}

/// Prepares one line for the platform log.
///
/// Returns `None`, and nothing is to be written, exactly if `tag` holds a
/// NUL byte or `message` starts with one. Otherwise the line carries the tag
/// whole and the message up to its first NUL byte, or all of it where it has
/// none.
pub fn emit(priority: AndroidLogPriority, tag: &[u8], message: &[u8]) -> (line: Option<
    FallbackLine,
>)
    ensures
        match line {
            Some(l) => emitted(priority, tag@, message@) == Some(l@),
            None => emitted(priority, tag@, message@) is None,
        },
        line matches Some(l) ==> nul_free(l.tag@) && nul_free(l.message@),
{
    let tag_end = find_first_nul(tag);
    if tag_end < tag.len() {
        return None;
    }
    assert(tag@.take(tag_end as int) =~= tag@);
    let cut = find_first_nul(message);
    if cut == 0 && message.len() > 0 {
        return None;
    }
    assert(message@.len() > 0 ==> message@[0] != 0) by {
        if message@.len() > 0 {
            assert(message@.take(cut as int)[0] == message@[0]);
        }
    }
    let mut tag_copy: Vec<u8> = Vec::new();
    push_bytes(&mut tag_copy, tag);
    let mut text: Vec<u8> = Vec::new();
    push_bytes(&mut text, slice_subrange(message, 0, cut));
    assert(tag_copy@ =~= tag@);
    assert(text@ =~= message@.take(cut as int));
    Some(FallbackLine { priority, tag: tag_copy, message: text })
}

} // verus!
