//! The capture snapshot formatter: renders a rolling buffer's retained window
//! into a final, immutable text blob, prefixing a truncation notice when any
//! byte was ever evicted. Decoding is permissive: malformed byte sequences are
//! replaced, never fatal.

use crate::capture::{retained, CaptureModel, RollingBuffer};
use crate::MAXIMUM_CHARACTERS;
use vstd::prelude::*;
use vstd::string::StringExecFns;

verus! {

/// The notice prefixed to a snapshot whose buffer evicted older content.
pub open spec fn notice_text() -> Seq<char> {
    "[previous content removed because of size limits]\n"@
}

/// The truncation notice as a string slice.
pub fn notice_str() -> (r: &'static str)
    ensures
        r@ == notice_text(),
{
    "[previous content removed because of size limits]\n"
}

/// The capture capacity of the reference configuration: the size cap less the
/// truncation notice, so that prefixing the notice to a full buffer never
/// exceeds the cap.
pub fn default_capacity() -> (r: usize)
    ensures
        r + notice_text().len() == MAXIMUM_CHARACTERS,
        r > 0,
{
    let notice = notice_str();
    proof {
        reveal_strlit("[previous content removed because of size limits]\n");
        assert(vstd::utf8::is_ascii_chars(notice@));
        vstd::utf8::is_ascii_chars_encode_utf8(notice@);
    }
    MAXIMUM_CHARACTERS - notice.len()
}

/// What the permissive UTF-8 decoding of a byte sequence reads as.
pub uninterp spec fn lossy_of(bytes: Seq<u8>) -> Seq<char>;

/// Relies on String::from_utf8_lossy: the result depends on the bytes alone;
/// every valid character is decoded from at least one byte and every
/// malformed sequence of one or more bytes becomes a single replacement
/// character, so the decoding of an empty input is empty and the decoded
/// length never exceeds the byte length; ASCII bytes decode to themselves.
#[verifier::external_body]
fn lossy_utf8(bytes: &Vec<u8>) -> (r: String)
    ensures
        r@ == lossy_of(bytes@),
        r@.len() <= bytes@.len(),
        bytes@.len() == 0 ==> r@.len() == 0,
        (forall|i: int| 0 <= i < bytes@.len() ==> bytes@[i] < 128) ==> r@ == bytes@.map_values(
            |b: u8| b as char,
        ),
{
    String::from_utf8_lossy(bytes).into_owned()
}

/// The final, immutable rendering of a rolling buffer at stream end.
pub struct Snapshot {
    pub text: String,
    pub truncated: bool,
}

/// Whether a snapshot of the given buffer state carries the truncation notice.
pub open spec fn snapshot_truncated_spec(m: CaptureModel) -> bool {
    m.history.len() > m.capacity
}

/// The text a snapshot of the given buffer state holds: the permissive
/// decoding of the retained window, prefixed by the truncation notice exactly
/// when bytes were evicted.
pub open spec fn snapshot_text_spec(m: CaptureModel) -> Seq<char> {
    if snapshot_truncated_spec(m) {
        notice_text() + lossy_of(retained(m.history, m.capacity))
    } else {
        lossy_of(m.history)
    }
}

/// Renders the buffer's current contents into a snapshot without mutating the
/// buffer. The text never exceeds the notice length plus the capacity, and an
/// untouched buffer yields an empty, untruncated snapshot.
pub fn format_snapshot(buf: &RollingBuffer) -> (r: Snapshot)
    requires
        buf.wf(),
    ensures
        r.truncated == snapshot_truncated_spec(buf@),
        r.text@ == snapshot_text_spec(buf@),
        r.text@.len() <= notice_text().len() + buf@.capacity,
        buf@.history.len() == 0 ==> r.text@.len() == 0,
{
    let bytes = buf.snapshot_bytes();
    let body = lossy_utf8(&bytes);
    let truncated = buf.truncated();
    if truncated {
        let mut text = notice_str().to_owned();
        text.append(body.as_str());
        Snapshot { text, truncated }
    } else {
        Snapshot { text: body, truncated }
    }
}

} // verus!
