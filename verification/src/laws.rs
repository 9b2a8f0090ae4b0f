//! The library's stated laws, proved over the mathematical model of the
//! capture buffer and the snapshot formatter.

use crate::capture::{retained, CaptureModel};
use crate::snapshot::{lossy_of, notice_text, snapshot_text_spec, snapshot_truncated_spec};
use vstd::prelude::*;

verus! {

/// For every ingest history that fits within the capacity, the snapshot text
/// is the permissive decoding of exactly the ingested bytes, in order, and the
/// snapshot carries no truncation notice.
pub proof fn lemma_snapshot_within_capacity(m: CaptureModel)
    requires
        m.history.len() <= m.capacity,
    ensures
        snapshot_text_spec(m) == lossy_of(m.history),
        !snapshot_truncated_spec(m),
{
}

/// Once more bytes than the capacity have been ingested, the snapshot text is
/// the truncation notice followed by the permissive decoding of exactly the
/// last `capacity` ingested bytes, oldest retained byte first, and the
/// snapshot is marked truncated.
pub proof fn lemma_snapshot_truncated(m: CaptureModel)
    requires
        m.history.len() > m.capacity,
    ensures
        snapshot_text_spec(m) == notice_text() + lossy_of(
            m.history.subrange(m.history.len() - m.capacity, m.history.len() as int),
        ),
        retained(m.history, m.capacity).len() == m.capacity,
        snapshot_truncated_spec(m),
{
    assert(retained(m.history, m.capacity) =~= m.history.subrange(
        m.history.len() - m.capacity,
        m.history.len() as int,
    ));
}

/// Snapshots are idempotent: two snapshots taken of the same buffer state,
/// with no ingest between them, are identical in text and truncation flag.
pub proof fn lemma_snapshot_idempotent(
    m: CaptureModel,
    text1: Seq<char>,
    trunc1: bool,
    text2: Seq<char>,
    trunc2: bool,
)
    requires
        text1 == snapshot_text_spec(m),
        trunc1 == snapshot_truncated_spec(m),
        text2 == snapshot_text_spec(m),
        trunc2 == snapshot_truncated_spec(m),
    ensures
        text1 == text2,
        trunc1 == trunc2,
{
}

/// A pump whose source never produced a byte ends with an empty, untruncated
/// snapshot: with nothing ingested the snapshot is the decoding of the empty
/// byte sequence and carries no notice.
pub proof fn lemma_empty_snapshot(m: CaptureModel)
    requires
        m.history.len() == 0,
    ensures
        !snapshot_truncated_spec(m),
        snapshot_text_spec(m) == lossy_of(Seq::<u8>::empty()),
{
    assert(m.history =~= Seq::<u8>::empty());
}

} // verus!
