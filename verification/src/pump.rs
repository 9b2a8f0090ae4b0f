//! The per-line step of a stream pump. The pump's loop — blocking reads from
//! the child's pipe, writes to the parent's stream — runs outside the
//! library; each complete line it reads is handed here, and the bytes handed
//! back are exactly what must be forwarded to the sink, line ending restored.

use crate::capture::RollingBuffer;
use vstd::prelude::*;
use vstd::string::{StrSliceExecFns, StringSliceAdditionalSpecFns};

verus! {

/// Processes one line read from a source stream: restores the line ending,
/// ingests the resulting bytes into the capture buffer, and returns the very
/// same bytes for immediate forwarding to the sink. Every byte of the line
/// appears, unchanged and in order, both in the forwarded data and in the
/// buffer's history.
/// The bytes a sink receives from a source that produced the given lines, in
/// order: each line followed by the line ending.
pub open spec fn forwarded_bytes(lines: Seq<Seq<u8>>, ending: Seq<u8>) -> Seq<u8>
    decreases lines.len(),
{
    if lines.len() == 0 {
        Seq::empty()
    } else {
        forwarded_bytes(lines.drop_last(), ending) + lines.last() + ending
    }
}

/// Forwarding a prefix of a stream never yields more bytes than forwarding
/// the whole stream.
proof fn lemma_forwarded_take_le(lines: Seq<Seq<u8>>, ending: Seq<u8>, i: int)
    requires
        0 <= i <= lines.len(),
    ensures
        forwarded_bytes(lines.take(i), ending).len() <= forwarded_bytes(lines, ending).len(),
    decreases lines.len() - i,
{
    if i == lines.len() {
        assert(lines.take(i) =~= lines);
    } else {
        assert(lines.take(i + 1).drop_last() =~= lines.take(i));
        lemma_forwarded_take_le(lines, ending, i + 1);
    }
}

pub fn process_line(buf: &mut RollingBuffer, line: &str, line_ending: &str) -> (data: Vec<u8>)
    requires
        old(buf).wf(),
        old(buf)@.history.len() + line.spec_bytes().len() + line_ending.spec_bytes().len()
            <= usize::MAX,
    ensures
        final(buf).wf(),
        final(buf)@.capacity == old(buf)@.capacity,
        data@ == line.spec_bytes() + line_ending.spec_bytes(),
        final(buf)@.history == old(buf)@.history + data@,
{
    let mut data: Vec<u8> = line.as_bytes_vec();
    data.extend_from_slice(line_ending.as_bytes());
    buf.ingest(data.as_slice());
    data
}

/// Forwarding fidelity over a whole stream: pumping the given lines in order
/// yields a sink output that is exactly each line, byte-identical and with
/// its ending restored, in the original order — and the capture buffer
/// ingests exactly those bytes.
pub fn pump_lines(buf: &mut RollingBuffer, lines: &Vec<String>, line_ending: &str) -> (sink: Vec<
    u8,
>)
    requires
        old(buf).wf(),
        old(buf)@.history.len() + forwarded_bytes(
            lines@.map_values(|l: String| vstd::utf8::encode_utf8(l@)),
            line_ending.spec_bytes(),
        ).len() <= usize::MAX,
    ensures
        final(buf).wf(),
        final(buf)@.capacity == old(buf)@.capacity,
        sink@ == forwarded_bytes(
            lines@.map_values(|l: String| vstd::utf8::encode_utf8(l@)),
            line_ending.spec_bytes(),
        ),
        final(buf)@.history == old(buf)@.history + sink@,
{
    let ghost stream = lines@.map_values(|l: String| vstd::utf8::encode_utf8(l@));
    let ghost ending = line_ending.spec_bytes();
    let ghost orig = old(buf)@.history;
    let mut sink: Vec<u8> = Vec::new();
    let mut i: usize = 0;
    while i < lines.len()
        invariant
            buf.wf(),
            i <= lines@.len(),
            buf@.capacity == old(buf)@.capacity,
            stream == lines@.map_values(|l: String| vstd::utf8::encode_utf8(l@)),
            ending == line_ending.spec_bytes(),
            sink@ == forwarded_bytes(stream.take(i as int), ending),
            buf@.history == orig + sink@,
            orig.len() + forwarded_bytes(stream, ending).len() <= usize::MAX,
        decreases lines@.len() - i,
    {
        proof {
            assert(stream.take(i + 1).drop_last() =~= stream.take(i as int));
            assert(stream.take(i + 1).last() == stream[i as int]);
            lemma_forwarded_take_le(stream, ending, i + 1);
        }
        let line = lines[i].as_str();
        let data = process_line(buf, line, line_ending);
        sink.extend_from_slice(data.as_slice());
        proof {
            assert(sink@ =~= forwarded_bytes(stream.take(i + 1), ending));
        }
        i = i + 1;
    }
    proof {
        assert(stream.take(lines@.len() as int) =~= stream);
    }
    sink
}

} // verus!
