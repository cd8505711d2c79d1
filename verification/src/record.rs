//! One pair of reads: the forward read, its mate, and the quality scores of
//! both.

use crate::alphabet::{
    all_bases, reverse_complement, reverse_complement_is_involution,
    reverse_complement_keeps_alphabet, reverse_complement_spec,
};
use crate::read_id::{format_read_id, read_id};
use vstd::prelude::*;

verus! {

/// The lowest quality score that a base can have.
pub const QUALITY_MIN: u8 = 33;

/// The end of the quality scores: every score is below it.
pub const QUALITY_END: u8 = 74;

/// Whether a byte is a quality score.
pub open spec fn is_quality(q: u8) -> bool {
    QUALITY_MIN <= q < QUALITY_END
}

/// Whether every byte of a quality line is a quality score.
pub open spec fn all_qualities(line: Seq<u8>) -> bool {
    forall|i: int| 0 <= i < line.len() ==> is_quality(#[trigger] line[i])
}

/// A pair of reads.
pub struct PairedFastqRecord {
    /// The identifier that both reads carry.
    pub id: String,
    /// The forward read.
    pub seq: Vec<u8>,
    /// The mate of the forward read.
    pub mate: Vec<u8>,
    /// The quality scores of the forward read, one for each base.
    pub quality_1: Vec<u8>,
    /// The quality scores of the mate, one for each base.
    pub quality_2: Vec<u8>,
}

/// What a pair of reads holds, as sequences.
pub struct PairedReads {
    pub id: Seq<char>,
    pub seq: Seq<u8>,
    pub mate: Seq<u8>,
    pub quality_1: Seq<u8>,
    pub quality_2: Seq<u8>,
}

impl View for PairedFastqRecord {
    type V = PairedReads;

    open spec fn view(&self) -> PairedReads {
        PairedReads {
            id: self.id@,
            seq: self.seq@,
            mate: self.mate@,
            quality_1: self.quality_1@,
            quality_2: self.quality_2@,
        }
    }
}

impl PairedReads {
    /// The pair that belongs to a forward read with its quality scores: the
    /// mate is the reverse complement of the read, and the scores of the mate
    /// are the scores of the read from back to front.
    pub open spec fn of_forward_read(index: int, seq: Seq<u8>, quality: Seq<u8>) -> PairedReads {
        PairedReads {
            id: read_id(index),
            seq,
            mate: reverse_complement_spec(seq),
            quality_1: quality,
            quality_2: quality.reverse(),
        }
    }

    /// Whether the second read is the mate of the first.
    pub open spec fn is_paired(self) -> bool {
        &&& self.mate == reverse_complement_spec(self.seq)
        &&& self.quality_2 == self.quality_1.reverse()
    }

    /// Whether this is a pair as the generator makes them for reads of
    /// `read_length` bases at position `index` of the output.
    pub open spec fn is_generated(self, read_length: nat, index: int) -> bool {
        &&& self.id == read_id(index)
        &&& self.seq.len() == read_length
        &&& self.quality_1.len() == read_length
        &&& all_bases(self.seq)
        &&& all_qualities(self.quality_1)
        &&& self.is_paired()
    }
}

/// Returns the bytes of `line` from back to front.
pub fn reversed(line: &[u8]) -> (back: Vec<u8>)
    ensures
        back@ == line@.reverse(),
{
    let n: usize = line.len();
    let mut back: Vec<u8> = Vec::with_capacity(n);
    let mut i: usize = 0;
    while i < n
        invariant
            n == line@.len(),
            i <= n,
            back@.len() == i,
            forall|k: int| 0 <= k < i ==> #[trigger] back@[k] == line@[n - 1 - k],
        decreases n - i,
    {
        back.push(line[n - 1 - i]);
        i += 1;
    }
    assert(back@ =~= line@.reverse());
    back
}

impl PairedFastqRecord {
    /// Makes the pair of a forward read: derives the mate and its quality
    /// scores, and names the pair by its index.
    pub fn from_forward_read(id_index: i32, seq: Vec<u8>, quality: Vec<u8>) -> (record: Self)
        ensures
            record@ == PairedReads::of_forward_read(id_index as int, seq@, quality@),
    {
        let mate = reverse_complement(seq.as_slice());
        let quality_2 = reversed(quality.as_slice());
        PairedFastqRecord {
            id: format_read_id(id_index),
            seq,
            mate,
            quality_1: quality,
            quality_2,
        }
    }
}

/// Reversing a line twice gives the line back.
pub proof fn reverse_is_involution(line: Seq<u8>)
    ensures
        line.reverse().reverse() == line,
{
    assert(line.reverse().reverse() =~= line);
}

/// A line of quality scores read from back to front is a line of quality
/// scores.
pub proof fn reverse_keeps_qualities(line: Seq<u8>)
    requires
        all_qualities(line),
    ensures
        all_qualities(line.reverse()),
{
    let back = line.reverse();
    assert forall|i: int| 0 <= i < back.len() implies is_quality(#[trigger] back[i]) by {
    }
}

/// The pair of a forward read is a generated pair, if the read has the read
/// length and holds only bases, and has as many quality scores, each of
/// them in range.
pub proof fn pair_of_sampled_read_is_generated(
    index: int,
    seq: Seq<u8>,
    quality: Seq<u8>,
    read_length: nat,
)
    requires
        seq.len() == read_length,
        quality.len() == read_length,
        all_bases(seq),
        all_qualities(quality),
    ensures
        PairedReads::of_forward_read(index, seq, quality).is_generated(read_length, index),
{
}

/// In a pair, the forward read is the mate of its mate: the reverse
/// complement of the mate is the forward read, and the scores of the mate
/// from back to front are the scores of the forward read.
pub proof fn mate_of_mate_is_forward_read(pair: PairedReads)
    requires
        pair.is_paired(),
    ensures
        reverse_complement_spec(pair.mate) == pair.seq,
        pair.quality_2.reverse() == pair.quality_1,
{
    reverse_complement_is_involution(pair.seq);
    reverse_is_involution(pair.quality_1);
}

/// In a generated pair, both reads and both quality lines have the read
/// length.
pub proof fn generated_pair_lengths(pair: PairedReads, read_length: nat, index: int)
    requires
        pair.is_generated(read_length, index),
    ensures
        pair.seq.len() == read_length,
        pair.mate.len() == read_length,
        pair.quality_1.len() == read_length,
        pair.quality_2.len() == read_length,
{
}

/// In a generated pair, every byte of both reads is one of the four bases.
pub proof fn generated_pair_alphabet(pair: PairedReads, read_length: nat, index: int)
    requires
        pair.is_generated(read_length, index),
    ensures
        all_bases(pair.seq),
        all_bases(pair.mate),
{
    reverse_complement_keeps_alphabet(pair.seq);
}

/// In a generated pair, every byte of both quality lines is a quality score.
pub proof fn generated_pair_qualities(pair: PairedReads, read_length: nat, index: int)
    requires
        pair.is_generated(read_length, index),
    ensures
        all_qualities(pair.quality_1),
        all_qualities(pair.quality_2),
{
    reverse_keeps_qualities(pair.quality_1);
}

} // verus!
