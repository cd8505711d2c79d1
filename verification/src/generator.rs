//! The generator of paired reads: it draws a forward read and its quality
//! scores, and derives the mate from them.

use crate::alphabet::{
    all_bases, reverse_complement_keeps_alphabet, reverse_complement_spec, BASE_A, BASE_C, BASE_G,
    BASE_T,
};
use crate::random::{choose_byte, sample_uniform};
use crate::read_id::read_id;
use crate::record::{
    all_qualities, pair_of_sampled_read_is_generated, reverse_keeps_qualities, PairedFastqRecord,
    QUALITY_END, QUALITY_MIN,
};
use rand::rngs::ThreadRng;
use std::ops::Range;
use vstd::prelude::*;

verus! {

/// Generates pairs of reads of one length.
#[derive(Debug)]
pub struct FastqGenerator {
    bases: [u8; 4],
    read_length: usize,
    quality_range: Range<u8>,
}

impl FastqGenerator {
    /// The generator draws from the four bases and from the whole range of
    /// quality scores.
    #[verifier::type_invariant]
    spec fn well_formed(self) -> bool {
        &&& self.bases@ == seq![BASE_A, BASE_T, BASE_C, BASE_G]
        &&& self.quality_range.start == QUALITY_MIN
        &&& self.quality_range.end == QUALITY_END
    }

    /// The number of bases of each read that the generator makes.
    pub closed spec fn read_length_spec(self) -> nat {
        self.read_length as nat
    }

    /// Makes a generator of reads of `read_length` bases.
    pub fn new(read_length: usize) -> (generator: Self)
        ensures
            generator.read_length_spec() == read_length,
    {
        let phred_range: Range<u8> = QUALITY_MIN..QUALITY_END;
        FastqGenerator {
            bases: [BASE_A, BASE_T, BASE_C, BASE_G],
            read_length,
            quality_range: phred_range,
        }
    }

    /// Returns the number of bases of each read that the generator makes.
    pub fn read_length(&self) -> (read_length: usize)
        ensures
            read_length == self.read_length_spec(),
    {
        self.read_length
    }

    /// Draws the quality scores of one read: one score for each base, each
    /// drawn from the range of quality scores.
    pub fn sample_quality(&self, rng: &mut ThreadRng) -> (quality: Vec<u8>)
        ensures
            quality@.len() == self.read_length_spec(),
            all_qualities(quality@),
    {
        proof {
            use_type_invariant(self);
        }
        let low: u8 = self.quality_range.start;
        let high: u8 = self.quality_range.end;
        let mut quality: Vec<u8> = Vec::with_capacity(self.read_length);
        let mut i: usize = 0;
        while i < self.read_length
            invariant
                low == QUALITY_MIN,
                high == QUALITY_END,
                i <= self.read_length,
                quality@.len() == i,
                all_qualities(quality@),
            decreases self.read_length - i,
        {
            let drawn: Option<u8> = sample_uniform(low, high, rng);
            let score: u8 = drawn.unwrap();
            quality.push(score);
            i += 1;
        }
        quality
    }

    /// Draws the bases of one read, each drawn from the four bases.
    pub fn sample_seq(&self, rng: &mut ThreadRng) -> (seq: Vec<u8>)
        ensures
            seq@.len() == self.read_length_spec(),
            all_bases(seq@),
    {
        proof {
            use_type_invariant(self);
        }
        let mut seq: Vec<u8> = Vec::with_capacity(self.read_length);
        let mut i: usize = 0;
        while i < self.read_length
            invariant
                self.bases@ == seq![BASE_A, BASE_T, BASE_C, BASE_G],
                i <= self.read_length,
                seq@.len() == i,
                all_bases(seq@),
            decreases self.read_length - i,
        {
            let picked: Option<u8> = choose_byte(self.bases.as_slice(), rng);
            let base: u8 = picked.unwrap();
            seq.push(base);
            i += 1;
        }
        seq
    }

    /// Generates the pair with index `id_index`. The bases of the forward
    /// read are drawn first, then its quality scores; the mate and its scores
    /// are derived from them.
    pub fn generate_paired_record(
        &self,
        rng: &mut ThreadRng,
        id_index: i32,
    ) -> (record: PairedFastqRecord)
        ensures
            record@.is_generated(self.read_length_spec(), id_index as int),
            record.id@ == read_id(id_index as int),
            record.seq@.len() == self.read_length_spec(),
            record.mate@.len() == self.read_length_spec(),
            record.quality_1@.len() == self.read_length_spec(),
            record.quality_2@.len() == self.read_length_spec(),
            record.mate@ == reverse_complement_spec(record.seq@),
            record.quality_2@ == record.quality_1@.reverse(),
            all_bases(record.seq@),
            all_bases(record.mate@),
            all_qualities(record.quality_1@),
            all_qualities(record.quality_2@),
    {
        let seq = self.sample_seq(rng);
        let qual_1 = self.sample_quality(rng);
        proof {
            let read_length = self.read_length_spec();
            pair_of_sampled_read_is_generated(id_index as int, seq@, qual_1@, read_length);
            reverse_complement_keeps_alphabet(seq@);
            reverse_keeps_qualities(qual_1@);
        }
        PairedFastqRecord::from_forward_read(id_index, seq, qual_1)
    }
}

} // verus!
