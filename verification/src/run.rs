//! One run of the generator: the check of its parameters, the names of its
//! two output files, and the order in which the pairs are made.
//!
//! The run decides and computes; writing what it hands out is left to the
//! caller, who asks for one pair at a time and appends its two blocks to the
//! two files before asking for the next.

use crate::generator::FastqGenerator;
use crate::record::PairedFastqRecord;
use rand::rngs::ThreadRng;
use vstd::prelude::*;
use vstd::string::*;

verus! {

/// The parameters of a run.
#[derive(Debug)]
pub struct GenerateArgs {
    /// The number of pairs to generate.
    pub n: i32,
    /// The prefix of the names of the two output files.
    pub outfile: String,
    /// The number of bases of each read.
    pub read_len: i32,
}

/// Why a run cannot start.
#[derive(Clone, Copy, Debug, PartialEq, Eq, Structural)]
pub enum GenerateError {
    /// The number of reads or the read length is zero or negative.
    InvalidParameters,
}

impl GenerateError {
    /// Returns the message that describes the error.
    pub fn message(&self) -> (text: &'static str)
        ensures
            text@ == "Number of reads and read length must be positive."@,
    {
        match self {
            GenerateError::InvalidParameters => "Number of reads and read length must be positive.",
        }
    }
}

/// Whether a run can start with these parameters: both are positive.
pub open spec fn valid_parameters(num_reads: int, read_length: int) -> bool {
    num_reads > 0 && read_length > 0
}

/// The names of the two output files of a run.
pub struct OutputPaths {
    /// The file of the forward reads.
    pub r1: String,
    /// The file of the mates.
    pub r2: String,
}

/// Returns the names of the two output files for a prefix: the prefix
/// followed by `_R1.fastq` for the forward reads and by `_R2.fastq` for the
/// mates.
pub fn output_paths(prefix: &str) -> (paths: OutputPaths)
    ensures
        paths.r1@ == prefix@ + "_R1.fastq"@,
        paths.r2@ == prefix@ + "_R2.fastq"@,
{
    OutputPaths {
        r1: String::from_str(prefix).concat("_R1.fastq"),
        r2: String::from_str(prefix).concat("_R2.fastq"),
    }
}

/// A run in progress: the generator and the index of the next pair.
pub struct GenerationRun {
    generator: FastqGenerator,
    num_reads: i32,
    next_index: i32,
}

impl GenerationRun {
    /// A run has valid parameters, and has made no more pairs than it was
    /// asked for.
    #[verifier::type_invariant]
    spec fn well_formed(self) -> bool {
        &&& 0 < self.num_reads
        &&& 0 < self.generator.read_length_spec() <= i32::MAX
        &&& 0 <= self.next_index <= self.num_reads
    }

    /// The number of pairs that the run makes in all.
    pub closed spec fn num_reads_spec(self) -> int {
        self.num_reads as int
    }

    /// The number of bases of each read.
    pub closed spec fn read_length_spec(self) -> nat {
        self.generator.read_length_spec()
    }

    /// The index of the next pair, which is the number of pairs made so far.
    pub closed spec fn next_index_spec(self) -> int {
        self.next_index as int
    }

    /// Starts a run. It fails, before anything is generated, unless the
    /// number of reads and the read length are both positive.
    pub fn start(args: &GenerateArgs) -> (started: Result<Self, GenerateError>)
        ensures
            started is Ok <==> valid_parameters(args.n as int, args.read_len as int),
            started is Err ==> started->Err_0 == GenerateError::InvalidParameters,
            started matches Ok(run) ==> run.num_reads_spec() == args.n,
            started matches Ok(run) ==> run.read_length_spec() == args.read_len,
            started matches Ok(run) ==> run.next_index_spec() == 0,
    {
        let num_reads: i32 = args.n;
        let read_length: i32 = args.read_len;
        if num_reads <= 0 || read_length <= 0 {
            return Err(GenerateError::InvalidParameters);
        }
        let read_length_usize: usize = read_length as usize;
        let generator = FastqGenerator::new(read_length_usize);
        Ok(GenerationRun { generator, num_reads, next_index: 0 })
    }

    /// Returns the number of pairs that the run makes in all.
    pub fn num_reads(&self) -> (num_reads: i32)
        ensures
            num_reads == self.num_reads_spec(),
    {
        self.num_reads
    }

    /// Returns the number of bases of each read.
    pub fn read_length(&self) -> (read_length: usize)
        ensures
            read_length == self.read_length_spec(),
    {
        self.generator.read_length()
    }

    /// Returns the number of pairs made so far.
    pub fn next_index(&self) -> (next_index: i32)
        ensures
            next_index == self.next_index_spec(),
            0 <= next_index <= self.num_reads_spec(),
    {
        proof {
            use_type_invariant(self);
        }
        self.next_index
    }

    /// Generates the next pair of the run, or returns `None` when the run has
    /// made all its pairs. The pairs come in the order of their indices,
    /// starting at 0.
    pub fn next_record(&mut self, rng: &mut ThreadRng) -> (record: Option<PairedFastqRecord>)
        ensures
            final(self).num_reads_spec() == old(self).num_reads_spec(),
            final(self).read_length_spec() == old(self).read_length_spec(),
            record is Some <==> old(self).next_index_spec() < old(self).num_reads_spec(),
            record matches Some(pair) ==> pair@.is_generated(
                old(self).read_length_spec(),
                old(self).next_index_spec(),
            ),
            record is Some ==> final(self).next_index_spec() == old(self).next_index_spec() + 1,
            record is None ==> final(self).next_index_spec() == old(self).next_index_spec(),
    {
        proof {
            use_type_invariant(&*self);
        }
        if self.next_index < self.num_reads {
            let record = self.generator.generate_paired_record(rng, self.next_index);
            self.next_index = self.next_index + 1;
            Some(record)
        } else {
            None
        }
    }
}

} // verus!
