//! Synthetic paired-end sequencing reads: sampling, mate derivation and
//! four-line text records.

pub mod alphabet;
pub mod fastq;
pub mod generator;
pub mod parse;
pub mod random;
pub mod read_id;
pub mod record;
pub mod run;
