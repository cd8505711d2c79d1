//! The text of a read: four lines, each ended by a newline.
//!
//! ```text
//! @<id> /<mate number>
//! <bases>
//! +
//! <quality scores>
//! ```

use crate::record::{PairedFastqRecord, PairedReads};
use vstd::prelude::*;
use vstd::string::*;
use vstd::utf8::encode_utf8;

verus! {

/// The byte that ends a line.
pub const NEWLINE: u8 = 10;

/// The byte `@`, which opens the first line of a read.
pub const HEADER_MARK: u8 = 64;

/// The byte `+`, which alone makes the third line of a read.
pub const SEPARATOR: u8 = 43;

/// The byte of a space.
pub const SPACE: u8 = 32;

/// The byte `/`, which stands before the mate number.
pub const SLASH: u8 = 47;

/// The byte of the digit `1`.
pub const DIGIT_ONE: u8 = 49;

/// The byte of the digit `2`.
pub const DIGIT_TWO: u8 = 50;

/// Which read of a pair: the forward read has the number 1, its mate the
/// number 2.
#[derive(Clone, Copy, Debug, PartialEq, Eq, Structural)]
pub enum MateNumber {
    One,
    Two,
}

impl MateNumber {
    /// The byte of the digit of this number.
    pub open spec fn digit_spec(self) -> u8 {
        match self {
            MateNumber::One => DIGIT_ONE,
            MateNumber::Two => DIGIT_TWO,
        }
    }

    /// Returns the byte of the digit of this number.
    pub fn digit(self) -> (digit: u8)
        ensures
            digit == self.digit_spec(),
    {
        match self {
            MateNumber::One => DIGIT_ONE,
            MateNumber::Two => DIGIT_TWO,
        }
    }
}

/// What follows the `@` in the first line of a read: the identifier in UTF-8,
/// a space, a slash and the mate number.
pub open spec fn header_text(id: Seq<char>, mate: MateNumber) -> Seq<u8> {
    encode_utf8(id) + seq![SPACE, SLASH, mate.digit_spec()]
}

/// The four lines of a read.
pub open spec fn block_text(header: Seq<u8>, sequence: Seq<u8>, quality: Seq<u8>) -> Seq<u8> {
    seq![HEADER_MARK] + header + seq![NEWLINE] + sequence + seq![NEWLINE, SEPARATOR, NEWLINE]
        + quality + seq![NEWLINE]
}

impl PairedReads {
    /// The bases of one read of the pair.
    pub open spec fn sequence_of(self, mate: MateNumber) -> Seq<u8> {
        match mate {
            MateNumber::One => self.seq,
            MateNumber::Two => self.mate,
        }
    }

    /// The quality scores of one read of the pair.
    pub open spec fn quality_of(self, mate: MateNumber) -> Seq<u8> {
        match mate {
            MateNumber::One => self.quality_1,
            MateNumber::Two => self.quality_2,
        }
    }

    /// The four lines of one read of the pair.
    pub open spec fn block(self, mate: MateNumber) -> Seq<u8> {
        block_text(header_text(self.id, mate), self.sequence_of(mate), self.quality_of(mate))
    }
}

/// Appends `bytes` to `text`.
fn push_all(text: &mut Vec<u8>, bytes: &[u8])
    ensures
        final(text)@ == old(text)@ + bytes@,
{
    let n: usize = bytes.len();
    let mut i: usize = 0;
    while i < n
        invariant
            n == bytes@.len(),
            i <= n,
            text@ == old(text)@ + bytes@.take(i as int),
        decreases n - i,
    {
        text.push(bytes[i]);
        i += 1;
        assert(text@ =~= old(text)@ + bytes@.take(i as int));
    }
}

impl PairedFastqRecord {
    /// Returns the four lines of one read of the pair. The bytes of the reads
    /// and of the quality lines are written as they are.
    pub fn block(&self, mate: MateNumber) -> (text: Vec<u8>)
        ensures
            text@ == self@.block(mate),
    {
        let mut text: Vec<u8> = Vec::new();
        text.push(HEADER_MARK);
        push_all(&mut text, self.id.as_str().as_bytes());
        text.push(SPACE);
        text.push(SLASH);
        text.push(mate.digit());
        text.push(NEWLINE);
        match mate {
            MateNumber::One => push_all(&mut text, self.seq.as_slice()),
            MateNumber::Two => push_all(&mut text, self.mate.as_slice()),
        }
        text.push(NEWLINE);
        text.push(SEPARATOR);
        text.push(NEWLINE);
        match mate {
            MateNumber::One => push_all(&mut text, self.quality_1.as_slice()),
            MateNumber::Two => push_all(&mut text, self.quality_2.as_slice()),
        }
        text.push(NEWLINE);
        assert(text@ =~= self@.block(mate));
        text
    }

    /// Returns the four lines of the forward read, with the mate number 1.
    pub fn forward_block(&self) -> (text: Vec<u8>)
        ensures
            text@ == self@.block(MateNumber::One),
    {
        self.block(MateNumber::One)
    }

    /// Returns the four lines of the mate, with the mate number 2.
    pub fn mate_block(&self) -> (text: Vec<u8>)
        ensures
            text@ == self@.block(MateNumber::Two),
    {
        self.block(MateNumber::Two)
    }
}

} // verus!
