//! Reading the text of a file back: what the lines of a file of reads say,
//! and that the text of generated pairs says what was generated.

use crate::alphabet::is_base;
use crate::fastq::{block_text, header_text, MateNumber, HEADER_MARK, NEWLINE, SEPARATOR};
use crate::read_id::{is_id_char, read_id, read_id_is_plain};
use crate::record::{generated_pair_alphabet, generated_pair_qualities, is_quality, PairedReads};
use vstd::prelude::*;
use vstd::utf8::{encode_utf8, is_ascii_chars, is_ascii_chars_encode_utf8};

verus! {

/// A read as its four lines give it: the first line without its `@`, the
/// bases and the quality scores.
pub struct TextRecord {
    pub header: Seq<u8>,
    pub sequence: Seq<u8>,
    pub quality: Seq<u8>,
}

/// Whether a line holds no newline.
pub open spec fn is_one_line(line: Seq<u8>) -> bool {
    forall|i: int| 0 <= i < line.len() ==> #[trigger] line[i] != NEWLINE
}

/// The number of bytes before the first newline of `text`, or the length of
/// `text` if it holds none.
pub open spec fn line_end(text: Seq<u8>) -> int
    decreases text.len(),
{
    if text.len() == 0 || text[0] == NEWLINE {
        0
    } else {
        1 + line_end(text.skip(1))
    }
}

/// The first line of `text`, without its newline, and what follows it; `None`
/// if no newline ends it.
pub open spec fn split_line(text: Seq<u8>) -> Option<(Seq<u8>, Seq<u8>)> {
    let end = line_end(text);
    if end < text.len() {
        Some((text.take(end), text.skip(end + 1)))
    } else {
        None
    }
}

/// The read at the front of `text` and what follows it; `None` unless `text`
/// begins with four lines of which the first opens with `@` and the third is
/// a bare `+`.
pub open spec fn parse_record(text: Seq<u8>) -> Option<(TextRecord, Seq<u8>)> {
    match split_line(text) {
        None => None,
        Some((first, after_first)) => match split_line(after_first) {
            None => None,
            Some((sequence, after_sequence)) => match split_line(after_sequence) {
                None => None,
                Some((third, after_third)) => match split_line(after_third) {
                    None => None,
                    Some((quality, rest)) => if first.len() > 0 && first[0] == HEADER_MARK
                        && third == seq![SEPARATOR] {
                        Some((TextRecord { header: first.skip(1), sequence, quality }, rest))
                    } else {
                        None
                    },
                },
            },
        },
    }
}

/// The reads of a file, in the order of the file; `None` unless the file is
/// made of reads of four lines each, and of nothing else.
pub open spec fn parse_records(text: Seq<u8>) -> Option<Seq<TextRecord>>
    decreases text.len(),
{
    if text.len() == 0 {
        Some(Seq::empty())
    } else {
        match parse_record(text) {
            None => None,
            Some((record, rest)) => if rest.len() < text.len() {
                match parse_records(rest) {
                    None => None,
                    Some(records) => Some(seq![record] + records),
                }
            } else {
                None
            },
        }
    }
}

impl PairedReads {
    /// What the four lines of one read of the pair say.
    pub open spec fn text_record(self, mate: MateNumber) -> TextRecord {
        TextRecord {
            header: header_text(self.id, mate),
            sequence: self.sequence_of(mate),
            quality: self.quality_of(mate),
        }
    }

    /// Whether one read of the pair can be written as four lines: neither its
    /// identifier nor its bases nor its quality scores hold a newline.
    pub open spec fn fits_lines(self, mate: MateNumber) -> bool {
        &&& is_one_line(encode_utf8(self.id))
        &&& is_one_line(self.sequence_of(mate))
        &&& is_one_line(self.quality_of(mate))
    }
}

/// The text of the file of one mate number after the blocks of `pairs` were
/// appended to it in their order.
pub open spec fn file_text(pairs: Seq<PairedReads>, mate: MateNumber) -> Seq<u8>
    decreases pairs.len(),
{
    if pairs.len() == 0 {
        Seq::empty()
    } else {
        file_text(pairs.drop_last(), mate) + pairs.last().block(mate)
    }
}

/// What the files of `pairs` say, read by read.
pub open spec fn text_records(pairs: Seq<PairedReads>, mate: MateNumber) -> Seq<TextRecord> {
    Seq::new(pairs.len(), |i: int| pairs[i].text_record(mate))
}

/// A line without a newline, followed by a newline, ends where the newline
/// stands.
proof fn line_end_of_line(line: Seq<u8>, rest: Seq<u8>)
    requires
        is_one_line(line),
    ensures
        line_end(line + seq![NEWLINE] + rest) == line.len(),
    decreases line.len(),
{
    let text = line + seq![NEWLINE] + rest;
    if line.len() == 0 {
    } else {
        assert(text.skip(1) =~= line.skip(1) + seq![NEWLINE] + rest);
        line_end_of_line(line.skip(1), rest);
    }
}

/// Splitting the first line off gives back a line that was written with its
/// newline, and the text behind it.
pub proof fn split_line_of_line(line: Seq<u8>, rest: Seq<u8>)
    requires
        is_one_line(line),
    ensures
        split_line(line + seq![NEWLINE] + rest) == Some((line, rest)),
{
    let text = line + seq![NEWLINE] + rest;
    line_end_of_line(line, rest);
    assert(text.take(line.len() as int) =~= line);
    assert(text.skip(line.len() as int + 1) =~= rest);
}

/// Reading the four lines of a read gives back its header, its bases and its
/// quality scores, and the text behind the four lines.
pub proof fn parse_record_of_block(
    header: Seq<u8>,
    sequence: Seq<u8>,
    quality: Seq<u8>,
    rest: Seq<u8>,
)
    requires
        is_one_line(header),
        is_one_line(sequence),
        is_one_line(quality),
    ensures
        parse_record(block_text(header, sequence, quality) + rest) == Some(
            (TextRecord { header, sequence, quality }, rest),
        ),
{
    let text = block_text(header, sequence, quality) + rest;
    let first = seq![HEADER_MARK] + header;
    let third = seq![SEPARATOR];
    let after_third = quality + seq![NEWLINE] + rest;
    let after_sequence = third + seq![NEWLINE] + after_third;
    let after_first = sequence + seq![NEWLINE] + after_sequence;
    assert(text =~= first + seq![NEWLINE] + after_first);
    split_line_of_line(first, after_first);
    split_line_of_line(sequence, after_sequence);
    split_line_of_line(third, after_third);
    split_line_of_line(quality, rest);
    assert(first.skip(1) =~= header);
}

/// The text of a file begins with the block of its first pair.
proof fn file_text_from_the_front(pairs: Seq<PairedReads>, mate: MateNumber)
    requires
        pairs.len() > 0,
    ensures
        file_text(pairs, mate) == pairs[0].block(mate) + file_text(pairs.skip(1), mate),
    decreases pairs.len(),
{
    if pairs.len() == 1 {
        assert(pairs.drop_last() =~= Seq::<PairedReads>::empty());
        assert(pairs.skip(1) =~= Seq::<PairedReads>::empty());
        assert(file_text(pairs, mate) =~= pairs[0].block(mate) + file_text(pairs.skip(1), mate));
    } else {
        file_text_from_the_front(pairs.drop_last(), mate);
        assert(pairs.drop_last().skip(1) =~= pairs.skip(1).drop_last());
        assert(file_text(pairs, mate) =~= pairs[0].block(mate) + file_text(pairs.skip(1), mate));
    }
}

/// Appending the block of one more pair to a file gives the file of the
/// pairs with that pair at their end.
pub proof fn file_text_of_push(pairs: Seq<PairedReads>, pair: PairedReads, mate: MateNumber)
    ensures
        file_text(pairs.push(pair), mate) == file_text(pairs, mate) + pair.block(mate),
{
    assert(pairs.push(pair).drop_last() =~= pairs);
}

/// Reading a file back gives the reads that were written to it, one for each
/// pair and in the order of the pairs, if each of them can be written as four
/// lines.
pub proof fn parse_of_file_text(pairs: Seq<PairedReads>, mate: MateNumber)
    requires
        forall|i: int| 0 <= i < pairs.len() ==> (#[trigger] pairs[i]).fits_lines(mate),
    ensures
        parse_records(file_text(pairs, mate)) == Some(text_records(pairs, mate)),
    decreases pairs.len(),
{
    if pairs.len() == 0 {
        assert(text_records(pairs, mate) =~= Seq::<TextRecord>::empty());
    } else {
        let pair = pairs[0];
        let tail = pairs.skip(1);
        let rest = file_text(tail, mate);
        let header = header_text(pair.id, mate);
        file_text_from_the_front(pairs, mate);
        parse_record_of_block(header, pair.sequence_of(mate), pair.quality_of(mate), rest);
        assert forall|i: int| 0 <= i < tail.len() implies (#[trigger] tail[i]).fits_lines(
            mate,
        ) by {
        }
        parse_of_file_text(tail, mate);
        assert(text_records(pairs, mate) =~= seq![pair.text_record(mate)] + text_records(
            tail,
            mate,
        ));
    }
}

/// The bytes of an identifier are its characters, and none of them is a
/// newline.
pub proof fn read_id_is_one_line(index: int)
    ensures
        is_ascii_chars(read_id(index)),
        encode_utf8(read_id(index)).len() == read_id(index).len(),
        is_one_line(encode_utf8(read_id(index))),
{
    let id = read_id(index);
    read_id_is_plain(index);
    assert forall|i: int| 0 <= i < id.len() implies '\0' <= #[trigger] id[i] <= '\u{7f}' by {
        assert(is_id_char(id[i]));
    }
    is_ascii_chars_encode_utf8(id);
    assert forall|i: int| 0 <= i < encode_utf8(id).len() implies #[trigger] encode_utf8(id)[i]
        != NEWLINE by {
        assert(is_id_char(id[i]));
    }
}

/// Both reads of a generated pair can be written as four lines.
pub proof fn generated_pair_fits_lines(
    pair: PairedReads,
    read_length: nat,
    index: int,
    mate: MateNumber,
)
    requires
        pair.is_generated(read_length, index),
    ensures
        pair.fits_lines(mate),
        pair.sequence_of(mate).len() == read_length,
        pair.quality_of(mate).len() == read_length,
{
    read_id_is_one_line(index);
    generated_pair_alphabet(pair, read_length, index);
    generated_pair_qualities(pair, read_length, index);
    assert forall|i: int| 0 <= i < pair.sequence_of(mate).len() implies #[trigger] pair.sequence_of(
        mate,
    )[i] != NEWLINE by {
        assert(is_base(pair.sequence_of(mate)[i]));
    }
    assert forall|i: int| 0 <= i < pair.quality_of(mate).len() implies #[trigger] pair.quality_of(
        mate,
    )[i] != NEWLINE by {
        assert(is_quality(pair.quality_of(mate)[i]));
    }
}

/// Reading back either file of a run gives as many reads as pairs were
/// generated, each with as many bases and as many quality scores as the read
/// length, and each under the identifier of its position.
pub proof fn parse_of_generated_file(pairs: Seq<PairedReads>, read_length: nat, mate: MateNumber)
    requires
        forall|i: int| 0 <= i < pairs.len() ==> (#[trigger] pairs[i]).is_generated(read_length, i),
    ensures
        parse_records(file_text(pairs, mate)) == Some(text_records(pairs, mate)),
        text_records(pairs, mate).len() == pairs.len(),
        forall|i: int|
            0 <= i < pairs.len() ==> (#[trigger] text_records(pairs, mate)[i]).header
                == header_text(read_id(i), mate),
        forall|i: int|
            0 <= i < pairs.len() ==> (#[trigger] text_records(pairs, mate)[i]).sequence.len()
                == read_length,
        forall|i: int|
            0 <= i < pairs.len() ==> (#[trigger] text_records(pairs, mate)[i]).quality.len()
                == read_length,
{
    assert forall|i: int| 0 <= i < pairs.len() implies (#[trigger] pairs[i]).fits_lines(mate) by {
        generated_pair_fits_lines(pairs[i], read_length, i, mate);
    }
    parse_of_file_text(pairs, mate);
    assert forall|i: int| 0 <= i < pairs.len() implies (#[trigger] text_records(
        pairs,
        mate,
    )[i]).sequence.len() == read_length && text_records(pairs, mate)[i].quality.len()
        == read_length by {
        generated_pair_fits_lines(pairs[i], read_length, i, mate);
    }
}

} // verus!
