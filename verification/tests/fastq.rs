use paired_fastq::fastq::{MateNumber, HEADER_MARK, NEWLINE, SEPARATOR};
use paired_fastq::record::PairedFastqRecord;

#[test]
fn bytes_of_the_format() {
    assert_eq!(NEWLINE, b'\n');
    assert_eq!(HEADER_MARK, b'@');
    assert_eq!(SEPARATOR, b'+');
    assert_eq!(MateNumber::One.digit(), b'1');
    assert_eq!(MateNumber::Two.digit(), b'2');
}

#[test]
fn forward_block_is_four_lines_with_mate_number_1() {
    let record = PairedFastqRecord::from_forward_read(3, b"AACG".to_vec(), b"!5?I".to_vec());
    assert_eq!(record.forward_block(), b"@READ_000003 /1\nAACG\n+\n!5?I\n".to_vec());
    assert_eq!(record.block(MateNumber::One), record.forward_block());
}

#[test]
fn mate_block_is_four_lines_with_mate_number_2() {
    let record = PairedFastqRecord::from_forward_read(3, b"AACG".to_vec(), b"!5?I".to_vec());
    assert_eq!(record.mate_block(), b"@READ_000003 /2\nCGTT\n+\nI?5!\n".to_vec());
    assert_eq!(record.block(MateNumber::Two), record.mate_block());
}

#[test]
fn block_of_an_empty_read_keeps_its_four_lines() {
    let record = PairedFastqRecord::from_forward_read(0, Vec::new(), Vec::new());
    assert_eq!(record.forward_block(), b"@READ_000000 /1\n\n+\n\n".to_vec());
    assert_eq!(record.mate_block(), b"@READ_000000 /2\n\n+\n\n".to_vec());
}

#[test]
fn block_writes_the_fields_as_they_are() {
    let record = PairedFastqRecord {
        id: String::from("pair é"),
        seq: b"ACNN".to_vec(),
        mate: b"TTTT".to_vec(),
        quality_1: b"~~~~".to_vec(),
        quality_2: b"    ".to_vec(),
    };
    assert_eq!(record.forward_block(), "@pair é /1\nACNN\n+\n~~~~\n".as_bytes().to_vec());
    assert_eq!(record.mate_block(), "@pair é /2\nTTTT\n+\n    \n".as_bytes().to_vec());
}

#[test]
fn separator_line_is_bare() {
    let record = PairedFastqRecord::from_forward_read(41, b"GATTACA".to_vec(), b"IIIIIII".to_vec());
    let block = record.forward_block();
    let lines: Vec<&[u8]> = block.split(|b| *b == b'\n').collect();
    assert_eq!(lines.len(), 5);
    assert_eq!(lines[0], b"@READ_000041 /1");
    assert_eq!(lines[1], b"GATTACA");
    assert_eq!(lines[2], b"+");
    assert_eq!(lines[3], b"IIIIIII");
    assert_eq!(lines[4], b"");
}
