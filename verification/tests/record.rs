use paired_fastq::record::{reversed, PairedFastqRecord, QUALITY_END, QUALITY_MIN};

#[test]
fn quality_range_is_33_to_74() {
    assert_eq!(QUALITY_MIN, 33);
    assert_eq!(QUALITY_END, 74);
    assert_eq!(QUALITY_END - QUALITY_MIN, 41);
}

#[test]
fn reversed_reads_a_line_from_back_to_front() {
    assert_eq!(reversed(b"!5?I"), b"I?5!".to_vec());
    assert_eq!(reversed(b"x"), b"x".to_vec());
    assert_eq!(reversed(b""), Vec::<u8>::new());
}

#[test]
fn reversed_twice_gives_the_line_back() {
    let line = b"!\"#$%&'()*+,-./0123456789:;<=>?@ABCDEFGHI".to_vec();
    let back = reversed(&line);
    assert_ne!(back, line);
    assert_eq!(reversed(&back), line);
}

#[test]
fn pair_of_a_forward_read_has_the_derived_mate() {
    let record = PairedFastqRecord::from_forward_read(3, b"AACG".to_vec(), b"!5?I".to_vec());
    assert_eq!(record.id, "READ_000003");
    assert_eq!(record.seq, b"AACG".to_vec());
    assert_eq!(record.mate, b"CGTT".to_vec());
    assert_eq!(record.quality_1, b"!5?I".to_vec());
    assert_eq!(record.quality_2, b"I?5!".to_vec());
}

#[test]
fn pair_of_an_empty_read_is_empty() {
    let record = PairedFastqRecord::from_forward_read(0, Vec::new(), Vec::new());
    assert_eq!(record.id, "READ_000000");
    assert!(record.seq.is_empty());
    assert!(record.mate.is_empty());
    assert!(record.quality_1.is_empty());
    assert!(record.quality_2.is_empty());
}

#[test]
fn quality_scores_of_the_mate_are_not_complemented() {
    let record = PairedFastqRecord::from_forward_read(12, b"ATCG".to_vec(), b"ATCG".to_vec());
    assert_eq!(record.mate, b"CGAT".to_vec());
    assert_eq!(record.quality_2, b"GCTA".to_vec());
}
