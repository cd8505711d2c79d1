use paired_fastq::run::{output_paths, GenerateArgs, GenerateError, GenerationRun};

fn args(n: i32, read_len: i32, outfile: &str) -> GenerateArgs {
    GenerateArgs { n, outfile: String::from(outfile), read_len }
}

/// The two files of a run, as the caller of the run writes them.
fn run_in_memory(n: i32, read_len: i32) -> (Vec<u8>, Vec<u8>) {
    let mut rng = rand::rng();
    let mut run = match GenerationRun::start(&args(n, read_len, "t")) {
        Ok(run) => run,
        Err(_) => panic!("the run did not start"),
    };
    let mut r1: Vec<u8> = Vec::new();
    let mut r2: Vec<u8> = Vec::new();
    let mut made: i32 = 0;
    while let Some(record) = run.next_record(&mut rng) {
        made += 1;
        assert_eq!(run.next_index(), made);
        r1.extend_from_slice(&record.forward_block());
        r2.extend_from_slice(&record.mate_block());
    }
    assert_eq!(made, n);
    (r1, r2)
}

/// The lines of a file; the last line must end with a newline too.
fn lines_of(text: &[u8]) -> Vec<Vec<u8>> {
    assert!(text.is_empty() || text[text.len() - 1] == b'\n');
    let mut lines: Vec<Vec<u8>> = text.split(|b| *b == b'\n').map(|l| l.to_vec()).collect();
    lines.pop();
    lines
}

/// The reads of a file: header without its `@`, bases, quality scores.
fn parse(text: &[u8]) -> Vec<(Vec<u8>, Vec<u8>, Vec<u8>)> {
    let lines = lines_of(text);
    assert_eq!(lines.len() % 4, 0);
    let mut records = Vec::new();
    for four in lines.chunks(4) {
        assert_eq!(four[0][0], b'@');
        assert_eq!(four[2], b"+".to_vec());
        records.push((four[0][1..].to_vec(), four[1].clone(), four[3].clone()));
    }
    records
}

fn reverse_complement_of(read: &[u8]) -> Vec<u8> {
    read.iter()
        .rev()
        .map(|b| match b {
            b'A' => b'T',
            b'T' => b'A',
            b'C' => b'G',
            b'G' => b'C',
            other => *other,
        })
        .collect()
}

#[test]
fn output_paths_append_the_two_suffixes() {
    let paths = output_paths("t");
    assert_eq!(paths.r1, "t_R1.fastq");
    assert_eq!(paths.r2, "t_R2.fastq");
    let paths = output_paths("out/synthetic_reads");
    assert_eq!(paths.r1, "out/synthetic_reads_R1.fastq");
    assert_eq!(paths.r2, "out/synthetic_reads_R2.fastq");
    let paths = output_paths("");
    assert_eq!(paths.r1, "_R1.fastq");
    assert_eq!(paths.r2, "_R2.fastq");
}

#[test]
fn run_does_not_start_without_reads() {
    assert!(matches!(
        GenerationRun::start(&args(0, 4, "t")),
        Err(GenerateError::InvalidParameters)
    ));
    assert!(matches!(
        GenerationRun::start(&args(-1, 4, "t")),
        Err(GenerateError::InvalidParameters)
    ));
    assert!(matches!(
        GenerationRun::start(&args(i32::MIN, 4, "t")),
        Err(GenerateError::InvalidParameters)
    ));
}

#[test]
fn run_does_not_start_without_a_read_length() {
    assert!(matches!(
        GenerationRun::start(&args(3, 0, "t")),
        Err(GenerateError::InvalidParameters)
    ));
    assert!(matches!(
        GenerationRun::start(&args(3, -150, "t")),
        Err(GenerateError::InvalidParameters)
    ));
    assert!(matches!(
        GenerationRun::start(&args(0, 0, "t")),
        Err(GenerateError::InvalidParameters)
    ));
}

#[test]
fn error_message_names_both_parameters() {
    assert_eq!(
        GenerateError::InvalidParameters.message(),
        "Number of reads and read length must be positive."
    );
}

#[test]
fn run_starts_with_positive_parameters() {
    let run = match GenerationRun::start(&args(3, 4, "t")) {
        Ok(run) => run,
        Err(_) => panic!("the run did not start"),
    };
    assert_eq!(run.num_reads(), 3);
    assert_eq!(run.read_length(), 4);
    assert_eq!(run.next_index(), 0);
    assert!(GenerationRun::start(&args(1, 1, "")).is_ok());
    assert!(GenerationRun::start(&args(i32::MAX, i32::MAX, "t")).is_ok());
}

#[test]
fn run_makes_its_pairs_in_order_and_then_stops() {
    let mut rng = rand::rng();
    let mut run = match GenerationRun::start(&args(3, 4, "t")) {
        Ok(run) => run,
        Err(_) => panic!("the run did not start"),
    };
    for index in 0..3 {
        assert_eq!(run.next_index(), index);
        let record = match run.next_record(&mut rng) {
            Some(record) => record,
            None => panic!("the run stopped early"),
        };
        assert_eq!(record.id, format!("READ_{:06}", index));
        assert_eq!(record.seq.len(), 4);
        assert_eq!(record.quality_1.len(), 4);
        assert_eq!(record.mate, reverse_complement_of(&record.seq));
    }
    assert_eq!(run.next_index(), 3);
    assert!(run.next_record(&mut rng).is_none());
    assert!(run.next_record(&mut rng).is_none());
    assert_eq!(run.next_index(), 3);
    assert_eq!(run.num_reads(), 3);
    assert_eq!(run.read_length(), 4);
}

#[test]
fn three_reads_of_length_four_make_twelve_lines_in_each_file() {
    let paths = output_paths("t");
    assert_eq!(paths.r1, "t_R1.fastq");
    assert_eq!(paths.r2, "t_R2.fastq");
    let (r1, r2) = run_in_memory(3, 4);
    let lines_1 = lines_of(&r1);
    let lines_2 = lines_of(&r2);
    assert_eq!(lines_1.len(), 12);
    assert_eq!(lines_2.len(), 12);
    assert_eq!(lines_1[0], b"@READ_000000 /1".to_vec());
    assert_eq!(lines_2[0], b"@READ_000000 /2".to_vec());
    assert_eq!(lines_1[4], b"@READ_000001 /1".to_vec());
    assert_eq!(lines_2[4], b"@READ_000001 /2".to_vec());
    assert_eq!(lines_1[8], b"@READ_000002 /1".to_vec());
    assert_eq!(lines_2[8], b"@READ_000002 /2".to_vec());
    assert_eq!(r1.len(), 3 * (16 + 5 + 2 + 5));
    assert_eq!(r2.len(), r1.len());
}

#[test]
fn files_read_back_give_the_reads_of_the_run() {
    let (r1, r2) = run_in_memory(25, 30);
    let reads_1 = parse(&r1);
    let reads_2 = parse(&r2);
    assert_eq!(reads_1.len(), 25);
    assert_eq!(reads_2.len(), 25);
    for index in 0..25usize {
        let (header_1, seq_1, quality_1) = &reads_1[index];
        let (header_2, seq_2, quality_2) = &reads_2[index];
        assert_eq!(header_1, format!("READ_{:06} /1", index).as_bytes());
        assert_eq!(header_2, format!("READ_{:06} /2", index).as_bytes());
        assert_eq!(seq_1.len(), 30);
        assert_eq!(seq_2.len(), 30);
        assert_eq!(quality_1.len(), 30);
        assert_eq!(quality_2.len(), 30);
        assert_eq!(seq_2, &reverse_complement_of(seq_1));
        let mut back = quality_1.clone();
        back.reverse();
        assert_eq!(quality_2, &back);
        assert!(seq_1.iter().all(|b| b"ATCG".contains(b)));
        assert!(quality_1.iter().all(|q| (33..74).contains(q)));
    }
}

#[test]
fn run_of_one_read_of_one_base() {
    let (r1, r2) = run_in_memory(1, 1);
    let reads_1 = parse(&r1);
    let reads_2 = parse(&r2);
    assert_eq!(reads_1.len(), 1);
    assert_eq!(reads_2.len(), 1);
    assert_eq!(reads_1[0].0, b"READ_000000 /1".to_vec());
    assert_eq!(reads_2[0].0, b"READ_000000 /2".to_vec());
    assert_eq!(reads_1[0].1.len(), 1);
    assert_eq!(reads_2[0].1, reverse_complement_of(&reads_1[0].1));
    assert_eq!(reads_1[0].2, reads_2[0].2);
}
