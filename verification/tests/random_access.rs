use hello_apps::random_access::{random_access_script, ByteFile, FileOp};

#[test]
fn demo_script_reads_back_patched_text() {
    let mut file = ByteFile::new();
    let mut reads = Vec::new();
    for op in random_access_script().iter() {
        if let Some(bytes) = file.apply(op) {
            reads.push(bytes);
        }
    }
    assert_eq!(reads.len(), 1);
    assert_eq!(String::from_utf8(reads[0].clone()).unwrap(), "Hello, world random access!");
    assert_eq!(file.contents().as_slice(), b"Hello, world random access!");
    assert_eq!(file.position(), 27);
}

#[test]
fn demo_script_shape() {
    let ops = random_access_script();
    assert_eq!(ops.len(), 5);
    assert_eq!(ops[0], FileOp::Write(b"Hello, Rust  random access!".to_vec()));
    assert_eq!(ops[1], FileOp::SeekStart(7));
    assert_eq!(ops[2], FileOp::Write(b"world".to_vec()));
    assert_eq!(ops[3], FileOp::SeekStart(0));
    assert_eq!(ops[4], FileOp::ReadToEnd);
}

#[test]
fn write_past_end_fills_gap_with_zeros() {
    let mut file = ByteFile::new();
    file.write_all(b"ab");
    file.seek_start(4);
    file.write_all(b"cd");
    assert_eq!(file.contents().as_slice(), &[b'a', b'b', 0, 0, b'c', b'd']);
    assert_eq!(file.position(), 6);
}

#[test]
fn overwrite_inside_keeps_tail() {
    let mut file = ByteFile::new();
    file.write_all(b"abcdef");
    file.seek_start(1);
    file.write_all(b"XY");
    assert_eq!(file.position(), 3);
    assert_eq!(file.read_to_end(), b"def".to_vec());
    file.seek_start(0);
    assert_eq!(file.read_to_end(), b"aXYdef".to_vec());
    assert_eq!(file.position(), 6);
}

#[test]
fn read_past_end_reads_nothing_and_keeps_cursor() {
    let mut file = ByteFile::new();
    file.write_all(b"abc");
    file.seek_start(10);
    assert!(file.read_to_end().is_empty());
    assert_eq!(file.position(), 10);
    assert_eq!(file.contents().len(), 3);
}

#[test]
fn empty_write_changes_nothing() {
    let mut file = ByteFile::new();
    file.write_all(b"abc");
    file.seek_start(1);
    file.write_all(b"");
    assert_eq!(file.contents().as_slice(), b"abc");
    assert_eq!(file.position(), 1);
}

#[test]
fn empty_write_past_end_does_not_extend() {
    let mut file = ByteFile::new();
    file.write_all(b"ab");
    file.seek_start(5);
    file.write_all(b"");
    assert_eq!(file.contents().as_slice(), b"ab");
    assert_eq!(file.position(), 5);
    let mut fresh = ByteFile::new();
    fresh.seek_start(3);
    assert_eq!(fresh.apply(&FileOp::Write(Vec::new())), None);
    assert!(fresh.contents().is_empty());
    assert_eq!(fresh.position(), 3);
}
