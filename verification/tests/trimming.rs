use cio::bytes::{copy_of, same_bytes, strip_line_feeds, trim};

#[test]
fn trim_keeps_line_feeds() {
    assert_eq!(trim(b"\n\nhi\n\n"), b"\n\nhi\n\n".to_vec());
}

#[test]
fn trim_drops_tabs_and_spaces_at_both_ends() {
    assert_eq!(trim(b" \t hi \t "), b"hi".to_vec());
}

#[test]
fn trim_of_blanks_only_is_empty() {
    assert_eq!(trim(b"   "), Vec::<u8>::new());
    assert_eq!(trim(b"\t"), Vec::<u8>::new());
}

#[test]
fn trim_of_empty_is_empty() {
    assert_eq!(trim(b""), Vec::<u8>::new());
}

#[test]
fn trim_keeps_inner_blanks() {
    assert_eq!(trim(b"  a \t b  "), b"a \t b".to_vec());
}

#[test]
fn trim_keeps_other_control_bytes() {
    assert_eq!(trim(b"\r hi \x0c"), b"\r hi \x0c".to_vec());
    assert_eq!(trim(b" \x0bhi\x00 "), b"\x0bhi\x00".to_vec());
}

#[test]
fn trim_of_one_byte() {
    assert_eq!(trim(b"x"), b"x".to_vec());
    assert_eq!(trim(b" x"), b"x".to_vec());
    assert_eq!(trim(b"x "), b"x".to_vec());
}

#[test]
fn trim_twice_is_trim_once() {
    let inputs: Vec<&[u8]> = vec![b"", b" ", b" a ", b"\t\ta b\t", b"\n x \n", b"abc"];
    for input in inputs {
        let once = trim(input);
        assert_eq!(trim(&once), once);
    }
}

#[test]
fn trim_result_has_no_blank_at_either_end() {
    let inputs: Vec<&[u8]> = vec![b"  a b  ", b"\t\tq", b"z \t", b" \n "];
    for input in inputs {
        let out = trim(input);
        assert!(!out.is_empty());
        assert!(out[0] != b' ' && out[0] != b'\t');
        assert!(out[out.len() - 1] != b' ' && out[out.len() - 1] != b'\t');
    }
}

#[test]
fn strip_line_feeds_removes_each_line_feed() {
    assert_eq!(strip_line_feeds(b"aGVs\nbG8K\n"), b"aGVsbG8K".to_vec());
    assert_eq!(strip_line_feeds(b"\n\n"), Vec::<u8>::new());
    assert_eq!(strip_line_feeds(b"a\r\nb"), b"a\rb".to_vec());
    assert_eq!(strip_line_feeds(b""), Vec::<u8>::new());
}

#[test]
fn same_bytes_compares_contents() {
    assert!(same_bytes(b"", b""));
    assert!(same_bytes(b"abc", b"abc"));
    assert!(!same_bytes(b"abc", b"abd"));
    assert!(!same_bytes(b"abc", b"ab"));
    assert!(!same_bytes(b"", b"a"));
}

#[test]
fn copy_of_copies() {
    assert_eq!(copy_of(b"hello\n"), b"hello\n".to_vec());
    assert_eq!(copy_of(b""), Vec::<u8>::new());
}
