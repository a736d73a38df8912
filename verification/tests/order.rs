use tonic_lnd::decimal::decimal_text;
use tonic_lnd::order::{lex_le_bytes, same_bytes, sorted};

#[test]
fn lexicographic_order_of_byte_strings() {
    assert!(lex_le_bytes(b"", b""));
    assert!(lex_le_bytes(b"", b"a"));
    assert!(!lex_le_bytes(b"a", b""));
    assert!(lex_le_bytes(b"abc", b"abc"));
    assert!(lex_le_bytes(b"ab", b"abc"));
    assert!(!lex_le_bytes(b"abc", b"ab"));
    assert!(lex_le_bytes(b"abc", b"abd"));
    assert!(!lex_le_bytes(b"abd", b"abc"));
    assert!(lex_le_bytes(&[0x00, 0xff], &[0x01]));
    assert!(!lex_le_bytes(&[0x80], &[0x7f, 0xff]));
}

#[test]
fn lexicographic_order_agrees_with_the_order_of_slices() {
    let samples: [&[u8]; 6] = [b"", b"a", b"ab", b"b", &[0xff], &[0x00, 0x00]];
    for x in samples.iter() {
        for y in samples.iter() {
            assert_eq!(lex_le_bytes(x, y), x <= y);
            assert_eq!(same_bytes(x, y), x == y);
        }
    }
}

#[test]
fn sorted_lines_up_and_keeps_everything() {
    let items: Vec<&[u8]> = vec![b"pear", b"apple", b"fig", b"apple", b"", b"app"];
    let out = sorted(&items);
    let expected: Vec<&[u8]> = vec![b"", b"app", b"apple", b"apple", b"fig", b"pear"];
    assert_eq!(out, expected);
    let nothing: Vec<&[u8]> = Vec::new();
    assert_eq!(sorted(&nothing), nothing);
}

#[test]
fn decimal_text_of_counts() {
    assert_eq!(decimal_text(0), "0");
    assert_eq!(decimal_text(7), "7");
    assert_eq!(decimal_text(10), "10");
    assert_eq!(decimal_text(4096), "4096");
    assert_eq!(decimal_text(usize::MAX), usize::MAX.to_string());
}
