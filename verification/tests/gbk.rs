use depot_gbk::gbk::{exceeds_three_tenths, GBK_BYTE_MAX, GBK_BYTE_MIN};
use depot_gbk::is_likely_gbk;

/// `total` pairs, the first `gbk_like` of them in the GBK range.
fn pairs(gbk_like: usize, total: usize) -> Vec<u8> {
    let mut data = Vec::new();
    for k in 0..total {
        if k < gbk_like {
            data.push(0xB0);
            data.push(0xA1);
        } else {
            data.push(b'a');
            data.push(b'b');
        }
    }
    data
}

#[test]
fn test_is_likely_gbk() {
    assert!(!is_likely_gbk(&[]));

    let ascii = "Hello, world!";
    assert!(!is_likely_gbk(ascii.as_bytes()));
}

#[test]
fn gbk_threshold_is_strict() {
    assert!(!is_likely_gbk(&pairs(3, 10)), "exactly 30%");
    assert!(is_likely_gbk(&pairs(4, 10)), "40%");
    assert!(!is_likely_gbk(&pairs(2, 10)), "20%");
    assert!(!is_likely_gbk(&pairs(30, 100)), "exactly 30%");
    assert!(is_likely_gbk(&pairs(31, 100)), "31%");
    assert!(!is_likely_gbk(&pairs(300, 1000)), "exactly 30%");
    assert!(is_likely_gbk(&pairs(301, 1000)), "30.1%");
    assert!(is_likely_gbk(&pairs(1, 3)), "a third");
    assert!(!is_likely_gbk(&pairs(1, 4)), "a quarter");
    assert!(is_likely_gbk(&pairs(1, 1)));
    assert!(!is_likely_gbk(&pairs(0, 1)));
    assert!(is_likely_gbk(&pairs(7, 7)));
}

#[test]
fn gbk_pairs_do_not_overlap() {
    assert!(!is_likely_gbk(&[b'a', 0xB0, 0xA1, b'b']));
    assert!(is_likely_gbk(&[0xB0, 0xA1, b'a', b'b']));
    assert!(!is_likely_gbk(&[b'a', 0xB0, 0xA1, b'b', b'c', 0xB0]));
    assert!(is_likely_gbk(&[b'a', 0xB0, 0xA1, 0xB0, 0xA1, b'b']));
}

#[test]
fn gbk_ignores_a_trailing_byte() {
    assert!(!is_likely_gbk(&[0xB0]));
    assert!(is_likely_gbk(&[0xB0, 0xA1, b'a']));
    assert!(!is_likely_gbk(&[b'a', b'b', 0xB0]));
    let mut data = pairs(3, 10);
    data.push(0xB0);
    assert!(!is_likely_gbk(&data));
}

#[test]
fn gbk_range_is_inclusive() {
    assert_eq!(GBK_BYTE_MIN, 0xA1);
    assert_eq!(GBK_BYTE_MAX, 0xFE);
    assert!(is_likely_gbk(&[0xA1, 0xA1]));
    assert!(is_likely_gbk(&[0xFE, 0xFE]));
    assert!(is_likely_gbk(&[0xA1, 0xFE]));
    assert!(!is_likely_gbk(&[0xA0, 0xA1]));
    assert!(!is_likely_gbk(&[0xA1, 0xA0]));
    assert!(!is_likely_gbk(&[0xFF, 0xFE]));
    assert!(!is_likely_gbk(&[0xFE, 0xFF]));
    assert!(!is_likely_gbk(&[0xB0, 0x41]));
}

#[test]
fn gbk_encoded_text_is_likely_gbk() {
    let text: [u8; 8] = [0xD6, 0xD0, 0xCE, 0xC4, 0xB2, 0xE2, 0xCA, 0xD4];
    assert!(is_likely_gbk(&text));
}

#[test]
fn ascii_is_never_likely_gbk() {
    let all_ascii: Vec<u8> = (0u8..=0x7F).collect();
    assert!(!is_likely_gbk(&all_ascii));
    assert!(!is_likely_gbk(b"a"));
    assert!(!is_likely_gbk(b"ab"));
}

#[test]
fn three_tenths_is_exact() {
    assert!(!exceeds_three_tenths(0, 0));
    assert!(!exceeds_three_tenths(0, 1));
    assert!(!exceeds_three_tenths(3, 10));
    assert!(exceeds_three_tenths(4, 10));
    assert!(exceeds_three_tenths(1, 3));
    assert!(!exceeds_three_tenths(30_000_000, 100_000_000));
    assert!(exceeds_three_tenths(30_000_001, 100_000_000));
    assert!(!exceeds_three_tenths(29_999_999, 100_000_000));
    assert!(exceeds_three_tenths(usize::MAX, usize::MAX));
    assert!(!exceeds_three_tenths(1, usize::MAX));
}
