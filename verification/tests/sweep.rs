use depot_gbk::classifier::{is_escape_label, scan_input, InputKind, FULL_CONFIDENCE_BITS};
use depot_gbk::{detect_charset, detect_encoding_detailed, is_likely_gbk, is_utf8};

fn step(state: &mut u64) -> u64 {
    *state = state.wrapping_mul(6364136223846793005).wrapping_add(1442695040888963407);
    *state >> 33
}

fn check(data: &[u8]) {
    let result = detect_encoding_detailed(data);
    assert!(!result.charset.is_empty());
    assert!(result.confidence_bits <= FULL_CONFIDENCE_BITS);
    assert_eq!(result.is_valid_utf8, std::str::from_utf8(data).is_ok());
    assert_eq!(result.is_valid_utf8, is_utf8(data));
    assert_eq!(result.charset, detect_charset(data));
    match scan_input(data) {
        InputKind::Empty => {
            assert_eq!(result.charset, "unknown");
            assert_eq!(result.confidence_bits, 0);
        }
        InputKind::Escaped => {
            let mut detector = chardet::UniversalDetector::new();
            detector.feed(data);
            detector.feed(&[0x80]);
            let (label, _, _) = detector.close();
            if is_escape_label(&label) {
                let (charset, confidence, language) = chardet::detect(data);
                assert_eq!(charset, label);
                assert_eq!(result.charset, charset, "{:?}", data);
                assert_eq!(result.confidence_bits, confidence.to_bits());
                assert_eq!(result.language, language);
            } else {
                assert_eq!(result.charset, "unknown", "{:?}", data);
                assert_eq!(result.confidence_bits, 0);
                assert_eq!(result.language, "");
            }
        }
        InputKind::Plain => {
            assert_eq!(result.charset, "ascii");
            assert_eq!(result.confidence_bits, FULL_CONFIDENCE_BITS);
        }
        InputKind::HighByte => {
            let (charset, confidence, language) = chardet::detect(data);
            assert_eq!(result.confidence_bits, confidence.to_bits(), "{:?}", data);
            assert_eq!(result.language, language);
            if !charset.is_empty() {
                assert_eq!(result.charset, charset);
            }
        }
    }
    let _ = is_likely_gbk(data);
}

#[test]
fn sweep_short_buffers() {
    for a in 0u16..=255 {
        check(&[a as u8]);
        for b in 0u16..=255 {
            check(&[a as u8, b as u8]);
        }
    }
}

#[test]
fn sweep_three_byte_buffers() {
    let picks: [u8; 24] = [
        0x00, 0x1B, 0x20, 0x41, 0x7E, 0x7F, 0x80, 0x81, 0x8E, 0x8F, 0x9F, 0xA0, 0xA1, 0xB0, 0xBF, 0xC0,
        0xC4, 0xDF, 0xE0, 0xEF, 0xF4, 0xFC, 0xFE, 0xFF,
    ];
    for a in picks {
        for b in picks {
            for c in picks {
                check(&[a, b, c]);
                for d in picks {
                    check(&[a, b, c, d]);
                }
            }
        }
    }
}

#[test]
fn sweep_generated_buffers() {
    let mut state: u64 = 0x9E3779B97F4A7C15;
    for round in 0..20000u64 {
        let len = (step(&mut state) % 96) as usize;
        let mode = round % 5;
        let mut data = Vec::with_capacity(len);
        for _ in 0..len {
            let r = step(&mut state);
            let byte = match mode {
                0 => (r & 0xFF) as u8,
                1 => 0x80 | (r & 0x7F) as u8,
                2 => 0xA1 + (r % 94) as u8,
                3 => if r & 1 == 0 { (r >> 1 & 0x7F) as u8 } else { 0x80 | (r >> 1 & 0x7F) as u8 },
                _ => if r % 7 == 0 { 0x20 } else { 0xC0 + (r % 0x40) as u8 },
            };
            data.push(byte);
        }
        check(&data);
    }
}

#[test]
fn sweep_escape_sequences() {
    let picks: [u8; 16] = [
        0x1B, b'$', b'(', b')', b'@', b'A', b'B', b'C', b'D', b'J', b'I', b'N', b'~', b'{', b'}', 0x0A,
    ];
    let mut recognised = 0;
    for a in picks {
        for b in picks {
            for c in picks {
                for d in picks {
                    let data = [0x1B, a, b, c, d];
                    check(&data);
                    check(&data[1..]);
                    if detect_encoding_detailed(&data).charset != "unknown" {
                        recognised += 1;
                    }
                }
            }
        }
    }
    assert!(recognised > 0);
}

#[test]
fn sweep_long_buffers() {
    let mut state: u64 = 7;
    for round in 0..40u64 {
        let len = 3000 + (step(&mut state) % 3000) as usize;
        let mut data = Vec::with_capacity(len);
        for _ in 0..len {
            let r = step(&mut state);
            let byte = match round % 4 {
                0 => (r & 0xFF) as u8,
                1 => 0xA1 + (r % 94) as u8,
                2 => 0x81 + (r % 0x7E) as u8,
                _ => if r % 3 == 0 { (r >> 2 & 0x7F) as u8 } else { 0x80 | (r >> 2 & 0x7F) as u8 },
            };
            data.push(byte);
        }
        check(&data);
    }
}
