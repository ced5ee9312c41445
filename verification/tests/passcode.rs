use passcode::code::{generate, Code, DecodeError, DIGIT_HI, DIGIT_LO, LEN};
use rand::rngs::OsRng;

fn digits(n: usize) -> Vec<u8> {
    (0..n).map(|i| b'0' + (i % 10) as u8).collect()
}

#[test]
fn length_constant() {
    assert_eq!(LEN, 24);
    assert_eq!(DIGIT_LO, b'0');
    assert_eq!(DIGIT_HI, b'9');
}

#[test]
fn generated_passcode_is_24_digit_bytes() {
    let mut rng = OsRng;
    let code = generate(&mut rng);
    let bytes = code.encode();
    assert_eq!(bytes.len(), 24);
    assert!(bytes.iter().all(u8::is_ascii_digit));
}

#[test]
fn method_generate_matches_free_function_contract() {
    let mut rng = OsRng;
    let code = Code::generate(&mut rng);
    let bytes = code.into_inner();
    assert_eq!(bytes.len(), 24);
    assert!(bytes.iter().all(u8::is_ascii_digit));
}

#[test]
fn decode_then_encode_round_trips() {
    let buffer = b"123456789012345678901234".to_vec();
    let code = Code::decode(&buffer).unwrap();
    assert_eq!(code.encode(), buffer);
}

#[test]
fn decode_then_encode_round_trips_on_varied_digits() {
    for first in b'0'..=b'9' {
        let mut buffer = digits(24);
        buffer[0] = first;
        let code = Code::decode(&buffer).unwrap();
        assert_eq!(code.encode(), buffer);
    }
}

#[test]
fn decode_preserves_bytes_exactly() {
    let buffer = b"998877665544332211009988".to_vec();
    let code = Code::decode(&buffer).unwrap();
    assert_eq!(code.as_bytes(), &buffer);
    assert_eq!(code.into_inner(), buffer);
}

#[test]
fn decode_rejects_23_bytes() {
    let buffer = digits(23);
    assert_eq!(Code::decode(&buffer).unwrap_err(), DecodeError::LengthMismatch);
}

#[test]
fn decode_rejects_25_bytes() {
    let buffer = digits(25);
    assert_eq!(Code::decode(&buffer).unwrap_err(), DecodeError::LengthMismatch);
}

#[test]
fn decode_rejects_empty_buffer() {
    assert_eq!(Code::decode(&[]).unwrap_err(), DecodeError::LengthMismatch);
}

#[test]
fn decode_rejects_byte_below_digit_range() {
    let mut buffer = digits(24);
    buffer[7] = 0x2F;
    assert_eq!(Code::decode(&buffer).unwrap_err(), DecodeError::InvalidDigit);
}

#[test]
fn decode_rejects_byte_above_digit_range() {
    let mut buffer = digits(24);
    buffer[23] = 0x3A;
    assert_eq!(Code::decode(&buffer).unwrap_err(), DecodeError::InvalidDigit);
}

#[test]
fn length_check_comes_before_digit_check() {
    let mut buffer = digits(23);
    buffer[0] = b'x';
    assert_eq!(Code::decode(&buffer).unwrap_err(), DecodeError::LengthMismatch);
}

#[test]
fn render_all_zeros() {
    let buffer = b"000000000000000000000000".to_vec();
    let code = Code::decode(&buffer).unwrap();
    assert_eq!(code.render_as_text(), "000000000000000000000000");
}

#[test]
fn render_mixed_digits() {
    let buffer = b"123456789012345678901234".to_vec();
    let code = Code::decode(&buffer).unwrap();
    assert_eq!(code.render_as_text(), "123456789012345678901234");
}

#[test]
fn chars_match_bytes() {
    let buffer = b"555544443333222211110000".to_vec();
    let code = Code::decode(&buffer).unwrap();
    let chars = code.as_chars();
    assert_eq!(chars.len(), 24);
    for (c, b) in chars.iter().zip(buffer.iter()) {
        assert_eq!(*c, *b as char);
    }
}

#[test]
fn generation_is_digit_uniform() {
    // Chi-square goodness-of-fit over the ten digit counts. With 48000
    // draws the statistic has nine degrees of freedom; 35.0 is far past
    // the 0.001 quantile (27.88), so a fair sampler virtually never
    // fails while a biased or constant one always does.
    let mut rng = OsRng;
    let mut counts = [0u64; 10];
    for _ in 0..2000 {
        for b in generate(&mut rng).into_inner() {
            counts[(b - b'0') as usize] += 1;
        }
    }
    let expected = 4800.0_f64;
    let chi2: f64 = counts
        .iter()
        .map(|&c| {
            let d = c as f64 - expected;
            d * d / expected
        })
        .sum();
    assert!(chi2 < 35.0, "chi-square statistic too large: {chi2}");
    assert!(counts.iter().all(|&c| c > 0));
}

#[test]
fn consecutive_generations_differ() {
    let mut rng = OsRng;
    let mut seen: Vec<Vec<u8>> = Vec::new();
    for _ in 0..100 {
        seen.push(generate(&mut rng).into_inner());
    }
    for i in 0..seen.len() {
        for j in (i + 1)..seen.len() {
            assert_ne!(seen[i], seen[j]);
        }
    }
}
