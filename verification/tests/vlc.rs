use hevc_player::vlc::{encode_vlc_value, parse_vlc_value, VLC_SAFE_LEN};

fn decode_at(data: &[u8], start: usize) -> (Option<u32>, usize) {
    assert!(data.len() <= VLC_SAFE_LEN);
    let mut offset = start;
    let value = parse_vlc_value(data, &mut offset);
    (value, offset)
}

#[test]
fn single_byte_is_its_own_value() {
    assert_eq!(decode_at(&[7, 9], 0), (Some(7), 1));
    assert_eq!(decode_at(&[0], 0), (Some(0), 1));
    assert_eq!(decode_at(&[254], 0), (Some(254), 1));
}

#[test]
fn first_byte_below_escape_ends_the_code() {
    // Two bytes below 0xFF: only the first one is consumed.
    assert_eq!(decode_at(&[1, 2], 0), (Some(1), 1));
}

#[test]
fn escape_bytes_add_255_each() {
    assert_eq!(decode_at(&[0xFF, 0], 0), (Some(255), 2));
    assert_eq!(decode_at(&[0xFF, 1], 0), (Some(256), 2));
    assert_eq!(decode_at(&[0xFF, 0xFF, 3, 1], 0), (Some(513), 3));
    assert_eq!(decode_at(&[0xFF, 0xFF, 0xFF, 254], 0), (Some(3 * 255 + 254), 4));
}

#[test]
fn run_of_k_escapes_and_terminator_gives_255k_plus_b() {
    for k in 0..40usize {
        for b in [0u8, 1, 17, 254] {
            let mut data = vec![0xFFu8; k];
            data.push(b);
            data.push(0xFF);
            let expected = 255 * k as u32 + b as u32;
            assert_eq!(decode_at(&data, 0), (Some(expected), k + 1));
        }
    }
}

#[test]
fn value_is_sum_of_consumed_bytes() {
    let data = [0xFFu8, 0xFF, 0xFF, 0xFF, 100, 5, 6];
    let (value, end) = decode_at(&data, 0);
    let sum: u32 = data[..end].iter().map(|b| *b as u32).sum();
    assert_eq!(value, Some(sum));
    assert_eq!(end, 5);
}

#[test]
fn decoding_starts_at_the_cursor() {
    let data = [9u8, 0xFF, 4, 0xFF];
    assert_eq!(decode_at(&data, 1), (Some(259), 3));
    assert_eq!(decode_at(&data, 2), (Some(4), 3));
}

#[test]
fn empty_buffer_is_insufficient() {
    assert_eq!(decode_at(&[], 0), (None, 0));
}

#[test]
fn only_escapes_is_insufficient_and_cursor_rests_at_end() {
    assert_eq!(decode_at(&[0xFF], 0), (None, 1));
    assert_eq!(decode_at(&[0xFF, 0xFF, 0xFF], 0), (None, 3));
    assert_eq!(decode_at(&[3, 0xFF, 0xFF], 1), (None, 3));
}

#[test]
fn every_truncation_of_a_code_is_insufficient() {
    let code = [0xFFu8, 0xFF, 0xFF, 0xFF, 0xFF, 42];
    for cut in 0..code.len() {
        assert_eq!(decode_at(&code[..cut], 0), (None, cut));
    }
    assert_eq!(decode_at(&code, 0), (Some(5 * 255 + 42), 6));
}

#[test]
fn cursor_at_or_past_the_end_is_insufficient_and_stays() {
    assert_eq!(decode_at(&[1, 2, 3], 3), (None, 3));
    assert_eq!(decode_at(&[1, 2, 3], 7), (None, 7));
}

#[test]
fn encoding_writes_escapes_then_remainder() {
    let mut out = Vec::new();
    encode_vlc_value(0, &mut out);
    assert_eq!(out, vec![0]);
    out.clear();
    encode_vlc_value(254, &mut out);
    assert_eq!(out, vec![254]);
    out.clear();
    encode_vlc_value(255, &mut out);
    assert_eq!(out, vec![0xFF, 0]);
    out.clear();
    encode_vlc_value(600, &mut out);
    assert_eq!(out, vec![0xFF, 0xFF, 90]);
}

#[test]
fn encoding_appends_to_what_is_there() {
    let mut out = vec![1u8, 2];
    encode_vlc_value(256, &mut out);
    assert_eq!(out, vec![1, 2, 0xFF, 1]);
}

#[test]
fn encoding_round_trips() {
    for value in [0u32, 1, 5, 254, 255, 256, 509, 510, 511, 1000, 65_535, 100_000] {
        let mut out = vec![0xAAu8];
        encode_vlc_value(value, &mut out);
        out.push(0x55);
        let end = out.len() - 1;
        assert_eq!(out.len() as u32, 1 + value / 255 + 1 + 1);
        assert_eq!(decode_at(&out, 1), (Some(value), end));
    }
}
