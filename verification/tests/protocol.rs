use ib_rust_api::decoder::Decoder;
use ib_rust_api::double::Double;
use ib_rust_api::fields::{join_fields, read_fields, tokenize_payload};
use ib_rust_api::frame::{encode_frame, read_msg, FrameAccumulator};
use ib_rust_api::helper_constants::UNSET_INTEGER;
use ib_rust_api::numbers::{i32_to_dec_string, parse_i32_str, parse_i64_str};

fn fields(v: &[&str]) -> Vec<String> {
    v.iter().map(|s| s.to_string()).collect()
}

#[test]
fn int_render_and_parse_round_trip() {
    for n in [0i32, 1, -1, 7, 42, -2147483648, 2147483647] {
        let s = i32_to_dec_string(n);
        assert_eq!(s, n.to_string());
        assert_eq!(parse_i32_str(&s), n);
    }
    assert_eq!(parse_i32_str(""), 0);
    assert_eq!(parse_i32_str("abc"), 0);
    assert_eq!(parse_i32_str("12x"), 0);
    assert_eq!(parse_i32_str("2147483648"), 0);
    assert_eq!(parse_i32_str("+15"), 15);
    assert_eq!(parse_i64_str("9223372036854775807"), 9223372036854775807);
    assert_eq!(parse_i64_str("-9223372036854775808"), -9223372036854775808);
    assert_eq!(parse_i64_str("9223372036854775808"), 0);
}

#[test]
fn unset_double_text_matches_float_sentinel() {
    let d = Double::Unset;
    assert_eq!(d.to_plain_text(), f64::MAX.to_string());
    assert_eq!(d.to_max_text(), "");
}

#[test]
fn double_field_reading() {
    let v = Double::from_field(&"10.5".to_string());
    assert!(matches!(v, Double::Num(ref t) if t == "10.5"));
    let z = Double::from_field(&"garbage".to_string());
    assert!(matches!(z, Double::Num(ref t) if t == "0"));
    let u = Double::from_field_show_unset(&"".to_string());
    assert!(matches!(u, Double::Unset));
    let u0 = Double::from_field_show_unset(&"0.00".to_string());
    assert!(matches!(u0, Double::Unset));
    let s = Double::from_field_show_unset(&"-3.25".to_string());
    assert!(matches!(s, Double::Num(ref t) if t == "-3.25"));
}

#[test]
fn tokenizer_round_trip() {
    let fs = fields(&["3", "0", "17", "Filled", "", "a b c"]);
    let joined = join_fields(&fs);
    let back = read_fields(&joined);
    assert_eq!(back, fs);
}

#[test]
fn tokenizer_drops_exactly_one_trailing_token() {
    let back = read_fields("a\0b\0");
    assert_eq!(back, fields(&["a", "b"]));
    let back2 = read_fields("\0");
    assert_eq!(back2, fields(&[""]));
    let back3 = read_fields("");
    assert!(back3.is_empty());
}

#[test]
fn frame_length_prefix_round_trip() {
    for payload in [Vec::new(), vec![7u8], vec![1u8; 4096]] {
        let framed = encode_frame(&payload);
        let n = payload.len();
        assert_eq!(framed.len(), n + 4);
        assert_eq!(framed[0], ((n >> 24) & 0xFF) as u8);
        assert_eq!(framed[1], ((n >> 16) & 0xFF) as u8);
        assert_eq!(framed[2], ((n >> 8) & 0xFF) as u8);
        assert_eq!(framed[3], (n & 0xFF) as u8);
        let (size, body, rest) = read_msg(&framed);
        assert_eq!(size, n);
        assert_eq!(body.unwrap(), payload);
        assert!(rest.is_empty());
    }
}

#[test]
fn partial_reads_yield_identical_frames() {
    let payload = b"9\01\05\0".to_vec();
    let framed = encode_frame(&payload);
    let mut whole = FrameAccumulator::new();
    let whole_out = whole.feed(&framed);
    let mut chunked = FrameAccumulator::new();
    let mut chunked_out = Vec::new();
    for b in &framed {
        chunked_out.extend(chunked.feed(&vec![*b]));
    }
    assert_eq!(whole_out, chunked_out);
    assert_eq!(whole_out, vec![payload]);
}

#[test]
fn oversized_frame_is_dropped_and_reader_continues() {
    // a declared length over the maximum, fully delivered, then a good frame
    let oversized_len: usize = 0xFFFFFF + 1;
    let mut stream = Vec::new();
    stream.extend_from_slice(&(oversized_len as u32).to_be_bytes());
    stream.extend(std::iter::repeat(0u8).take(oversized_len));
    let good = b"9\01\07\0".to_vec();
    stream.extend(encode_frame(&good));
    let mut acc = FrameAccumulator::new();
    let out = acc.feed(&stream);
    assert_eq!(out, vec![good]);
}

#[test]
fn handshake_ack_decodes_version_and_time() {
    let msg = b"76\020230101 00:00:00 EST\0".to_vec();
    let mut server_version = 0i32;
    let mut server_time = String::new();
    let mut is_connected = false;
    Decoder::process_connect_ack(&msg, &mut server_version, &mut server_time,
        &mut is_connected);
    assert!(is_connected);
    assert_eq!(server_version, 76);
    assert_eq!(server_time, "20230101 00:00:00 EST");
}

#[test]
fn handshake_ack_without_time_under_old_version() {
    let msg = b"20\0".to_vec();
    let mut server_version = 0i32;
    let mut server_time = "untouched".to_string();
    let mut is_connected = false;
    Decoder::process_connect_ack(&msg, &mut server_version, &mut server_time,
        &mut is_connected);
    assert!(is_connected);
    assert_eq!(server_version, 20);
    assert_eq!(server_time, "untouched");
}

#[test]
fn order_status_frame_decodes_to_defaults_below_market_cap_version() {
    let fs = fields(&["3", "0", "17", "Filled", "100", "0", "10.5", "55", "0", "10.5", "9",
        "", "0"]);
    let mut d = Decoder::new(fs);
    let msg = d.order_status_event(76);
    assert_eq!(msg.order_id, 17);
    assert_eq!(msg.status, "Filled");
    assert!(matches!(msg.filled, Double::Num(ref t) if t == "100"));
    assert!(matches!(msg.remaining, Double::Num(ref t) if t == "0"));
    assert!(matches!(msg.avg_fill_price, Double::Num(ref t) if t == "10.5"));
    assert_eq!(msg.perm_id, 55);
    assert_eq!(msg.parent_id, 0);
    assert!(matches!(msg.last_fill_price, Double::Num(ref t) if t == "10.5"));
    assert_eq!(msg.client_id, 9);
    assert_eq!(msg.why_held, "");
    // no field present under this version, so the default stands
    assert!(matches!(msg.mkt_cap_price, Double::Num(ref t) if t == "0"));
}

#[test]
fn unset_int_fields_survive_show_unset_decoding() {
    let fs = fields(&["", "7", "0"]);
    let mut d = Decoder::new(fs);
    assert_eq!(ib_rust_api::decoder::decode_i32_show_unset(&mut d), UNSET_INTEGER);
    assert_eq!(ib_rust_api::decoder::decode_i32_show_unset(&mut d), 7);
    assert_eq!(ib_rust_api::decoder::decode_i32_show_unset(&mut d), UNSET_INTEGER);
}

#[test]
fn payload_tokenizing_fails_on_invalid_utf8_only() {
    assert!(tokenize_payload(vec![0xFF, 0xFE]).is_none());
    let ok = tokenize_payload(b"15\01\0DU12\0".to_vec()).unwrap();
    assert_eq!(ok, fields(&["15", "1", "DU12"]));
}
