use fbgreeter::input::InputStream;
use fbgreeter::input::Key;

fn decode_all(bytes: &[u8]) -> Vec<Key> {
    let mut stream = InputStream::new();
    let mut keys = Vec::new();
    for &b in bytes {
        if let Some(k) = stream.next(b) {
            keys.push(k);
        }
    }
    keys
}

#[test]
fn single_byte_keys() {
    assert_eq!(decode_all(&[0x03]), vec![Key::CtrlC]);
    assert_eq!(decode_all(&[0x04]), vec![Key::CtrlD]);
    assert_eq!(decode_all(&[0x0B]), vec![Key::CtrlK]);
    assert_eq!(decode_all(&[0x15]), vec![Key::CtrlU]);
    assert_eq!(decode_all(&[0x7F]), vec![Key::Backspace]);
    assert_eq!(decode_all(&[0x09]), vec![Key::Tab]);
    assert_eq!(decode_all(&[0x0D]), vec![Key::Return]);
    assert_eq!(decode_all(&[b'a']), vec![Key::Other(b'a')]);
    assert_eq!(decode_all(&[0x80]), vec![Key::Other(0x80)]);
    assert_eq!(decode_all(&[0xFF]), vec![Key::Other(0xFF)]);
}

#[test]
fn non_escape_bytes_decode_to_exactly_one_key() {
    // Every byte except the escape introducer yields exactly one key, the
    // same one on every decode, as a pure function of that byte.
    for b in 0u8..=255 {
        if b == 0x1B {
            continue;
        }
        let first = decode_all(&[b]);
        let second = decode_all(&[b]);
        assert_eq!(first.len(), 1, "byte {b:#x} must give exactly one key");
        assert_eq!(first, second, "byte {b:#x} must decode deterministically");
    }
}

#[test]
fn arrow_keys() {
    assert_eq!(decode_all(&[0x1B, 0x5B, 0x41]), vec![Key::Up]);
    assert_eq!(decode_all(&[0x1B, 0x5B, 0x42]), vec![Key::Down]);
    assert_eq!(decode_all(&[0x1B, 0x5B, 0x43]), vec![Key::Right]);
    assert_eq!(decode_all(&[0x1B, 0x5B, 0x44]), vec![Key::Left]);
}

#[test]
fn unrecognized_csi_carries_final_byte() {
    assert_eq!(decode_all(&[0x1B, 0x5B, 0x5A]), vec![Key::OtherCsi(0x5A)]);
}

#[test]
fn unrecognized_escape_carries_second_byte() {
    assert_eq!(decode_all(&[0x1B, 0x71]), vec![Key::OtherEsc(0x71)]);
}

#[test]
fn escape_sequence_consumes_no_following_keys() {
    // After a completed escape sequence the decoder is back in the ground
    // state: the following bytes decode on their own.
    assert_eq!(
        decode_all(&[0x1B, 0x5B, 0x41, b'x', 0x1B, 0x70, 0x0D]),
        vec![Key::Up, Key::Other(b'x'), Key::OtherEsc(0x70), Key::Return]
    );
}

#[test]
fn escape_prefix_alone_yields_no_key() {
    assert_eq!(decode_all(&[0x1B]), vec![]);
    assert_eq!(decode_all(&[0x1B, 0x5B]), vec![]);
}
