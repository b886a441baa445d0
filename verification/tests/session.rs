use erudition::session::{random_to_ascii, session_id_from_bytes, new_session_id, SESSION_ID_LEN};

fn is_cookie_octet(c: u8) -> bool {
    c == 0x21 || (0x23..=0x2B).contains(&c) || (0x2D..=0x3A).contains(&c) || (0x3C..=0x5B).contains(&c)
        || (0x5D..=0x7E).contains(&c)
}

#[test]
fn random_to_ascii_folds_into_cookie_octets() {
    assert_eq!(random_to_ascii(0), b'!');
    assert_eq!(random_to_ascii(1), b'#');
    assert_eq!(random_to_ascii(2), b'#');
    assert_eq!(random_to_ascii(11), b'-');
    assert_eq!(random_to_ascii(26), b'<');
    assert_eq!(random_to_ascii(59), b']');
    assert_eq!(random_to_ascii(93), b'~');
    assert_eq!(random_to_ascii(94), b'!');
    assert_eq!(random_to_ascii(255), 33 + 255 % 94);
    let mut seen = std::collections::BTreeSet::new();
    for b in 0..=255u8 {
        let c = random_to_ascii(b);
        assert!(is_cookie_octet(c), "byte {b} gave {c}");
        let folded = 33 + b % 94;
        if is_cookie_octet(folded) {
            assert_eq!(c, folded);
        } else {
            assert_eq!(c, folded + 1);
        }
        seen.insert(c);
    }
    assert_eq!(seen.len(), 90);
}

#[test]
fn session_id_from_bytes_maps_each_byte() {
    let id = session_id_from_bytes(&[0, 1, 93, 94, 200]);
    assert_eq!(id.0, "!#~!-");
}

#[test]
fn fresh_session_ids_are_printable_and_long() {
    let id = new_session_id().expect("randomness available");
    assert_eq!(id.0.chars().count(), SESSION_ID_LEN);
    assert!(id.0.bytes().all(is_cookie_octet));
    assert!(id.0.chars().any(|c| c != '!'));
}

#[test]
fn random_session_bytes_have_the_id_length() {
    let bytes = erudition::session::random_session_bytes().expect("randomness available");
    assert_eq!(bytes.len(), SESSION_ID_LEN);
}
