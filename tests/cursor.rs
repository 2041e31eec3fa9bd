use application::cursor::{Cursor, InvalidCursor};

#[test]
fn serialize_deserialize_with_value() {
    let expected = Cursor {
        last_id: Some(uuid::Uuid::new_v4().as_u128()),
    };

    let s = expected.encode();
    let actual = Cursor::decode(&s).unwrap();

    assert_eq!(expected, actual);
}

#[test]
fn serialize_deserialize_without_value() {
    let expected = Cursor { last_id: None };

    let s = expected.encode();
    let actual = Cursor::decode(&s).unwrap();

    assert_eq!(expected, actual);
}

#[test]
fn empty_cursor_has_a_token() {
    let token = Cursor::new(None).encode();
    assert_eq!(token, "eyJsYXN0X2lkIjpudWxsfQ==");
}

#[test]
fn token_is_base64_of_compact_json() {
    let c = Cursor::new(Some(0x67e5504410b1426f9247bb680e5fe0c8));
    assert_eq!(
        c.encode(),
        "eyJsYXN0X2lkIjoiNjdlNTUwNDQtMTBiMS00MjZmLTkyNDctYmI2ODBlNWZlMGM4In0="
    );
    assert_eq!(
        Cursor::decode("eyJsYXN0X2lkIjoiNjdlNTUwNDQtMTBiMS00MjZmLTkyNDctYmI2ODBlNWZlMGM4In0="),
        Ok(c)
    );
}

#[test]
fn garbage_is_an_invalid_cursor() {
    assert_eq!(Cursor::decode(""), Err(InvalidCursor));
    assert_eq!(Cursor::decode("not base64 at all!"), Err(InvalidCursor));
    assert_eq!(Cursor::decode("eyJsYXN0X2lkIjpudWxsfQ"), Err(InvalidCursor));
    // base64 of `hello`
    assert_eq!(Cursor::decode("aGVsbG8="), Err(InvalidCursor));
    assert_eq!(InvalidCursor.to_string(), "invalid cursor");
}

#[test]
fn texts_that_encode_does_not_write_are_refused() {
    // `{"last_id": null}`, with a space
    assert_eq!(Cursor::decode("eyJsYXN0X2lkIjogbnVsbH0="), Err(InvalidCursor));
    // an upper-case id
    assert_eq!(
        Cursor::decode("eyJsYXN0X2lkIjoiNjdFNTUwNDQtMTBCMS00MjZGLTkyNDctQkI2ODBFNUZFMEM4In0="),
        Err(InvalidCursor)
    );
}

#[test]
fn round_trip_of_extreme_ids() {
    for id in [0u128, 1, u128::MAX, 0xffff_0000_ffff_0000_ffff_0000_ffff_0000] {
        let c = Cursor::new(Some(id));
        assert_eq!(Cursor::decode(&c.encode()), Ok(c));
    }
}

#[test]
fn tokens_need_no_escaping() {
    for c in [Cursor::new(None), Cursor::new(Some(u128::MAX)), Cursor::new(Some(0xfbff_ffff))] {
        let t = c.encode();
        assert!(!t.is_empty());
        assert!(t
            .chars()
            .all(|ch| ch.is_ascii_alphanumeric() || ch == '-' || ch == '_' || ch == '='));
    }
}
