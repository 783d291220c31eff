use orchestration_viewer::ids::{AmbientAgentTaskId, InvalidIdText, SessionId};
use orchestration_viewer::text::{char_is_white_space, trim};
use orchestration_viewer::uuid_text::{format_uuid, parse_uuid};

#[test]
fn white_space_is_that_of_the_standard_library() {
    for c in '\0'..=char::MAX {
        assert_eq!(char_is_white_space(c), c.is_whitespace(), "{:?}", c);
    }
}

#[test]
fn trimming_is_that_of_the_standard_library() {
    for s in [
        "",
        " ",
        " \t\n ",
        "a",
        " a",
        "a ",
        " a b ",
        "\u{3000}\u{2003}é x\u{85}\u{a0}",
        "\u{200b}a\u{feff}",
    ] {
        assert_eq!(trim(s), s.trim(), "{:?}", s);
        assert_eq!(trim(trim(s)), trim(s));
    }
}

#[test]
fn identifiers_are_read() {
    assert_eq!(
        parse_uuid("00000000-0000-0000-0000-000000000000"),
        Some(0)
    );
    assert_eq!(
        parse_uuid("ffffffff-ffff-ffff-ffff-ffffffffffff"),
        Some(u128::MAX)
    );
    assert_eq!(
        parse_uuid("01234567-89ab-CDEF-fedc-ba9876543210"),
        Some(0x0123456789abcdeffedcba9876543210)
    );
}

#[test]
fn other_texts_are_refused() {
    for s in [
        "",
        "not-a-uuid",
        "unknown-run-id",
        "1111111-11111-1111-1111-111111111111",
        "11111111-1111-1111-1111-11111111111",
        "11111111-1111-1111-1111-1111111111111",
        "11111111-1111-1111-1111-11111111111g",
        "11111111_1111_1111_1111_111111111111",
        "11111111-1111-1111-1111-11111111111-",
        "11111111-1111-1111-1111-1111111111é",
        " 1111111-1111-1111-1111-111111111111",
        "11111111111111111111111111111111",
        "{11111111-1111-1111-1111-111111111111}",
    ] {
        assert_eq!(parse_uuid(s), None, "{:?}", s);
        assert_eq!(AmbientAgentTaskId::parse(s), Err(InvalidIdText));
        assert_eq!(SessionId::parse(s), Err(InvalidIdText));
    }
}

#[test]
fn identifiers_are_written() {
    assert_eq!(format_uuid(0), "00000000-0000-0000-0000-000000000000");
    assert_eq!(
        format_uuid(u128::MAX),
        "ffffffff-ffff-ffff-ffff-ffffffffffff"
    );
    assert_eq!(
        format_uuid(0x0123456789abcdeffedcba9876543210),
        "01234567-89ab-cdef-fedc-ba9876543210"
    );
}

#[test]
fn identifiers_read_and_write_back() {
    let mut value: u128 = 1;
    for _ in 0..200 {
        assert_eq!(parse_uuid(&format_uuid(value)), Some(value));
        let id = AmbientAgentTaskId(value);
        assert_eq!(AmbientAgentTaskId::parse(&id.run_id()), Ok(id));
        value = value.wrapping_mul(0x2545f4914f6cdd1d9e3779b97f4a7c15).wrapping_add(7);
    }
    let mixed = "DEADBEEF-0123-4567-89aB-cDeF00112233";
    assert_eq!(
        format_uuid(parse_uuid(mixed).unwrap()),
        "deadbeef-0123-4567-89ab-cdef00112233"
    );
}
