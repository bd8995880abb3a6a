use domus_auth::uuid_text::{fresh_uuid, parse_uuid, uuid_string};

#[test]
fn format_zero() {
    assert_eq!(uuid_string(0), "00000000-0000-0000-0000-000000000000");
}

#[test]
fn format_known_value() {
    let n: u128 = 0x123e4567_e89b_12d3_a456_426614174000;
    assert_eq!(uuid_string(n), "123e4567-e89b-12d3-a456-426614174000");
}

#[test]
fn format_max_value() {
    assert_eq!(uuid_string(u128::MAX), "ffffffff-ffff-ffff-ffff-ffffffffffff");
}

#[test]
fn parse_round_trip() {
    for n in [0u128, 1, 15, 16, u128::MAX, 0xdead_beef_dead_beef_dead_beef_dead_beef] {
        assert_eq!(parse_uuid(&uuid_string(n)), Some(n));
    }
}

#[test]
fn parse_accepts_upper_case() {
    let n: u128 = 0x123e4567_e89b_12d3_a456_426614174000;
    assert_eq!(parse_uuid("123E4567-E89B-12D3-A456-426614174000"), Some(n));
}

#[test]
fn parse_rejects_malformed() {
    assert_eq!(parse_uuid(""), None);
    assert_eq!(parse_uuid("123e4567e89b12d3a456426614174000"), None);
    assert_eq!(parse_uuid("123e4567-e89b-12d3-a456-42661417400"), None);
    assert_eq!(parse_uuid("123e4567-e89b-12d3-a456-4266141740000"), None);
    assert_eq!(parse_uuid("123e4567_e89b-12d3-a456-426614174000"), None);
    assert_eq!(parse_uuid("123g4567-e89b-12d3-a456-426614174000"), None);
}

#[test]
fn fresh_uuid_round_trips_through_text() {
    let n = fresh_uuid();
    assert_eq!(parse_uuid(&uuid_string(n)), Some(n));
}

#[test]
fn fresh_uuids_differ() {
    assert_ne!(fresh_uuid(), fresh_uuid());
}
