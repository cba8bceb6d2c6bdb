use git_service::oid::{Commit, Oid};
use git_service::time::{later, time_of_commit, Timestamp, FIRST_SECOND, LAST_SECOND};

const HEX: &str = "0123456789abcdef0123456789abcdef01234567";

#[test]
fn ids_are_read_as_libgit2_reads_them() {
    for s in [
        "",
        "0",
        "a",
        "abc",
        "ABCDEF",
        HEX,
        "0123456789abcdef0123456789abcdef0123456",
        "0123456789abcdef0123456789abcdef012345678",
        "g",
        "12 4",
        "é",
        "0x12",
    ] {
        let expected: Option<Vec<u8>> = git2::Oid::from_str(s).ok().map(|o| o.as_bytes().to_vec());
        assert_eq!(Oid::parse(s).map(|o| o.bytes.to_vec()), expected, "{:?}", s);
    }
}

#[test]
fn ids_are_written_as_libgit2_writes_them() {
    let id = Oid::parse(HEX).unwrap();
    assert_eq!(id.to_text(), HEX);
    assert_eq!(Oid::parse("AB").unwrap().to_text(), "ab00000000000000000000000000000000000000");
    assert_eq!(id.to_text(), git2::Oid::from_bytes(&id.bytes).unwrap().to_string());
}

#[test]
fn an_id_is_read_back_from_its_text() {
    let id = Oid { bytes: [0, 1, 2, 3, 255, 254, 128, 127, 16, 15, 9, 8, 7, 6, 5, 4, 3, 2, 1, 0] };
    assert_eq!(Oid::parse(&id.to_text()), Some(id));
}

#[test]
fn the_zero_id() {
    assert!(Oid { bytes: [0; 20] }.is_zero());
    let mut bytes = [0u8; 20];
    bytes[19] = 1;
    assert!(!Oid { bytes }.is_zero());
}

#[test]
fn a_commit_is_its_id() {
    let id = Oid::parse(HEX).unwrap();
    let commit = Commit::new(id);
    assert_eq!(commit.as_oid(), id);
    assert_eq!(commit.to_text(), HEX);
}

#[test]
fn commit_times_are_those_of_the_calendar() {
    let now = Timestamp { seconds: 77, nanos: 5 };
    for seconds in [
        0,
        1,
        -1,
        1700000000,
        FIRST_SECOND,
        FIRST_SECOND - 1,
        LAST_SECOND,
        LAST_SECOND + 1,
        i64::MAX,
        i64::MIN,
    ] {
        let expected = match chrono::DateTime::from_timestamp(seconds, 0) {
            Some(date) => Timestamp { seconds: date.timestamp(), nanos: 0 },
            None => now,
        };
        assert_eq!(time_of_commit(seconds, now), expected, "{}", seconds);
    }
}

#[test]
fn times_are_compared_by_seconds_and_nanoseconds() {
    let a = Timestamp { seconds: 1, nanos: 2 };
    let b = Timestamp { seconds: 1, nanos: 1 };
    let c = Timestamp { seconds: 0, nanos: 9 };
    assert!(later(&a, &b));
    assert!(later(&b, &c));
    assert!(!later(&b, &a));
    assert!(!later(&a, &a));
}
