use auth::clock::Timestamp;
use auth::store::{SessionTable, StoreReply, SESSION_TTL_SECONDS};

fn at(seconds: i64, nanos: i32) -> Timestamp {
    Timestamp { seconds, nanos }
}

#[test]
fn session_lifetime_is_sixty_seconds() {
    assert_eq!(SESSION_TTL_SECONDS, 60);
}

#[test]
fn empty_table_holds_nothing() {
    let table = SessionTable::new();
    assert_eq!(table.get("anything", at(0, 0)), StoreReply::NotFound);
    assert_eq!(table.get("", at(1_700_000_000, 0)), StoreReply::NotFound);
}

#[test]
fn written_value_is_handed_out_as_bytes() {
    let mut table = SessionTable::new();
    assert_eq!(table.set_with_expiry("token", "owner", 60, at(100, 0)), Ok(()));
    assert_eq!(table.get("token", at(100, 0)), StoreReply::Found(b"owner".to_vec()));
    assert_eq!(table.get("token", at(130, 0)), StoreReply::Found(b"owner".to_vec()));
    assert_eq!(table.get("other", at(100, 0)), StoreReply::NotFound);
}

#[test]
fn value_beyond_ascii_is_stored_as_utf8() {
    let mut table = SessionTable::new();
    assert_eq!(table.set_with_expiry("k", "é", 60, at(0, 0)), Ok(()));
    assert_eq!(table.get("k", at(0, 0)), StoreReply::Found(vec![0xc3, 0xa9]));
}

#[test]
fn entry_is_gone_when_its_time_is_up() {
    let mut table = SessionTable::new();
    assert_eq!(table.set_with_expiry("token", "owner", 60, at(100, 500)), Ok(()));
    assert_eq!(table.get("token", at(160, 499)), StoreReply::Found(b"owner".to_vec()));
    assert_eq!(table.get("token", at(160, 500)), StoreReply::NotFound);
    assert_eq!(table.get("token", at(161, 0)), StoreReply::NotFound);
    assert_eq!(table.get("token", at(i64::MAX, 0)), StoreReply::NotFound);
}

#[test]
fn entry_without_lifetime_is_never_handed_out() {
    let mut table = SessionTable::new();
    assert_eq!(table.set_with_expiry("token", "owner", 0, at(100, 0)), Ok(()));
    assert_eq!(table.get("token", at(100, 0)), StoreReply::NotFound);
    assert_eq!(table.get("token", at(99, 999_999_999)), StoreReply::Found(b"owner".to_vec()));
}

#[test]
fn later_write_replaces_value_and_deadline() {
    let mut table = SessionTable::new();
    assert_eq!(table.set_with_expiry("token", "first", 60, at(100, 0)), Ok(()));
    assert_eq!(table.set_with_expiry("token", "second", 10, at(120, 0)), Ok(()));
    assert_eq!(table.get("token", at(125, 0)), StoreReply::Found(b"second".to_vec()));
    assert_eq!(table.get("token", at(130, 0)), StoreReply::NotFound);
}

#[test]
fn entries_under_other_keys_are_left_alone() {
    let mut table = SessionTable::new();
    assert_eq!(table.set_with_expiry("a", "one", 60, at(100, 0)), Ok(()));
    assert_eq!(table.set_with_expiry("b", "two", 5, at(100, 0)), Ok(()));
    assert_eq!(table.get("a", at(110, 0)), StoreReply::Found(b"one".to_vec()));
    assert_eq!(table.get("b", at(110, 0)), StoreReply::NotFound);
    assert_eq!(table.get("b", at(104, 0)), StoreReply::Found(b"two".to_vec()));
}

#[test]
fn longest_lifetime_at_the_latest_time_does_not_overflow() {
    let mut table = SessionTable::new();
    let latest = at(i64::MAX, i32::MAX);
    assert_eq!(table.set_with_expiry("token", "owner", u64::MAX, latest), Ok(()));
    assert_eq!(table.get("token", latest), StoreReply::Found(b"owner".to_vec()));
    assert_eq!(table.get("token", at(i64::MIN, i32::MIN)), StoreReply::Found(b"owner".to_vec()));
}
