use session_keys::handler::{
    get_all, get_by_public_id, index, STATUS_INTERNAL_SERVER_ERROR, STATUS_NOT_FOUND, STATUS_OK,
};
use session_keys::key_id::KeyId;
use session_keys::record::SessionKeys;
use session_keys::repository::{find_by_public_id, LoadError, StorageError};

const SEEDED_ID: &str = "11111111-1111-1111-1111-111111111111";
const OTHER_ID: &str = "22222222-2222-2222-2222-222222222222";

/// The table of the scenario: one row, looked up as the storage would.
fn seeded_rows() -> Vec<SessionKeys> {
    vec![SessionKeys::new(KeyId::parse(SEEDED_ID).unwrap(), "Hallo")]
}

fn load_row(rows: &[SessionKeys], id: KeyId) -> Result<SessionKeys, LoadError> {
    match rows.iter().find(|k| k.id == id) {
        Some(k) => Ok(k.clone()),
        None => Err(LoadError::NotFound),
    }
}

fn outage() -> StorageError {
    StorageError { message: String::from("connection refused") }
}

#[test]
fn seeded_key_is_served_with_its_object() {
    let rows = seeded_rows();
    let id = KeyId::parse(SEEDED_ID).unwrap();
    let r = get_by_public_id(&find_by_public_id(load_row(&rows, id)));
    assert_eq!(r.status, STATUS_OK);
    assert_eq!(r.body, "{\"id\":\"11111111-1111-1111-1111-111111111111\",\"session_key\":\"Hallo\"}");
}

#[test]
fn unknown_key_is_not_found_with_empty_body() {
    let rows = seeded_rows();
    let id = KeyId::parse(OTHER_ID).unwrap();
    let r = get_by_public_id(&find_by_public_id(load_row(&rows, id)));
    assert_eq!(r.status, STATUS_NOT_FOUND);
    assert_eq!(r.body, "");
}

#[test]
fn listing_holds_exactly_the_seeded_object() {
    let r = get_all(&Ok(seeded_rows()));
    assert_eq!(r.status, STATUS_OK);
    assert_eq!(r.body, "[{\"id\":\"11111111-1111-1111-1111-111111111111\",\"session_key\":\"Hallo\"}]");
}

#[test]
fn listing_has_one_object_per_row() {
    let rows: Vec<SessionKeys> =
        (1u128..=3).map(|v| SessionKeys::new(KeyId::from_u128(v), "k")).collect();
    let r = get_all(&Ok(rows));
    assert_eq!(r.status, STATUS_OK);
    assert_eq!(r.body.matches("\"id\":").count(), 3);
    for v in 1u128..=3 {
        assert_eq!(r.body.matches(&KeyId::from_u128(v).to_hyphenated()).count(), 1);
    }
}

#[test]
fn served_object_names_the_id_asked_for() {
    let id = KeyId::generate();
    let r = get_by_public_id(&find_by_public_id(Ok(SessionKeys::new(id, "s"))));
    assert_eq!(r.status, STATUS_OK);
    assert!(r.body.starts_with(&format!("{{\"id\":\"{}\"", uuid::Uuid::from_u128(id.value))));
}

#[test]
fn repeated_requests_give_identical_bodies() {
    let rows = seeded_rows();
    let first = get_all(&Ok(rows.clone()));
    let second = get_all(&Ok(rows.clone()));
    assert_eq!(first.body, second.body);
    let id = KeyId::parse(SEEDED_ID).unwrap();
    let one = get_by_public_id(&find_by_public_id(load_row(&rows, id)));
    let again = get_by_public_id(&find_by_public_id(load_row(&rows, id)));
    assert_eq!(one.status, again.status);
    assert_eq!(one.body, again.body);
}

#[test]
fn storage_outage_is_an_opaque_server_error() {
    let all = get_all(&Err(outage()));
    assert_eq!(all.status, STATUS_INTERNAL_SERVER_ERROR);
    assert_eq!(all.body, "");
    let one = get_by_public_id(&find_by_public_id(Err(LoadError::Failed(outage()))));
    assert_eq!(one.status, STATUS_INTERNAL_SERVER_ERROR);
    assert_eq!(one.body, "");
}

#[test]
fn lookup_separates_absence_from_failure() {
    let k = SessionKeys::new(KeyId::from_u128(5), "v");
    match find_by_public_id(Ok(k)) {
        Ok(Some(found)) => assert_eq!(found.id, KeyId::from_u128(5)),
        _ => panic!("row expected"),
    }
    assert!(matches!(find_by_public_id(Err(LoadError::NotFound)), Ok(None)));
    match find_by_public_id(Err(LoadError::Failed(outage()))) {
        Err(e) => assert_eq!(e.message, "connection refused"),
        _ => panic!("storage error expected"),
    }
}

#[test]
fn index_greets() {
    assert_eq!(index(), "welcome, index here");
}
