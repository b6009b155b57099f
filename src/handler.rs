use vstd::prelude::*;
use crate::key_id::{KeyId, hyphenated, lemma_hyphenated_injective};
use crate::record::SessionKeys;
use crate::repository::{LoadError, StorageError, lookup_outcome};
use crate::wire::{
    encode_key, encode_keys, json_array, json_string, key_json, key_objects, keys_json, lemma_id_json,
};

verus! {

pub const STATUS_OK: u16 = 200;

pub const STATUS_NOT_FOUND: u16 = 404;

pub const STATUS_INTERNAL_SERVER_ERROR: u16 = 500;

/// An HTTP answer: its status code and its body (JSON text, or empty).
#[derive(Debug)]
pub struct KeyResponse {
    pub status: u16,
    pub body: String,
}

/// The status and the body text of an answer.
pub struct ResponseView {
    pub status: u16,
    pub body: Seq<char>,
}

impl View for KeyResponse {
    type V = ResponseView;

    open spec fn view(&self) -> ResponseView {
        ResponseView { status: self.status, body: self.body@ }
    }
}

/// The answer to `GET /keys`, given what loading every row gave.
pub open spec fn all_response(loaded: Result<Seq<SessionKeys>, StorageError>) -> ResponseView {
    match loaded {
        Ok(rows) => ResponseView { status: 200, body: keys_json(rows) },
        Err(_) => ResponseView { status: 500, body: Seq::empty() },
    }
}

/// The answer to `GET /key/{id}`, given what the lookup reported.
pub open spec fn one_response(found: Result<Option<SessionKeys>, StorageError>) -> ResponseView {
    match found {
        Ok(Some(k)) => ResponseView { status: 200, body: key_json(k) },
        Ok(None) => ResponseView { status: 404, body: Seq::empty() },
        Err(_) => ResponseView { status: 500, body: Seq::empty() },
    }
}

/// The rows of a listing, seen as a sequence.
pub open spec fn loaded_rows(loaded: Result<Vec<SessionKeys>, StorageError>) -> Result<
    Seq<SessionKeys>,
    StorageError,
> {
    match loaded {
        Ok(rows) => Ok(rows@),
        Err(e) => Err(e),
    }
}

/// `GET /keys`: every row as a JSON array with 200, or 500 with an empty
/// body when the storage failed (the cause is not disclosed).
pub fn get_all(loaded: &Result<Vec<SessionKeys>, StorageError>) -> (r: KeyResponse)
    ensures
        r@ == all_response(loaded_rows(*loaded)),
{
    match loaded {
        Ok(rows) => KeyResponse { status: STATUS_OK, body: encode_keys(rows) },
        Err(_) => KeyResponse { status: STATUS_INTERNAL_SERVER_ERROR, body: String::new() },
    }
}

/// `GET /key/{id}`: the row as a JSON object with 200, 404 with an empty body
/// when there is none, 500 with an empty body when the storage failed.
pub fn get_by_public_id(found: &Result<Option<SessionKeys>, StorageError>) -> (r: KeyResponse)
    ensures
        r@ == one_response(*found),
{
    match found {
        Ok(Some(k)) => KeyResponse { status: STATUS_OK, body: encode_key(k) },
        Ok(None) => KeyResponse { status: STATUS_NOT_FOUND, body: String::new() },
        Err(_) => KeyResponse { status: STATUS_INTERNAL_SERVER_ERROR, body: String::new() },
    }
}

/// `GET /`: the greeting.
pub fn index() -> (r: String)
    ensures
        r@ == "welcome, index here"@,
{
    String::from_str("welcome, index here")
}

/// The wire object of a record, with its `id` member written out: the
/// hyphenated id between quotes.
pub open spec fn object_with_id(id: KeyId, session_key: Seq<char>) -> Seq<char> {
    "{\"id\":"@ + seq!['"'] + hyphenated(id.value) + seq!['"'] + ",\"session_key\":"@ + json_string(
        session_key,
    ) + "}"@
}

/// A lookup of an id whose row exists answers 200, with that row's object as
/// the body; the object's `id` member is the id asked for.
pub proof fn lemma_existing_row_is_served(id: KeyId, row: SessionKeys)
    requires
        row.id == id,
    ensures
        one_response(lookup_outcome(Ok(row))).status == 200,
        one_response(lookup_outcome(Ok(row))).body == key_json(row),
        key_json(row) == object_with_id(id, row.session_key@),
{
    lemma_id_json(id.value);
}

/// A lookup of a well-formed id that has no row answers 404 with an empty body.
pub proof fn lemma_absent_row_is_not_found(id: KeyId)
    ensures
        one_response(lookup_outcome(Err(LoadError::NotFound))) == (ResponseView {
            status: 404,
            body: Seq::empty(),
        }),
{
}

/// The listing answers 200 with a JSON array that holds one object per row, in
/// the rows' order: its length is the row count, each object's `id` member is
/// its row's id, and where the rows' ids are distinct (the table's primary
/// key) no id text is listed twice.
pub proof fn lemma_listing_has_one_object_per_row(rows: Seq<SessionKeys>)
    ensures
        all_response(Ok(rows)).status == 200,
        all_response(Ok(rows)).body == json_array(key_objects(rows)),
        key_objects(rows).len() == rows.len(),
        forall|j: int|
            0 <= j < rows.len() ==> #[trigger] key_objects(rows)[j] == object_with_id(
                rows[j].id,
                rows[j].session_key@,
            ),
        (forall|j1: int, j2: int|
            0 <= j1 < j2 < rows.len() ==> rows[j1].id != rows[j2].id) ==> (forall|j1: int, j2: int|
            0 <= j1 < j2 < rows.len() ==> #[trigger] hyphenated(rows[j1].id.value) != #[trigger] hyphenated(
                rows[j2].id.value,
            )),
{
    assert forall|j: int| 0 <= j < rows.len() implies #[trigger] key_objects(rows)[j] == object_with_id(
        rows[j].id,
        rows[j].session_key@,
    ) by {
        lemma_id_json(rows[j].id.value);
    }
    if forall|j1: int, j2: int| 0 <= j1 < j2 < rows.len() ==> rows[j1].id != rows[j2].id {
        assert forall|j1: int, j2: int| 0 <= j1 < j2 < rows.len() implies #[trigger] hyphenated(
            rows[j1].id.value,
        ) != #[trigger] hyphenated(rows[j2].id.value) by {
            if hyphenated(rows[j1].id.value) == hyphenated(rows[j2].id.value) {
                lemma_hyphenated_injective(rows[j1].id.value, rows[j2].id.value);
                assert(rows[j1].id == rows[j2].id);
            }
        }
    }
}

/// With no write in between, repeating a request gives the same answer, byte
/// for byte: each answer is a function of what the storage returned.
pub proof fn lemma_repeated_requests_agree(
    listing: Result<Seq<SessionKeys>, StorageError>,
    listing_again: Result<Seq<SessionKeys>, StorageError>,
    lookup: Result<SessionKeys, LoadError>,
    lookup_again: Result<SessionKeys, LoadError>,
)
    requires
        listing == listing_again,
        lookup == lookup_again,
    ensures
        all_response(listing) == all_response(listing_again),
        one_response(lookup_outcome(lookup)) == one_response(lookup_outcome(lookup_again)),
{
}

/// When the storage fails, both endpoints answer 500 with an empty body: the
/// cause is not disclosed.
pub proof fn lemma_storage_failure_is_opaque(e: StorageError)
    ensures
        all_response(Err(e)) == (ResponseView { status: 500, body: Seq::empty() }),
        one_response(lookup_outcome(Err(LoadError::Failed(e)))) == (ResponseView {
            status: 500,
            body: Seq::empty(),
        }),
{
}

} // verus!
