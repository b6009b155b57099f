use vstd::prelude::*;
use vstd::string::StringExecFns;
use crate::key_id::{KeyId, hyphenated, uuid_version, uuid_variant};

verus! {

/// A row of the session-key table: its primary key and the opaque key text.
#[derive(Clone, Debug)]
pub struct SessionKeys {
    pub id: KeyId,
    pub session_key: String,
}

/// The one-line description of a record: its id, `" - "`, its key text.
pub open spec fn display_text(k: SessionKeys) -> Seq<char> {
    hyphenated(k.id.value) + seq![' ', '-', ' '] + k.session_key@
}

impl SessionKeys {
    pub fn new(id: KeyId, session_key: &str) -> (r: SessionKeys)
        ensures
            r.id == id,
            r.session_key@ == session_key@,
    {
        SessionKeys { id, session_key: session_key.to_string() }
    }

    /// A new record for `session`, under a fresh random id: what is written to
    /// the table when a key is stored.
    pub fn generate(session: &str) -> (r: SessionKeys)
        ensures
            r.session_key@ == session@,
            uuid_version(r.id.value) == 4,
            uuid_variant(r.id.value) == 2,
    {
        SessionKeys { id: KeyId::generate(), session_key: session.to_string() }
    }

    /// The id, `" - "` and the key text, as one line.
    pub fn to_display_string(&self) -> (r: String)
        ensures
            r@ == display_text(*self),
    {
        let mut text = self.id.to_hyphenated();
        proof {
            reveal_strlit(" - ");
        }
        text.append(" - ");
        text.append(self.session_key.as_str());
        text
    }
}

} // verus!
