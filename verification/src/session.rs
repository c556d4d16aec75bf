//! The durable session record.
//!
//! The record holds the login credentials (an opaque serialized artifact of
//! the messaging backend) and the last-acknowledged sync cursor. Persisting a
//! new cursor is a read-modify-write of the whole record: only the cursor
//! field is replaced, the credentials are carried over untouched.

use vstd::prelude::*;

verus! {

/// The session record as it is read from and written back to durable storage.
pub struct Session {
    /// Opaque serialized login artifact; immutable once the record exists.
    pub credentials: String,
    /// Last-acknowledged sync cursor; absent until the first sync completes.
    pub sync_token: Option<String>,
}

/// The cursor of a record, as a mathematical value.
pub open spec fn token_view(t: Option<String>) -> Option<Seq<char>> {
    match t {
        Some(s) => Some(s@),
        None => None,
    }
}

/// What persisting a cursor does to a record: the cursor is replaced, the
/// credentials are kept.
pub open spec fn record_with_token(s: Session, token: String) -> Session {
    Session { credentials: s.credentials, sync_token: Some(token) }
}

impl Session {
    /// A fresh record right after login: credentials, no cursor yet.
    pub fn new(credentials: String) -> (s: Session)
        ensures
            s.credentials@ == credentials@,
            s.sync_token is None,
    {
        Session { credentials, sync_token: None }
    }

    /// Replaces the sync cursor and nothing else.
    pub fn set_sync_token(&mut self, token: String)
        ensures
            *final(self) == record_with_token(*old(self), token),
            final(self).credentials@ == old(self).credentials@,
            token_view(final(self).sync_token) == Some(token@),
    {
        self.sync_token = Some(token);
    }
}

/// Law: restoring a record and then persisting any new cursor leaves the
/// credentials unchanged — the untouched field round-trips — while the cursor
/// becomes exactly the new token.
pub proof fn lemma_persist_preserves_credentials(restored: Session, token: String)
    ensures
        record_with_token(restored, token).credentials@ == restored.credentials@,
        token_view(record_with_token(restored, token).sync_token) == Some(token@),
{
}

} // verus!
