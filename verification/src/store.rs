//! The credential store: at most one record for each username.

use crate::credential::{Authentication, Credential};
use crate::error::InternalError;
use vstd::prelude::*;

verus! {

/// No two records are for the same username.
pub open spec fn distinct(records: Seq<Authentication>) -> bool {
    forall|i: int, j: int|
        0 <= i < j < records.len() ==> records[i]@.username != records[j]@.username
}

/// Whether some record is for `username`.
pub open spec fn holds(records: Seq<Authentication>, username: Seq<char>) -> bool {
    exists|i: int| 0 <= i < records.len() && #[trigger] records[i]@.username == username
}

/// The place of a record for `username`.
pub open spec fn position(records: Seq<Authentication>, username: Seq<char>) -> int {
    choose|i: int| 0 <= i < records.len() && #[trigger] records[i]@.username == username
}

/// The records as a map from username to credential.
pub open spec fn table(records: Seq<Authentication>) -> Map<Seq<char>, Credential> {
    Map::new(
        |username: Seq<char>| holds(records, username),
        |username: Seq<char>| records[position(records, username)]@,
    )
}

/// Among distinct records, the table maps the username of each to it.
pub proof fn lemma_table_at(records: Seq<Authentication>, i: int)
    requires
        distinct(records),
        0 <= i < records.len(),
    ensures
        table(records).dom().contains(records[i]@.username),
        table(records)[records[i]@.username] == records[i]@,
{
    let username = records[i]@.username;
    assert(holds(records, username));
    let k = position(records, username);
    assert(0 <= k < records.len() && records[k]@.username == username);
    assert(k == i) by {
        if k < i {
            assert(records[k]@.username != records[i]@.username);
        } else if i < k {
            assert(records[i]@.username != records[k]@.username);
        }
    }
}

/// Adding a record for a new username adds one entry to the table.
pub proof fn lemma_table_push(records: Seq<Authentication>, record: Authentication)
    requires
        distinct(records),
        !holds(records, record@.username),
    ensures
        distinct(records.push(record)),
        table(records.push(record)) == table(records).insert(record@.username, record@),
{
    let after = records.push(record);
    assert(distinct(after)) by {
        assert forall|i: int, j: int| 0 <= i < j < after.len() implies after[i]@.username
            != after[j]@.username by {
            if j == records.len() {
                assert(records[i]@.username == after[i]@.username);
            } else {
                assert(records[i]@.username != records[j]@.username);
            }
        }
    }
    let expected = table(records).insert(record@.username, record@);
    assert forall|username: Seq<char>| table(after).dom().contains(username) implies (
    expected.dom().contains(username) && expected[username] == table(after)[username]) by {
        let k = position(after, username);
        assert(0 <= k < after.len() && after[k]@.username == username);
        lemma_table_at(after, k);
        if k < records.len() {
            assert(records[k]@.username == username);
            lemma_table_at(records, k);
        }
    }
    assert forall|username: Seq<char>| expected.dom().contains(username) implies table(
        after,
    ).dom().contains(username) by {
        if username == record@.username {
            assert(after[records.len() as int]@.username == username);
        } else {
            let k = position(records, username);
            assert(0 <= k < records.len() && records[k]@.username == username);
            assert(after[k]@.username == username);
        }
    }
    assert(table(after) =~= expected);
}

/// Replacing a record by one for the same username replaces its entry.
pub proof fn lemma_table_update(records: Seq<Authentication>, i: int, record: Authentication)
    requires
        distinct(records),
        0 <= i < records.len(),
        records[i]@.username == record@.username,
    ensures
        distinct(records.update(i, record)),
        table(records.update(i, record)) == table(records).insert(record@.username, record@),
{
    let after = records.update(i, record);
    assert(distinct(after)) by {
        assert forall|a: int, b: int| 0 <= a < b < after.len() implies after[a]@.username
            != after[b]@.username by {
            assert(records[a]@.username != records[b]@.username);
            assert(after[a]@.username == records[a]@.username);
            assert(after[b]@.username == records[b]@.username);
        }
    }
    let expected = table(records).insert(record@.username, record@);
    assert forall|username: Seq<char>| table(after).dom().contains(username) implies (
    expected.dom().contains(username) && expected[username] == table(after)[username]) by {
        let k = position(after, username);
        assert(0 <= k < after.len() && after[k]@.username == username);
        lemma_table_at(after, k);
        assert(records[k]@.username == username);
        lemma_table_at(records, k);
        if k == i {
        } else {
            assert(after[k] == records[k]);
        }
    }
    assert forall|username: Seq<char>| expected.dom().contains(username) implies table(
        after,
    ).dom().contains(username) by {
        if username == record@.username {
            assert(after[i]@.username == username);
        } else {
            let k = position(records, username);
            assert(0 <= k < records.len() && records[k]@.username == username);
            assert(after[k]@.username == username);
        }
    }
    assert(table(after) =~= expected);
}

/// The live credentials, one for each user. Every read sees what the last
/// write left: nothing is cached.
pub struct CredentialStore {
    records: Vec<Authentication>,
}

impl View for CredentialStore {
    type V = Map<Seq<char>, Credential>;

    closed spec fn view(&self) -> Map<Seq<char>, Credential> {
        table(self.records@)
    }
}

impl CredentialStore {
    #[verifier::type_invariant]
    spec fn unique_usernames(self) -> bool {
        distinct(self.records@)
    }

    /// Every credential is filed under its own username.
    pub proof fn lemma_keyed_by_username(&self)
        ensures
            forall|username: Seq<char>| #[trigger]
                self@.dom().contains(username) ==> self@[username].username == username,
    {
        assert forall|username: Seq<char>| #[trigger]
            self@.dom().contains(username) implies self@[username].username == username by {
            let k = position(self.records@, username);
            assert(0 <= k < self.records@.len() && self.records@[k]@.username == username);
        }
    }

    /// An empty store.
    pub fn new() -> (store: Self)
        ensures
            store@ == Map::<Seq<char>, Credential>::empty(),
    {
        let store = CredentialStore { records: Vec::new() };
        assert(store@ =~= Map::<Seq<char>, Credential>::empty());
        store
    }

    /// Where the record of `username` lies, if there is one.
    fn find(&self, username: &str) -> (r: Option<usize>)
        ensures
            match r {
                Some(i) => i < self.records@.len() && self.records@[i as int]@.username
                    == username@,
                None => !holds(self.records@, username@),
            },
    {
        let name = username.to_owned();
        let mut i: usize = 0;
        while i < self.records.len()
            invariant
                i <= self.records@.len(),
                name@ == username@,
                forall|k: int| 0 <= k < i ==> self.records@[k]@.username != username@,
            decreases self.records@.len() - i,
        {
            if self.records[i].is_for(&name) {
                return Some(i);
            }
            i += 1;
        }
        None
    }

    /// Whether a credential is stored for `username`.
    pub fn contains(&self, username: &str) -> (b: bool)
        ensures
            b == self@.dom().contains(username@),
    {
        self.find(username).is_some()
    }

    /// The credential stored for `username`.
    pub fn load(&self, username: &str) -> (r: Option<Authentication>)
        ensures
            match r {
                Some(record) => self@.dom().contains(username@) && record@ == self@[username@]
                    && record@.username == username@,
                None => !self@.dom().contains(username@),
            },
    {
        proof {
            use_type_invariant(self);
        }
        match self.find(username) {
            Some(i) => {
                proof {
                    lemma_table_at(self.records@, i as int);
                }
                Some(self.records[i].duplicate())
            },
            None => None,
        }
    }

    /// The revocation version stored for `username`.
    pub fn version_of(&self, username: &str) -> (r: Option<u32>)
        ensures
            r == (if self@.dom().contains(username@) {
                Some(self@[username@].version)
            } else {
                None
            }),
    {
        proof {
            use_type_invariant(self);
        }
        match self.find(username) {
            Some(i) => {
                proof {
                    lemma_table_at(self.records@, i as int);
                }
                Some(self.records[i].version())
            },
            None => None,
        }
    }

    /// Stores the credential of a new user.
    ///
    /// Where the username already has a credential the store refuses, and
    /// stays as it was.
    pub fn insert(&mut self, record: Authentication) -> (r: Result<(), InternalError>)
        ensures
            old(self)@.dom().contains(record@.username) ==> (r matches Err(InternalError::Storage))
                && final(self)@ == old(self)@,
            !old(self)@.dom().contains(record@.username) ==> r is Ok && final(self)@ == old(
                self,
            )@.insert(record@.username, record@),
    {
        proof {
            use_type_invariant(&*self);
        }
        match self.find(record.username()) {
            Some(_) => Err(InternalError::Storage),
            None => {
                proof {
                    lemma_table_push(self.records@, record);
                }
                let mut records: Vec<Authentication> = Vec::new();
                std::mem::swap(&mut records, &mut self.records);
                records.push(record);
                self.records = records;
                Ok(())
            },
        }
    }

    /// Overwrites the credential stored for the record's username. Where
    /// none is stored, nothing changes.
    pub fn update(&mut self, record: Authentication)
        ensures
            final(self)@ == (if old(self)@.dom().contains(record@.username) {
                old(self)@.insert(record@.username, record@)
            } else {
                old(self)@
            }),
    {
        proof {
            use_type_invariant(&*self);
        }
        match self.find(record.username()) {
            Some(i) => {
                proof {
                    lemma_table_update(self.records@, i as int, record);
                }
                let mut records: Vec<Authentication> = Vec::new();
                std::mem::swap(&mut records, &mut self.records);
                records.set(i, record);
                self.records = records;
            },
            None => {},
        }
    }
}

} // verus!
