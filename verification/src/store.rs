//! The credential store: a mapping from username to user record, with
//! uniqueness of usernames enforced at creation and no delete operation.

use vstd::prelude::*;
use vstd::hash_map::StringHashMap;

verus! {

/// A stored user record: the system-assigned identifier, the username the
/// record was created under, and the current password.
#[derive(Debug)]
pub struct UserRecord {
    pub id: u64,
    pub username: String,
    pub password: String,
}

impl Clone for UserRecord {
    fn clone(&self) -> (r: Self)
        ensures
            r == *self,
    {
        UserRecord {
            id: self.id,
            username: self.username.clone(),
            password: self.password.clone(),
        }
    }
}

/// Failure of record creation: the username is already taken, or the store
/// itself cannot complete the write.
#[derive(Clone, Copy, PartialEq, Eq, Debug)]
pub enum CreateError {
    DuplicateUsername,
    StorageError,
}

/// Failure of a lookup: no record with the given username, or the store
/// itself cannot complete the read.
#[derive(Clone, Copy, PartialEq, Eq, Debug)]
pub enum LookupError {
    NotFound,
    StorageError,
}

/// Failure of a password update: no record with the given username, or the
/// store itself cannot complete the write.
#[derive(Clone, Copy, PartialEq, Eq, Debug)]
pub enum UpdateError {
    NotFound,
    StorageError,
}

/// A mapping from username to user record. At most one record exists per
/// username, identifiers are unique across records, and both the identifier
/// and the username of a record never change once the record is created.
///
/// Abstractly (through `View`) the store is a map from username to the
/// password currently on file for it.
pub struct CredentialStore {
    users: StringHashMap<UserRecord>,
    next_id: u64,
}

impl View for CredentialStore {
    type V = Map<Seq<char>, Seq<char>>;

    closed spec fn view(&self) -> Map<Seq<char>, Seq<char>> {
        Map::new(
            |u: Seq<char>| self.users@.contains_key(u),
            |u: Seq<char>| self.users@[u].password@,
        )
    }
}

impl CredentialStore {
    /// Every record sits under its own username, identifiers are pairwise
    /// distinct, and every identifier already handed out is below `next_id`.
    #[verifier::type_invariant]
    spec fn wf(&self) -> bool {
        &&& forall|u: Seq<char>|
            self.users@.contains_key(u) ==> (#[trigger] self.users@[u]).username@ == u
        &&& forall|u: Seq<char>|
            self.users@.contains_key(u) ==> (#[trigger] self.users@[u]).id < self.next_id
        &&& forall|u1: Seq<char>, u2: Seq<char>|
            self.users@.contains_key(u1) && self.users@.contains_key(u2) && u1 != u2
                ==> (#[trigger] self.users@[u1]).id != (#[trigger] self.users@[u2]).id
    }

    /// The identifier space is exhausted: no further record can be assigned
    /// a fresh identifier, so `create` refuses new usernames with
    /// `StorageError` until the end of time.
    pub closed spec fn at_capacity(&self) -> bool {
        self.next_id == u64::MAX
    }

    /// An empty store.
    pub fn new() -> (s: Self)
        ensures
            s@ == Map::<Seq<char>, Seq<char>>::empty(),
            !s.at_capacity(),
    {
        let s = CredentialStore { users: StringHashMap::new(), next_id: 0 };
        proof {
            assert(s@ =~= Map::<Seq<char>, Seq<char>>::empty());
        }
        s
    }

    /// Inserts a new record under `username`, with a fresh identifier.
    /// Fails with `DuplicateUsername` exactly when a record with that
    /// username already exists, in which case nothing changes.
    pub fn create(&mut self, username: String, password: String) -> (r: Result<(), CreateError>)
        ensures
            old(self)@.contains_key(username@) ==> r == Err::<(), CreateError>(
                CreateError::DuplicateUsername,
            ) && *final(self) == *old(self),
            !old(self)@.contains_key(username@) && old(self).at_capacity() ==> r == Err::<
                (),
                CreateError,
            >(CreateError::StorageError) && *final(self) == *old(self),
            !old(self)@.contains_key(username@) && !old(self).at_capacity() ==> r == Ok::<
                (),
                CreateError,
            >(()) && final(self)@ == old(self)@.insert(username@, password@),
    {
        proof {
            use_type_invariant(&*self);
        }
        if self.users.contains_key(username.as_str()) {
            return Err(CreateError::DuplicateUsername);
        }
        if self.next_id == u64::MAX {
            return Err(CreateError::StorageError);
        }
        let ghost old_view = self@;
        let id = self.next_id;
        self.next_id = id + 1;
        let mut users = StringHashMap::new();
        std::mem::swap(&mut users, &mut self.users);
        let record = UserRecord { id, username: username.clone(), password };
        users.insert(username, record);
        self.users = users;
        proof {
            assert(self@ =~= old_view.insert(username@, record.password@));
        }
        Ok(())
    }

    /// Returns a copy of the record stored under `username`, or `NotFound`
    /// exactly when no such record exists.
    pub fn find_by_username(&self, username: &str) -> (r: Result<UserRecord, LookupError>)
        ensures
            match r {
                Ok(rec) => self@.contains_key(username@) && rec.username@ == username@
                    && rec.password@ == self@[username@],
                Err(e) => e == LookupError::NotFound && !self@.contains_key(username@),
            },
    {
        proof {
            use_type_invariant(&*self);
        }
        match self.users.get(username) {
            Some(rec) => Ok(rec.clone()),
            None => Err(LookupError::NotFound),
        }
    }

    /// Overwrites the password of the record stored under `username`,
    /// keeping its identifier. Fails with `NotFound` exactly when no such
    /// record exists, in which case nothing changes.
    pub fn update_password(&mut self, username: String, new_password: String) -> (r: Result<
        (),
        UpdateError,
    >)
        ensures
            old(self)@.contains_key(username@) ==> r == Ok::<(), UpdateError>(()) && final(self)@
                == old(self)@.insert(username@, new_password@),
            !old(self)@.contains_key(username@) ==> r == Err::<(), UpdateError>(
                UpdateError::NotFound,
            ) && *final(self) == *old(self),
            final(self).at_capacity() == old(self).at_capacity(),
    {
        proof {
            use_type_invariant(&*self);
        }
        let id: u64 = match self.users.get(username.as_str()) {
            Some(rec) => rec.id,
            None => {
                return Err(UpdateError::NotFound);
            },
        };
        let ghost old_view = self@;
        let mut users = StringHashMap::new();
        std::mem::swap(&mut users, &mut self.users);
        let record = UserRecord { id, username: username.clone(), password: new_password };
        users.insert(username, record);
        self.users = users;
        proof {
            assert(self@ =~= old_view.insert(username@, record.password@));
        }
        Ok(())
    }

    /// Whether a record exists under `username`.
    pub fn contains_username(&self, username: &str) -> (r: bool)
        ensures
            r == self@.contains_key(username@),
    {
        self.users.contains_key(username)
    }
}

} // verus!
