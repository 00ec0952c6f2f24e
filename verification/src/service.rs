//! The account service: registration, authentication and password change,
//! composed from credential-store operations. The behaviour of each
//! operation is given by a spec-level model over the store's abstract map,
//! and the laws relating the operations are proved below the model.

use vstd::prelude::*;
use crate::store::{CreateError, CredentialStore, LookupError, UpdateError};

verus! {

/// The outcome of a registration attempt.
#[derive(Clone, Copy, PartialEq, Eq, Debug)]
pub enum RegisterResult {
    Created,
    AlreadyExists,
    InternalFailure,
}

/// The outcome of an authentication attempt.
#[derive(Clone, Copy, PartialEq, Eq, Debug)]
pub enum AuthResult {
    Success,
    WrongPassword,
    UserNotFound,
}

/// The outcome of a password-change attempt.
#[derive(Clone, Copy, PartialEq, Eq, Debug)]
pub enum ChangeResult {
    Changed,
    ConfirmationMismatch,
    WrongOldPassword,
    UserNotFound,
    InternalFailure,
}

/// The status class a transport reports alongside each outcome.
#[derive(Clone, Copy, PartialEq, Eq, Debug)]
pub enum StatusClass {
    Okay,
    BadRequest,
    Unauthorized,
    NotFound,
    InternalError,
}

/// What `register` returns and how it changes the store, over the abstract
/// map from username to password.
pub open spec fn spec_register(
    m: Map<Seq<char>, Seq<char>>,
    username: Seq<char>,
    password: Seq<char>,
) -> (RegisterResult, Map<Seq<char>, Seq<char>>) {
    if m.contains_key(username) {
        (RegisterResult::AlreadyExists, m)
    } else {
        (RegisterResult::Created, m.insert(username, password))
    }
}

/// What `authenticate` returns, over the abstract map.
pub open spec fn spec_authenticate(
    m: Map<Seq<char>, Seq<char>>,
    username: Seq<char>,
    password: Seq<char>,
) -> AuthResult {
    if !m.contains_key(username) {
        AuthResult::UserNotFound
    } else if m[username] == password {
        AuthResult::Success
    } else {
        AuthResult::WrongPassword
    }
}

/// What `change_password` returns and how it changes the store, over the
/// abstract map. The confirmation check comes before everything else.
pub open spec fn spec_change_password(
    m: Map<Seq<char>, Seq<char>>,
    username: Seq<char>,
    old_password: Seq<char>,
    new_password: Seq<char>,
    confirm_password: Seq<char>,
) -> (ChangeResult, Map<Seq<char>, Seq<char>>) {
    if new_password != confirm_password {
        (ChangeResult::ConfirmationMismatch, m)
    } else if !m.contains_key(username) {
        (ChangeResult::UserNotFound, m)
    } else if m[username] != old_password {
        (ChangeResult::WrongOldPassword, m)
    } else {
        (ChangeResult::Changed, m.insert(username, new_password))
    }
}

/// The business-rule layer over a credential store. Abstractly (through
/// `View`) the service is the store's map from username to password.
pub struct AccountService {
    store: CredentialStore,
}

impl View for AccountService {
    type V = Map<Seq<char>, Seq<char>>;

    closed spec fn view(&self) -> Map<Seq<char>, Seq<char>> {
        self.store@
    }
}

impl AccountService {
    /// The underlying store has run out of fresh identifiers, so further
    /// registrations of new usernames report `InternalFailure`.
    pub closed spec fn at_capacity(&self) -> bool {
        self.store.at_capacity()
    }

    /// A service over an empty store.
    pub fn new() -> (s: Self)
        ensures
            s@ == Map::<Seq<char>, Seq<char>>::empty(),
            !s.at_capacity(),
    {
        AccountService { store: CredentialStore::new() }
    }

    /// A service over an existing store.
    pub fn with_store(store: CredentialStore) -> (s: Self)
        ensures
            s@ == store@,
            s.at_capacity() == store.at_capacity(),
    {
        AccountService { store }
    }

    /// Registers `username` with `password`: duplicate usernames are
    /// rejected, anything else is created.
    pub fn register(&mut self, username: String, password: String) -> (r: RegisterResult)
        ensures
            old(self)@.contains_key(username@) || !old(self).at_capacity() ==> r == spec_register(
                old(self)@,
                username@,
                password@,
            ).0 && final(self)@ == spec_register(old(self)@, username@, password@).1,
            !old(self)@.contains_key(username@) && old(self).at_capacity() ==> r
                == RegisterResult::InternalFailure && final(self)@ == old(self)@,
            r != RegisterResult::Created ==> final(self).at_capacity() == old(self).at_capacity(),
    {
        match self.store.create(username, password) {
            Ok(()) => RegisterResult::Created,
            Err(CreateError::DuplicateUsername) => RegisterResult::AlreadyExists,
            Err(CreateError::StorageError) => RegisterResult::InternalFailure,
        }
    }

    /// Authenticates `username` against `password` by exact comparison with
    /// the password on file.
    pub fn authenticate(&self, username: &str, password: &String) -> (r: AuthResult)
        ensures
            r == spec_authenticate(self@, username@, password@),
    {
        match self.store.find_by_username(username) {
            Ok(rec) => auth_result_for(Some(&rec.password), password),
            Err(LookupError::NotFound) => auth_result_for(None, password),
            Err(LookupError::StorageError) => auth_result_for(None, password),
        }
    }

    /// Changes the password of `username` from `old_password` to
    /// `new_password`, after checking the confirmation copy and the old
    /// password. The confirmation check comes before any store access.
    pub fn change_password(
        &mut self,
        username: String,
        old_password: &String,
        new_password: String,
        confirm_password: &String,
    ) -> (r: ChangeResult)
        ensures
            r == spec_change_password(
                old(self)@,
                username@,
                old_password@,
                new_password@,
                confirm_password@,
            ).0,
            final(self)@ == spec_change_password(
                old(self)@,
                username@,
                old_password@,
                new_password@,
                confirm_password@,
            ).1,
            final(self).at_capacity() == old(self).at_capacity(),
    {
        if !confirmation_matches(&new_password, confirm_password) {
            return ChangeResult::ConfirmationMismatch;
        }
        let gate = match self.store.find_by_username(username.as_str()) {
            Ok(rec) => change_lookup_decision(Some(&rec.password), old_password),
            Err(LookupError::NotFound) => change_lookup_decision(None, old_password),
            Err(LookupError::StorageError) => change_lookup_decision(None, old_password),
        };
        match gate {
            Some(rejection) => rejection,
            None => match self.store.update_password(username, new_password) {
                Ok(()) => ChangeResult::Changed,
                Err(UpdateError::NotFound) => ChangeResult::InternalFailure,
                Err(UpdateError::StorageError) => ChangeResult::InternalFailure,
            },
        }
    }
}

/// Registration of a username not yet on file succeeds exactly once: the
/// first attempt reports `Created`, and any further attempt for the same
/// username — whatever password it carries — reports `AlreadyExists` and
/// leaves the store as the first attempt left it.
pub proof fn lemma_register_unique(
    m: Map<Seq<char>, Seq<char>>,
    username: Seq<char>,
    password: Seq<char>,
    second_password: Seq<char>,
)
    requires
        !m.contains_key(username),
    ensures
        spec_register(m, username, password).0 == RegisterResult::Created,
        spec_register(spec_register(m, username, password).1, username, second_password).0
            == RegisterResult::AlreadyExists,
        spec_register(spec_register(m, username, password).1, username, second_password).1
            == spec_register(m, username, password).1,
{
}

/// Authentication goes by the password on file: a registered pair passes,
/// any other password for that username is wrong, and any password at all
/// for an unregistered username reports `UserNotFound`.
pub proof fn lemma_authenticate_registered(
    m: Map<Seq<char>, Seq<char>>,
    username: Seq<char>,
    password: Seq<char>,
    other_password: Seq<char>,
    unregistered: Seq<char>,
)
    requires
        m.contains_key(username),
        m[username] == password,
        other_password != password,
        !m.contains_key(unregistered),
    ensures
        spec_authenticate(m, username, password) == AuthResult::Success,
        spec_authenticate(m, username, other_password) == AuthResult::WrongPassword,
        forall|any: Seq<char>|
            spec_authenticate(m, unregistered, any) == AuthResult::UserNotFound,
{
}

/// A password change whose two copies of the new password disagree reports
/// `ConfirmationMismatch` and changes nothing, whether or not the user
/// exists and whatever the old password is.
pub proof fn lemma_change_password_confirmation_mismatch(
    m: Map<Seq<char>, Seq<char>>,
    username: Seq<char>,
    old_password: Seq<char>,
    new_password: Seq<char>,
    confirm_password: Seq<char>,
)
    requires
        new_password != confirm_password,
    ensures
        spec_change_password(m, username, old_password, new_password, confirm_password) == (
            ChangeResult::ConfirmationMismatch,
            m,
        ),
{
}

/// After a password change that matched the password on file, the new
/// password authenticates, and the old one — when it differs from the new —
/// is reported wrong.
pub proof fn lemma_change_password_then_authenticate(
    m: Map<Seq<char>, Seq<char>>,
    username: Seq<char>,
    old_password: Seq<char>,
    new_password: Seq<char>,
)
    requires
        m.contains_key(username),
        m[username] == old_password,
        old_password != new_password,
    ensures
        spec_change_password(m, username, old_password, new_password, new_password).0
            == ChangeResult::Changed,
        spec_authenticate(
            spec_change_password(m, username, old_password, new_password, new_password).1,
            username,
            new_password,
        ) == AuthResult::Success,
        spec_authenticate(
            spec_change_password(m, username, old_password, new_password, new_password).1,
            username,
            old_password,
        ) == AuthResult::WrongPassword,
{
}

/// A password change for a username not on file reports `UserNotFound` and
/// changes nothing, whatever the old and new passwords are, as long as the
/// two copies of the new password agree.
pub proof fn lemma_change_password_missing_user(
    m: Map<Seq<char>, Seq<char>>,
    username: Seq<char>,
    old_password: Seq<char>,
    new_password: Seq<char>,
)
    requires
        !m.contains_key(username),
    ensures
        spec_change_password(m, username, old_password, new_password, new_password) == (
            ChangeResult::UserNotFound,
            m,
        ),
{
}

/// Whether the two copies of the new password agree; checked before any
/// store access during a password change.
pub fn confirmation_matches(new_password: &String, confirm_password: &String) -> (r: bool)
    ensures
        r == (new_password@ == confirm_password@),
{
    new_password.eq(confirm_password)
}

/// The authentication outcome once the lookup has been done: `stored` is
/// the password on file, if a record was found.
pub fn auth_result_for(stored: Option<&String>, supplied: &String) -> (r: AuthResult)
    ensures
        match stored {
            Some(p) => r == (if p@ == supplied@ {
                AuthResult::Success
            } else {
                AuthResult::WrongPassword
            }),
            None => r == AuthResult::UserNotFound,
        },
{
    match stored {
        Some(p) => if p.eq(supplied) {
            AuthResult::Success
        } else {
            AuthResult::WrongPassword
        },
        None => AuthResult::UserNotFound,
    }
}

/// The password-change decision once the lookup has been done, the
/// confirmation copies having already agreed: `None` means the update may
/// proceed, `Some` carries the rejection.
pub fn change_lookup_decision(stored: Option<&String>, old_password: &String) -> (d: Option<
    ChangeResult,
>)
    ensures
        match stored {
            Some(p) => d == (if p@ == old_password@ {
                None::<ChangeResult>
            } else {
                Some(ChangeResult::WrongOldPassword)
            }),
            None => d == Some(ChangeResult::UserNotFound),
        },
{
    match stored {
        Some(p) => if p.eq(old_password) {
            None
        } else {
            Some(ChangeResult::WrongOldPassword)
        },
        None => Some(ChangeResult::UserNotFound),
    }
}

/// The status class reported for each registration outcome: a duplicate
/// username and a store failure both read as a bad request.
pub fn register_status(r: RegisterResult) -> (s: StatusClass)
    ensures
        r == RegisterResult::Created ==> s == StatusClass::Okay,
        r == RegisterResult::AlreadyExists ==> s == StatusClass::BadRequest,
        r == RegisterResult::InternalFailure ==> s == StatusClass::BadRequest,
    {
    match r {
        RegisterResult::Created => StatusClass::Okay,
        RegisterResult::AlreadyExists => StatusClass::BadRequest,
        RegisterResult::InternalFailure => StatusClass::BadRequest,
    }
}

/// The status class reported for each authentication outcome.
pub fn authenticate_status(r: AuthResult) -> (s: StatusClass)
    ensures
        r == AuthResult::Success ==> s == StatusClass::Okay,
        r == AuthResult::WrongPassword ==> s == StatusClass::Unauthorized,
        r == AuthResult::UserNotFound ==> s == StatusClass::NotFound,
    {
    match r {
        AuthResult::Success => StatusClass::Okay,
        AuthResult::WrongPassword => StatusClass::Unauthorized,
        AuthResult::UserNotFound => StatusClass::NotFound,
    }
}

/// The status class reported for each password-change outcome.
pub fn change_password_status(r: ChangeResult) -> (s: StatusClass)
    ensures
        r == ChangeResult::Changed ==> s == StatusClass::Okay,
        r == ChangeResult::ConfirmationMismatch ==> s == StatusClass::BadRequest,
        r == ChangeResult::WrongOldPassword ==> s == StatusClass::Unauthorized,
        r == ChangeResult::UserNotFound ==> s == StatusClass::NotFound,
        r == ChangeResult::InternalFailure ==> s == StatusClass::InternalError,
    {
    match r {
        ChangeResult::Changed => StatusClass::Okay,
        ChangeResult::ConfirmationMismatch => StatusClass::BadRequest,
        ChangeResult::WrongOldPassword => StatusClass::Unauthorized,
        ChangeResult::UserNotFound => StatusClass::NotFound,
        ChangeResult::InternalFailure => StatusClass::InternalError,
    }
}

} // verus!
