//! Hashing and verifying passwords, and the credential store that holds the
//! user records.

use vstd::prelude::*;
use crate::codec::enc_nat;
use crate::encode::nat_string;
use crate::error::{DieselError, Error as SharedError};
use crate::models::{NewUser, User};
use crate::protocol::User as SharedUser;
use crate::text::{lower_of, to_lowercase};
use argon2::password_hash::{PasswordHash, PasswordHasher, PasswordVerifier, SaltString};
use argon2::Argon2;

verus! {

/// The PHC string that Argon2id with its default parameters derives from a
/// password and a 16-byte salt: a function of the two alone.
pub uninterp spec fn argon2_hash(password: Seq<char>, salt: Seq<u8>) -> Seq<char>;

/// Whether Argon2id accepts `password` against the PHC string `hash`: a
/// function of the two alone.
pub uninterp spec fn argon2_verifies(password: Seq<char>, hash: Seq<char>) -> bool;

/// Relies on `rand::random`: sixteen bytes from the thread-local
/// cryptographically secure generator, drawn fresh on every call.
#[verifier::external_body]
fn random_salt() -> (r: Vec<u8>)
    ensures
        r@.len() == 16,
{
    let salt: [u8; 16] = rand::random();
    salt.to_vec()
}

/// Relies on `Argon2::hash_password` with default parameters and
/// `SaltString::encode_b64`: the PHC string depends only on the password and
/// the salt, and `Argon2::verify_password` recomputes the same hash from the
/// PHC string's own salt and parameters, so the string it returns verifies
/// against the same password. Encoding sixteen salt bytes always succeeds,
/// and with such a salt the only input `hash_password` refuses is a password
/// over `0xFFFF_FFFF` bytes; a string of at most `0x3FFF_FFFF` characters
/// stays within that, at up to four bytes per character, so the call is owed
/// success on such passwords.
#[verifier::external_body]
fn argon2_hash_password(password: &str, salt: &Vec<u8>) -> (r: Result<String, String>)
    requires
        salt@.len() == 16,
    ensures
        r matches Ok(h) ==> h@ == argon2_hash(password@, salt@) && argon2_verifies(
            password@,
            h@,
        ),
        password@.len() <= 0x3FFF_FFFF ==> r is Ok,
{
    let salt_string = match SaltString::encode_b64(salt) {
        Ok(s) => s,
        Err(e) => {
            return Err(format!("{e}"));
        },
    };
    match Argon2::default().hash_password(password.as_bytes(), salt_string.as_salt()) {
        Ok(h) => Ok(h.to_string()),
        Err(e) => Err(format!("{e}")),
    }
}

/// Relies on `PasswordHash::new` and `Argon2::verify_password`: both are
/// deterministic in the password and the PHC string, and the call succeeds
/// exactly when the recomputed hash matches. A string that does not parse as
/// a PHC string verifies no password.
#[verifier::external_body]
fn argon2_verify(password: &str, hash: &str) -> (r: bool)
    ensures
        r == argon2_verifies(password@, hash@),
{
    match PasswordHash::new(hash) {
        Ok(parsed) => Argon2::default().verify_password(password.as_bytes(), &parsed).is_ok(),
        Err(_) => false,
    }
}

/// Hash and salt a password for the first time, with a fresh random salt.
/// The hash that comes back verifies against the same password, and hashing
/// succeeds for every password the algorithm's length limit admits.
pub fn hash_and_salt_password(password: &str) -> (r: Result<String, String>)
    ensures
        r matches Ok(h) ==> argon2_verifies(password@, h@),
        password@.len() <= 0x3FFF_FFFF ==> r is Ok,
{
    let salt = random_salt();
    argon2_hash_password(password, &salt)
}

/// An error that could occur when adding a user to the store or checking a
/// user against it.
#[derive(Clone, Debug, PartialEq)]
pub enum NewUserError {
    /// An error occurred in accessing the store.
    DbError(DieselError),

    /// The given password didn't match.
    InvalidPassword,

    /// An error occurred when trying to hash the password.
    HashingError(String),
}

impl From<NewUserError> for SharedError {
    /// The wire-visible form of a store error.
    fn from(value: NewUserError) -> (r: Self) {
        match value {
            NewUserError::DbError(err) => SharedError::DatabaseError(err),
            NewUserError::InvalidPassword => SharedError::InvalidPassword,
            NewUserError::HashingError(err) => SharedError::HashingError(err),
        }
    }
}

impl vstd::std_specs::convert::FromSpecImpl<NewUserError> for SharedError {
    open spec fn obeys_from_spec() -> bool {
        true
    }

    open spec fn from_spec(t: NewUserError) -> Self {
        match t {
            NewUserError::DbError(err) => SharedError::DatabaseError(err),
            NewUserError::InvalidPassword => SharedError::InvalidPassword,
            NewUserError::HashingError(err) => SharedError::HashingError(err),
        }
    }
}

/// The first stored user whose (case-folded) username is `uname`.
pub open spec fn find_by_username(users: Seq<User>, uname: Seq<char>) -> Option<User>
    decreases users.len(),
{
    if users.len() == 0 {
        None
    } else if users[0].username@ == uname {
        Some(users[0])
    } else {
        find_by_username(users.drop_first(), uname)
    }
}

/// What authentication decides for the given store contents and credentials.
pub enum AuthOutcome {
    /// No user has the case-folded username.
    UnknownUser,

    /// The user exists but Argon2id rejects the password against the stored
    /// hash.
    WrongPassword,

    /// The user exists and the password verifies; the stored record.
    Authenticated(User),
}

/// The outcome of authenticating `username`/`password` against the stored
/// users.
pub open spec fn auth_outcome(users: Seq<User>, username: Seq<char>, password: Seq<char>) -> AuthOutcome {
    match find_by_username(users, lower_of(username)) {
        None => AuthOutcome::UnknownUser,
        Some(u) => if argon2_verifies(password, u.hashed_password@) {
            AuthOutcome::Authenticated(u)
        } else {
            AuthOutcome::WrongPassword
        },
    }
}

/// The credential store: the user records, in insertion order. The record
/// at position `k` carries the decimal writing of `k` as its ID, and no two
/// records share a username.
pub struct CredentialStore {
    users: Vec<User>,
}

impl View for CredentialStore {
    type V = Seq<User>;

    closed spec fn view(&self) -> Seq<User> {
        self.users@
    }
}

impl CredentialStore {
    /// IDs are the records' positions written in decimal, and usernames are
    /// pairwise distinct.
    #[verifier::type_invariant]
    closed spec fn wf(self) -> bool {
        &&& forall|k: int|
            0 <= k < self.users@.len() ==> (#[trigger] self.users@[k].id@) == enc_nat(k as nat)
        &&& forall|k1: int, k2: int|
            0 <= k1 < k2 < self.users@.len() ==> (#[trigger] self.users@[k1].username@) != (
            #[trigger] self.users@[k2].username@)
    }

    /// An empty store.
    pub fn new() -> (s: Self)
        ensures
            s@ == Seq::<User>::empty(),
    {
        let s = CredentialStore { users: Vec::new() };
        proof {
            assert(s.users@ =~= Seq::<User>::empty());
        }
        s
    }

    /// The number of stored users.
    pub fn len(&self) -> (n: usize)
        ensures
            n == self@.len(),
    {
        self.users.len()
    }

    /// The first stored user with the given case-folded username, cloned.
    fn find(&self, folded: &String) -> (r: Option<User>)
        ensures
            ({
                let f = find_by_username(self@, folded@);
                match r {
                    None => f is None,
                    Some(u) => f matches Some(fu) && u.id@ == fu.id@ && u.username@ == fu.username@
                        && u.hashed_password@ == fu.hashed_password@,
                }
            }),
    {
        let n = self.users.len();
        let mut i: usize = 0;
        proof {
            assert(self.users@.subrange(0, n as int) =~= self.users@);
        }
        while i < n
            invariant
                i <= n,
                n == self.users@.len(),
                find_by_username(self@, folded@) == find_by_username(
                    self.users@.subrange(i as int, n as int),
                    folded@,
                ),
            decreases n - i,
        {
            let u = &self.users[i];
            proof {
                let tail = self.users@.subrange(i as int, n as int);
                assert(tail[0] == self.users@[i as int]);
                assert(tail.drop_first() =~= self.users@.subrange(i + 1, n as int));
            }
            if u.username == *folded {
                return Some(
                    User {
                        id: u.id.clone(),
                        username: u.username.clone(),
                        hashed_password: u.hashed_password.clone(),
                    },
                );
            }
            i = i + 1;
        }
        proof {
            assert(self.users@.subrange(n as int, n as int) =~= Seq::<User>::empty());
        }
        None
    }

    /// Append a fresh user record for the given insertion data, whose
    /// username is already case-folded and must not be taken, and return its
    /// public projection.
    pub fn insert_user(&mut self, new_user: NewUser) -> (r: SharedUser)
        requires
            find_by_username(old(self)@, new_user.username@) is None,
        ensures
            final(self)@.len() == old(self)@.len() + 1,
            final(self)@.subrange(0, old(self)@.len() as int) == old(self)@,
            final(self)@.last().username@ == new_user.username@,
            final(self)@.last().hashed_password@ == new_user.hashed_password@,
            final(self)@.last().id@ == enc_nat(old(self)@.len()),
            r.id@ == enc_nat(old(self)@.len()),
            r.username@ == new_user.username@,
    {
        proof {
            use_type_invariant(&*self);
        }
        let NewUser { username: folded, hashed_password } = new_user;
        let id = nat_string(self.users.len() as u64);
        let record = User {
            id: id.clone(),
            username: folded.clone(),
            hashed_password,
        };
        proof {
            lemma_find_means_contains(self.users@, folded@);
        }
        let mut users: Vec<User> = Vec::new();
        std::mem::swap(&mut users, &mut self.users);
        users.push(record);
        std::mem::swap(&mut users, &mut self.users);
        proof {
            assert(final(self).users@.subrange(0, old(self).users@.len() as int) =~= old(
                self,
            ).users@);
            assert(forall|k: int|
                0 <= k < old(self).users@.len() ==> final(self).users@[k] == old(self).users@[k]);
            lemma_enc_nat_val(old(self).users@.len());
            assert forall|k: int|
                0 <= k < old(self).users@.len() implies (#[trigger] final(self).users@[k].id@)
                != enc_nat(old(self).users@.len()) by {
                lemma_enc_nat_val(k as nat);
            }
        }
        SharedUser { id, username: folded }
    }

    /// Validate a username and password against the store: the outcome is
    /// exactly what [`auth_outcome`] says for the store's contents.
    pub fn validate_user(&self, username: &str, password: &str) -> (r: Result<
        SharedUser,
        NewUserError,
    >)
        ensures
            ({
                match auth_outcome(self@, username@, password@) {
                    AuthOutcome::UnknownUser => r == Err::<SharedUser, NewUserError>(
                        NewUserError::DbError(DieselError::NotFound),
                    ),
                    AuthOutcome::WrongPassword => r == Err::<SharedUser, NewUserError>(
                        NewUserError::InvalidPassword,
                    ),
                    AuthOutcome::Authenticated(u) => r matches Ok(su) && su.id@ == u.id@
                        && su.username@ == u.username@,
                }
            }),
    {
        let folded = to_lowercase(username);
        match self.find(&folded) {
            None => Err(NewUserError::DbError(DieselError::NotFound)),
            Some(u) => {
                if argon2_verify(password, u.hashed_password.as_str()) {
                    let User { id, username, .. } = u;
                    Ok(SharedUser { id, username })
                } else {
                    Err(NewUserError::InvalidPassword)
                }
            },
        }
    }

    /// Add a new user: fails with a uniqueness violation if the case-folded
    /// username is taken, otherwise hashes the password with a fresh salt
    /// and appends the record.
    pub fn add_new_user(&mut self, username: &str, password: &str) -> (r: Result<
        SharedUser,
        NewUserError,
    >)
        ensures
            ({
                let folded = lower_of(username@);
                match find_by_username(old(self)@, folded) {
                    Some(_) => {
                        &&& final(self)@ == old(self)@
                        &&& r matches Err(
                            NewUserError::DbError(DieselError::UniqueViolation(m, d, h)),
                        ) && ({
                            &&& m@
                                == "duplicate key value violates unique constraint \"users_username_key\""@
                            &&& d matches Some(dd) && dd@ == "Key (username) already exists."@
                            &&& h is None
                        })
                    },
                    None => match r {
                        Ok(u) => {
                            &&& final(self)@.len() == old(self)@.len() + 1
                            &&& final(self)@.subrange(0, old(self)@.len() as int) == old(self)@
                            &&& final(self)@.last().username@ == folded
                            &&& argon2_verifies(password@, final(self)@.last().hashed_password@)
                            &&& final(self)@.last().id@ == enc_nat(old(self)@.len())
                            &&& u.id@ == enc_nat(old(self)@.len())
                            &&& u.username@ == folded
                        },
                        Err(e) => {
                            &&& final(self)@ == old(self)@
                            &&& e is HashingError
                            &&& password@.len() > 0x3FFF_FFFF
                        },
                    },
                }
            }),
    {
        let folded = to_lowercase(username);
        if let Some(_) = self.find(&folded) {
            return Err(
                NewUserError::DbError(
                    DieselError::UniqueViolation(
                        "duplicate key value violates unique constraint \"users_username_key\"".to_string(),
                        Some("Key (username) already exists.".to_string()),
                        None,
                    ),
                ),
            );
        }
        let hashed_password = match hash_and_salt_password(password) {
            Ok(h) => h,
            Err(e) => {
                return Err(NewUserError::HashingError(e));
            },
        };
        Ok(self.insert_user(NewUser { username: folded, hashed_password }))
    }
}

/// A found username occurs among the stored records.
proof fn lemma_find_means_contains(users: Seq<User>, uname: Seq<char>)
    ensures
        find_by_username(users, uname) is None ==> forall|k: int|
            0 <= k < users.len() ==> (#[trigger] users[k].username@) != uname,
    decreases users.len(),
{
    if users.len() > 0 {
        lemma_find_means_contains(users.drop_first(), uname);
        if find_by_username(users, uname) is None {
            assert forall|k: int|
                0 <= k < users.len() implies (#[trigger] users[k].username@) != uname by {
                if k > 0 {
                    assert(users.drop_first()[k - 1] == users[k]);
                }
            }
        }
    }
}

/// The decimal writing of a number reads back to it.
proof fn lemma_enc_nat_val(n: nat)
    ensures
        crate::codec::val_of_digits(enc_nat(n)) == n,
{
    crate::roundtrip::lemma_enc_nat_value(n);
}

/// Finding in a store with one more record: the old records are searched
/// first, and the new record answers only to its own username.
pub proof fn lemma_find_push(users: Seq<User>, nu: User, uname: Seq<char>)
    ensures
        find_by_username(users.push(nu), uname) == (match find_by_username(users, uname) {
            Some(u) => Some(u),
            None => if nu.username@ == uname {
                Some(nu)
            } else {
                None
            },
        }),
    decreases users.len(),
{
    if users.len() == 0 {
        assert(users.push(nu).drop_first() =~= Seq::<User>::empty().push(nu).drop_first());
        assert(users.push(nu)[0] == nu);
        if nu.username@ != uname {
            assert(users.push(nu).drop_first() =~= Seq::<User>::empty());
        }
    } else {
        assert(users.push(nu)[0] == users[0]);
        assert(users.push(nu).drop_first() =~= users.drop_first().push(nu));
        lemma_find_push(users.drop_first(), nu, uname);
    }
}

/// Law: for all credentials, creating the user and then authenticating with
/// the same username and password succeeds, and the authenticated user
/// carries the case-folded username.
pub proof fn lemma_create_then_authenticate(
    users: Seq<User>,
    nu: User,
    username: Seq<char>,
    password: Seq<char>,
)
    requires
        find_by_username(users, lower_of(username)) is None,
        nu.username@ == lower_of(username),
        argon2_verifies(password, nu.hashed_password@),
    ensures
        auth_outcome(users.push(nu), username, password) == AuthOutcome::Authenticated(nu),
        nu.username@ == lower_of(username),
{
    lemma_find_push(users, nu, lower_of(username));
}

/// Law: authenticating with a password that Argon2id rejects, for a username
/// that exists, fails as a wrong password — never as an unknown user.
pub proof fn lemma_wrong_password_is_invalid(
    users: Seq<User>,
    username: Seq<char>,
    password: Seq<char>,
)
    requires
        find_by_username(users, lower_of(username)) is Some,
        !argon2_verifies(
            password,
            find_by_username(users, lower_of(username)).unwrap().hashed_password@,
        ),
    ensures
        auth_outcome(users, username, password) is WrongPassword,
{
}

/// Law: after a user is created, creating another whose username differs
/// only by case finds the first record, so the attempt fails with a
/// uniqueness violation.
pub proof fn lemma_case_insensitive_duplicate(
    users: Seq<User>,
    nu: User,
    first: Seq<char>,
    second: Seq<char>,
)
    requires
        lower_of(first) == lower_of(second),
        find_by_username(users, lower_of(first)) is None,
        nu.username@ == lower_of(first),
    ensures
        find_by_username(users.push(nu), lower_of(second)) is Some,
{
    lemma_find_push(users, nu, lower_of(second));
}

} // verus!
