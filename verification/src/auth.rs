//! Checking a player's password against the stored bcrypt hash, and hashing
//! the password of a new player.

use vstd::prelude::*;
use crate::text::digit;

verus! {

/// The cost at which new passwords are hashed.
pub const HASH_COST: u32 = 8;

/// The error type of the bcrypt crate.
#[verifier::external_type_specification]
#[verifier::external_body]
pub struct ExBcryptError(bcrypt::BcryptError);

/// What `bcrypt::verify` makes of a password and a stored hash: `Some(true)`
/// where they match, `Some(false)` where they do not, `None` where the hash
/// is malformed or names a cost that bcrypt refuses.
pub uninterp spec fn bcrypt_verdict(password: Seq<char>, hash: Seq<char>) -> Option<bool>;

/// Calls `bcrypt::verify`. The call reads the cost and the salt out of
/// `hash`, hashes `password` with them and compares; it depends on nothing
/// but its two arguments, and the contract names its result
/// [`bcrypt_verdict`]: `Ok` carries the verdict, `Err` stands for `None`.
#[verifier::external_body]
fn bcrypt_verify(password: &str, hash: &str) -> (r: Result<bool, bcrypt::BcryptError>)
    ensures
        match r {
            Ok(same) => bcrypt_verdict(password@, hash@) == Some(same),
            Err(_) => bcrypt_verdict(password@, hash@) is None,
        },
{
    bcrypt::verify(password, hash)
}

/// How every hash made at `cost` begins: the marker of version 2b, the cost
/// in two digits, and the signs that set them apart.
pub open spec fn hash_prefix(cost: u32) -> Seq<char> {
    seq!['$', '2', 'b', '$', digit((cost / 10) as int), digit((cost % 10) as int), '$']
}

/// Calls `bcrypt::hash`, which salts the password at random. An accepted
/// cost lies between 4 and 31; every other cost is refused. A hash that
/// comes back is 60 characters long and begins with the version marker and
/// the cost, as `$2b$08$`. It holds the cost and the salt it was made with,
/// so `bcrypt::verify` recomputes the same digest from the same password:
/// the verdict on the password and its own hash is a match.
#[verifier::external_body]
fn bcrypt_hash(password: &str, cost: u32) -> (r: Result<String, bcrypt::BcryptError>)
    ensures
        (cost < 4 || cost > 31) ==> r is Err,
        r matches Ok(h) ==> h@.len() == 60 && h@.subrange(0, 7) == hash_prefix(cost)
            && bcrypt_verdict(password@, h@) == Some(true),
{
    bcrypt::hash(password, cost)
}

/// Why a player was not let in, or could not be added.
#[derive(Debug, Clone, Copy, PartialEq, Eq, Structural)]
pub enum AuthError {
    /// No player has that name.
    UnknownUser,
    /// The stored hash cannot be used, or hashing failed.
    Hash,
    /// The password does not match.
    Rejected,
}

impl AuthError {
    /// What is reported for a rejected password.
    pub open spec fn rejected_text() -> Seq<char> {
        "User authentication failed"@
    }

    /// The wording of each failure.
    pub open spec fn text(self) -> Seq<char> {
        match self {
            AuthError::UnknownUser => "Unknown user"@,
            AuthError::Hash => "Password hash failure"@,
            AuthError::Rejected => AuthError::rejected_text(),
        }
    }

    /// The message for the failure.
    pub fn message(&self) -> (r: String)
        ensures
            r@ == self.text(),
    {
        match self {
            AuthError::UnknownUser => "Unknown user".to_owned(),
            AuthError::Hash => "Password hash failure".to_owned(),
            AuthError::Rejected => "User authentication failed".to_owned(),
        }
    }
}

/// A player as stored.
#[derive(Debug, Clone)]
pub struct UserRow {
    pub id: i64,
    pub password_hash: String,
}

/// The outcome of a login, given the verdict on the password.
pub open spec fn login_outcome(id: i64, verdict: Option<bool>) -> Result<i64, AuthError> {
    match verdict {
        Some(true) => Ok(id),
        Some(false) => Err(AuthError::Rejected),
        None => Err(AuthError::Hash),
    }
}

/// The outcome of a login attempt against what is stored under the name.
pub open spec fn login(row: Option<UserRow>, password: Seq<char>) -> Result<i64, AuthError> {
    match row {
        Some(u) => login_outcome(u.id, bcrypt_verdict(password, u.password_hash@)),
        None => Err(AuthError::UnknownUser),
    }
}

/// Lets the player in where the password was found to match.
pub fn let_in(id: i64, verdict: Option<bool>) -> (r: Result<i64, AuthError>)
    ensures
        r == login_outcome(id, verdict),
{
    match verdict {
        Some(true) => Ok(id),
        Some(false) => Err(AuthError::Rejected),
        None => Err(AuthError::Hash),
    }
}

/// Checks a password against the row stored under the player's name, if
/// there is one, and gives the player's identifier where it matches.
pub fn authenticate(row: Option<&UserRow>, password: &str) -> (r: Result<i64, AuthError>)
    ensures
        r == login(
            match row {
                Some(u) => Some(*u),
                None => None,
            },
            password@,
        ),
{
    match row {
        Some(u) => {
            let verdict = match bcrypt_verify(password, u.password_hash.as_str()) {
                Ok(same) => Some(same),
                Err(_) => None,
            };
            let_in(u.id, verdict)
        },
        None => Err(AuthError::UnknownUser),
    }
}

/// A player about to be stored.
#[derive(Debug, Clone)]
pub struct NewUser {
    pub name: String,
    pub password_hash: String,
}

/// A hash as [`new_user`] stores it for a password: made at [`HASH_COST`],
/// and one that the password verifies against.
pub open spec fn stored_hash_of(password: Seq<char>, hash: Seq<char>) -> bool {
    &&& hash.len() == 60
    &&& hash.subrange(0, 7) == hash_prefix(HASH_COST)
    &&& bcrypt_verdict(password, hash) == Some(true)
}

/// The row for a new player, given what hashing the password came to.
pub fn new_user_row(name: String, hashed: Option<String>) -> (r: Result<NewUser, AuthError>)
    ensures
        match hashed {
            Some(h) => r matches Ok(u) && u.name == name && u.password_hash == h,
            None => r == Err::<NewUser, AuthError>(AuthError::Hash),
        },
{
    match hashed {
        Some(h) => Ok(NewUser { name, password_hash: h }),
        None => Err(AuthError::Hash),
    }
}

/// Hashes the password of a new player at [`HASH_COST`]. The salt is drawn
/// at random, so two calls need not give the same hash; each hash is one
/// that the password verifies against. Fails only where hashing itself
/// fails.
pub fn new_user(name: String, password: &str) -> (r: Result<NewUser, AuthError>)
    ensures
        match r {
            Ok(u) => u.name == name && stored_hash_of(password@, u.password_hash@),
            Err(e) => e == AuthError::Hash,
        },
{
    let hashed = match bcrypt_hash(password, HASH_COST) {
        Ok(h) => Some(h),
        Err(_) => None,
    };
    new_user_row(name, hashed)
}

/// Hashes made at [`HASH_COST`] begin with `$2b$08$`.
pub proof fn law_prefix_at_hash_cost()
    ensures
        hash_prefix(HASH_COST) == "$2b$08$"@,
{
    reveal_strlit("$2b$08$");
    assert(hash_prefix(HASH_COST) =~= "$2b$08$"@);
}

/// A player stored by [`new_user`] is let in with the password the hash was
/// made from: the login gives the identifier under which the row was stored.
pub proof fn law_new_player_can_log_in(id: i64, password: Seq<char>, row: UserRow)
    requires
        row.id == id,
        stored_hash_of(password, row.password_hash@),
    ensures
        login(Some(row), password) == Ok::<i64, AuthError>(id),
{
}

} // verus!
