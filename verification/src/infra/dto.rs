//! Records as they are received from clients and exchanged with the store.

use vstd::prelude::*;
use crate::infra::password::{has_fixed_cost, hash_password, password_check, HashFormatError};
use crate::infra::user_id::UserId;
use crate::models::Difficulty;

verus! {

/// A point in time as the store keeps it: whole seconds since the Unix epoch
/// and the nanoseconds within that second.
#[derive(Clone, Copy, Debug, PartialEq, Eq)]
pub struct GameDate {
    pub seconds: i64,
    pub nanos: u32,
}

/// A finished game, ready to be stored for its player.
#[derive(Debug)]
pub struct InsertSave {
    pub user_id: UserId,
    pub game_date: GameDate,
    pub failed: i32,
    pub difficulty: Difficulty,
    pub completed: i32,
    pub time_taken: i32,
}

/// Credentials sent to register.
#[derive(Debug)]
pub struct UserSignup {
    pub username: String,
    pub password: String,
}

/// Credentials sent to log in.
#[derive(Debug)]
pub struct UserSignin {
    pub username: String,
    pub password: String,
}

/// A new user as the store receives it: the password is already hashed.
#[derive(Debug)]
pub struct InsertHashedUser {
    pub username: String,
    pub password: String,
}

/// A user as the store returns it.
#[derive(Debug)]
pub struct ReadHashedUser {
    pub id: UserId,
    pub username: String,
    pub password: String,
}

impl UserSignup {
    /// The record to store once the hasher has answered: the username with
    /// the hash in place of the password, or nothing where the hasher gave no
    /// hash.
    pub fn with_hash(self, hash: Option<String>) -> (r: Option<InsertHashedUser>)
        ensures
            match hash {
                Some(text) => r matches Some(user) && user.username@ == self.username@
                    && user.password@ == text@,
                None => r is None,
            },
    {
        match hash {
            Some(password) => Some(InsertHashedUser { password, username: self.username }),
            None => None,
        }
    }

    /// Replaces the password by its hash. The username is kept; the hash has
    /// the fixed cost and is well-formed, so that checking any password
    /// against it gives a verdict and no format error; and the password that
    /// was given checks as correct against it. `None` means that the hasher,
    /// which draws its salt from the system, gave no hash; nothing is to be
    /// stored then.
    pub fn hashed(self) -> (r: Option<InsertHashedUser>)
        ensures
            r matches Some(user) ==> {
                &&& user.username@ == self.username@
                &&& has_fixed_cost(user.password@)
                &&& forall|other: Seq<char>|
                    (#[trigger] password_check(other, user.password@)) is Ok
                &&& password_check(self.password@, user.password@) == Ok::<bool, HashFormatError>(
                    true,
                )
            },
    {
        let hash = hash_password(self.password.as_str());
        self.with_hash(hash)
    }
}

} // verus!
