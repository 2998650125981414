//! Authelia's file-based user database, and the hand-over of the
//! administrator's credentials to it.

use vstd::prelude::*;
use crate::collections::StrMap;
use crate::error::AdapterError;
use crate::state::State;
use crate::text::concat;

verus! {

/// Authelia user database structure.
#[derive(Debug)]
pub struct UsersDatabase {
    pub users: StrMap<User>,
}

/// Individual user entry in Authelia.
#[derive(Debug)]
pub struct User {
    pub displayname: String,
    pub password: String,
    pub email: String,
    pub groups: Vec<String>,
}

/// `argon2::Params`: the cost parameters of a hash. A value is made by
/// `argon2_params` and handed to `argon2id_hash`; nothing is read from it.
#[verifier::external_type_specification]
#[verifier::external_body]
pub struct ExArgon2Params(argon2::Params);

/// `argon2::Params::new` with the default output length. The function
/// accepts the costs exactly where each lies within its bounds, as
/// `accepts_costs` says. It multiplies the number of lanes by 8 in `u32`,
/// which the bound on `lanes` keeps from overflowing.
#[verifier::external_body]
fn argon2_params(memory_kib: u32, iterations: u32, lanes: u32) -> (r: Result<argon2::Params, String>)
    requires
        lanes <= 0x1fff_ffff,
    ensures
        r is Ok <==> accepts_costs(memory_kib, iterations, lanes),
{
    argon2::Params::new(memory_kib, iterations, lanes, None).map_err(|e| e.to_string())
}

/// `argon2::Argon2::hash_password` in the variant Argon2id, version 0x13,
/// with a salt from `SaltString::generate` on the system's random source.
/// The result is the hash in PHC string form, which begins with the name of
/// the variant and the number of the version. What follows depends on the
/// salt, so nothing is said of it, nor of when the hashing fails.
#[verifier::external_body]
fn argon2id_hash(password: &str, params: argon2::Params) -> (r: Result<String, String>)
    ensures
        r matches Ok(hash) ==> HASH_PREFIX@.is_prefix_of(hash@),
{
    let salt = argon2::password_hash::SaltString::generate(
        &mut argon2::password_hash::rand_core::OsRng,
    );
    let hasher = argon2::Argon2::new(argon2::Algorithm::Argon2id, argon2::Version::V0x13, params);
    match argon2::PasswordHasher::hash_password(&hasher, password.as_bytes(), &salt) {
        Ok(hash) => Ok(hash.to_string()),
        Err(e) => Err(e.to_string()),
    }
}

/// The outcome of hashing a password, given what the two steps came to:
/// the hash, or a `Config` error that says which step failed.
pub fn hashed(params: Result<(), String>, hash: Result<String, String>) -> (r: Result<
    String,
    AdapterError,
>)
    ensures
        match (params, hash) {
            (Err(why), _) => r matches Err(AdapterError::Config(m)) && m@
                == "Failed to create argon2 params: "@ + why@,
            (Ok(_), Err(why)) => r matches Err(AdapterError::Config(m)) && m@
                == "Failed to hash password: "@ + why@,
            (Ok(_), Ok(h)) => r == Ok::<String, AdapterError>(h),
        },
{
    match params {
        Err(why) => Err(
            AdapterError::Config(concat("Failed to create argon2 params: ", why.as_str())),
        ),
        Ok(_) => match hash {
            Err(why) => Err(
                AdapterError::Config(concat("Failed to hash password: ", why.as_str())),
            ),
            Ok(h) => Ok(h),
        },
    }
}

/// Hash a password using argon2id with Authelia's default parameters:
/// 64 MiB of memory, 3 iterations, 4 lanes. The salt is random, so two
/// hashes of one password differ. The hash is a PHC string of the variant
/// argon2id in version 19. The parameters are within their bounds, so the
/// only failure is that of the hashing itself: a `Config` error that says
/// so, with the hasher's words.
pub fn hash_password(password: &str) -> (r: Result<String, AdapterError>)
    ensures
        match r {
            Ok(hash) => HASH_PREFIX@.is_prefix_of(hash@),
            Err(e) => e matches AdapterError::Config(m) && "Failed to hash password: "@.is_prefix_of(
                m@,
            ),
        },
{
    match argon2_params(HASH_MEMORY_KIB, HASH_ITERATIONS, HASH_LANES) {
        Err(why) => hashed(Err(why), Err(String::new())),
        Ok(params) => {
            let outcome = argon2id_hash(password, params);
            let ghost came = outcome;
            let r = hashed(Ok(()), outcome);
            proof {
                if came is Err {
                    let said = "Failed to hash password: "@ + came->Err_0@;
                    assert(said.subrange(0, "Failed to hash password: "@.len() as int)
                        =~= "Failed to hash password: "@);
                }
            }
            r
        },
    }
}

/// Memory that a password hash takes, in KiB.
pub const HASH_MEMORY_KIB: u32 = 65536;

/// Passes over the memory that a password hash takes.
pub const HASH_ITERATIONS: u32 = 3;

/// Lanes of a password hash.
pub const HASH_LANES: u32 = 4;

/// The costs that make parameters: at least one lane and at most 2^24 - 1,
/// at least one iteration, and at least 8 KiB of memory for each lane.
pub open spec fn accepts_costs(memory_kib: u32, iterations: u32, lanes: u32) -> bool {
    &&& memory_kib >= 8
    &&& memory_kib >= 8 * lanes
    &&& iterations >= 1
    &&& 1 <= lanes <= 0xFF_FFFF
}

/// How every hash of this module begins: the name of the variant and the
/// number of the version, in PHC string form.
pub const HASH_PREFIX: &'static str = "$argon2id$v=19";

/// What heads the file of the user database.
pub const USERS_FILE_HEADER: &'static str =
    "# Authelia Users Database\n# This file is managed by homarr-container-adapter\n# Manual edits may be overwritten\n\n";

/// The address that a user gets who names none.
pub open spec fn default_email(username: Seq<char>) -> Seq<char> {
    username + "@example.local"@
}

/// Whether `user` is the administrator `username`, whatever the password.
pub open spec fn is_admin(user: User, username: Seq<char>, email: Option<Seq<char>>) -> bool {
    &&& user.displayname@ == username
    &&& user.email@ == match email {
        Some(e) => e,
        None => default_email(username),
    }
    &&& user.groups@.len() == 1
    &&& user.groups@[0]@ == "admins"@
}

/// Whether `user` is the administrator `username` with the password hash
/// `password_hash`.
pub open spec fn is_admin_entry(user: User, username: Seq<char>, password_hash: Seq<char>, email: Option<Seq<char>>) -> bool {
    is_admin(user, username, email) && user.password@ == password_hash
}

/// The entry of the administrator `username`.
pub fn admin_entry(username: &str, password_hash: String, email: Option<&str>) -> (user: User)
    ensures
        is_admin_entry(
            user,
            username@,
            password_hash@,
            match email {
                Some(e) => Some(e@),
                None => None,
            },
        ),
{
    let email = match email {
        Some(e) => e.to_owned(),
        None => concat(username, "@example.local"),
    };
    let mut groups: Vec<String> = Vec::new();
    groups.push("admins".to_owned());
    User { displayname: username.to_owned(), password: password_hash, email, groups }
}

impl UsersDatabase {
    /// A database without users.
    pub fn new() -> (db: Self)
        ensures
            db.users@ == Map::<Seq<char>, User>::empty(),
    {
        UsersDatabase { users: StrMap::new() }
    }

    /// Load users database, given what reading its file came to: no file,
    /// a file that is no user database, or the database. Without a file the
    /// database is empty.
    pub fn load(found: Option<Result<UsersDatabase, String>>) -> (r: Result<
        UsersDatabase,
        AdapterError,
    >)
        ensures
            match found {
                None => r matches Ok(db) && db.users@ == Map::<Seq<char>, User>::empty(),
                Some(Ok(db)) => r == Ok::<UsersDatabase, AdapterError>(db),
                Some(Err(why)) => r matches Err(AdapterError::Config(m)) && m@
                    == "Failed to parse Authelia users database: "@ + why@,
            },
    {
        match found {
            None => Ok(UsersDatabase::new()),
            Some(Ok(db)) => Ok(db),
            Some(Err(why)) => Err(
                AdapterError::Config(
                    concat("Failed to parse Authelia users database: ", why.as_str()),
                ),
            ),
        }
    }

    /// Save users database: the text of its file, given the database in
    /// YAML or the reason why it could not be put so. The file begins with
    /// a note that it is managed.
    pub fn save(&self, yaml: Result<String, String>) -> (r: Result<String, AdapterError>)
        ensures
            match yaml {
                Ok(text) => r matches Ok(out) && out@ == USERS_FILE_HEADER@ + text@,
                Err(why) => r matches Err(AdapterError::State(m)) && m@
                    == "Failed to serialize Authelia users database: "@ + why@,
            },
    {
        match yaml {
            Ok(text) => Ok(concat(USERS_FILE_HEADER, text.as_str())),
            Err(why) => Err(
                AdapterError::State(
                    concat("Failed to serialize Authelia users database: ", why.as_str()),
                ),
            ),
        }
    }

    /// Add or update a user.
    pub fn upsert_user(&mut self, username: &str, user: User)
        ensures
            final(self).users@ == old(self).users@.insert(username@, user),
    {
        self.users.insert(username.to_owned(), user);
    }
}

/// Puts the administrator into the user database, given the hash of the
/// password or the reason why there is none. Without a hash the database
/// stays as it is.
pub fn enter_credentials(
    db: &mut UsersDatabase,
    username: &str,
    password_hash: Result<String, AdapterError>,
    email: Option<&str>,
) -> (r: Result<(), AdapterError>)
    ensures
        match password_hash {
            Ok(hash) => {
                &&& r is Ok
                &&& final(db).users@.dom() == old(db).users@.dom().insert(username@)
                &&& forall|u: Seq<char>|
                    u != username@ && old(db).users@.contains_key(u) ==> final(db).users@[u]
                        == old(db).users@[u]
                &&& is_admin_entry(
                    final(db).users@[username@],
                    username@,
                    hash@,
                    match email {
                        Some(e) => Some(e@),
                        None => None,
                    },
                )
            },
            Err(e) => r == Err::<(), AdapterError>(e) && final(db).users@ == old(db).users@,
        },
{
    match password_hash {
        Ok(hash) => {
            let user = admin_entry(username, hash, email);
            db.upsert_user(username, user);
            assert(db.users@.dom() =~= old(db).users@.dom().insert(username@));
            Ok(())
        },
        Err(e) => Err(e),
    }
}

/// Sync credentials to the Authelia user database: the user `username` is
/// created or replaced, with the hash of `password`, in the group `admins`,
/// and with `email` or, where none is given, an address under
/// `example.local`. Every other user stays.
pub fn sync_credentials(
    db: &mut UsersDatabase,
    username: &str,
    password: &str,
    email: Option<&str>,
) -> (r: Result<(), AdapterError>)
    ensures
        match r {
            Ok(_) => {
                &&& final(db).users@.dom() == old(db).users@.dom().insert(username@)
                &&& forall|u: Seq<char>|
                    u != username@ && old(db).users@.contains_key(u) ==> final(db).users@[u]
                        == old(db).users@[u]
                &&& is_admin(
                    final(db).users@[username@],
                    username@,
                    match email {
                        Some(e) => Some(e@),
                        None => None,
                    },
                )
            },
            Err(e) => e is Config && final(db).users@ == old(db).users@,
        },
{
    let hash = hash_password(password);
    enter_credentials(db, username, hash, email)
}

/// Takes the outcome of the hand-over of the credentials to Authelia:
/// none where Authelia is not installed. Only a hand-over that went through
/// is recorded; one that failed is tried again at the next setup and does
/// not fail this one. Returns the failure, for the log.
pub fn sync_authelia_credentials(state: &mut State, outcome: Option<Result<(), AdapterError>>) -> (failure:
    Option<AdapterError>)
    ensures
        final(state).authelia_sync_completed == (old(state).authelia_sync_completed
            || outcome matches Some(Ok(_))),
        failure == match outcome {
            Some(Err(e)) => Some(e),
            _ => None,
        },
        final(state).version == old(state).version,
        final(state).first_boot_completed == old(state).first_boot_completed,
        final(state).api_key == old(state).api_key,
        final(state).removed_apps_by_board@ == old(state).removed_apps_by_board@,
        final(state).last_sync == old(state).last_sync,
        final(state).discovered_apps@ == old(state).discovered_apps@,
{
    match outcome {
        Some(Ok(_)) => {
            state.authelia_sync_completed = true;
            None
        },
        Some(Err(e)) => Some(e),
        None => None,
    }
}

} // verus!
