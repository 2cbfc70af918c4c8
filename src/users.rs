//! Credential store: usernames mapped to salted bcrypt hashes.
use vstd::prelude::*;

verus! {

#[verifier::external_type_specification]
#[verifier::external_body]
pub struct ExBcryptError(bcrypt::BcryptError);

/// Whether `bcrypt::verify(password, hash)` returns `Ok(true)`.
pub uninterp spec fn bcrypt_accepts(password: Seq<char>, hash: Seq<char>) -> bool;

/// Relies on `bcrypt::hash` with `bcrypt::DEFAULT_COST`: a random salt is
/// drawn, and the hash it returns is one that `bcrypt::verify` accepts for
/// the same password (both truncate the password at 72 bytes alike).
#[verifier::external_body]
fn hash_password(password: &str) -> (r: Result<String, bcrypt::BcryptError>)
    ensures
        r matches Ok(h) ==> bcrypt_accepts(password@, h@),
{
    bcrypt::hash(password, bcrypt::DEFAULT_COST)
}

/// Relies on `bcrypt::verify`: recomputes the hash of `password` with the
/// salt and cost stored in `hash`, and compares.
#[verifier::external_body]
fn check_password(password: &str, hash: &str) -> (r: Result<bool, bcrypt::BcryptError>)
    ensures
        (r matches Ok(b) && b) == bcrypt_accepts(password@, hash@),
{
    bcrypt::verify(password, hash)
}

/// A well-formed bcrypt hash (cost 12, zero salt) that no login is checked
/// against for real: verifying an unknown username against it costs the same
/// time as verifying a known one.
const DECOY_HASH: &'static str = "$2b$12$.....................................................";

/// A stored account.
#[derive(Clone, Debug)]
pub struct User {
    pub username: String,
    pub password_hash: String,
}

/// Errors of the credential store.
#[derive(Clone, Copy, Debug, PartialEq, Eq, Structural)]
pub enum UserError {
    /// The hash primitive failed; the store is unchanged.
    HashingFailure,
}

/// Whether the store described by `users` accepts `password` for `username`.
pub open spec fn accepts(users: Map<Seq<char>, Seq<char>>, username: Seq<char>, password: Seq<char>) -> bool {
    users.contains_key(username) && bcrypt_accepts(password, users[username])
}

/// Usernames mapped to password hashes; a username appears at most once.
pub struct UserDb {
    users: Vec<User>,
}

impl UserDb {
    /// The stored hash of each username.
    pub closed spec fn view(&self) -> Map<Seq<char>, Seq<char>> {
        Map::new(
            |k: Seq<char>| exists|i: int| 0 <= i < self.users@.len() && #[trigger] self.users@[i].username@ == k,
            |k: Seq<char>| self.users@[self.index_of(k)].password_hash@,
        )
    }

    spec fn index_of(&self, k: Seq<char>) -> int {
        choose|i: int| 0 <= i < self.users@.len() && #[trigger] self.users@[i].username@ == k
    }

    /// No username is stored twice.
    pub closed spec fn wf(&self) -> bool {
        forall|i: int, j: int|
            0 <= i < self.users@.len() && 0 <= j < self.users@.len() && i != j
                ==> #[trigger] self.users@[i].username@ != #[trigger] self.users@[j].username@
    }

    proof fn lemma_lookup(&self, i: int)
        requires
            self.wf(),
            0 <= i < self.users@.len(),
        ensures
            self@.contains_key(self.users@[i].username@),
            self@[self.users@[i].username@] == self.users@[i].password_hash@,
    {
        let k = self.users@[i].username@;
        assert(self@.dom().contains(k));
        let j = self.index_of(k);
        assert(self.users@[j].username@ == k);
    }

    /// An empty store.
    pub fn new() -> (r: UserDb)
        ensures
            r.wf(),
            r@ == Map::<Seq<char>, Seq<char>>::empty(),
    {
        let r = UserDb { users: Vec::new() };
        assert(r@ =~= Map::<Seq<char>, Seq<char>>::empty());
        r
    }

    /// The position of `username`, if stored.
    fn find(&self, username: &String) -> (r: Option<usize>)
        requires
            self.wf(),
        ensures
            r matches Some(i) ==> i < self.users@.len() && self.users@[i as int].username@ == username@,
            r is None ==> !self@.contains_key(username@),
    {
        let mut i: usize = 0;
        while i < self.users.len()
            invariant
                i <= self.users@.len(),
                forall|j: int| 0 <= j < i ==> #[trigger] self.users@[j].username@ != username@,
            decreases self.users@.len() - i,
        {
            if self.users[i].username == *username {
                return Some(i);
            }
            i += 1;
        }
        None
    }

    /// Stores `hash` as the password hash of `username`, replacing any hash
    /// stored for it before.
    pub fn insert_hash(&mut self, username: &str, hash: String)
        requires
            old(self).wf(),
        ensures
            final(self).wf(),
            final(self)@ == old(self)@.insert(username@, hash@),
    {
        let name = username.to_owned();
        match self.find(&name) {
            Some(i) => {
                let ghost before = self.users@;
                self.users.set(i, User { username: name, password_hash: hash });
                proof {
                    assert forall|a: int, b: int|
                        0 <= a < self.users@.len() && 0 <= b < self.users@.len() && a != b
                            implies #[trigger] self.users@[a].username@ != #[trigger] self.users@[b].username@ by {
                        assert(self.users@[a].username@ == before[a].username@);
                        assert(self.users@[b].username@ == before[b].username@);
                    }
                    assert forall|k: Seq<char>| #[trigger] self@.contains_key(k) == old(self)@.insert(username@, hash@).contains_key(k) by {
                        if self@.contains_key(k) {
                            let j = self.index_of(k);
                            assert(before[j].username@ == k);
                        }
                        if old(self)@.contains_key(k) {
                            let j = old(self).index_of(k);
                            assert(self.users@[j].username@ == k);
                        }
                    }
                    assert forall|k: Seq<char>| #[trigger] self@.contains_key(k) implies self@[k] == old(self)@.insert(username@, hash@)[k] by {
                        let j = self.index_of(k);
                        self.lemma_lookup(j);
                        if j != i {
                            old(self).lemma_lookup(j);
                        }
                    }
                    assert(self@ =~= old(self)@.insert(username@, hash@));
                }
            },
            None => {
                self.users.push(User { username: name, password_hash: hash });
                proof {
                    let n = old(self).users@.len() as int;
                    assert forall|a: int, b: int|
                        0 <= a < self.users@.len() && 0 <= b < self.users@.len() && a != b
                            implies #[trigger] self.users@[a].username@ != #[trigger] self.users@[b].username@ by {
                        if a < n && b < n {
                            assert(self.users@[a] == old(self).users@[a]);
                            assert(self.users@[b] == old(self).users@[b]);
                        } else if a < n {
                            assert(self.users@[a] == old(self).users@[a]);
                            assert(old(self)@.contains_key(self.users@[a].username@));
                        } else {
                            assert(self.users@[b] == old(self).users@[b]);
                            assert(old(self)@.contains_key(self.users@[b].username@));
                        }
                    }
                    assert forall|k: Seq<char>| #[trigger] self@.contains_key(k) == old(self)@.insert(username@, hash@).contains_key(k) by {
                        if self@.contains_key(k) {
                            let j = self.index_of(k);
                            if j < n {
                                assert(old(self).users@[j] == self.users@[j]);
                            }
                        }
                        if old(self)@.contains_key(k) {
                            let j = old(self).index_of(k);
                            assert(self.users@[j] == old(self).users@[j]);
                        }
                        self.lemma_lookup(n);
                    }
                    assert forall|k: Seq<char>| #[trigger] self@.contains_key(k) implies self@[k] == old(self)@.insert(username@, hash@)[k] by {
                        let j = self.index_of(k);
                        self.lemma_lookup(j);
                        if j < n {
                            assert(self.users@[j] == old(self).users@[j]);
                            old(self).lemma_lookup(j);
                        }
                    }
                    assert(self@ =~= old(self)@.insert(username@, hash@));
                }
            },
        }
    }

    /// Hashes `password` with a fresh salt and stores it for `username`,
    /// replacing any earlier hash. On `HashingFailure` nothing changes.
    pub fn add_user(&mut self, username: &str, password: &str) -> (r: Result<(), UserError>)
        requires
            old(self).wf(),
        ensures
            final(self).wf(),
            r is Err ==> final(self)@ == old(self)@,
            r is Ok ==> stored_with(old(self)@, final(self)@, username@, password@),
    {
        match hash_password(password) {
            Ok(h) => {
                self.insert_hash(username, h);
                assert(final(self)@ == old(self)@.insert(username@, h@) && bcrypt_accepts(password@, h@));
                Ok(())
            },
            Err(_) => Err(UserError::HashingFailure),
        }
    }

    /// Whether `password` is the password of `username`. An unknown username
    /// gives `false`, as a wrong password does.
    pub fn verify(&self, username: &str, password: &str) -> (r: bool)
        requires
            self.wf(),
        ensures
            r == accepts(self@, username@, password@),
    {
        let name = username.to_owned();
        match self.find(&name) {
            Some(i) => {
                proof { self.lemma_lookup(i as int); }
                match check_password(password, self.users[i].password_hash.as_str()) {
                    Ok(b) => b,
                    Err(_) => false,
                }
            },
            None => {
                let _ = check_password(password, DECOY_HASH);
                false
            },
        }
    }
}

/// `after` is `before` with `username` mapped to some hash that bcrypt
/// accepts for `password`; every other entry is kept.
pub open spec fn stored_with(
    before: Map<Seq<char>, Seq<char>>,
    after: Map<Seq<char>, Seq<char>>,
    username: Seq<char>,
    password: Seq<char>,
) -> bool {
    exists|h: Seq<char>| after == before.insert(username, h) && #[trigger] bcrypt_accepts(password, h)
}

/// Once `add_user(username, password)` has succeeded, `verify(username,
/// password)` is `true`, and every other account verifies as it did before.
pub proof fn lemma_added_user_verifies(
    before: Map<Seq<char>, Seq<char>>,
    after: Map<Seq<char>, Seq<char>>,
    username: Seq<char>,
    password: Seq<char>,
)
    requires
        stored_with(before, after, username, password),
    ensures
        accepts(after, username, password),
        forall|u: Seq<char>, p: Seq<char>| u != username ==> #[trigger] accepts(after, u, p) == accepts(before, u, p),
{
    let h = choose|h: Seq<char>| after == before.insert(username, h) && #[trigger] bcrypt_accepts(password, h);
    assert(after == before.insert(username, h));
}

/// A username that was never added is rejected whatever the password.
pub proof fn lemma_unknown_user_rejected(users: Map<Seq<char>, Seq<char>>, username: Seq<char>, password: Seq<char>)
    requires
        !users.contains_key(username),
    ensures
        !accepts(users, username, password),
{
}

} // verus!
