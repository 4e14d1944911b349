//! The user repository port and its conforming in-memory adapter.
//!
//! The port is storage-agnostic: the one hard requirement is that a
//! uniqueness violation on the email business key is distinguishable from
//! every other storage outcome, because the authentication workflows and the
//! error classifier depend on that distinction.

use vstd::prelude::*;

use crate::domain::{User, UserView};
use crate::error::RepositoryError;

verus! {

/// The accounts described by a sequence of stored records, keyed by email.
pub open spec fn accounts_of(users: Seq<UserView>) -> Map<Seq<char>, UserView>
    decreases users.len(),
{
    if users.len() == 0 {
        Map::empty()
    } else {
        accounts_of(users.drop_last()).insert(users.last().email, users.last())
    }
}

/// Some stored record carries this email.
pub open spec fn contains_email(users: Seq<UserView>, email: Seq<char>) -> bool {
    exists|i: int| 0 <= i < users.len() && users[i].email == email
}

/// No two stored records share an email.
pub open spec fn emails_unique(users: Seq<UserView>) -> bool {
    forall|i: int, j: int| 0 <= i < j < users.len() ==> users[i].email != users[j].email
}

/// The spec-level image of a sequence of stored records.
pub open spec fn user_views(users: Seq<User>) -> Seq<UserView> {
    users.map_values(|u: User| u@)
}

/// Storage-agnostic contract for account persistence.
///
/// The contract is deterministic: a conforming adapter answers truthfully
/// from its accounts. The repository vocabulary keeps an unexpected-error
/// variant for causal chains that originate outside any conforming adapter
/// (a storage fault); the classifier scans past it and never mistakes it for
/// a not-found or already-exists outcome.
pub trait UserRepository: Sized {
    /// The accounts currently held, keyed by their email business key.
    spec fn accounts(&self) -> Map<Seq<char>, UserView>;

    /// Persists a new account. Fails with `Exists` exactly when the email
    /// uniqueness constraint is violated; on success the returned record is
    /// the persisted one.
    fn create(&mut self, user: User) -> (r: Result<User, RepositoryError>)
        ensures
            old(self).accounts().contains_key(user@.email) ==> (r matches Err(e)
                && e == RepositoryError::Exists
                && final(self).accounts() == old(self).accounts()),
            !old(self).accounts().contains_key(user@.email) ==> (r matches Ok(u)
                && u@ == user@
                && final(self).accounts() == old(self).accounts().insert(user@.email, user@)),
    ;

    /// Looks an account up by identifier, failing with `NotFound` if absent.
    fn get_by_id(&self, id: u128) -> (r: Result<User, RepositoryError>)
        ensures
            r matches Ok(u) ==> self.accounts().contains_key(u@.email)
                && self.accounts()[u@.email] == u@
                && u@.id == id,
            r is Err ==> (r matches Err(e) && e == RepositoryError::NotFound
                && (forall|email: Seq<char>| #[trigger] self.accounts().dom().contains(email)
                    ==> self.accounts()[email].id != id)),
    ;

    /// Looks an account up by email, failing with `NotFound` if absent.
    fn get_by_email(&self, email: &str) -> (r: Result<User, RepositoryError>)
        ensures
            self.accounts().contains_key(email@) ==> (r matches Ok(u)
                && u@ == self.accounts()[email@]),
            !self.accounts().contains_key(email@) ==> (r matches Err(e)
                && e == RepositoryError::NotFound),
    ;

    /// Overwrites the password hash of the account carrying `user_id`,
    /// failing with `NotFound` if no account carries it.
    fn update_password_hash(&mut self, user_id: u128, password_hash: &str) -> (r: Result<
        (),
        RepositoryError,
    >)
        ensures
            r is Ok ==> exists|email: Seq<char>|
                {
                    &&& #[trigger] old(self).accounts().dom().contains(email)
                    &&& old(self).accounts()[email].id == user_id
                    &&& final(self).accounts() == old(self).accounts().insert(
                        email,
                        UserView { password_hash: password_hash@, ..old(self).accounts()[email] },
                    )
                },
            r is Err ==> (r matches Err(e) && e == RepositoryError::NotFound
                && final(self).accounts() == old(self).accounts()
                && (forall|email: Seq<char>| #[trigger] old(self).accounts().dom().contains(email)
                    ==> old(self).accounts()[email].id != user_id)),
    ;
}

/// Every email in the account map names a stored record, and conversely.
proof fn lemma_accounts_domain(users: Seq<UserView>)
    ensures
        forall|e: Seq<char>| #[trigger] accounts_of(users).dom().contains(e) <==> contains_email(
            users,
            e,
        ),
    decreases users.len(),
{
    if users.len() > 0 {
        let prefix = users.drop_last();
        lemma_accounts_domain(prefix);
        assert forall|e: Seq<char>| #[trigger] accounts_of(users).dom().contains(e) implies
            contains_email(users, e) by {
            if e == users.last().email {
                assert(users[users.len() - 1].email == e);
            } else {
                assert(accounts_of(prefix).dom().contains(e));
                assert(contains_email(prefix, e));
                let i = choose|i: int| 0 <= i < prefix.len() && prefix[i].email == e;
                assert(users[i].email == e);
            }
        }
        assert forall|e: Seq<char>| contains_email(users, e) implies #[trigger] accounts_of(
            users,
        ).dom().contains(e) by {
            let i = choose|i: int| 0 <= i < users.len() && users[i].email == e;
            if i < users.len() - 1 {
                assert(prefix[i].email == e);
                assert(contains_email(prefix, e));
                assert(accounts_of(prefix).dom().contains(e));
            }
        }
    }
}

/// With unique emails, the account map sends each stored record's email to
/// that record.
proof fn lemma_accounts_index(users: Seq<UserView>, i: int)
    requires
        emails_unique(users),
        0 <= i < users.len(),
    ensures
        accounts_of(users).dom().contains(users[i].email),
        accounts_of(users)[users[i].email] == users[i],
    decreases users.len(),
{
    if i < users.len() - 1 {
        assert(emails_unique(users.drop_last()));
        assert(users.drop_last()[i] == users[i]);
        lemma_accounts_index(users.drop_last(), i);
        assert(users[i].email != users.last().email);
    }
}

/// Replacing the record at one index, keeping its email, updates exactly
/// that email's entry in the account map.
proof fn lemma_accounts_update(users: Seq<UserView>, i: int, u: UserView)
    requires
        emails_unique(users),
        0 <= i < users.len(),
        u.email == users[i].email,
    ensures
        accounts_of(users.update(i, u)) == accounts_of(users).insert(u.email, u),
        emails_unique(users.update(i, u)),
    decreases users.len(),
{
    let updated = users.update(i, u);
    assert(forall|k: int| 0 <= k < users.len() ==> updated[k].email == users[k].email);
    if i == users.len() - 1 {
        assert(updated.drop_last() =~= users.drop_last());
        assert(accounts_of(updated) =~= accounts_of(users).insert(u.email, u));
    } else {
        assert(emails_unique(users.drop_last()));
        assert(users.drop_last()[i] == users[i]);
        lemma_accounts_update(users.drop_last(), i, u);
        assert(updated.drop_last() =~= users.drop_last().update(i, u));
        assert(updated.last() == users.last());
        assert(users.last().email != u.email);
        assert(accounts_of(updated) =~= accounts_of(users).insert(u.email, u));
    }
}

/// The conforming in-memory adapter: a process-local store whose internal
/// invariant is that emails are unique.
pub struct InMemoryUserRepository {
    users: Vec<User>,
}

impl InMemoryUserRepository {
    #[verifier::type_invariant]
    spec fn wf(self) -> bool {
        emails_unique(user_views(self.users@))
    }

    /// An empty store.
    pub fn new() -> (r: InMemoryUserRepository)
        ensures
            r.accounts() == Map::<Seq<char>, UserView>::empty(),
    {
        InMemoryUserRepository { users: Vec::new() }
    }
}

impl UserRepository for InMemoryUserRepository {
    closed spec fn accounts(&self) -> Map<Seq<char>, UserView> {
        accounts_of(user_views(self.users@))
    }

    fn create(&mut self, user: User) -> (r: Result<User, RepositoryError>) {
        proof {
            use_type_invariant(&*self);
            lemma_accounts_domain(user_views(self.users@));
        }
        let n = self.users.len();
        let mut i: usize = 0;
        while i < n
            invariant
                n == self.users.len(),
                i <= n,
                forall|j: int| 0 <= j < i ==> user_views(self.users@)[j].email != user@.email,
            decreases n - i,
        {
            let stored = &self.users[i];
            if stored.email == user.email {
                proof {
                    lemma_accounts_domain(user_views(self.users@));
                    assert(user_views(self.users@)[i as int].email == user@.email);
                    assert(contains_email(user_views(self.users@), user@.email));
                    assert(accounts_of(user_views(self.users@)).dom().contains(user@.email));
                }
                return Err(RepositoryError::Exists);
            }
            i += 1;
        }
        let ghost old_views = user_views(self.users@);
        proof {
            assert(!contains_email(old_views, user@.email));
            assert(!accounts_of(old_views).dom().contains(user@.email));
        }
        let result = user.duplicate();
        let mut users: Vec<User> = Vec::new();
        std::mem::swap(&mut users, &mut self.users);
        users.push(user);
        proof {
            assert(user_views(users@) =~= old_views.push(result@));
            assert(user_views(users@).drop_last() =~= old_views);
            assert(user_views(users@).last() == result@);
            assert(emails_unique(user_views(users@)));
            assert(accounts_of(user_views(users@)) == accounts_of(old_views).insert(
                result@.email,
                result@,
            ));
        }
        std::mem::swap(&mut users, &mut self.users);
        Ok(result)
    }

    fn get_by_id(&self, id: u128) -> (r: Result<User, RepositoryError>) {
        proof {
            use_type_invariant(&*self);
            lemma_accounts_domain(user_views(self.users@));
        }
        let n = self.users.len();
        let mut i: usize = 0;
        while i < n
            invariant
                n == self.users.len(),
                i <= n,
                forall|j: int| 0 <= j < i ==> user_views(self.users@)[j].id != id,
            decreases n - i,
        {
            let stored = &self.users[i];
            if stored.id == id {
                proof {
                    use_type_invariant(&*self);
                    lemma_accounts_index(user_views(self.users@), i as int);
                }
                return Ok(stored.duplicate());
            }
            i += 1;
        }
        proof {
            lemma_accounts_domain(user_views(self.users@));
            assert forall|email: Seq<char>| #[trigger] self.accounts().dom().contains(email)
                implies self.accounts()[email].id != id by {
                assert(contains_email(user_views(self.users@), email));
                let j = choose|j: int|
                    0 <= j < user_views(self.users@).len() && user_views(self.users@)[j].email
                        == email;
                lemma_accounts_index(user_views(self.users@), j);
            }
        }
        Err(RepositoryError::NotFound)
    }

    fn get_by_email(&self, email: &str) -> (r: Result<User, RepositoryError>) {
        proof {
            use_type_invariant(&*self);
            lemma_accounts_domain(user_views(self.users@));
        }
        let key: String = email.to_string();
        let n = self.users.len();
        let mut i: usize = 0;
        while i < n
            invariant
                n == self.users.len(),
                i <= n,
                key@ == email@,
                forall|j: int| 0 <= j < i ==> user_views(self.users@)[j].email != email@,
            decreases n - i,
        {
            let stored = &self.users[i];
            if stored.email == key {
                proof {
                    use_type_invariant(&*self);
                    lemma_accounts_index(user_views(self.users@), i as int);
                }
                return Ok(stored.duplicate());
            }
            i += 1;
        }
        proof {
            lemma_accounts_domain(user_views(self.users@));
            assert(!contains_email(user_views(self.users@), email@));
            assert(!accounts_of(user_views(self.users@)).dom().contains(email@));
        }
        Err(RepositoryError::NotFound)
    }

    fn update_password_hash(&mut self, user_id: u128, password_hash: &str) -> (r: Result<
        (),
        RepositoryError,
    >) {
        proof {
            use_type_invariant(&*self);
            lemma_accounts_domain(user_views(self.users@));
        }
        let n = self.users.len();
        let mut i: usize = 0;
        while i < n
            invariant
                self.users@ == old(self).users@,
                n == self.users.len(),
                i <= n,
                forall|j: int| 0 <= j < i ==> user_views(self.users@)[j].id != user_id,
            decreases n - i,
        {
            let found = self.users[i].id == user_id;
            if found {
                proof {
                    use_type_invariant(&*self);
                }
                let ghost old_views = user_views(self.users@);
                let mut users: Vec<User> = Vec::new();
                std::mem::swap(&mut users, &mut self.users);
                let mut stored = users.remove(i);
                stored.password_hash = password_hash.to_string();
                let ghost new_view = stored@;
                users.insert(i, stored);
                proof {
                    assert(user_views(users@) =~= old_views.update(i as int, new_view));
                    assert(new_view.email == old_views[i as int].email);
                    lemma_accounts_update(old_views, i as int, new_view);
                    lemma_accounts_index(old_views, i as int);
                    assert(new_view == UserView {
                        password_hash: password_hash@,
                        ..old_views[i as int]
                    });
                }
                std::mem::swap(&mut users, &mut self.users);
                proof {
                    let witness = old_views[i as int].email;
                    assert(old(self).accounts() == accounts_of(old_views));
                    assert(old(self).accounts().dom().contains(witness));
                    assert(old(self).accounts()[witness].id == user_id);
                    assert(self.accounts() == old(self).accounts().insert(
                        witness,
                        UserView { password_hash: password_hash@, ..old(self).accounts()[witness] },
                    ));
                }
                return Ok(());
            }
            i += 1;
        }
        proof {
            lemma_accounts_domain(user_views(self.users@));
            assert forall|email: Seq<char>| #[trigger] self.accounts().dom().contains(email)
                implies self.accounts()[email].id != user_id by {
                assert(contains_email(user_views(self.users@), email));
                let j = choose|j: int|
                    0 <= j < user_views(self.users@).len() && user_views(self.users@)[j].email
                        == email;
                lemma_accounts_index(user_views(self.users@), j);
            }
        }
        Err(RepositoryError::NotFound)
    }
}

} // verus!
