//! User accounts and the stores that keep them.

use vstd::prelude::*;

verus! {

/// A user's credentials, as sent by a client on registration and login.
#[derive(Clone)]
pub struct User {
    pub email: String,
    pub password: String,
}

/// The credentials `map` accepts the pair `(email, password)`: a user with
/// that email is registered, and registered with that password.
pub open spec fn credentials_match(
    map: Map<Seq<char>, Seq<char>>,
    email: Seq<char>,
    password: Seq<char>,
) -> bool {
    map.contains_key(email) && map[email] == password
}

/// The credentials after a registration attempt of `(email, password)`:
/// a registration succeeds exactly when the email is not taken yet.
pub open spec fn after_registration(
    map: Map<Seq<char>, Seq<char>>,
    email: Seq<char>,
    password: Seq<char>,
) -> Map<Seq<char>, Seq<char>> {
    if map.contains_key(email) {
        map
    } else {
        map.insert(email, password)
    }
}

/// After a successful registration, login with the registered email succeeds
/// exactly with the registered password.
pub proof fn lemma_registered_user_logs_in(
    map: Map<Seq<char>, Seq<char>>,
    email: Seq<char>,
    password: Seq<char>,
    attempt: Seq<char>,
)
    requires
        !map.contains_key(email),
    ensures
        credentials_match(after_registration(map, email, password), email, attempt) <==> attempt
            == password,
{
}

/// Once an email is registered it stays taken: a registration attempt never
/// frees it, and a later attempt with the same email is refused and leaves
/// the credentials as they are, whatever its password.
pub proof fn lemma_email_stays_taken(
    map: Map<Seq<char>, Seq<char>>,
    email: Seq<char>,
    password: Seq<char>,
    other_email: Seq<char>,
    other_password: Seq<char>,
)
    ensures
        after_registration(map, email, password).contains_key(email),
        map.contains_key(other_email) ==> after_registration(
            map,
            other_email,
            other_password,
        ).contains_key(other_email),
        map.contains_key(email) ==> after_registration(map, email, other_password) == map,
{
}

/// A registration changes nothing for the other users: every login attempt
/// with another email succeeds after it exactly when it did before.
pub proof fn lemma_registration_leaves_others(
    map: Map<Seq<char>, Seq<char>>,
    email: Seq<char>,
    password: Seq<char>,
    other_email: Seq<char>,
    attempt: Seq<char>,
)
    requires
        other_email != email,
    ensures
        credentials_match(after_registration(map, email, password), other_email, attempt)
            == credentials_match(map, other_email, attempt),
{
}

/// A store of user accounts, keyed by email.
///
/// Every store is modelled by `credentials`, the map from each registered
/// email to the password it was registered with.
pub trait Database {
    /// Each registered email, with the password it was registered with.
    spec fn credentials(&self) -> Map<Seq<char>, Seq<char>>;

    /// Registers `user`, unless a user with the same email is registered
    /// already; returns whether the user was added.
    fn try_add_user(&mut self, user: User) -> (added: bool)
        ensures
            added == !old(self).credentials().contains_key(user.email@),
            final(self).credentials() == after_registration(
                old(self).credentials(),
                user.email@,
                user.password@,
            ),
    ;

    /// Whether a user with the given email is registered with the given
    /// password.
    fn validate_user(&self, user: &User) -> (valid: bool)
        ensures
            valid == credentials_match(self.credentials(), user.email@, user.password@),
    ;
}


/// The credentials that a sequence of registered users amounts to, the later
/// registrations last.
pub open spec fn users_credentials(users: Seq<User>) -> Map<Seq<char>, Seq<char>>
    decreases users.len(),
{
    if users.len() == 0 {
        Map::empty()
    } else {
        users_credentials(users.drop_last()).insert(
            users.last().email@,
            users.last().password@,
        )
    }
}

/// No two users of the sequence share an email.
pub open spec fn emails_distinct(users: Seq<User>) -> bool {
    forall|i: int, j: int|
        0 <= i < j < users.len() ==> #[trigger] users[i].email@ != #[trigger] users[j].email@
}

/// An email is registered in `users_credentials(users)` exactly when some user
/// of the sequence has it, and, where emails are distinct, it maps to that
/// user's password.
pub proof fn lemma_users_credentials(users: Seq<User>, email: Seq<char>)
    ensures
        users_credentials(users).contains_key(email) <==> exists|i: int|
            0 <= i < users.len() && #[trigger] users[i].email@ == email,
        emails_distinct(users) ==> forall|i: int|
            0 <= i < users.len() && #[trigger] users[i].email@ == email
                ==> users_credentials(users)[email] == users[i].password@,
    decreases users.len(),
{
    if users.len() > 0 {
        let init = users.drop_last();
        lemma_users_credentials(init, email);
        if users_credentials(users).contains_key(email) {
            if users.last().email@ != email {
                let i = choose|i: int| 0 <= i < init.len() && #[trigger] init[i].email@ == email;
                assert(users[i].email@ == email);
            } else {
                assert(users[users.len() - 1].email@ == email);
            }
        }
        assert forall|i: int|
            0 <= i < users.len() && #[trigger] users[i].email@ == email implies
            users_credentials(init).contains_key(email) || i == users.len() - 1 by {
            if i < users.len() - 1 {
                assert(init[i].email@ == email);
            }
        }
        if emails_distinct(users) {
            assert(emails_distinct(init));
        }
    }
}

/// A user store that keeps its accounts in memory, in the order they were
/// registered.
pub struct SimpleMemoryDatabase {
    users: Vec<User>,
}

impl SimpleMemoryDatabase {
    #[verifier::type_invariant]
    spec fn well_formed(self) -> bool {
        emails_distinct(self.users@)
    }

    /// The registered users, in the order of their registration.
    pub closed spec fn users(self) -> Seq<User> {
        self.users@
    }

    /// The credentials of the store are those of its users: each registered
    /// email maps to the password of the one user registered with it.
    pub proof fn lemma_credentials_of_users(&self)
        requires
            emails_distinct(self.users()),
        ensures
            self.credentials() == users_credentials(self.users()),
            forall|email: Seq<char>|
                #![trigger self.credentials().contains_key(email)]
                self.credentials().contains_key(email) <==> exists|i: int|
                    0 <= i < self.users().len() && #[trigger] self.users()[i].email@ == email,
            forall|i: int|
                0 <= i < self.users().len() ==> #[trigger] self.credentials()[self.users()[i].email@]
                    == self.users()[i].password@,
    {
        assert forall|email: Seq<char>|
            #![trigger self.credentials().contains_key(email)]
            self.credentials().contains_key(email) <==> exists|i: int|
                0 <= i < self.users().len() && #[trigger] self.users()[i].email@ == email by {
            lemma_users_credentials(self.users@, email);
        }
        assert forall|i: int| 0 <= i < self.users().len() implies #[trigger] self.credentials()[
            self.users()[i].email@] == self.users()[i].password@ by {
            lemma_users_credentials(self.users@, self.users@[i].email@);
        }
    }

    /// Creates an empty store.
    pub fn new() -> (database: Self)
        ensures
            database.users() == Seq::<User>::empty(),
            emails_distinct(database.users()),
            database.credentials() == Map::<Seq<char>, Seq<char>>::empty(),
    {
        SimpleMemoryDatabase { users: Vec::new() }
    }

    /// The index of the registered user with the given email, if there is one.
    fn find_email(&self, email: &String) -> (found: Option<usize>)
        ensures
            match found {
                Some(i) => i < self.users@.len() && self.users@[i as int].email@ == email@,
                None => forall|i: int|
                    0 <= i < self.users@.len() ==> #[trigger] self.users@[i].email@ != email@,
            },
    {
        let mut i: usize = 0;
        while i < self.users.len()
            invariant
                i <= self.users@.len(),
                forall|j: int| 0 <= j < i ==> #[trigger] self.users@[j].email@ != email@,
            decreases self.users@.len() - i,
        {
            if self.users[i].email == *email {
                return Some(i);
            }
            i = i + 1;
        }
        None
    }
}

impl Database for SimpleMemoryDatabase {
    closed spec fn credentials(&self) -> Map<Seq<char>, Seq<char>> {
        users_credentials(self.users@)
    }

    fn try_add_user(&mut self, user: User) -> (added: bool)
        ensures
            added == !exists|i: int|
                0 <= i < old(self).users().len() && #[trigger] old(self).users()[i].email@
                    == user.email@,
            added ==> final(self).users() == old(self).users().push(user),
            !added ==> final(self).users() == old(self).users(),
            emails_distinct(final(self).users()),
    {
        proof {
            use_type_invariant(&*self);
            lemma_users_credentials(self.users@, user.email@);
        }
        if let Some(taken) = self.find_email(&user.email) {
            // the email is taken: the store stays as it is
            assert(self.users()[taken as int].email@ == user.email@);
            return false;
        }
        let ghost before = self.users@;
        let ghost email = user.email@;
        let ghost password = user.password@;
        let mut users: Vec<User> = Vec::new();
        std::mem::swap(&mut users, &mut self.users);
        users.push(user);
        proof {
            assert(users@.drop_last() == before);
            assert forall|i: int, j: int|
                0 <= i < j < users@.len() implies #[trigger] users@[i].email@
                    != #[trigger] users@[j].email@ by {
                if j == users@.len() - 1 {
                    assert(before[i].email@ != email);
                } else {
                    assert(before[i].email@ != before[j].email@);
                }
            }
        }
        self.users = users;
        true
    }

    fn validate_user(&self, user: &User) -> (valid: bool)
        ensures
            valid == exists|i: int|
                0 <= i < self.users().len() && #[trigger] self.users()[i].email@ == user.email@
                    && self.users()[i].password@ == user.password@,
    {
        proof {
            use_type_invariant(self);
            lemma_users_credentials(self.users@, user.email@);
        }
        let mut i: usize = 0;
        while i < self.users.len()
            invariant
                i <= self.users@.len(),
                forall|j: int|
                    0 <= j < i ==> !(#[trigger] self.users@[j].email@ == user.email@
                        && self.users@[j].password@ == user.password@),
            decreases self.users@.len() - i,
        {
            if self.users[i].email == user.email && self.users[i].password == user.password {
                proof {
                    use_type_invariant(self);
                    lemma_users_credentials(self.users@, user.email@);
                    assert(self.users()[i as int].email@ == user.email@);
                }
                return true;
            }
            i = i + 1;
        }
        false
    }
}

} // verus!
