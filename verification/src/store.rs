//! The users that the service knows of, kept in memory.

use vstd::prelude::*;
use crate::accounts::{User, UserView};
use crate::text::same_text;

verus! {

/// The index of the first user at or after `from` whose id is `id`.
pub open spec fn id_index_from(users: Seq<User>, id: Seq<char>, from: int) -> Option<int>
    decreases users.len() - from,
{
    if from < 0 || from >= users.len() {
        None
    } else if users[from].id == id {
        Some(from)
    } else {
        id_index_from(users, id, from + 1)
    }
}

/// The first user at or after `from` for whom `wanted` holds.
pub open spec fn first_user_from(
    users: Seq<User>,
    wanted: spec_fn(User) -> bool,
    from: int,
) -> Option<User>
    decreases users.len() - from,
{
    if from < 0 || from >= users.len() {
        None
    } else if wanted(users[from]) {
        Some(users[from])
    } else {
        first_user_from(users, wanted, from + 1)
    }
}

/// The user with the id `id`.
pub open spec fn user_by_id(users: Seq<User>, id: Seq<char>) -> Option<User> {
    first_user_from(users, |u: User| u.id == id, 0)
}

/// The first user with the email `email`.
pub open spec fn user_by_email(users: Seq<User>, email: Seq<char>) -> Option<User> {
    first_user_from(users, |u: User| u.email == email, 0)
}

/// The first user with the login `login`.
pub open spec fn user_by_login(users: Seq<User>, login: Seq<char>) -> Option<User> {
    first_user_from(users, |u: User| u.login == login, 0)
}

/// The users with `user` stored: in place of the user with the same id,
/// or behind all others where there is none.
pub open spec fn stored(users: Seq<User>, user: User) -> Seq<User> {
    match id_index_from(users, user.id, 0) {
        Some(i) => users.update(i, user),
        None => users.push(user),
    }
}

/// No two of the users have one id.
pub open spec fn distinct_ids(users: Seq<User>) -> bool {
    forall|i: int, j: int| 0 <= i < j < users.len() ==> users[i].id != users[j].id
}

/// The models of a list of users.
pub open spec fn user_models(users: Seq<UserView>) -> Seq<User> {
    Seq::new(users.len(), |i: int| users[i]@)
}

/// The model of a user that may be absent.
pub open spec fn opt_user(found: Option<UserView>) -> Option<User> {
    match found {
        Some(u) => Some(u@),
        None => None,
    }
}

/// The users that the service knows of, in the order in which their ids
/// were first stored.
#[derive(Debug, PartialEq)]
pub struct InMemoryUserRepository {
    users: Vec<UserView>,
}

impl View for InMemoryUserRepository {
    type V = Seq<User>;

    closed spec fn view(&self) -> Seq<User> {
        user_models(self.users@)
    }
}

impl InMemoryUserRepository {
    /// What holds of every repository: no two of its users have one id.
    #[verifier::type_invariant]
    spec fn ids_are_distinct(self) -> bool {
        distinct_ids(user_models(self.users@))
    }
}

/// A copy of a user.
fn copy_user(user: &UserView) -> (out: UserView)
    ensures
        out@ == user@,
{
    UserView {
        id: user.id.clone(),
        email: user.email.clone(),
        login: user.login.clone(),
        created_at: user.created_at.clone(),
        updated_at: user.updated_at.clone(),
    }
}

/// The index of the first user whose id is `id`.
fn index_of_id(users: &Vec<UserView>, id: &String) -> (r: Option<usize>)
    ensures
        match r {
            Some(i) => i < users.len() && id_index_from(user_models(users@), id@, 0) == Some(
                i as int,
            ),
            None => id_index_from(user_models(users@), id@, 0) is None,
        },
{
    let ghost all = user_models(users@);
    let mut i: usize = 0;
    while i < users.len()
        invariant
            i <= users.len(),
            all == user_models(users@),
            id_index_from(all, id@, 0) == id_index_from(all, id@, i as int),
        decreases users.len() - i,
    {
        assert(all[i as int] == users[i as int]@);
        if users[i].id == *id {
            return Some(i);
        }
        i += 1;
    }
    None
}

/// The field of a user by which it is looked up.
#[derive(Clone, Copy, Debug, PartialEq, Eq, Structural)]
enum Key {
    Id,
    Email,
    Login,
}

/// Whether the user has `value` in the field `key`.
spec fn has_key(key: Key, value: Seq<char>) -> spec_fn(User) -> bool {
    match key {
        Key::Id => |u: User| u.id == value,
        Key::Email => |u: User| u.email == value,
        Key::Login => |u: User| u.login == value,
    }
}

impl InMemoryUserRepository {
    /// A repository without users.
    pub fn new() -> (out: InMemoryUserRepository)
        ensures
            out@ == Seq::<User>::empty(),
            distinct_ids(out@),
    {
        let out = InMemoryUserRepository { users: Vec::new() };
        assert(out@ =~= Seq::<User>::empty());
        out
    }

    /// The number of users.
    pub fn len(&self) -> (n: usize)
        ensures
            n == self@.len(),
    {
        self.users.len()
    }

    /// The first user with `value` in the field `key`.
    fn find(&self, key: Key, value: &str) -> (found: Option<UserView>)
        ensures
            opt_user(found) == first_user_from(self@, has_key(key, value@), 0),
    {
        let mut i: usize = 0;
        while i < self.users.len()
            invariant
                i <= self.users.len(),
                first_user_from(self@, has_key(key, value@), 0) == first_user_from(
                    self@,
                    has_key(key, value@),
                    i as int,
                ),
            decreases self.users.len() - i,
        {
            let user = &self.users[i];
            let field = match key {
                Key::Id => user.id.as_str(),
                Key::Email => user.email.as_str(),
                Key::Login => user.login.as_str(),
            };
            assert(self@[i as int] == user@);
            if same_text(field, value) {
                return Some(copy_user(user));
            }
            i += 1;
        }
        None
    }

    /// Stores the user, in place of the one with the same id if there is
    /// one, and hands the user back.
    pub fn create(&mut self, user: UserView) -> (out: UserView)
        ensures
            final(self)@ == stored(old(self)@, user@),
            distinct_ids(final(self)@),
            out@ == user@,
    {
        let out = copy_user(&user);
        proof {
            use_type_invariant(&*self);
            lemma_stored_distinct(self@, user@);
        }
        let mut users: Vec<UserView> = Vec::new();
        assert(distinct_ids(user_models(users@)));
        std::mem::swap(&mut self.users, &mut users);
        let ghost before = user_models(users@);
        match index_of_id(&users, &user.id) {
            Some(i) => {
                users.set(i, user);
                assert(user_models(users@) =~= before.update(i as int, out@));
            },
            None => {
                users.push(user);
                assert(user_models(users@) =~= before.push(out@));
            },
        }
        self.users = users;
        out
    }

    /// The first user with the email `email`.
    pub fn find_by_email(&self, email: &str) -> (found: Option<UserView>)
        ensures
            opt_user(found) == user_by_email(self@, email@),
    {
        self.find(Key::Email, email)
    }

    /// The first user with the login `login`.
    pub fn find_by_login(&self, login: &str) -> (found: Option<UserView>)
        ensures
            opt_user(found) == user_by_login(self@, login@),
    {
        self.find(Key::Login, login)
    }

    /// The user with the id `id`: there is at most one.
    pub fn find_by_id(&self, id: &str) -> (found: Option<UserView>)
        ensures
            opt_user(found) == user_by_id(self@, id@),
            distinct_ids(self@),
    {
        proof {
            use_type_invariant(self);
        }
        self.find(Key::Id, id)
    }
}

/// An index that `id_index_from` answers is one at or after `from`, of a
/// user with the id.
proof fn lemma_id_index(users: Seq<User>, id: Seq<char>, from: int)
    ensures
        id_index_from(users, id, from) matches Some(i) ==> from <= i < users.len() && users[i].id
            == id,
    decreases users.len() - from,
{
    if 0 <= from < users.len() && users[from].id != id {
        lemma_id_index(users, id, from + 1);
    }
}

/// Where `id_index_from` answers nothing, no user at or after `from` has
/// the id.
proof fn lemma_id_index_none(users: Seq<User>, id: Seq<char>, from: int)
    requires
        0 <= from,
        id_index_from(users, id, from) is None,
    ensures
        forall|k: int| from <= k < users.len() ==> users[k].id != id,
    decreases users.len() - from,
{
    if from < users.len() {
        lemma_id_index_none(users, id, from + 1);
    }
}

/// Storing a user keeps the ids distinct.
pub proof fn lemma_stored_distinct(users: Seq<User>, user: User)
    requires
        distinct_ids(users),
    ensures
        distinct_ids(stored(users, user)),
{
    match id_index_from(users, user.id, 0) {
        Some(i) => {
            lemma_id_index(users, user.id, 0);
        },
        None => {
            lemma_id_index_none(users, user.id, 0);
        },
    }
}

/// A user that was stored is found by its id.
pub proof fn lemma_stored_is_found(users: Seq<User>, user: User)
    ensures
        user_by_id(stored(users, user), user.id) == Some(user),
{
    let wanted = |u: User| u.id == user.id;
    lemma_first_match(users, user, wanted, 0);
}

/// Looking up from `from` on after storing: the stored user is the first
/// with its id.
proof fn lemma_first_match(users: Seq<User>, user: User, wanted: spec_fn(User) -> bool, from: int)
    requires
        0 <= from <= users.len(),
        forall|u: User| wanted(u) == (u.id == user.id),
        id_index_from(users, user.id, 0) == id_index_from(users, user.id, from),
    ensures
        first_user_from(stored(users, user), wanted, from) == Some(user),
    decreases users.len() - from,
{
    let after = stored(users, user);
    if from >= users.len() {
        assert(id_index_from(users, user.id, 0) is None);
        assert(after == users.push(user));
        assert(after[from] == user);
    } else if users[from].id == user.id {
        assert(id_index_from(users, user.id, 0) == Some(from));
        assert(after == users.update(from, user));
        assert(after[from] == user);
    } else {
        lemma_first_match(users, user, wanted, from + 1);
        lemma_id_index(users, user.id, from + 1);
        assert(after[from] == users[from]);
    }
}

} // verus!
