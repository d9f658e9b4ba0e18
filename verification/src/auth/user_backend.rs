use crate::auth::user::{default_secret, User, UserView};
use std::collections::{HashMap, HashSet};
use vstd::prelude::*;
use vstd::utf8::encode_utf8;

verus! {

broadcast use vstd::std_specs::hash::group_hash_axioms;

/// What a caller presents to log in.
#[derive(Clone)]
pub struct Credentials {
    pub user_id: i64,
    pub password: String,
}

/// The users that the gateway knows, by identifier.
#[derive(Clone)]
pub struct UserBackend {
    users: HashMap<i64, User>,
}

impl View for UserBackend {
    type V = Map<i64, UserView>;

    closed spec fn view(&self) -> Map<i64, UserView> {
        self.users@.map_values(|user: User| user@)
    }
}

/// The built-in users: 1 may open document 1, 2 may open document 2, 3 may
/// open both, 4 may open none. All of them log in with the default secret.
pub open spec fn initial_users() -> Map<i64, UserView> {
    map![
        1i64 => UserView { id: 1, doc_ids: seq![1i64], pw_hash: default_secret() },
        2i64 => UserView { id: 2, doc_ids: seq![2i64], pw_hash: default_secret() },
        3i64 => UserView { id: 3, doc_ids: seq![1i64, 2i64], pw_hash: default_secret() },
        4i64 => UserView { id: 4, doc_ids: Seq::<i64>::empty(), pw_hash: default_secret() },
    ]
}

/// Whether two byte strings are the same.
fn same_bytes(left: &[u8], right: &[u8]) -> (same: bool)
    ensures
        same == (left@ == right@),
{
    if left.len() != right.len() {
        return false;
    }
    let mut i: usize = 0;
    while i < left.len()
        invariant
            left.len() == right.len(),
            i <= left.len(),
            forall|k: int| 0 <= k < i ==> left[k] == right[k],
        decreases left.len() - i,
    {
        if left[i] != right[i] {
            return false;
        }
        i += 1;
    }
    assert(left@ =~= right@);
    true
}

impl UserBackend {
    /// The backend with the built-in users.
    pub fn new() -> (backend: Self)
        ensures
            backend@ == initial_users(),
    {
        let mut users: HashMap<i64, User> = HashMap::new();
        let one: [i64; 1] = [1];
        let two: [i64; 1] = [2];
        let both: [i64; 2] = [1, 2];
        let none: [i64; 0] = [];
        users.insert(1, User::new(1, one.as_slice()));
        users.insert(2, User::new(2, two.as_slice()));
        users.insert(3, User::new(3, both.as_slice()));
        users.insert(4, User::new(4, none.as_slice()));
        proof {
            assert(one@ =~= seq![1i64]);
            assert(two@ =~= seq![2i64]);
            assert(none@ =~= Seq::<i64>::empty());
        }
        UserBackend { users }
    }

    /// Checks credentials: the user of that identifier, if there is one and
    /// the password's bytes are that user's secret.
    pub fn authenticate(&self, creds: Credentials) -> (found: Option<User>)
        ensures
            found is Some <==> self@.contains_key(creds.user_id) && encode_utf8(creds.password@)
                == self@[creds.user_id].pw_hash,
            found matches Some(user) ==> user@ == self@[creds.user_id],
    {
        match self.users.get(&creds.user_id) {
            Some(user) => {
                if same_bytes(creds.password.as_str().as_bytes(), user.session_auth_hash()) {
                    Some(user.clone())
                } else {
                    None
                }
            },
            None => None,
        }
    }

    /// The user of that identifier, if there is one.
    pub fn get_user(&self, user_id: &i64) -> (found: Option<User>)
        ensures
            found is Some <==> self@.contains_key(*user_id),
            found matches Some(user) ==> user@ == self@[*user_id],
    {
        match self.users.get(user_id) {
            Some(user) => Some(user.clone()),
            None => None,
        }
    }

    /// The documents that `user` may open, as a set.
    pub fn get_user_permissions(&self, user: &User) -> (permissions: HashSet<i64>)
        ensures
            permissions@ == user@.doc_ids.to_set(),
    {
        let mut permissions: HashSet<i64> = HashSet::new();
        let mut i: usize = 0;
        while i < user.doc_ids.len()
            invariant
                i <= user.doc_ids.len(),
                permissions@ == user.doc_ids@.take(i as int).to_set(),
            decreases user.doc_ids.len() - i,
        {
            permissions.insert(user.doc_ids[i]);
            proof {
                let ids = user.doc_ids@;
                assert(ids.take(i + 1) =~= ids.take(i as int).push(ids[i as int]));
                ids.take(i as int).lemma_push_to_set_commute(ids[i as int]);
            }
            i += 1;
        }
        assert(user.doc_ids@.take(i as int) =~= user.doc_ids@);
        permissions
    }
}

impl Default for UserBackend {
    /// A backend without users.
    fn default() -> (backend: Self)
        ensures
            backend@ == Map::<i64, UserView>::empty(),
    {
        UserBackend { users: HashMap::new() }
    }
}

} // verus!
