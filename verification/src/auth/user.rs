use vstd::prelude::*;
use vstd::slice::slice_to_vec;
use vstd::string::StrSliceExecFns;
use vstd::string::StringSliceAdditionalSpecFns;

verus! {

/// An authenticated identity with the documents it may open.
#[derive(Debug)]
pub struct User {
    pub id: i64,
    pub doc_ids: Vec<i64>,
    pub pw_hash: Vec<u8>,
}

/// [`User`] as contracts see it.
pub struct UserView {
    pub id: i64,
    pub doc_ids: Seq<i64>,
    pub pw_hash: Seq<u8>,
}

impl View for User {
    type V = UserView;

    open spec fn view(&self) -> UserView {
        UserView { id: self.id, doc_ids: self.doc_ids@, pw_hash: self.pw_hash@ }
    }
}

/// The secret that every new user starts with: the bytes of "password".
pub open spec fn default_secret() -> Seq<u8> {
    seq![112u8, 97u8, 115u8, 115u8, 119u8, 111u8, 114u8, 100u8]
}

impl Clone for User {
    /// A copy with the same identifier, documents and secret.
    fn clone(&self) -> (copy: Self)
        ensures
            copy@ == self@,
    {
        User { id: self.id, doc_ids: self.doc_ids.clone(), pw_hash: self.pw_hash.clone() }
    }
}

impl User {
    /// A user that may open the documents `doc_ids` and logs in with the
    /// default secret.
    pub fn new(id: i64, doc_ids: &[i64]) -> (user: Self)
        ensures
            user@ == (UserView { id, doc_ids: doc_ids@, pw_hash: default_secret() }),
    {
        let pw_hash = "password".as_bytes_vec();
        proof {
            reveal_strlit("password");
            vstd::string::is_ascii_spec_bytes("password");
            assert("password".spec_bytes() =~= default_secret());
        }
        User { id, doc_ids: slice_to_vec(doc_ids), pw_hash }
    }

    /// The user's identifier.
    pub fn id(&self) -> (id: i64)
        ensures
            id == self.id,
    {
        self.id
    }

    /// The bytes that a login has to present, and that tie a stored login
    /// session to this user.
    pub fn session_auth_hash(&self) -> (hash: &[u8])
        ensures
            hash@ == self.pw_hash@,
    {
        self.pw_hash.as_slice()
    }
}

} // verus!
