//! Who is signed in: the users that the identity provider has vouched for, and
//! the check on the state that guards the way back from it.

use std::collections::HashMap;
use vstd::prelude::*;

verus! {

broadcast use vstd::std_specs::hash::group_hash_axioms;

/// A user as the identity provider describes them, with the token it gave us
/// for them.
#[derive(Debug)]
pub struct User {
    pub id: u32,
    pub username: String,
    access_token: String,
}

/// A [`User`] as a mathematical value.
pub struct UserView {
    pub id: u32,
    pub username: Seq<char>,
    pub access_token: Seq<char>,
}

impl View for User {
    type V = UserView;

    closed spec fn view(&self) -> UserView {
        UserView { id: self.id, username: self.username@, access_token: self.access_token@ }
    }
}

impl User {
    /// The user with the given number and name, and the token that was issued
    /// for them.
    pub fn new(id: u32, username: String, access_token: String) -> (user: User)
        ensures
            user@ == (UserView { id, username: username@, access_token: access_token@ }),
    {
        User { id, username, access_token }
    }

    /// The number by which the identity provider knows the user.
    pub fn id(&self) -> (id: u32)
        ensures
            id == self@.id,
    {
        self.id
    }

    /// What a session is bound to: the bytes of the access token. A session
    /// made under one token is void under another.
    pub fn session_auth_hash(&self) -> (hash: &[u8])
        ensures
            hash@ == vstd::utf8::encode_utf8(self@.access_token),
    {
        self.access_token.as_str().as_bytes()
    }
}

impl Clone for User {
    fn clone(&self) -> (copy: User)
        ensures
            copy@ == self@,
    {
        User {
            id: self.id,
            username: self.username.clone(),
            access_token: self.access_token.clone(),
        }
    }
}

/// What comes back from the identity provider after a login, together with
/// the state that was handed out when the login began.
#[derive(Debug)]
pub struct Credentials {
    /// The code to exchange for an access token.
    pub code: String,
    /// The state that the session has kept since the login began.
    pub old_state: String,
    /// The state that came back with the code.
    pub new_state: String,
}

impl Credentials {
    /// Tells whether the state that came back is the one that was handed out.
    /// Where it is not, the code did not come from a login that this session
    /// began, and must not be exchanged.
    pub fn state_matches(&self) -> (matches: bool)
        ensures
            matches == (self.old_state@ == self.new_state@),
    {
        self.old_state == self.new_state
    }
}

/// The users who have signed in, by their number.
pub struct UserStore {
    users: HashMap<u32, User>,
}

impl View for UserStore {
    type V = Map<u32, UserView>;

    closed spec fn view(&self) -> Map<u32, UserView> {
        self.users@.map_values(|user: User| user@)
    }
}

impl UserStore {
    /// A store that knows nobody.
    pub fn new() -> (store: UserStore)
        ensures
            store@ == Map::<u32, UserView>::empty(),
    {
        let store = UserStore { users: HashMap::new() };
        assert(store@ =~= Map::<u32, UserView>::empty());
        store
    }

    /// Keeps `user` under their number, in place of whoever was kept under it.
    pub fn insert(&mut self, user: User)
        ensures
            final(self)@ == old(self)@.insert(user@.id, user@),
    {
        self.users.insert(user.id, user);
        assert(self@ =~= old(self)@.insert(user@.id, user@));
    }

    /// Takes in a user that the identity provider has just vouched for: makes
    /// the user of the provider's number and name and the token issued for
    /// them, keeps a copy under their number, and gives the user back.
    pub fn sign_in(&mut self, id: u32, username: String, access_token: String) -> (user: User)
        ensures
            user@ == (UserView { id, username: username@, access_token: access_token@ }),
            final(self)@ == old(self)@.insert(id, user@),
    {
        let user = User::new(id, username, access_token);
        self.insert(user.clone());
        user
    }

    /// The user kept under the number `id`, if there is one.
    pub fn get_user(&self, id: u32) -> (found: Option<User>)
        ensures
            match found {
                Some(user) => self@.contains_key(id) && user@ == self@[id],
                None => !self@.contains_key(id),
            },
    {
        match self.users.get(&id) {
            Some(user) => Some(user.clone()),
            None => None,
        }
    }
}

} // verus!
