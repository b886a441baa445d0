//! State of the server, as the route handlers see it: the stored data and
//! the session ids of logged-in users.
use vstd::prelude::*;
use vstd::utf8::encode_utf8;
use crate::item::Item;
use crate::password::{SALT_LEN, argon2_phc, hash_password, password_matches, random_salt, verify_password};
use crate::session::{
    is_session_text, lemma_session_text, cookie_text, random_session_bytes, session_id_from_bytes, session_text,
    SESSION_ID_LEN,
};
use crate::shared::{Auth, Hashed, SessionId, Username};
use crate::storage::StoredData;
use crate::table::Table;

verus! {

/// The bytes of a password, as `str::as_bytes` gives them.
pub open spec fn password_bytes(auth: Auth) -> Seq<u8> {
    encode_utf8(auth.password.0@)
}

/// `hash` is what argon2 makes of the password of `auth` with some salt of
/// `SALT_LEN` bytes.
pub open spec fn hashed_with_some_salt(auth: Auth, hash: Hashed) -> bool {
    exists|salt: Seq<u8>| salt.len() == SALT_LEN && argon2_phc(password_bytes(auth), salt) == Some(#[trigger] hash.0@)
}

/// State of the server, accessible from all route handlers.
pub struct ServerState {
    /// Data that is saved and reloaded
    data: StoredData,
    /// Session ids of logged in users
    session_ids: Table<Username>,
}

impl ServerState {
    /// The data that persists across restarts.
    pub closed spec fn data(&self) -> StoredData {
        self.data
    }

    /// The user name behind each live session id.
    pub closed spec fn sessions(&self) -> Map<Seq<char>, Username> {
        self.session_ids@
    }

    /// Both tables hold each key once.
    pub closed spec fn wf(&self) -> bool {
        self.data.wf() && self.session_ids.wf()
    }

    /// The user exists and the password verifies against the user's hash.
    pub open spec fn credentials_valid(&self, auth: Auth) -> bool {
        &&& self.data().users().contains_key(auth.username.0@)
        &&& password_matches(password_bytes(auth), self.data().users()[auth.username.0@].0@)
    }

    /// A state with the given data and no session.
    pub fn new(data: StoredData) -> (s: Self)
        requires
            data.wf(),
        ensures
            s.wf(),
            s.data() == data,
            s.sessions() == Map::<Seq<char>, Username>::empty(),
    {
        ServerState { data, session_ids: Table::new() }
    }

    /// The stored data.
    pub fn stored(&self) -> (d: &StoredData)
        ensures
            *d == self.data(),
    {
        &self.data
    }

    /// Save a new feedback.
    pub fn add_feedback(&mut self, feedback: String)
        requires
            old(self).wf(),
        ensures
            final(self).wf(),
            final(self).data().feedback() == old(self).data().feedback().push(feedback),
            final(self).data().items() == old(self).data().items(),
            final(self).data().users() == old(self).data().users(),
            final(self).sessions() == old(self).sessions(),
    {
        self.data.add_feedback(feedback);
    }

    /// Adds a new item to the server.
    pub fn add_item(&mut self, item: Item)
        requires
            old(self).wf(),
        ensures
            final(self).wf(),
            final(self).data().items() == old(self).data().items().push(item),
            final(self).data().feedback() == old(self).data().feedback(),
            final(self).data().users() == old(self).data().users(),
            final(self).sessions() == old(self).sessions(),
    {
        self.data.add_item(item);
    }

    /// Edits an existing item; returns the replaced item, or `None` when the
    /// index is not that of an item.
    pub fn edit_item(&mut self, index: usize, item: Item) -> (replaced: Option<Item>)
        requires
            old(self).wf(),
        ensures
            final(self).wf(),
            final(self).data().feedback() == old(self).data().feedback(),
            final(self).data().users() == old(self).data().users(),
            final(self).sessions() == old(self).sessions(),
            index < old(self).data().items().len() ==> {
                &&& replaced == Some(old(self).data().items()[index as int])
                &&& final(self).data().items() == old(self).data().items().update(index as int, item)
            },
            index >= old(self).data().items().len() ==> {
                &&& replaced is None
                &&& final(self).data().items() == old(self).data().items()
            },
    {
        self.data.edit_item(index, item)
    }

    /// Returns the list of feedback.
    pub fn get_feedback(&self) -> (f: &[String])
        ensures
            f@ == self.data().feedback(),
    {
        self.data.get_feedback()
    }

    /// Returns the list of items currently on the server.
    pub fn get_items(&self) -> (i: &[Item])
        ensures
            i@ == self.data().items(),
    {
        self.data.get_items()
    }

    /// The user name behind a session id, if the session exists.
    pub fn session_user(&self, session_id: &SessionId) -> (u: Option<&Username>)
        requires
            self.wf(),
        ensures
            u matches Some(u) ==> self.sessions().contains_key(session_id.0@) && *u == self.sessions()[session_id.0@],
            u is None ==> !self.sessions().contains_key(session_id.0@),
    {
        self.session_ids.get(&session_id.0)
    }

    /// Opens a session for the user with the id made from the given
    /// random bytes.
    pub fn start_session(&mut self, username: Username, bytes: &[u8]) -> (id: SessionId)
        requires
            old(self).wf(),
        ensures
            final(self).wf(),
            final(self).data() == old(self).data(),
            id.0@ == session_text(bytes@),
            final(self).sessions() == old(self).sessions().insert(id.0@, username),
    {
        let session_id = session_id_from_bytes(bytes);
        let key = session_id.0.clone();
        self.session_ids.insert(key, username);
        session_id
    }

    /// Makes a new session id for the given user from `SESSION_ID_LEN` random
    /// bytes; `None`, with nothing changed, when no random bytes could be
    /// drawn.
    pub fn make_session_id(&mut self, username: Username) -> (id: Option<SessionId>)
        requires
            old(self).wf(),
        ensures
            final(self).wf(),
            final(self).data() == old(self).data(),
            id matches Some(id) ==> {
                &&& is_session_text(id.0@)
                &&& id.0@.len() == SESSION_ID_LEN
                &&& cookie_text(id.0@)
                &&& final(self).sessions() == old(self).sessions().insert(id.0@, username)
            },
            id is None ==> final(self).sessions() == old(self).sessions(),
    {
        match random_session_bytes() {
            Some(bytes) => {
                let id = self.start_session(username, bytes.as_slice());
                proof {
                    assert(is_session_text(id.0@));
                    lemma_session_text(id.0@);
                }
                Some(id)
            },
            None => None,
        }
    }

    /// Whether the user exists and the password verifies against the
    /// user's hash.
    pub fn check_credentials(&self, auth: &Auth) -> (ok: bool)
        requires
            self.wf(),
        ensures
            ok == self.credentials_valid(*auth),
    {
        match self.data.get_user(&auth.username) {
            Some(hash) => verify_password(auth.password.0.as_str().as_bytes(), hash.0.as_str()),
            None => false,
        }
    }

    /// Login a user: checks that username and password are valid, and
    /// returns a session id.
    pub fn login(&mut self, auth: Auth) -> (id: Option<SessionId>)
        requires
            old(self).wf(),
        ensures
            final(self).wf(),
            final(self).data() == old(self).data(),
            !old(self).credentials_valid(auth) ==> id is None,
            id matches Some(id) ==> {
                &&& is_session_text(id.0@)
                &&& id.0@.len() == SESSION_ID_LEN
                &&& cookie_text(id.0@)
                &&& final(self).sessions() == old(self).sessions().insert(id.0@, auth.username)
            },
            id is None ==> final(self).sessions() == old(self).sessions(),
    {
        let session_bytes = random_session_bytes();
        let id = self.login_with(auth, session_bytes);
        proof {
            if id is Some {
                let sid = id->0;
                lemma_session_text(sid.0@);
            }
        }
        id
    }

    /// Logs a user in with the given random bytes for the session id (`None`
    /// when none could be drawn). With valid credentials and bytes, the
    /// login succeeds whatever sessions are live: the id made from the
    /// bytes now leads to the user, and the other sessions stay.
    pub fn login_with(&mut self, auth: Auth, session_bytes: Option<Vec<u8>>) -> (id: Option<SessionId>)
        requires
            old(self).wf(),
            session_bytes matches Some(b) ==> b@.len() == SESSION_ID_LEN,
        ensures
            final(self).wf(),
            final(self).data() == old(self).data(),
            !old(self).credentials_valid(auth) || session_bytes is None ==> {
                &&& id is None
                &&& final(self).sessions() == old(self).sessions()
            },
            old(self).credentials_valid(auth) && session_bytes is Some ==> {
                &&& id matches Some(id)
                &&& id.0@ == session_text(session_bytes->0@)
                &&& is_session_text(id.0@)
                &&& final(self).sessions() == old(self).sessions().insert(id.0@, auth.username)
            },
    {
        if !self.check_credentials(&auth) {
            return None;
        }
        match session_bytes {
            Some(bytes) => {
                let id = self.start_session(auth.username, bytes.as_slice());
                assert(is_session_text(id.0@));
                Some(id)
            },
            None => None,
        }
    }

    /// Registers the user with a hash of the password made with the given
    /// salt bytes; refuses a taken name. Registration succeeds exactly when
    /// the name is free and the password could be hashed, which it always
    /// can with a salt of `SALT_LEN` bytes and a password of at most
    /// `u32::MAX` bytes.
    pub fn register(&mut self, auth: &Auth, salt: &[u8]) -> (registered: bool)
        requires
            old(self).wf(),
        ensures
            final(self).wf(),
            final(self).data().feedback() == old(self).data().feedback(),
            final(self).data().items() == old(self).data().items(),
            final(self).sessions() == old(self).sessions(),
            old(self).data().users().contains_key(auth.username.0@) ==> !registered,
            !old(self).data().users().contains_key(auth.username.0@) && salt@.len() == SALT_LEN
                && password_bytes(*auth).len() <= u32::MAX ==> registered,
            registered ==> {
                &&& !old(self).data().users().contains_key(auth.username.0@)
                &&& argon2_phc(password_bytes(*auth), salt@) == Some(
                    final(self).data().users()[auth.username.0@].0@,
                )
                &&& final(self).data().users() == old(self).data().users().insert(
                    auth.username.0@,
                    final(self).data().users()[auth.username.0@],
                )
                &&& final(self).credentials_valid(*auth)
            },
            !registered ==> final(self).data().users() == old(self).data().users(),
    {
        let hash = match hash_password(auth.password.0.as_str().as_bytes(), salt) {
            Some(phc) => phc,
            None => return false,
        };
        let name = Username(auth.username.0.clone());
        self.data.add_user(name, Hashed(hash))
    }

    /// Signin a user: registers the user with a hash of the password made
    /// with a random salt, and returns a session id. `None` when the name is
    /// taken (nothing changes), when no salt could be drawn or the password
    /// is too long to hash (nothing changes), or when no session id could be
    /// drawn (the user stays registered). What happens once a salt is drawn
    /// is [`ServerState::register`].
    pub fn signin(&mut self, auth: Auth) -> (id: Option<SessionId>)
        requires
            old(self).wf(),
        ensures
            final(self).wf(),
            final(self).data().feedback() == old(self).data().feedback(),
            final(self).data().items() == old(self).data().items(),
            old(self).data().users().contains_key(auth.username.0@) ==> {
                &&& id is None
                &&& final(self).data().users() == old(self).data().users()
                &&& final(self).sessions() == old(self).sessions()
            },
            final(self).data().users() == old(self).data().users() || {
                &&& !old(self).data().users().contains_key(auth.username.0@)
                &&& final(self).data().users() == old(self).data().users().insert(
                    auth.username.0@,
                    final(self).data().users()[auth.username.0@],
                )
                &&& final(self).credentials_valid(auth)
                &&& hashed_with_some_salt(auth, final(self).data().users()[auth.username.0@])
            },
            id matches Some(id) ==> {
                &&& !old(self).data().users().contains_key(auth.username.0@)
                &&& final(self).data().users().contains_key(auth.username.0@)
                &&& final(self).credentials_valid(auth)
                &&& is_session_text(id.0@)
                &&& id.0@.len() == SESSION_ID_LEN
                &&& cookie_text(id.0@)
                &&& final(self).sessions() == old(self).sessions().insert(id.0@, auth.username)
            },
            id is None ==> final(self).sessions() == old(self).sessions(),
    {
        let salt = match random_salt() {
            Some(salt) => salt,
            None => return None,
        };
        let session_bytes = random_session_bytes();
        let id = self.signin_with(auth, salt.as_slice(), session_bytes);
        proof {
            if self.data().users() != old(self).data().users() {
                assert(hashed_with_some_salt(auth, self.data().users()[auth.username.0@]));
            }
            if id is Some {
                let sid = id->0;
                lemma_session_text(sid.0@);
            }
        }
        id
    }

    /// Signs a user up with the given salt bytes and random bytes for the
    /// session id (`None` when none could be drawn). A free name is
    /// registered whatever other users exist (with a salt of `SALT_LEN`
    /// bytes and a password within argon2's limit), with the hash argon2
    /// makes of the password and this salt; with bytes for the session, the
    /// id made from them then leads to the user. A taken name changes
    /// nothing.
    pub fn signin_with(&mut self, auth: Auth, salt: &[u8], session_bytes: Option<Vec<u8>>) -> (id: Option<SessionId>)
        requires
            old(self).wf(),
            session_bytes matches Some(b) ==> b@.len() == SESSION_ID_LEN,
        ensures
            final(self).wf(),
            final(self).data().feedback() == old(self).data().feedback(),
            final(self).data().items() == old(self).data().items(),
            old(self).data().users().contains_key(auth.username.0@) ==> {
                &&& id is None
                &&& final(self).data().users() == old(self).data().users()
                &&& final(self).sessions() == old(self).sessions()
            },
            !old(self).data().users().contains_key(auth.username.0@) && salt@.len() == SALT_LEN
                && password_bytes(auth).len() <= u32::MAX ==> final(self).data().users().contains_key(
                auth.username.0@,
            ),
            final(self).data().users() == old(self).data().users() || {
                &&& !old(self).data().users().contains_key(auth.username.0@)
                &&& final(self).data().users() == old(self).data().users().insert(
                    auth.username.0@,
                    final(self).data().users()[auth.username.0@],
                )
                &&& argon2_phc(password_bytes(auth), salt@) == Some(final(self).data().users()[auth.username.0@].0@)
                &&& final(self).credentials_valid(auth)
            },
            final(self).data().users() != old(self).data().users() && session_bytes is Some ==> {
                &&& id matches Some(id)
                &&& id.0@ == session_text(session_bytes->0@)
                &&& is_session_text(id.0@)
                &&& final(self).sessions() == old(self).sessions().insert(id.0@, auth.username)
            },
            final(self).data().users() == old(self).data().users() || session_bytes is None ==> {
                &&& id is None
                &&& final(self).sessions() == old(self).sessions()
            },
    {
        if !self.register(&auth, salt) {
            return None;
        }
        match session_bytes {
            Some(bytes) => {
                let id = self.start_session(auth.username, bytes.as_slice());
                assert(is_session_text(id.0@));
                Some(id)
            },
            None => None,
        }
    }
}

/// What a signin that handed out the session id `id` leaves: the user
/// registered with a hash that the password verifies, and the id leading to
/// the user. From there the same credentials pass login's check, the id
/// leads to the user, and another signin under the same name is refused.
pub proof fn law_signed_in_user_can_log_in(before: ServerState, after: ServerState, auth: Auth, id: SessionId)
    requires
        !before.data().users().contains_key(auth.username.0@),
        after.data().users() == before.data().users().insert(
            auth.username.0@,
            after.data().users()[auth.username.0@],
        ),
        password_matches(password_bytes(auth), after.data().users()[auth.username.0@].0@),
        after.sessions() == before.sessions().insert(id.0@, auth.username),
    ensures
        after.credentials_valid(auth),
        after.sessions().contains_key(id.0@),
        after.sessions()[id.0@] == auth.username,
        after.data().users().contains_key(auth.username.0@),
        after.data().users().remove(auth.username.0@) == before.data().users(),
{
    assert(after.data().users().remove(auth.username.0@) =~= before.data().users());
}

} // verus!
