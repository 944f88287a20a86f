//! Users of the identity store: lookup, registration, credential checks and
//! the two updates a user row can undergo.
use crate::db::crypto::{
    is_random_token, spec_password_hash, spec_totp_qr, spec_valid_totp, unix_time_now, DbCrypto,
    SALT_LENGTH, SECRET_LENGTH,
};
use crate::db::user_groups::{UserGroupInfo, UserGroupInfoView};
use crate::db::{
    lemma_group_by_id, lemma_group_by_name, lemma_user_by_name, MapDB, MapDBView, UserRow,
    UserRowView, DEFAULT_ADMIN_NAME, DEFAULT_GUEST_NAME,
};
use crate::error::AuthError;
use vstd::pervasive::unreached;
use vstd::prelude::*;

verus! {

/// What the store tells of a user: the name and the group.
#[derive(Debug)]
pub struct UserInfo {
    pub username: String,
    pub group: UserGroupInfo,
}

/// The mathematical content of a [`UserInfo`].
pub struct UserInfoView {
    pub username: Seq<char>,
    pub group: UserGroupInfoView,
}

impl View for UserInfo {
    type V = UserInfoView;

    open spec fn view(&self) -> UserInfoView {
        UserInfoView { username: self.username@, group: self.group@ }
    }
}

impl Clone for UserInfo {
    fn clone(&self) -> (copy: Self)
        ensures
            copy@ == self@,
    {
        UserInfo { username: self.username.clone(), group: self.group.clone() }
    }
}

/// What [`MapDB::add_user_with`] returns, as a relation between the store
/// before, the store after, the arguments and the result.
pub open spec fn add_user_outcome(
    before: MapDBView,
    after: MapDBView,
    username: Seq<char>,
    password: Seq<char>,
    salt: Seq<char>,
    totp_secret: Seq<char>,
    result: Result<(i64, String), AuthError>,
) -> bool {
    match result {
        Ok((id, qr_code)) => {
            &&& before.can_add_user(username, totp_secret)
            &&& id == before.next_user_id
            &&& Some(qr_code@) == spec_totp_qr(username, totp_secret)
            &&& after == before.with_user(before.new_row(username, password, salt, totp_secret))
        },
        Err(e) => {
            &&& after == before
            &&& !before.can_add_user(username, totp_secret)
            &&& e == if before.is_user(username) {
                AuthError::UserExists
            } else {
                AuthError::StorageFailure
            }
        },
    }
}

impl MapDBView {
    /// The profile of the user of a row: the name and the row's group.
    pub open spec fn user_info(self, row: UserRowView) -> UserInfoView {
        UserInfoView { username: row.username, group: self.group_by_id(row.group_id as int) }
    }

    /// The identifier of the user called `username`, or `-1`.
    pub open spec fn user_id_of(self, username: Seq<char>) -> int {
        if self.is_user(username) {
            self.user(username).id as int
        } else {
            -1
        }
    }

    /// The salt of the user called `username`, or the empty string.
    pub open spec fn salt_of(self, username: Seq<char>) -> Seq<char> {
        if self.is_user(username) {
            self.user(username).salt
        } else {
            Seq::empty()
        }
    }

    /// The one-time-password secret of the user called `username`, or the
    /// empty string.
    pub open spec fn totp_secret_of(self, username: Seq<char>) -> Seq<char> {
        if self.is_user(username) {
            self.user(username).totp_secret
        } else {
            Seq::empty()
        }
    }

    /// Whether the user called `username` has confirmed enrolment; `false`
    /// where there is no such user.
    pub open spec fn totp_verified_of(self, username: Seq<char>) -> bool {
        self.is_user(username) && self.user(username).totp_verified
    }

    /// `totp` is the one-time password of the user called `username` at
    /// `time`. It never is where there is no such user.
    pub open spec fn totp_matches(self, username: Seq<char>, totp: Seq<char>, time: u64) -> bool {
        spec_valid_totp(self.totp_secret_of(username), totp, time)
    }

    /// The user name, the password and the one-time password are those of
    /// one user at `time`: the code is valid, the user has a salt, and the
    /// password hashed under the salt is the stored digest.
    pub open spec fn credentials_match(
        self,
        username: Seq<char>,
        password: Seq<char>,
        totp: Seq<char>,
        time: u64,
    ) -> bool {
        &&& self.totp_matches(username, totp, time)
        &&& self.salt_of(username).len() > 0
        &&& self.is_user(username)
        &&& self.user(username).password == spec_password_hash(password, self.salt_of(username))
    }

    /// The identifier of the user whom the credentials match, or `-1`.
    pub open spec fn login_id(
        self,
        username: Seq<char>,
        password: Seq<char>,
        totp: Seq<char>,
        time: u64,
    ) -> int {
        if self.credentials_match(username, password, totp, time) {
            self.user(username).id as int
        } else {
            -1
        }
    }

    /// A user called `username` with the secret `totp_secret` can be
    /// added: the name is free, the enrolment payload can be drawn and the
    /// table has an identifier left.
    pub open spec fn can_add_user(self, username: Seq<char>, totp_secret: Seq<char>) -> bool {
        &&& !self.is_user(username)
        &&& spec_totp_qr(username, totp_secret) is Some
        &&& self.next_user_id < i64::MAX
    }

    /// The row of a new user: the next identifier, the digest of the
    /// password under the salt, the group `guest`, enrolment not confirmed.
    pub open spec fn new_row(
        self,
        username: Seq<char>,
        password: Seq<char>,
        salt: Seq<char>,
        totp_secret: Seq<char>,
    ) -> UserRowView {
        UserRowView {
            id: self.next_user_id as i64,
            username,
            password: spec_password_hash(password, salt),
            salt,
            group_id: self.group_by_name(DEFAULT_GUEST_NAME@).id,
            totp_secret,
            totp_verified: false,
        }
    }

    /// The store after `row` is appended to the users.
    pub open spec fn with_user(self, row: UserRowView) -> MapDBView {
        MapDBView { users: self.users.push(row), next_user_id: row.id + 1, ..self }
    }

    /// `row` can be appended to the users: its identifier is not below the
    /// counter, its name is free and its group exists.
    pub open spec fn admits_user(self, row: UserRowView) -> bool {
        &&& self.next_user_id <= row.id < i64::MAX
        &&& !self.is_user(row.username)
        &&& self.has_group(row.group_id as int)
    }

    /// The identifiers of those of the first `count` users that are in the
    /// group `guest`, in table order.
    pub open spec fn guest_ids(self, count: nat) -> Seq<i64>
        decreases count,
    {
        if count == 0 {
            Seq::empty()
        } else if self.users[count - 1].group_id == self.group_by_name(DEFAULT_GUEST_NAME@).id {
            self.guest_ids((count - 1) as nat).push(self.users[count - 1].id)
        } else {
            self.guest_ids((count - 1) as nat)
        }
    }

    /// The store after the user `user_id` is moved to the group
    /// `group_id`. Nothing changes unless both exist.
    pub open spec fn with_user_in_group(self, user_id: i64, group_id: i64) -> MapDBView {
        if self.has_user_id(user_id as int) && self.has_group(group_id as int) {
            MapDBView {
                users: Seq::new(
                    self.users.len(),
                    |i: int|
                        if self.users[i].id == user_id {
                            UserRowView { group_id, ..self.users[i] }
                        } else {
                            self.users[i]
                        },
                ),
                ..self
            }
        } else {
            self
        }
    }

    /// The store after the user called `username`, if there is one, is
    /// marked as having confirmed enrolment.
    pub open spec fn with_totp_verified(self, username: Seq<char>) -> MapDBView {
        MapDBView {
            users: Seq::new(
                self.users.len(),
                |i: int|
                    if self.users[i].username == username {
                        UserRowView { totp_verified: true, ..self.users[i] }
                    } else {
                        self.users[i]
                    },
            ),
            ..self
        }
    }
}

/// Appending an admissible row keeps the store well formed.
pub proof fn lemma_with_user_keeps_wf(db: MapDBView, row: UserRowView)
    requires
        db.wf(),
        db.admits_user(row),
    ensures
        db.with_user(row).wf(),
{
    let after = db.with_user(row);
    let n = db.users.len() as int;
    assert forall|i: int, j: int| 0 <= i < j < after.users.len() implies (
    #[trigger] after.users[i]).username != (#[trigger] after.users[j]).username by {
        if j == n {
            assert(!db.user_named(i, row.username));
        }
    }
    assert forall|i: int| 0 <= i < after.users.len() implies after.has_group(
        (#[trigger] after.users[i]).group_id as int,
    ) by {
        let gid = after.users[i].group_id as int;
        let k = choose|k: int| db.group_numbered(k, gid);
        assert(after.group_numbered(k, gid));
    }
    let g = choose|k: int| db.group_named(k, DEFAULT_GUEST_NAME@);
    assert(after.group_named(g, DEFAULT_GUEST_NAME@));
    let a = choose|k: int| db.group_named(k, DEFAULT_ADMIN_NAME@);
    assert(after.group_named(a, DEFAULT_ADMIN_NAME@));
}

/// Moving a user to a group keeps the store well formed.
pub proof fn lemma_user_in_group_keeps_wf(db: MapDBView, user_id: i64, group_id: i64)
    requires
        db.wf(),
    ensures
        db.with_user_in_group(user_id, group_id).wf(),
{
    let after = db.with_user_in_group(user_id, group_id);
    if db.has_user_id(user_id as int) && db.has_group(group_id as int) {
        assert forall|i: int| 0 <= i < after.users.len() implies after.has_group(
            (#[trigger] after.users[i]).group_id as int,
        ) by {
            let gid = after.users[i].group_id as int;
            let k = choose|k: int| db.group_numbered(k, gid);
            assert(after.group_numbered(k, gid));
        }
        let g = choose|k: int| db.group_named(k, DEFAULT_GUEST_NAME@);
        assert(after.group_named(g, DEFAULT_GUEST_NAME@));
        let a = choose|k: int| db.group_named(k, DEFAULT_ADMIN_NAME@);
        assert(after.group_named(a, DEFAULT_ADMIN_NAME@));
    }
}

/// Marking a user as verified keeps the store well formed.
pub proof fn lemma_totp_verified_keeps_wf(db: MapDBView, username: Seq<char>)
    requires
        db.wf(),
    ensures
        db.with_totp_verified(username).wf(),
{
    let after = db.with_totp_verified(username);
    assert forall|i: int| 0 <= i < after.users.len() implies after.has_group(
        (#[trigger] after.users[i]).group_id as int,
    ) by {
        let gid = after.users[i].group_id as int;
        let k = choose|k: int| db.group_numbered(k, gid);
        assert(after.group_numbered(k, gid));
    }
    let g = choose|k: int| db.group_named(k, DEFAULT_GUEST_NAME@);
    assert(after.group_named(g, DEFAULT_GUEST_NAME@));
    let a = choose|k: int| db.group_named(k, DEFAULT_ADMIN_NAME@);
    assert(after.group_named(a, DEFAULT_ADMIN_NAME@));
}

impl MapDB {
    /// The profile of a user called `username` in the group `group_id`.
    /// `-1` stands for "no such user" and gives `None`. A group that does
    /// not exist is a broken reference, which callers must not hand in.
    pub fn new_user(&self, username: &str, group_id: i64) -> (user: Option<UserInfo>)
        requires
            self.wf(),
            group_id == -1 || self@.has_group(group_id as int),
        ensures
            user is Some <==> group_id != -1,
            user matches Some(u) ==> u@ == (UserInfoView {
                username: username@,
                group: self@.group_by_id(group_id as int),
            }),
    {
        if group_id == -1 {
            return None;
        }
        match self.get_user_group_by_id(group_id) {
            Some(group) => Some(UserInfo { username: username.to_owned(), group }),
            None => unreached(),
        }
    }

    /// The profile of the user called `username`, if there is one.
    pub fn get_user_by_username(&self, username: &str) -> (user: Option<UserInfo>)
        requires
            self.wf(),
        ensures
            user is Some <==> self@.is_user(username@),
            user matches Some(u) ==> u@ == self@.user_info(self@.user(username@)),
    {
        match self.find_user(username) {
            Some(k) => {
                self.new_user(username, self.users[k].group_id)
            },
            None => None,
        }
    }

    /// The profile of the user with the identifier `user_id`, if there is
    /// one.
    pub fn get_user_by_id(&self, user_id: i64) -> (user: Option<UserInfo>)
        requires
            self.wf(),
        ensures
            user is Some <==> self@.has_user_id(user_id as int),
            user matches Some(u) ==> u@ == self@.user_info(self@.user_by_id(user_id as int)),
    {
        match self.find_user_by_id(user_id) {
            Some(k) => {
                self.new_user(self.users[k].username.as_str(), self.users[k].group_id)
            },
            None => None,
        }
    }

    /// The profile of every user, in the order of the identifiers.
    pub fn get_all_users(&self) -> (users: Vec<UserInfo>)
        requires
            self.wf(),
        ensures
            users@.len() == self@.users.len(),
            forall|i: int|
                0 <= i < users@.len() ==> (#[trigger] users@[i])@ == self@.user_info(self@.users[i]),
    {
        let mut users: Vec<UserInfo> = Vec::new();
        let mut i: usize = 0;
        while i < self.users.len()
            invariant
                self.wf(),
                i <= self.users.len(),
                users@.len() == i,
                forall|k: int|
                    0 <= k < i ==> (#[trigger] users@[k])@ == self@.user_info(self@.users[k]),
            decreases self.users.len() - i,
        {
            assert(self@.has_group(self@.users[i as int].group_id as int));
            if let Some(user) = self.new_user(
                self.users[i].username.as_str(),
                self.users[i].group_id,
            ) {
                users.push(user);
            }
            i += 1;
        }
        users
    }

    /// The identifier of the user called `username`, or `-1` where there
    /// is no such user.
    pub fn get_user_id(&self, username: &str) -> (id: i64)
        requires
            self.wf(),
        ensures
            id == self@.user_id_of(username@),
            id == -1 <==> !self@.is_user(username@),
    {
        match self.find_user(username) {
            Some(k) => self.users[k].id,
            None => -1,
        }
    }

    /// The salt of the user called `username`, or the empty string where
    /// there is no such user.
    pub fn get_user_salt(&self, username: &str) -> (salt: String)
        requires
            self.wf(),
        ensures
            salt@ == self@.salt_of(username@),
    {
        match self.find_user(username) {
            Some(k) => self.users[k].salt.clone(),
            None => String::new(),
        }
    }

    /// The one-time-password secret of the user called `username`, or the
    /// empty string where there is no such user.
    pub fn get_user_totp_secret(&self, username: &str) -> (totp_secret: String)
        requires
            self.wf(),
        ensures
            totp_secret@ == self@.totp_secret_of(username@),
    {
        match self.find_user(username) {
            Some(k) => self.users[k].totp_secret.clone(),
            None => String::new(),
        }
    }

    /// Appends a row that was stored earlier. Returns whether the row was
    /// taken; a row that the store does not admit changes nothing.
    pub fn restore_user(&mut self, row: UserRow) -> (taken: bool)
        requires
            old(self).wf(),
        ensures
            final(self).wf(),
            taken == old(self)@.admits_user(row@),
            taken ==> final(self)@ == old(self)@.with_user(row@),
            !taken ==> final(self)@ == old(self)@,
    {
        if row.id < self.next_user_id || row.id == i64::MAX {
            return false;
        }
        if self.find_user(row.username.as_str()).is_some() {
            return false;
        }
        if self.find_group_by_id(row.group_id).is_none() {
            return false;
        }
        let ghost before = self@;
        let ghost added = row@;
        self.next_user_id = row.id + 1;
        self.users.push(row);
        proof {
            assert(self@.users =~= before.with_user(added).users);
            lemma_with_user_keeps_wf(before, added);
        }
        true
    }

    /// Adds a user with a given salt and secret. The password is stored
    /// as its digest under the salt; the user joins the group `guest`.
    /// Returns the identifier and the enrolment payload, which no later
    /// call gives out again.
    pub fn add_user_with(
        &mut self,
        username: &str,
        password: &str,
        salt: &str,
        totp_secret: &str,
    ) -> (added: Result<(i64, String), AuthError>)
        requires
            old(self).wf(),
        ensures
            final(self).wf(),
            add_user_outcome(
                old(self)@,
                final(self)@,
                username@,
                password@,
                salt@,
                totp_secret@,
                added,
            ),
    {
        if self.find_user(username).is_some() {
            return Err(AuthError::UserExists);
        }
        let digest = DbCrypto::password_to_hash(password, salt);
        let qr_code = match DbCrypto::gen_totp_qr(username, totp_secret) {
            Some(qr_code) => qr_code,
            None => {
                return Err(AuthError::StorageFailure);
            },
        };
        if self.next_user_id == i64::MAX {
            return Err(AuthError::StorageFailure);
        }
        let id: i64 = self.next_user_id;
        let guest_id = self.get_user_group_id_guest();
        let taken = self.restore_user(
            UserRow {
                id,
                username: username.to_owned(),
                password: digest,
                salt: salt.to_owned(),
                group_id: guest_id,
                totp_secret: totp_secret.to_owned(),
                totp_verified: false,
            },
        );
        Ok((id, qr_code))
    }

    /// Adds a user under a fresh salt and a fresh secret: see
    /// [`Self::add_user_with`]. The salt and the secret are drawn before
    /// anything else.
    pub fn add_user(&mut self, username: &str, password: &str) -> (added: Result<
        (i64, String),
        AuthError,
    >)
        requires
            old(self).wf(),
        ensures
            final(self).wf(),
            exists|salt: Seq<char>, totp_secret: Seq<char>|
                is_random_token(salt, SALT_LENGTH as nat) && is_random_token(
                    totp_secret,
                    SECRET_LENGTH as nat,
                ) && #[trigger] add_user_outcome(
                    old(self)@,
                    final(self)@,
                    username@,
                    password@,
                    salt,
                    totp_secret,
                    added,
                ),
    {
        let salt = DbCrypto::gen_rand_salt();
        let totp_secret = DbCrypto::gen_rand_secret();
        self.add_user_with(username, password, salt.as_str(), totp_secret.as_str())
    }

    /// Moves the user `user_id` to the group `group_id`. Nothing changes
    /// unless both exist.
    pub fn add_user_to_group(&mut self, user_id: i64, group_id: i64)
        requires
            old(self).wf(),
        ensures
            final(self).wf(),
            final(self)@ == old(self)@.with_user_in_group(user_id, group_id),
    {
        let ghost before = self@;
        if self.find_group_by_id(group_id).is_none() {
            return ;
        }
        match self.find_user_by_id(user_id) {
            Some(k) => {
                self.users[k].group_id = group_id;
                proof {
                    let wanted = before.with_user_in_group(user_id, group_id);
                    assert(self@.users =~= wanted.users);
                    lemma_user_in_group_keeps_wf(before, user_id, group_id);
                }
            },
            None => {},
        }
    }

    /// The identifier of the group of the user `user_id`, or `-1` where
    /// there is no such user.
    pub fn get_group_id_from_user_id(&self, user_id: i64) -> (group_id: i64)
        requires
            self.wf(),
        ensures
            group_id == (if self@.has_user_id(user_id as int) {
                self@.user_by_id(user_id as int).group_id
            } else {
                -1i64
            }),
            self@.has_user_id(user_id as int) ==> self@.has_group(group_id as int),
    {
        match self.find_user_by_id(user_id) {
            Some(k) => {
                self.users[k].group_id
            },
            None => -1,
        }
    }

    /// The identifiers of the users of the group `guest`, in growing
    /// order.
    pub fn get_all_guest_user_ids(&self) -> (ids: Vec<i64>)
        requires
            self.wf(),
        ensures
            ids@ == self@.guest_ids(self@.users.len()),
    {
        let guest_id = self.get_user_group_id_guest();
        let mut ids: Vec<i64> = Vec::new();
        let mut i: usize = 0;
        while i < self.users.len()
            invariant
                i <= self.users.len(),
                guest_id == self@.group_by_name(DEFAULT_GUEST_NAME@).id,
                ids@ == self@.guest_ids(i as nat),
            decreases self.users.len() - i,
        {
            if self.users[i].group_id == guest_id {
                ids.push(self.users[i].id);
            }
            i += 1;
        }
        ids
    }

    /// Whether a user is called `username`.
    pub fn is_user(&self, username: &str) -> (found: bool)
        requires
            self.wf(),
        ensures
            found == self@.is_user(username@),
    {
        self.get_user_by_username(username).is_some()
    }

    /// Whether `totp` is the one-time password of the user called
    /// `username` at `time`.
    pub fn is_user_totp_at(&self, username: &str, totp: &str, time: u64) -> (valid: bool)
        requires
            self.wf(),
        ensures
            valid == self@.totp_matches(username@, totp@, time),
    {
        let totp_secret = self.get_user_totp_secret(username);
        DbCrypto::is_valid_totp_at(totp_secret.as_str(), totp, time)
    }

    /// Whether `totp` is the one-time password of the user called
    /// `username` now: the answer of [`Self::is_user_totp_at`] for the second
    /// that the clock showed.
    pub fn is_user_totp(&self, username: &str, totp: &str) -> (valid: bool)
        requires
            self.wf(),
        ensures
            exists|time: u64| valid == self@.totp_matches(username@, totp@, time),
            !self@.is_user(username@) ==> !valid,
    {
        let time = unix_time_now();
        self.is_user_totp_at(username, totp, time)
    }

    /// Whether the user called `username` has confirmed enrolment; `false`
    /// where there is no such user.
    pub fn is_user_totp_verified(&self, username: &str) -> (verified: bool)
        requires
            self.wf(),
        ensures
            verified == self@.totp_verified_of(username@),
    {
        match self.find_user(username) {
            Some(k) => self.users[k].totp_verified,
            None => false,
        }
    }

    /// Checks a user name, a password and a one-time password at `time`.
    /// Returns the user's identifier, or `-1` where they do not match.
    pub fn is_user_login_at(&self, username: &str, password: &str, totp: &str, time: u64) -> (id:
        i64)
        requires
            self.wf(),
        ensures
            id == self@.login_id(username@, password@, totp@, time),
            id != -1 <==> self@.credentials_match(username@, password@, totp@, time),
    {
        if !self.is_user_totp_at(username, totp, time) {
            return -1;
        }
        let salt = self.get_user_salt(username);
        if salt.as_str().is_empty() {
            return -1;
        }
        let digest = DbCrypto::password_to_hash(password, salt.as_str());
        match self.find_user(username) {
            Some(k) => {
                if self.users[k].password == digest {
                    self.users[k].id
                } else {
                    -1
                }
            },
            None => -1,
        }
    }

    /// Checks a user name, a password and a one-time password now: the
    /// answer of [`Self::is_user_login_at`] for the second that the clock
    /// showed.
    pub fn is_user_login(&self, username: &str, password: &str, totp: &str) -> (id: i64)
        requires
            self.wf(),
        ensures
            exists|time: u64| id == self@.login_id(username@, password@, totp@, time),
            !self@.is_user(username@) ==> id == -1,
    {
        let time = unix_time_now();
        self.is_user_login_at(username, password, totp, time)
    }

    /// Records that the user called `username` has confirmed enrolment.
    /// Where there is no such user, nothing changes.
    pub fn verified_totp(&mut self, username: &str)
        requires
            old(self).wf(),
        ensures
            final(self).wf(),
            final(self)@ == old(self)@.with_totp_verified(username@),
    {
        let ghost before = self@;
        let ghost wanted = before.with_totp_verified(username@);
        match self.find_user(username) {
            Some(k) => {
                self.users[k].totp_verified = true;
                proof {
                    assert(self@.users =~= wanted.users);
                    lemma_totp_verified_keeps_wf(before, username@);
                }
            },
            None => {
                proof {
                    assert forall|i: int| 0 <= i < before.users.len() implies (
                    #[trigger] before.users[i]) == wanted.users[i] by {
                        assert(!before.user_named(i, username@));
                    }
                    assert(before.users =~= wanted.users);
                }
            },
        }
    }
}

/// The credentials of a user never change once the user is added: after
/// a user is appended, after a user is moved to a group and after a user
/// is marked as verified, every user that was there has the identifier,
/// the digest, the salt and the secret it had.
pub proof fn lemma_credentials_are_kept(
    db: MapDBView,
    row: UserRowView,
    user_id: i64,
    group_id: i64,
    marked: Seq<char>,
    username: Seq<char>,
)
    requires
        db.wf(),
        db.is_user(username),
    ensures
        db.admits_user(row) ==> same_credentials(db.user(username), db.with_user(row).user(username)),
        same_credentials(
            db.user(username),
            db.with_user_in_group(user_id, group_id).user(username),
        ),
        same_credentials(db.user(username), db.with_totp_verified(marked).user(username)),
{
    let k = choose|k: int| db.user_named(k, username);
    if db.admits_user(row) {
        let after = db.with_user(row);
        lemma_with_user_keeps_wf(db, row);
        lemma_user_by_name(after, k, username);
    }
    {
        let after = db.with_user_in_group(user_id, group_id);
        lemma_user_in_group_keeps_wf(db, user_id, group_id);
        lemma_user_by_name(after, k, username);
    }
    {
        let after = db.with_totp_verified(marked);
        lemma_totp_verified_keeps_wf(db, marked);
        lemma_user_by_name(after, k, username);
    }
}

/// Two rows agree in all that identifies a user and proves who it is.
pub open spec fn same_credentials(before: UserRowView, after: UserRowView) -> bool {
    &&& after.id == before.id
    &&& after.username == before.username
    &&& after.password == before.password
    &&& after.salt == before.salt
    &&& after.totp_secret == before.totp_secret
}

/// Once a user is marked as verified the mark stays: no operation on users
/// takes it away.
pub proof fn lemma_verified_mark_stays(
    db: MapDBView,
    row: UserRowView,
    user_id: i64,
    group_id: i64,
    marked: Seq<char>,
    username: Seq<char>,
)
    requires
        db.wf(),
        db.totp_verified_of(username),
    ensures
        db.admits_user(row) ==> db.with_user(row).totp_verified_of(username),
        db.with_user_in_group(user_id, group_id).totp_verified_of(username),
        db.with_totp_verified(marked).totp_verified_of(username),
        db.with_totp_verified(username).totp_verified_of(username),
{
    let k = choose|k: int| db.user_named(k, username);
    if db.admits_user(row) {
        let after = db.with_user(row);
        lemma_with_user_keeps_wf(db, row);
        lemma_user_by_name(after, k, username);
    }
    {
        let after = db.with_user_in_group(user_id, group_id);
        lemma_user_in_group_keeps_wf(db, user_id, group_id);
        lemma_user_by_name(after, k, username);
    }
    {
        let after = db.with_totp_verified(marked);
        lemma_totp_verified_keeps_wf(db, marked);
        lemma_user_by_name(after, k, username);
    }
    {
        let after = db.with_totp_verified(username);
        lemma_totp_verified_keeps_wf(db, username);
        lemma_user_by_name(after, k, username);
    }
}

/// Confirming enrolment marks the user, whatever the mark was before.
pub proof fn lemma_confirmation_marks(db: MapDBView, username: Seq<char>)
    requires
        db.wf(),
        db.is_user(username),
    ensures
        db.with_totp_verified(username).totp_verified_of(username),
        db.with_totp_verified(username).with_totp_verified(username) == db.with_totp_verified(
            username,
        ),
{
    let k = choose|k: int| db.user_named(k, username);
    let after = db.with_totp_verified(username);
    lemma_totp_verified_keeps_wf(db, username);
    lemma_user_by_name(after, k, username);
    assert(after.with_totp_verified(username).users =~= after.users);
}

/// A user who was just added is in the group `guest`, is not marked as
/// verified, and has the salt and the secret that were handed in.
pub proof fn lemma_new_user_is_guest(
    db: MapDBView,
    username: Seq<char>,
    password: Seq<char>,
    salt: Seq<char>,
    totp_secret: Seq<char>,
)
    requires
        db.wf(),
        db.can_add_user(username, totp_secret),
    ensures
        ({
            let after = db.with_user(db.new_row(username, password, salt, totp_secret));
            &&& after.wf()
            &&& after.is_user(username)
            &&& after.user(username) == db.new_row(username, password, salt, totp_secret)
            &&& after.user_info(after.user(username)).group.group_name == DEFAULT_GUEST_NAME@
            &&& !after.totp_verified_of(username)
            &&& after.salt_of(username) == salt
            &&& after.totp_secret_of(username) == totp_secret
        }),
{
    let row = db.new_row(username, password, salt, totp_secret);
    let g = choose|k: int| db.group_named(k, DEFAULT_GUEST_NAME@);
    assert(db.group_numbered(g, row.group_id as int));
    lemma_with_user_keeps_wf(db, row);
    let after = db.with_user(row);
    let n = db.users.len() as int;
    lemma_user_by_name(after, n, username);
}

} // verus!
