//! The identity store: the tables of users and of user groups, held in
//! memory, with the invariant that every operation keeps.
//!
//! Rows are kept in the order of their identifiers. Identifiers are handed
//! out from a counter that only grows, so none is ever used twice.
pub mod crypto;
pub mod user_groups;
pub mod users;

use crate::db::user_groups::{UserGroupInfo, UserGroupInfoView, WILDCARD};
use vstd::prelude::*;

verus! {

/// Name of the group that every new user joins.
pub const DEFAULT_GUEST_NAME: &'static str = "guest";

/// Name of the group that may do everything.
pub const DEFAULT_ADMIN_NAME: &'static str = "admin";

/// One row of the table of users.
#[derive(Debug)]
pub struct UserRow {
    pub id: i64,
    pub username: String,
    pub password: String,
    pub salt: String,
    pub group_id: i64,
    pub totp_secret: String,
    pub totp_verified: bool,
}

/// The mathematical content of a [`UserRow`].
pub struct UserRowView {
    pub id: i64,
    pub username: Seq<char>,
    pub password: Seq<char>,
    pub salt: Seq<char>,
    pub group_id: i64,
    pub totp_secret: Seq<char>,
    pub totp_verified: bool,
}

impl View for UserRow {
    type V = UserRowView;

    open spec fn view(&self) -> UserRowView {
        UserRowView {
            id: self.id,
            username: self.username@,
            password: self.password@,
            salt: self.salt@,
            group_id: self.group_id,
            totp_secret: self.totp_secret@,
            totp_verified: self.totp_verified,
        }
    }
}

impl Clone for UserRow {
    fn clone(&self) -> (copy: Self)
        ensures
            copy@ == self@,
    {
        UserRow {
            id: self.id,
            username: self.username.clone(),
            password: self.password.clone(),
            salt: self.salt.clone(),
            group_id: self.group_id,
            totp_secret: self.totp_secret.clone(),
            totp_verified: self.totp_verified,
        }
    }
}

/// The identity store.
#[derive(Debug)]
pub struct MapDB {
    users: Vec<UserRow>,
    user_groups: Vec<UserGroupInfo>,
    next_user_id: i64,
    next_group_id: i64,
}

/// The mathematical content of a [`MapDB`]: its rows in table order and the
/// next identifier of each table.
pub struct MapDBView {
    pub users: Seq<UserRowView>,
    pub user_groups: Seq<UserGroupInfoView>,
    pub next_user_id: int,
    pub next_group_id: int,
}

impl View for MapDB {
    type V = MapDBView;

    closed spec fn view(&self) -> MapDBView {
        MapDBView {
            users: Seq::new(self.users@.len(), |i: int| self.users@[i]@),
            user_groups: Seq::new(self.user_groups@.len(), |i: int| self.user_groups@[i]@),
            next_user_id: self.next_user_id as int,
            next_group_id: self.next_group_id as int,
        }
    }
}

impl MapDBView {
    /// Row `i` of the users is the user called `username`.
    pub open spec fn user_named(self, i: int, username: Seq<char>) -> bool {
        0 <= i < self.users.len() && self.users[i].username == username
    }

    /// Row `i` of the users has the identifier `id`.
    pub open spec fn user_numbered(self, i: int, id: int) -> bool {
        0 <= i < self.users.len() && self.users[i].id == id
    }

    /// Row `i` of the groups is the group called `group_name`.
    pub open spec fn group_named(self, i: int, group_name: Seq<char>) -> bool {
        0 <= i < self.user_groups.len() && self.user_groups[i].group_name == group_name
    }

    /// Row `i` of the groups has the identifier `id`.
    pub open spec fn group_numbered(self, i: int, id: int) -> bool {
        0 <= i < self.user_groups.len() && self.user_groups[i].id == id
    }

    /// Some user is called `username`.
    pub open spec fn is_user(self, username: Seq<char>) -> bool {
        exists|i: int| self.user_named(i, username)
    }

    /// The row of the user called `username`, where there is one.
    pub open spec fn user(self, username: Seq<char>) -> UserRowView {
        self.users[choose|i: int| self.user_named(i, username)]
    }

    /// Some user has the identifier `id`.
    pub open spec fn has_user_id(self, id: int) -> bool {
        exists|i: int| self.user_numbered(i, id)
    }

    /// The row of the user with the identifier `id`, where there is one.
    pub open spec fn user_by_id(self, id: int) -> UserRowView {
        self.users[choose|i: int| self.user_numbered(i, id)]
    }

    /// Some group is called `group_name`.
    pub open spec fn is_user_group(self, group_name: Seq<char>) -> bool {
        exists|i: int| self.group_named(i, group_name)
    }

    /// The group called `group_name`, where there is one.
    pub open spec fn group_by_name(self, group_name: Seq<char>) -> UserGroupInfoView {
        self.user_groups[choose|i: int| self.group_named(i, group_name)]
    }

    /// Some group has the identifier `id`.
    pub open spec fn has_group(self, id: int) -> bool {
        exists|i: int| self.group_numbered(i, id)
    }

    /// The group with the identifier `id`, where there is one.
    pub open spec fn group_by_id(self, id: int) -> UserGroupInfoView {
        self.user_groups[choose|i: int| self.group_numbered(i, id)]
    }

    /// The invariant of the store.
    ///
    /// Identifiers are positive, grow along each table and lie below the
    /// table's counter; no two users share a name and no two groups do;
    /// the group of every user is in the table of groups; the groups
    /// `guest` and `admin` exist.
    pub open spec fn wf(self) -> bool {
        &&& 0 < self.next_user_id <= i64::MAX
        &&& 0 < self.next_group_id <= i64::MAX
        &&& forall|i: int|
            0 <= i < self.users.len() ==> 0 < (#[trigger] self.users[i]).id < self.next_user_id
        &&& forall|i: int, j: int|
            0 <= i < j < self.users.len() ==> (#[trigger] self.users[i]).id
                < (#[trigger] self.users[j]).id
        &&& forall|i: int, j: int|
            0 <= i < j < self.users.len() ==> (#[trigger] self.users[i]).username
                != (#[trigger] self.users[j]).username
        &&& forall|i: int|
            0 <= i < self.users.len() ==> self.has_group((#[trigger] self.users[i]).group_id as int)
        &&& forall|i: int|
            0 <= i < self.user_groups.len() ==> 0 < (#[trigger] self.user_groups[i]).id
                < self.next_group_id
        &&& forall|i: int, j: int|
            0 <= i < j < self.user_groups.len() ==> (#[trigger] self.user_groups[i]).id
                < (#[trigger] self.user_groups[j]).id
        &&& forall|i: int, j: int|
            0 <= i < j < self.user_groups.len() ==> (#[trigger] self.user_groups[i]).group_name
                != (#[trigger] self.user_groups[j]).group_name
        &&& self.is_user_group(DEFAULT_GUEST_NAME@)
        &&& self.is_user_group(DEFAULT_ADMIN_NAME@)
    }
}

/// In a well-formed store a user name picks out one row.
pub proof fn lemma_user_by_name(db: MapDBView, i: int, username: Seq<char>)
    requires
        db.wf(),
        db.user_named(i, username),
    ensures
        db.is_user(username),
        db.user(username) == db.users[i],
{
}

/// In a well-formed store a user identifier picks out one row.
pub proof fn lemma_user_by_id(db: MapDBView, i: int, id: int)
    requires
        db.wf(),
        db.user_numbered(i, id),
    ensures
        db.has_user_id(id),
        db.user_by_id(id) == db.users[i],
{
}

/// In a well-formed store a group name picks out one row.
pub proof fn lemma_group_by_name(db: MapDBView, i: int, group_name: Seq<char>)
    requires
        db.wf(),
        db.group_named(i, group_name),
    ensures
        db.is_user_group(group_name),
        db.group_by_name(group_name) == db.user_groups[i],
{
}

/// In a well-formed store a group identifier picks out one row.
pub proof fn lemma_group_by_id(db: MapDBView, i: int, id: int)
    requires
        db.wf(),
        db.group_numbered(i, id),
    ensures
        db.has_group(id),
        db.group_by_id(id) == db.user_groups[i],
{
}

impl MapDBView {
    /// The store at system start: no user, and the groups `guest`, without
    /// any permission, and `admin`, with every permission.
    pub open spec fn initial() -> MapDBView {
        MapDBView {
            users: Seq::empty(),
            user_groups: seq![
                UserGroupInfoView { id: 1, group_name: DEFAULT_GUEST_NAME@, permissions: Seq::empty() },
                UserGroupInfoView { id: 2, group_name: DEFAULT_ADMIN_NAME@, permissions: WILDCARD@ },
            ],
            next_user_id: 1,
            next_group_id: 3,
        }
    }
}

impl MapDB {
    /// The store is well formed: see [`MapDBView::wf`].
    pub open spec fn wf(&self) -> bool {
        self@.wf()
    }

    /// A store as it stands at system start.
    pub fn new() -> (db: MapDB)
        ensures
            db.wf(),
            db@ == MapDBView::initial(),
    {
        let mut user_groups: Vec<UserGroupInfo> = Vec::new();
        user_groups.push(
            UserGroupInfo {
                id: 1,
                group_name: DEFAULT_GUEST_NAME.to_owned(),
                permissions: String::new(),
            },
        );
        user_groups.push(
            UserGroupInfo {
                id: 2,
                group_name: DEFAULT_ADMIN_NAME.to_owned(),
                permissions: WILDCARD.to_owned(),
            },
        );
        let db = MapDB { users: Vec::new(), user_groups, next_user_id: 1, next_group_id: 3 };
        proof {
            reveal_strlit("guest");
            reveal_strlit("admin");
            assert(DEFAULT_GUEST_NAME@ != DEFAULT_ADMIN_NAME@) by {
                assert(DEFAULT_GUEST_NAME@[0] == 'g');
            }
            assert(db@.users =~= MapDBView::initial().users);
            assert(db@.user_groups =~= MapDBView::initial().user_groups);
            assert(db@.group_named(0, DEFAULT_GUEST_NAME@));
            assert(db@.group_named(1, DEFAULT_ADMIN_NAME@));
        }
        db
    }

    /// The row index of the user called `username`.
    pub(crate) fn find_user(&self, username: &str) -> (found: Option<usize>)
        requires
            self.wf(),
        ensures
            match found {
                Some(i) => self@.user_named(i as int, username@) && self@.users[i as int]
                    == self@.user(username@),
                None => !self@.is_user(username@),
            },
            found is Some <==> self@.is_user(username@),
    {
        let wanted = username.to_owned();
        let mut i: usize = 0;
        while i < self.users.len()
            invariant
                self.wf(),
                i <= self.users.len(),
                wanted@ == username@,
                forall|k: int| 0 <= k < i ==> !self@.user_named(k, username@),
            decreases self.users.len() - i,
        {
            if self.users[i].username == wanted {
                proof {
                    lemma_user_by_name(self@, i as int, username@);
                }
                return Some(i);
            }
            i += 1;
        }
        None
    }

    /// The row index of the user with the identifier `id`.
    pub(crate) fn find_user_by_id(&self, id: i64) -> (found: Option<usize>)
        requires
            self.wf(),
        ensures
            match found {
                Some(i) => self@.user_numbered(i as int, id as int) && self@.users[i as int]
                    == self@.user_by_id(id as int),
                None => !self@.has_user_id(id as int),
            },
            found is Some <==> self@.has_user_id(id as int),
    {
        let mut i: usize = 0;
        while i < self.users.len()
            invariant
                self.wf(),
                i <= self.users.len(),
                forall|k: int| 0 <= k < i ==> !self@.user_numbered(k, id as int),
            decreases self.users.len() - i,
        {
            if self.users[i].id == id {
                proof {
                    lemma_user_by_id(self@, i as int, id as int);
                }
                return Some(i);
            }
            i += 1;
        }
        None
    }

    /// The row index of the group called `group_name`.
    pub(crate) fn find_group(&self, group_name: &str) -> (found: Option<usize>)
        requires
            self.wf(),
        ensures
            match found {
                Some(i) => self@.group_named(i as int, group_name@)
                    && self@.user_groups[i as int] == self@.group_by_name(group_name@),
                None => !self@.is_user_group(group_name@),
            },
            found is Some <==> self@.is_user_group(group_name@),
    {
        let wanted = group_name.to_owned();
        let mut i: usize = 0;
        while i < self.user_groups.len()
            invariant
                self.wf(),
                i <= self.user_groups.len(),
                wanted@ == group_name@,
                forall|k: int| 0 <= k < i ==> !self@.group_named(k, group_name@),
            decreases self.user_groups.len() - i,
        {
            if self.user_groups[i].group_name == wanted {
                proof {
                    lemma_group_by_name(self@, i as int, group_name@);
                }
                return Some(i);
            }
            i += 1;
        }
        None
    }

    /// The row index of the group with the identifier `id`.
    pub(crate) fn find_group_by_id(&self, id: i64) -> (found: Option<usize>)
        requires
            self.wf(),
        ensures
            match found {
                Some(i) => self@.group_numbered(i as int, id as int)
                    && self@.user_groups[i as int] == self@.group_by_id(id as int),
                None => !self@.has_group(id as int),
            },
            found is Some <==> self@.has_group(id as int),
    {
        let mut i: usize = 0;
        while i < self.user_groups.len()
            invariant
                self.wf(),
                i <= self.user_groups.len(),
                forall|k: int| 0 <= k < i ==> !self@.group_numbered(k, id as int),
            decreases self.user_groups.len() - i,
        {
            if self.user_groups[i].id == id {
                proof {
                    lemma_group_by_id(self@, i as int, id as int);
                }
                return Some(i);
            }
            i += 1;
        }
        None
    }
}

} // verus!
