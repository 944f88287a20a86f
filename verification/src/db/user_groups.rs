//! User groups and the rule that decides what a group may do.
use crate::db::{lemma_group_by_name, MapDB, MapDBView, DEFAULT_ADMIN_NAME, DEFAULT_GUEST_NAME};
use crate::text::{contains, is_substring, occurs_at, str_equal};
use vstd::prelude::*;

verus! {

/// The permissions string that grants every capability.
pub const WILDCARD: &'static str = "*";

/// A user group: its identifier, its name and its permissions string.
#[derive(Debug)]
pub struct UserGroupInfo {
    pub id: i64,
    pub group_name: String,
    pub permissions: String,
}

/// The mathematical content of a [`UserGroupInfo`].
pub struct UserGroupInfoView {
    pub id: i64,
    pub group_name: Seq<char>,
    pub permissions: Seq<char>,
}

impl View for UserGroupInfo {
    type V = UserGroupInfoView;

    open spec fn view(&self) -> UserGroupInfoView {
        UserGroupInfoView {
            id: self.id,
            group_name: self.group_name@,
            permissions: self.permissions@,
        }
    }
}

impl Clone for UserGroupInfo {
    fn clone(&self) -> (copy: Self)
        ensures
            copy@ == self@,
    {
        UserGroupInfo {
            id: self.id,
            group_name: self.group_name.clone(),
            permissions: self.permissions.clone(),
        }
    }
}

/// A permissions string grants a capability when it is the wildcard `*`,
/// or when the capability occurs in it as a run of characters.
pub open spec fn grants(permissions: Seq<char>, capability: Seq<char>) -> bool {
    permissions == WILDCARD@ || is_substring(capability, permissions)
}

impl UserGroupInfo {
    /// Whether this group may use `capability`.
    pub fn has_permission(&self, capability: &str) -> (granted: bool)
        ensures
            granted == grants(self@.permissions, capability@),
    {
        if str_equal(self.permissions.as_str(), WILDCARD) {
            return true;
        }
        contains(self.permissions.as_str(), capability)
    }
}

impl MapDBView {
    /// A group called `group_name` can be added: the name is free and the
    /// table has an identifier left.
    pub open spec fn can_add_group(self, group_name: Seq<char>) -> bool {
        !self.is_user_group(group_name) && self.next_group_id < i64::MAX
    }

    /// `group` can be appended to the groups: its identifier is not below
    /// the counter and its name is free.
    pub open spec fn admits_group(self, group: UserGroupInfoView) -> bool {
        &&& self.next_group_id <= group.id < i64::MAX
        &&& !self.is_user_group(group.group_name)
    }

    /// The store after `group` is appended to the groups.
    pub open spec fn with_group_row(self, group: UserGroupInfoView) -> MapDBView {
        MapDBView {
            user_groups: self.user_groups.push(group),
            next_group_id: group.id + 1,
            ..self
        }
    }

    /// The store after a group is added under the next identifier.
    pub open spec fn with_group(self, group_name: Seq<char>, permissions: Seq<char>) -> MapDBView {
        self.with_group_row(
            UserGroupInfoView { id: self.next_group_id as i64, group_name, permissions },
        )
    }

    /// The store after the group called `group_name`, if there is one, has
    /// its permissions replaced.
    pub open spec fn with_permissions(
        self,
        group_name: Seq<char>,
        permissions: Seq<char>,
    ) -> MapDBView {
        MapDBView {
            user_groups: Seq::new(
                self.user_groups.len(),
                |i: int|
                    if self.user_groups[i].group_name == group_name {
                        UserGroupInfoView { permissions, ..self.user_groups[i] }
                    } else {
                        self.user_groups[i]
                    },
            ),
            ..self
        }
    }
}

impl MapDB {
    /// Appends a group that was stored earlier. Returns whether the group
    /// was taken; a group that the store does not admit changes nothing.
    pub fn restore_user_group(&mut self, group: UserGroupInfo) -> (taken: bool)
        requires
            old(self).wf(),
        ensures
            final(self).wf(),
            taken == old(self)@.admits_group(group@),
            taken ==> final(self)@ == old(self)@.with_group_row(group@),
            !taken ==> final(self)@ == old(self)@,
    {
        if group.id < self.next_group_id || group.id == i64::MAX {
            return false;
        }
        if self.find_group(group.group_name.as_str()).is_some() {
            return false;
        }
        let ghost before = self@;
        let ghost added = group@;
        self.next_group_id = group.id + 1;
        self.user_groups.push(group);
        proof {
            assert(self@.user_groups =~= before.with_group_row(added).user_groups);
            lemma_with_group_keeps_wf(before, added);
        }
        true
    }

    /// Adds a group and returns its identifier. Where the name is taken, or
    /// no identifier is left, nothing changes and the result is `-1`.
    pub fn add_user_group(&mut self, group_name: &str, permissions: &str) -> (id: i64)
        requires
            old(self).wf(),
        ensures
            final(self).wf(),
            old(self)@.can_add_group(group_name@) ==> id == old(self)@.next_group_id
                && final(self)@ == old(self)@.with_group(group_name@, permissions@),
            !old(self)@.can_add_group(group_name@) ==> id == -1 && final(self)@ == old(self)@,
    {
        if self.next_group_id == i64::MAX {
            return -1;
        }
        let id: i64 = self.next_group_id;
        let taken = self.restore_user_group(
            UserGroupInfo {
                id,
                group_name: group_name.to_owned(),
                permissions: permissions.to_owned(),
            },
        );
        if taken {
            id
        } else {
            -1
        }
    }

    /// Replaces the permissions of the group called `group_name`. Where
    /// there is no such group, nothing changes.
    pub fn edit_user_group(&mut self, group_name: &str, permissions: &str)
        requires
            old(self).wf(),
        ensures
            final(self).wf(),
            final(self)@ == old(self)@.with_permissions(group_name@, permissions@),
    {
        let ghost before = self@;
        match self.find_group(group_name) {
            Some(k) => {
                self.user_groups[k].permissions = permissions.to_owned();
                proof {
                    let after = self@;
                    let wanted = before.with_permissions(group_name@, permissions@);
                    assert(after.user_groups =~= wanted.user_groups);
                    lemma_permissions_keep_wf(before, group_name@, permissions@);
                }
            },
            None => {
                proof {
                    let wanted = before.with_permissions(group_name@, permissions@);
                    assert forall|i: int| 0 <= i < before.user_groups.len() implies (
                    #[trigger] before.user_groups[i]) == wanted.user_groups[i] by {
                        assert(!before.group_named(i, group_name@));
                    }
                    assert(before.user_groups =~= wanted.user_groups);
                }
            },
        }
    }

    /// The group with the identifier `group_id`, if there is one.
    pub fn get_user_group_by_id(&self, group_id: i64) -> (group: Option<UserGroupInfo>)
        requires
            self.wf(),
        ensures
            group is Some <==> self@.has_group(group_id as int),
            group matches Some(g) ==> g@ == self@.group_by_id(group_id as int),
    {
        match self.find_group_by_id(group_id) {
            Some(k) => Some(self.user_groups[k].clone()),
            None => None,
        }
    }

    /// Every group, in the order of the identifiers.
    pub fn get_all_user_groups(&self) -> (groups: Vec<UserGroupInfo>)
        requires
            self.wf(),
        ensures
            groups@.len() == self@.user_groups.len(),
            forall|i: int| 0 <= i < groups@.len() ==> (#[trigger] groups@[i])@ == self@.user_groups[i],
    {
        let mut groups: Vec<UserGroupInfo> = Vec::new();
        let mut i: usize = 0;
        while i < self.user_groups.len()
            invariant
                i <= self.user_groups.len(),
                groups@.len() == i,
                forall|k: int| 0 <= k < i ==> (#[trigger] groups@[k])@ == self@.user_groups[k],
            decreases self.user_groups.len() - i,
        {
            groups.push(self.user_groups[i].clone());
            i += 1;
        }
        groups
    }

    /// The group called `group_name`, if there is one.
    pub fn get_user_group_by_name(&self, group_name: &str) -> (group: Option<UserGroupInfo>)
        requires
            self.wf(),
        ensures
            group is Some <==> self@.is_user_group(group_name@),
            group matches Some(g) ==> g@ == self@.group_by_name(group_name@),
    {
        match self.find_group(group_name) {
            Some(k) => Some(self.user_groups[k].clone()),
            None => None,
        }
    }

    /// The identifier of the group called `group_name`, or `-1` where there
    /// is no such group.
    pub fn get_user_group_id(&self, group_name: &str) -> (id: i64)
        requires
            self.wf(),
        ensures
            self@.is_user_group(group_name@) ==> id == self@.group_by_name(group_name@).id && id > 0,
            !self@.is_user_group(group_name@) ==> id == -1,
    {
        match self.find_group(group_name) {
            Some(k) => self.user_groups[k].id,
            None => -1,
        }
    }

    /// The identifier of the group that new users join.
    pub fn get_user_group_id_guest(&self) -> (id: i64)
        requires
            self.wf(),
        ensures
            id == self@.group_by_name(DEFAULT_GUEST_NAME@).id,
            self@.has_group(id as int),
    {
        let id = self.get_user_group_id(DEFAULT_GUEST_NAME);
        proof {
            let k = choose|k: int| self@.group_named(k, DEFAULT_GUEST_NAME@);
            assert(self@.group_numbered(k, id as int));
        }
        id
    }

    /// The identifier of the group that may do everything.
    pub fn get_user_group_id_admin(&self) -> (id: i64)
        requires
            self.wf(),
        ensures
            id == self@.group_by_name(DEFAULT_ADMIN_NAME@).id,
            self@.has_group(id as int),
    {
        let id = self.get_user_group_id(DEFAULT_ADMIN_NAME);
        proof {
            let k = choose|k: int| self@.group_named(k, DEFAULT_ADMIN_NAME@);
            assert(self@.group_numbered(k, id as int));
        }
        id
    }

    /// The permissions of the group called `group_name`, or the empty
    /// string where there is no such group.
    pub fn get_group_permissions(&self, group_name: &str) -> (permissions: String)
        requires
            self.wf(),
        ensures
            permissions@ == (if self@.is_user_group(group_name@) {
                self@.group_by_name(group_name@).permissions
            } else {
                Seq::empty()
            }),
    {
        match self.find_group(group_name) {
            Some(k) => self.user_groups[k].permissions.clone(),
            None => String::new(),
        }
    }

    /// Whether a group is called `group_name`.
    pub fn is_user_group(&self, group_name: &str) -> (found: bool)
        requires
            self.wf(),
        ensures
            found == self@.is_user_group(group_name@),
    {
        self.find_group(group_name).is_some()
    }
}

/// Appending an admissible group keeps the store well formed.
pub proof fn lemma_with_group_keeps_wf(db: MapDBView, group: UserGroupInfoView)
    requires
        db.wf(),
        db.admits_group(group),
    ensures
        db.with_group_row(group).wf(),
{
    let after = db.with_group_row(group);
    let n = db.user_groups.len() as int;
    assert forall|k: int, name: Seq<char>| db.group_named(k, name) implies after.group_named(
        k,
        name,
    ) by {}
    assert forall|k: int, gid: int| db.group_numbered(k, gid) implies after.group_numbered(
        k,
        gid,
    ) by {}
    assert forall|i: int, j: int| 0 <= i < j < after.user_groups.len() implies (
    #[trigger] after.user_groups[i]).group_name != (#[trigger] after.user_groups[j]).group_name by {
        if j == n {
            assert(!db.group_named(i, group.group_name));
        }
    }
}

/// Replacing the permissions of a group keeps the store well formed: names
/// and identifiers stay as they are.
pub proof fn lemma_permissions_keep_wf(db: MapDBView, group_name: Seq<char>, permissions: Seq<char>)
    requires
        db.wf(),
    ensures
        db.with_permissions(group_name, permissions).wf(),
{
    let after = db.with_permissions(group_name, permissions);
    assert forall|k: int, name: Seq<char>| db.group_named(k, name) implies after.group_named(
        k,
        name,
    ) by {}
    assert forall|k: int, gid: int| db.group_numbered(k, gid) implies after.group_numbered(
        k,
        gid,
    ) by {}
}

/// The wildcard grants every capability, the empty one too.
pub proof fn lemma_wildcard_grants_everything(capability: Seq<char>)
    ensures
        grants(WILDCARD@, capability),
{
}

/// The empty permissions string grants no capability that has a
/// character.
pub proof fn lemma_empty_grants_nothing(capability: Seq<char>)
    requires
        capability.len() > 0,
    ensures
        !grants(Seq::<char>::empty(), capability),
{
    reveal_strlit("*");
    assert(WILDCARD@.len() == 1);
}

/// The empty capability is granted by every permissions string.
pub proof fn lemma_empty_capability_granted(permissions: Seq<char>)
    ensures
        grants(permissions, Seq::<char>::empty()),
{
    assert(permissions.subrange(0, 0) =~= Seq::<char>::empty());
    assert(occurs_at(permissions, Seq::<char>::empty(), 0));
}

/// Every run of characters of a permissions string is a capability that
/// the string grants: the string itself, and each part of it.
pub proof fn lemma_part_is_granted(permissions: Seq<char>, from: int, to: int)
    requires
        0 <= from <= to <= permissions.len(),
    ensures
        grants(permissions, permissions.subrange(from, to)),
{
    let part = permissions.subrange(from, to);
    assert(occurs_at(permissions, part, from));
}

/// Unless the permissions string is the wildcard, it grants exactly the
/// capabilities that occur in it.
pub proof fn lemma_grants_is_containment(permissions: Seq<char>, capability: Seq<char>)
    requires
        permissions != WILDCARD@,
    ensures
        grants(permissions, capability) <==> is_substring(capability, permissions),
{
}

} // verus!
