use map_auth::db::user_groups::{UserGroupInfo, WILDCARD};
use map_auth::db::{MapDB, DEFAULT_ADMIN_NAME, DEFAULT_GUEST_NAME};

fn group(permissions: &str) -> UserGroupInfo {
    UserGroupInfo { id: 7, group_name: "g".to_string(), permissions: permissions.to_string() }
}

#[test]
fn wildcard_authorizes_everything() {
    assert_eq!(WILDCARD, "*");
    let all = group("*");
    assert!(all.has_permission(""));
    assert!(all.has_permission("addComment"));
    assert!(all.has_permission("unrelated token"));
    assert!(all.has_permission("*"));
}

#[test]
fn empty_permissions_authorize_nothing() {
    let none = group("");
    assert!(!none.has_permission("addComment"));
    assert!(!none.has_permission("a"));
    assert!(!none.has_permission("*"));
}

#[test]
fn empty_capability_is_contained_in_every_permissions_string() {
    assert!(group("").has_permission(""));
    assert!(group("addComment").has_permission(""));
}

#[test]
fn permissions_authorize_their_substrings() {
    let commenter = group("addComment");
    assert!(commenter.has_permission("addComment"));
    assert!(commenter.has_permission("add"));
    assert!(commenter.has_permission("Comment"));
    assert!(!commenter.has_permission("editComment"));
    assert!(!commenter.has_permission("addLocation"));
    assert!(!commenter.has_permission("addComment "));
}

#[test]
fn several_capabilities_in_one_string() {
    let editor = group("addComment editComment");
    assert!(editor.has_permission("addComment"));
    assert!(editor.has_permission("editComment"));
    assert!(!editor.has_permission("editOtherComment"));
    let two_lines = group("addComment\naddLocation");
    assert!(two_lines.has_permission("addLocation"));
}

#[test]
fn a_star_inside_other_text_is_no_wildcard() {
    let odd = group("* addComment");
    assert!(odd.has_permission("addComment"));
    assert!(odd.has_permission("*"));
    assert!(!odd.has_permission("editComment"));
}

#[test]
fn a_new_store_has_guest_and_admin() {
    let db = MapDB::new();
    let groups = db.get_all_user_groups();
    assert_eq!(groups.len(), 2);
    assert_eq!(groups[0].id, 1);
    assert_eq!(groups[0].group_name, "guest");
    assert_eq!(groups[0].permissions, "");
    assert_eq!(groups[1].id, 2);
    assert_eq!(groups[1].group_name, "admin");
    assert_eq!(groups[1].permissions, "*");
    assert_eq!(DEFAULT_GUEST_NAME, "guest");
    assert_eq!(DEFAULT_ADMIN_NAME, "admin");
    assert_eq!(db.get_user_group_id_guest(), 1);
    assert_eq!(db.get_user_group_id_admin(), 2);
    assert!(db.get_all_users().is_empty());
}

#[test]
fn groups_are_added_under_fresh_identifiers() {
    let mut db = MapDB::new();
    assert_eq!(db.add_user_group("editors", "addComment editComment"), 3);
    assert_eq!(db.add_user_group("mappers", "addLocation"), 4);
    assert!(db.is_user_group("editors"));
    assert!(!db.is_user_group("Editors"));
    assert_eq!(db.get_user_group_id("mappers"), 4);
    assert_eq!(db.get_user_group_id("nobody"), -1);
    let editors = db.get_user_group_by_name("editors").unwrap();
    assert_eq!(editors.id, 3);
    assert_eq!(editors.permissions, "addComment editComment");
    let by_id = db.get_user_group_by_id(4).unwrap();
    assert_eq!(by_id.group_name, "mappers");
    assert!(db.get_user_group_by_id(5).is_none());
    assert!(db.get_user_group_by_id(-1).is_none());
    assert!(db.get_user_group_by_name("nobody").is_none());
    assert_eq!(db.get_all_user_groups().len(), 4);
}

#[test]
fn a_group_name_is_taken_once() {
    let mut db = MapDB::new();
    assert_eq!(db.add_user_group("guest", "*"), -1);
    assert_eq!(db.add_user_group("editors", "a"), 3);
    assert_eq!(db.add_user_group("editors", "b"), -1);
    assert_eq!(db.get_all_user_groups().len(), 3);
    assert_eq!(db.get_user_group_by_name("guest").unwrap().permissions, "");
    assert_eq!(db.get_user_group_by_name("editors").unwrap().permissions, "a");
    assert_eq!(db.add_user_group("mappers", "c"), 4);
}

#[test]
fn editing_replaces_the_permissions_of_one_group() {
    let mut db = MapDB::new();
    db.add_user_group("editors", "addComment");
    db.edit_user_group("editors", "editComment");
    assert_eq!(db.get_user_group_by_name("editors").unwrap().permissions, "editComment");
    assert_eq!(db.get_user_group_by_name("editors").unwrap().id, 3);
    assert_eq!(db.get_user_group_by_name("guest").unwrap().permissions, "");
    assert_eq!(db.get_user_group_by_name("admin").unwrap().permissions, "*");
    db.edit_user_group("nobody", "*");
    assert!(!db.is_user_group("nobody"));
    assert_eq!(db.get_all_user_groups().len(), 3);
    db.edit_user_group("guest", "addComment");
    assert_eq!(db.get_user_group_by_id(1).unwrap().permissions, "addComment");
}

#[test]
fn stored_groups_are_restored_in_order() {
    let mut db = MapDB::new();
    let stored = |id: i64, name: &str| UserGroupInfo {
        id,
        group_name: name.to_string(),
        permissions: "p".to_string(),
    };
    assert!(!db.restore_user_group(stored(2, "late")));
    assert!(!db.restore_user_group(stored(9, "admin")));
    assert!(!db.restore_user_group(stored(i64::MAX, "last")));
    assert!(db.restore_user_group(stored(9, "nine")));
    assert!(!db.restore_user_group(stored(9, "again")));
    assert_eq!(db.get_user_group_id("nine"), 9);
    assert_eq!(db.add_user_group("ten", ""), 10);
    assert!(db.restore_user_group(stored(i64::MAX - 1, "last")));
    assert_eq!(db.add_user_group("none left", ""), -1);
    assert_eq!(db.get_all_user_groups().len(), 5);
}
