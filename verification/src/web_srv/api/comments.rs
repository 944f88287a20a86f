//! What the requests on comments decide before anything is stored: who may
//! do it, and what exactly is to be done.
use crate::db::{MapDB, MapDBView};
use crate::text::str_view;
use crate::web_srv::user::login::{
    does_this_user_have_permission, get_this_user_id, Session, SessionView,
};
use vstd::prelude::*;

verus! {

/// The capability to post a comment.
pub const ADD_COMMENT: &'static str = "addComment";

/// The capability to change a comment of one's own.
pub const EDIT_COMMENT: &'static str = "editComment";

/// The capability to change the comments of others.
pub const EDIT_OTHER_COMMENT: &'static str = "editOtherComment";

/// The refusal for a caller without the capability.
pub const NO_PERMISSION: &'static str = "you do not have permission";

/// The refusal for a comment that names neither a file nor a location.
pub const NO_TARGET: &'static str = "Comment must be posted on either a file or location";

/// The refusal for a comment that names both a file and a location.
pub const TWO_TARGETS: &'static str = "Comment cannot be on both a file and location";

/// The refusal for an edit of a comment that does not exist.
pub const NO_SUCH_COMMENT: &'static str = "not a valid comment id";

/// The refusal for an edit of somebody else's comment.
pub const NOT_THE_OWNER: &'static str = "you cannot edit other user comments";

/// What is to be done about a request to post a comment. In the rows,
/// `-1` stands for "none".
#[derive(Debug)]
pub enum CommentAction {
    Refuse { error: &'static str },
    Add { location_id: i64, file_id: i64, owner_id: i64 },
    Reply { location_id: i64, file_id: i64, owner_id: i64, reply_to_id: i64 },
}

/// The mathematical content of a [`CommentAction`].
pub enum CommentActionView {
    Refuse { error: Seq<char> },
    Add { location_id: i64, file_id: i64, owner_id: i64 },
    Reply { location_id: i64, file_id: i64, owner_id: i64, reply_to_id: i64 },
}

impl View for CommentAction {
    type V = CommentActionView;

    open spec fn view(&self) -> CommentActionView {
        match self {
            CommentAction::Refuse { error } => CommentActionView::Refuse { error: error@ },
            CommentAction::Add { location_id, file_id, owner_id } => CommentActionView::Add {
                location_id: *location_id,
                file_id: *file_id,
                owner_id: *owner_id,
            },
            CommentAction::Reply {
                location_id,
                file_id,
                owner_id,
                reply_to_id,
            } => CommentActionView::Reply {
                location_id: *location_id,
                file_id: *file_id,
                owner_id: *owner_id,
                reply_to_id: *reply_to_id,
            },
        }
    }
}

/// The value of an optional identifier, `-1` where it is missing.
pub open spec fn id_or_none(id: Option<i64>) -> i64 {
    match id {
        Some(id) => id,
        None => -1i64,
    }
}

/// What is to be done about a comment by `owner_id`: it must name a file
/// or a location and not both; with a comment to reply to it is a reply.
pub open spec fn spec_comment_action(
    owner_id: i64,
    file_id: Option<i64>,
    location_id: Option<i64>,
    reply_to_id: Option<i64>,
) -> CommentActionView {
    let file_id = id_or_none(file_id);
    let location_id = id_or_none(location_id);
    let reply_to_id = id_or_none(reply_to_id);
    if file_id == -1 && location_id == -1 {
        CommentActionView::Refuse { error: NO_TARGET@ }
    } else if file_id != -1 && location_id != -1 {
        CommentActionView::Refuse { error: TWO_TARGETS@ }
    } else if reply_to_id == -1 {
        CommentActionView::Add { location_id, file_id, owner_id }
    } else {
        CommentActionView::Reply { location_id, file_id, owner_id, reply_to_id }
    }
}

/// The identifier of the session's user, `-1` where the session names no
/// user of the store.
pub open spec fn spec_this_user_id(session: SessionView, db: MapDBView) -> i64 {
    if session.names_user_of(db) {
        db.user(session.identity->0).id
    } else {
        -1i64
    }
}

/// What is to be done about a request to post a comment. A caller
/// without the capability `addComment` is refused first.
pub fn add_comment(
    session: &Session,
    db: &MapDB,
    file_id: Option<i64>,
    location_id: Option<i64>,
    reply_to_id: Option<i64>,
) -> (action: CommentAction)
    requires
        db.wf(),
    ensures
        action@ == (if !session@.authorized(db@, ADD_COMMENT@) {
            CommentActionView::Refuse { error: NO_PERMISSION@ }
        } else {
            spec_comment_action(
                spec_this_user_id(session@, db@),
                file_id,
                location_id,
                reply_to_id,
            )
        }),
{
    if !does_this_user_have_permission(session, db, ADD_COMMENT) {
        return CommentAction::Refuse { error: NO_PERMISSION };
    }
    let owner_id = get_this_user_id(session, db);
    let file_id: i64 = match file_id {
        Some(id) => id,
        None => -1,
    };
    let location_id: i64 = match location_id {
        Some(id) => id,
        None => -1,
    };
    let reply_to_id: i64 = match reply_to_id {
        Some(id) => id,
        None => -1,
    };
    if file_id == -1 && location_id == -1 {
        CommentAction::Refuse { error: NO_TARGET }
    } else if file_id != -1 && location_id != -1 {
        CommentAction::Refuse { error: TWO_TARGETS }
    } else if reply_to_id == -1 {
        CommentAction::Add { location_id, file_id, owner_id }
    } else {
        CommentAction::Reply { location_id, file_id, owner_id, reply_to_id }
    }
}

/// Why the session's user may not change a comment, or `None` where the
/// user may. `comment_owner` is the owner of the comment, `None` where the
/// comment does not exist. The capability `editComment` is asked for
/// first, then the comment, and for somebody else's comment the
/// capability `editOtherComment`.
pub fn edit_comment(session: &Session, db: &MapDB, comment_owner: Option<i64>) -> (refusal: Option<
    &'static str,
>)
    requires
        db.wf(),
    ensures
        str_view(refusal) == (if !session@.authorized(db@, EDIT_COMMENT@) {
            Some(NO_PERMISSION@)
        } else if comment_owner is None {
            Some(NO_SUCH_COMMENT@)
        } else if comment_owner->0 != spec_this_user_id(session@, db@) && !session@.authorized(
            db@,
            EDIT_OTHER_COMMENT@,
        ) {
            Some(NOT_THE_OWNER@)
        } else {
            None
        }),
{
    if !does_this_user_have_permission(session, db, EDIT_COMMENT) {
        return Some(NO_PERMISSION);
    }
    let user_id = get_this_user_id(session, db);
    match comment_owner {
        None => Some(NO_SUCH_COMMENT),
        Some(owner_id) => {
            if owner_id != user_id && !does_this_user_have_permission(
                session,
                db,
                EDIT_OTHER_COMMENT,
            ) {
                Some(NOT_THE_OWNER)
            } else {
                None
            }
        },
    }
}

} // verus!
