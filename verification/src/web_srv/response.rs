//! The answers that request handlers give, before they are put on the wire.
use crate::db::users::{UserInfo, UserInfoView};
use crate::error::AuthError;
use vstd::prelude::*;

verus! {

/// The status text of a request that went through.
pub const STATUS_OK: &'static str = "OK";

/// A status message.
#[derive(Debug)]
pub struct StatusMsg {
    pub status: String,
}

/// An error message.
#[derive(Debug)]
pub struct ErrorMsg {
    pub error: String,
}

/// The answers of the user and session requests.
#[derive(Debug)]
pub enum JSONResponse {
    StatusMsg(StatusMsg),
    ErrorMsg(ErrorMsg),
    UserInfo(UserInfo),
}

/// The mathematical content of a [`JSONResponse`].
pub enum JSONResponseView {
    StatusMsg(Seq<char>),
    ErrorMsg(Seq<char>),
    UserInfo(UserInfoView),
}

impl View for StatusMsg {
    type V = Seq<char>;

    open spec fn view(&self) -> Seq<char> {
        self.status@
    }
}

impl View for ErrorMsg {
    type V = Seq<char>;

    open spec fn view(&self) -> Seq<char> {
        self.error@
    }
}

impl View for JSONResponse {
    type V = JSONResponseView;

    open spec fn view(&self) -> JSONResponseView {
        match self {
            JSONResponse::StatusMsg(m) => JSONResponseView::StatusMsg(m@),
            JSONResponse::ErrorMsg(m) => JSONResponseView::ErrorMsg(m@),
            JSONResponse::UserInfo(u) => JSONResponseView::UserInfo(u@),
        }
    }
}

/// The answer to a request that either went through or was refused.
pub open spec fn spec_auth_response(outcome: Result<(), AuthError>) -> JSONResponseView {
    match outcome {
        Ok(_) => JSONResponseView::StatusMsg(STATUS_OK@),
        Err(e) => JSONResponseView::ErrorMsg(e.spec_message()),
    }
}

impl JSONResponse {
    /// The status message `OK`.
    pub fn new_ok() -> (response: JSONResponse)
        ensures
            response@ == JSONResponseView::StatusMsg(STATUS_OK@),
    {
        JSONResponse::StatusMsg(StatusMsg { status: STATUS_OK.to_owned() })
    }

    /// A status message with the text `status`.
    pub fn new_status(status: &str) -> (response: JSONResponse)
        ensures
            response@ == JSONResponseView::StatusMsg(status@),
    {
        JSONResponse::StatusMsg(StatusMsg { status: status.to_owned() })
    }

    /// An error message with the text `error`.
    pub fn new_error(error: &str) -> (response: JSONResponse)
        ensures
            response@ == JSONResponseView::ErrorMsg(error@),
    {
        JSONResponse::ErrorMsg(ErrorMsg { error: error.to_owned() })
    }

    /// The answer to a request that either went through or was refused:
    /// `OK`, or the text of the refusal.
    pub fn from_outcome(outcome: &Result<(), AuthError>) -> (response: JSONResponse)
        ensures
            response@ == spec_auth_response(*outcome),
    {
        match outcome {
            Ok(_) => JSONResponse::new_ok(),
            Err(e) => JSONResponse::new_error(e.message()),
        }
    }
}

} // verus!
