//! The answer to a photo upload.
use crate::web_srv::response::STATUS_OK;
use vstd::prelude::*;

verus! {

/// The answer to a file upload: a status and the name the file was stored
/// under.
#[derive(Debug)]
pub struct JSONSaveFileResp {
    status: String,
    filename: String,
}

/// The mathematical content of a [`JSONSaveFileResp`].
pub struct JSONSaveFileRespView {
    pub status: Seq<char>,
    pub filename: Seq<char>,
}

impl View for JSONSaveFileResp {
    type V = JSONSaveFileRespView;

    closed spec fn view(&self) -> JSONSaveFileRespView {
        JSONSaveFileRespView { status: self.status@, filename: self.filename@ }
    }
}

/// The status of an upload whose file could not be stored.
pub const UPLOAD_NOT_SAVED: &'static str = "Error: File could not be saved.";

/// The status of an upload that came without a title.
pub const UPLOAD_NO_TITLE: &'static str = "Error: No title provided for file";

/// The answer to an upload: a failure to store the file comes first, a
/// missing title second; otherwise the upload is recorded under
/// `save_name`.
pub open spec fn spec_upload_response(
    saved: bool,
    title: Seq<char>,
    save_name: Seq<char>,
) -> JSONSaveFileRespView {
    if !saved {
        JSONSaveFileRespView { status: UPLOAD_NOT_SAVED@, filename: Seq::empty() }
    } else if title.len() == 0 {
        JSONSaveFileRespView { status: UPLOAD_NO_TITLE@, filename: Seq::empty() }
    } else {
        JSONSaveFileRespView { status: STATUS_OK@, filename: save_name }
    }
}

impl JSONSaveFileResp {
    /// An answer with the given status and file name.
    pub fn new(status: &str, filename: &str) -> (response: JSONSaveFileResp)
        ensures
            response@ == (JSONSaveFileRespView { status: status@, filename: filename@ }),
    {
        JSONSaveFileResp { status: status.to_owned(), filename: filename.to_owned() }
    }

    /// An answer that reports `error` and names no file.
    pub fn new_error(error: &str) -> (response: JSONSaveFileResp)
        ensures
            response@ == (JSONSaveFileRespView { status: error@, filename: Seq::empty() }),
    {
        proof {
            reveal_strlit("");
        }
        let response = JSONSaveFileResp::new(error, "");
        assert(response@.filename =~= Seq::<char>::empty());
        response
    }

    /// The status text.
    pub fn status(&self) -> (status: &str)
        ensures
            status@ == self@.status,
    {
        self.status.as_str()
    }

    /// The name the file was stored under; empty after a failure.
    pub fn filename(&self) -> (filename: &str)
        ensures
            filename@ == self@.filename,
    {
        self.filename.as_str()
    }

    /// The answer to an upload. `saved` tells whether the file was
    /// stored; the upload counts only if it also has a title.
    pub fn for_upload(saved: bool, title: &str, save_name: &str) -> (response: JSONSaveFileResp)
        ensures
            response@ == spec_upload_response(saved, title@, save_name@),
    {
        if !saved {
            JSONSaveFileResp::new_error(UPLOAD_NOT_SAVED)
        } else if title.is_empty() {
            JSONSaveFileResp::new_error(UPLOAD_NO_TITLE)
        } else {
            JSONSaveFileResp::new(STATUS_OK, save_name)
        }
    }
}

} // verus!
