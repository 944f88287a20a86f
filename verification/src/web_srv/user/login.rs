//! The session state machine, and login, registration, enrolment
//! confirmation, logout and the permission check on top of the identity
//! store.
//!
//! A session is anonymous until a login or a registration binds a user name
//! to it. It is verified once it carries the mark that the user confirmed
//! enrolment: the mark is copied from the store at login and set when a
//! confirmation succeeds.
use crate::db::crypto::{
    is_random_token, spec_totp_qr, unix_time_now, DbCrypto, SALT_LENGTH, SECRET_LENGTH,
};
use crate::db::user_groups::grants;
use crate::db::users::UserInfo;
use crate::db::users::{
    lemma_confirmation_marks, lemma_new_user_is_guest, lemma_totp_verified_keeps_wf,
};
use crate::db::{lemma_user_by_name, MapDB, MapDBView};
use crate::error::AuthError;
use crate::text::text_view;
use crate::web_srv::response::{JSONResponse, JSONResponseView, STATUS_OK};
use vstd::prelude::*;

verus! {

/// What a login or registration request carries.
#[derive(Debug)]
pub struct LoginJSONIn {
    pub username: String,
    pub password: String,
    pub totp_code: Option<String>,
}

/// What an enrolment confirmation carries.
#[derive(Debug)]
pub struct LoginTOTPReq {
    pub totp_code: String,
}

/// The answer to a registration: the enrolment payload.
#[derive(Debug)]
pub struct QrResp {
    pub status: String,
    pub qr_code: String,
}

/// The mathematical content of a [`QrResp`].
pub struct QrRespView {
    pub status: Seq<char>,
    pub qr_code: Seq<char>,
}

impl View for QrResp {
    type V = QrRespView;

    open spec fn view(&self) -> QrRespView {
        QrRespView { status: self.status@, qr_code: self.qr_code@ }
    }
}

/// What a session remembers of its user besides the name.
#[derive(Clone, Copy, Debug, PartialEq, Eq, Structural)]
pub struct UserClientData {
    pub totp_verified: bool,
}

/// How far a session has come.
#[derive(Clone, Copy, Debug, PartialEq, Eq, Structural)]
pub enum SessionState {
    /// No user name is bound to the session.
    Anonymous,
    /// A user name is bound; enrolment is not known to be confirmed.
    Identified,
    /// A user name is bound and enrolment is confirmed.
    Verified,
}

/// One caller's session: the remembered user name and the session data.
#[derive(Debug)]
pub struct Session {
    identity: Option<String>,
    user: Option<UserClientData>,
}

/// The mathematical content of a [`Session`].
pub struct SessionView {
    pub identity: Option<Seq<char>>,
    pub totp_verified: bool,
}

impl View for Session {
    type V = SessionView;

    closed spec fn view(&self) -> SessionView {
        SessionView {
            identity: match self.identity {
                Some(name) => Some(name@),
                None => None,
            },
            totp_verified: match self.user {
                Some(user) => user.totp_verified,
                None => false,
            },
        }
    }
}

impl SessionView {
    /// The session that nobody has logged in to.
    pub open spec fn anonymous() -> SessionView {
        SessionView { identity: None, totp_verified: false }
    }

    /// The session of `username`, with or without the mark of confirmed
    /// enrolment.
    pub open spec fn of(username: Seq<char>, totp_verified: bool) -> SessionView {
        SessionView { identity: Some(username), totp_verified }
    }

    /// The state of the session.
    pub open spec fn state(self) -> SessionState {
        if self.identity is None {
            SessionState::Anonymous
        } else if self.totp_verified {
            SessionState::Verified
        } else {
            SessionState::Identified
        }
    }

    /// The session names a user of the store.
    pub open spec fn names_user_of(self, db: MapDBView) -> bool {
        self.identity matches Some(name) && db.is_user(name)
    }

    /// The session's user holds `permission`: the session names a user of
    /// the store whose group grants it.
    pub open spec fn authorized(self, db: MapDBView, permission: Seq<char>) -> bool {
        self.identity matches Some(name) && db.is_user(name) && grants(
            db.user_info(db.user(name)).group.permissions,
            permission,
        )
    }
}

/// What a login does, as a relation between the session before and after,
/// the store, the request, the time and the result.
///
/// A session with an identity is refused. Otherwise the request goes
/// through exactly when it carries a one-time password and the three
/// credentials match at `time`; the session then names the user and copies
/// the store's mark of confirmed enrolment. A refusal leaves the session
/// as it was.
pub open spec fn login_outcome(
    before: SessionView,
    after: SessionView,
    db: MapDBView,
    username: Seq<char>,
    password: Seq<char>,
    totp_code: Option<Seq<char>>,
    time: u64,
    outcome: Result<(), AuthError>,
) -> bool {
    if before.identity is Some {
        outcome == Err::<(), AuthError>(AuthError::AlreadyAuthenticated) && after == before
    } else if totp_code is Some && db.credentials_match(username, password, totp_code->0, time) {
        outcome == Ok::<(), AuthError>(()) && after == SessionView::of(
            username,
            db.totp_verified_of(username),
        )
    } else {
        outcome == Err::<(), AuthError>(AuthError::InvalidCredentials) && after == before
    }
}

/// What a registration does, as a relation between the session and the
/// store before and after, the request, the salt and secret drawn, and the
/// result.
///
/// A session with an identity is refused, then a user name that is taken,
/// then a user that the store cannot add; a refusal changes nothing.
/// Otherwise the user is added, the session names the user without the
/// mark of confirmed enrolment, and the answer carries the enrolment
/// payload.
pub open spec fn register_outcome(
    before: SessionView,
    after: SessionView,
    db_before: MapDBView,
    db_after: MapDBView,
    username: Seq<char>,
    password: Seq<char>,
    salt: Seq<char>,
    totp_secret: Seq<char>,
    outcome: Result<QrResp, AuthError>,
) -> bool {
    if before.identity is Some {
        &&& outcome matches Err(e)
        &&& e == AuthError::AlreadyAuthenticated
        &&& after == before
        &&& db_after == db_before
    } else if db_before.is_user(username) {
        &&& outcome matches Err(e)
        &&& e == AuthError::UserExists
        &&& after == before
        &&& db_after == db_before
    } else if !db_before.can_add_user(username, totp_secret) {
        &&& outcome matches Err(e)
        &&& e == AuthError::StorageFailure
        &&& after == before
        &&& db_after == db_before
    } else {
        &&& outcome matches Ok(answer)
        &&& answer@.status == STATUS_OK@
        &&& Some(answer@.qr_code) == spec_totp_qr(username, totp_secret)
        &&& after == SessionView::of(username, false)
        &&& db_after == db_before.with_user(
            db_before.new_row(username, password, salt, totp_secret),
        )
    }
}

/// What an enrolment confirmation does, as a relation between the session
/// and the store before and after, the code, the time and the result.
///
/// A session without an identity is refused, then a code that is not the
/// user's one-time password at `time`; a refusal changes nothing.
/// Otherwise the store marks the user as verified, which changes nothing
/// where the mark is set already, and the session carries the mark.
pub open spec fn check_totp_outcome(
    before: SessionView,
    after: SessionView,
    db_before: MapDBView,
    db_after: MapDBView,
    totp_code: Seq<char>,
    time: u64,
    outcome: Result<(), AuthError>,
) -> bool {
    match before.identity {
        None => {
            &&& outcome == Err::<(), AuthError>(AuthError::NotAuthenticated)
            &&& after == before
            &&& db_after == db_before
        },
        Some(username) => {
            if db_before.totp_matches(username, totp_code, time) {
                &&& outcome == Ok::<(), AuthError>(())
                &&& after == SessionView::of(username, true)
                &&& db_after == db_before.with_totp_verified(username)
            } else {
                &&& outcome == Err::<(), AuthError>(AuthError::InvalidTotpCode)
                &&& after == before
                &&& db_after == db_before
            }
        },
    }
}

impl Session {
    /// A session that nobody has logged in to.
    pub fn new() -> (session: Session)
        ensures
            session@ == SessionView::anonymous(),
    {
        Session { identity: None, user: None }
    }

    /// A session as the transport layer kept it: the remembered user name
    /// and the session data, either of which may be missing.
    pub fn restore(identity: Option<String>, user: Option<UserClientData>) -> (session: Session)
        ensures
            session@.identity == (match identity {
                Some(name) => Some(name@),
                None => None,
            }),
            session@.totp_verified == (match user {
                Some(data) => data.totp_verified,
                None => false,
            }),
    {
        Session { identity, user }
    }

    /// The state of the session.
    pub fn state(&self) -> (state: SessionState)
        ensures
            state == self@.state(),
    {
        if self.identity.is_none() {
            SessionState::Anonymous
        } else if self.totp_verified() {
            SessionState::Verified
        } else {
            SessionState::Identified
        }
    }

    /// Whether the session carries the mark of confirmed enrolment.
    pub fn totp_verified(&self) -> (verified: bool)
        ensures
            verified == self@.totp_verified,
    {
        match &self.user {
            Some(user) => user.totp_verified,
            None => false,
        }
    }

    /// The session data, for the transport layer to keep.
    pub fn user_data(&self) -> (user: Option<UserClientData>)
        ensures
            user matches Some(data) ==> data.totp_verified == self@.totp_verified,
            user is None ==> !self@.totp_verified,
    {
        self.user
    }

    /// Binds `username` to the session.
    pub fn remember(&mut self, username: &str)
        ensures
            final(self)@ == SessionView::of(username@, old(self)@.totp_verified),
    {
        self.identity = Some(username.to_owned());
    }

    /// Drops the user name and the session data.
    pub fn forget(&mut self)
        ensures
            final(self)@ == SessionView::anonymous(),
    {
        self.identity = None;
        self.user = None;
    }
}

/// Whether the session names a user of the store.
pub fn validate_identity(session: &Session, db: &MapDB) -> (valid: bool)
    requires
        db.wf(),
    ensures
        valid == session@.names_user_of(db@),
{
    match &session.identity {
        Some(name) => db.is_user(name.as_str()),
        None => false,
    }
}

/// Whether the session names a user of the store and carries the mark of
/// confirmed enrolment.
pub fn validate_session(session: &Session, db: &MapDB) -> (valid: bool)
    requires
        db.wf(),
    ensures
        valid == (session@.names_user_of(db@) && session@.totp_verified),
{
    if !validate_identity(session, db) {
        return false;
    }
    session.totp_verified()
}

/// The profile of the session's user, if the session names a user of the
/// store.
pub fn get_this_user(session: &Session, db: &MapDB) -> (user: Option<UserInfo>)
    requires
        db.wf(),
    ensures
        user is Some <==> session@.names_user_of(db@),
        user matches Some(u) ==> u@ == db@.user_info(db@.user(session@.identity->0)),
{
    match &session.identity {
        Some(name) => db.get_user_by_username(name.as_str()),
        None => None,
    }
}

/// The user name bound to the session.
pub fn get_this_username(session: &Session) -> (username: Option<String>)
    ensures
        username is Some <==> session@.identity is Some,
        username matches Some(name) ==> Some(name@) == session@.identity,
{
    match &session.identity {
        Some(name) => Some(name.clone()),
        None => None,
    }
}

/// The identifier of the session's user, or `-1` where the session names
/// no user of the store.
pub fn get_this_user_id(session: &Session, db: &MapDB) -> (id: i64)
    requires
        db.wf(),
    ensures
        session@.names_user_of(db@) ==> id == db@.user(session@.identity->0).id,
        !session@.names_user_of(db@) ==> id == -1,
{
    match &session.identity {
        Some(name) => db.get_user_id(name.as_str()),
        None => -1,
    }
}

/// Whether the session's user holds `permission`. A session that names no
/// user of the store holds none.
pub fn does_this_user_have_permission(session: &Session, db: &MapDB, permission: &str) -> (granted:
    bool)
    requires
        db.wf(),
    ensures
        granted == session@.authorized(db@, permission@),
{
    match get_this_user(session, db) {
        Some(user) => user.group.has_permission(permission),
        None => false,
    }
}

/// The identifier of the user whom a request's credentials match at
/// `time`, or `-1`. A request without a one-time password matches nobody.
pub open spec fn spec_login_id(
    db: MapDBView,
    username: Seq<char>,
    password: Seq<char>,
    totp_code: Option<Seq<char>>,
    time: u64,
) -> int {
    match totp_code {
        Some(code) => db.login_id(username, password, code, time),
        None => -1,
    }
}

/// The identifier of the user whom the request's credentials match at
/// `time`, or `-1`.
pub fn get_login_id_at(json_login: &LoginJSONIn, db: &MapDB, time: u64) -> (id: i64)
    requires
        db.wf(),
    ensures
        id == spec_login_id(
            db@,
            json_login.username@,
            json_login.password@,
            text_view(json_login.totp_code),
            time,
        ),
        id != -1 <==> (json_login.totp_code matches Some(code) && db@.credentials_match(
            json_login.username@,
            json_login.password@,
            code@,
            time,
        )),
{
    match &json_login.totp_code {
        Some(code) => db.is_user_login_at(
            json_login.username.as_str(),
            json_login.password.as_str(),
            code.as_str(),
            time,
        ),
        None => -1,
    }
}

/// The answer of [`get_login_id_at`] for the second that the clock showed.
pub fn get_login_id(json_login: &LoginJSONIn, db: &MapDB) -> (id: i64)
    requires
        db.wf(),
    ensures
        exists|time: u64|
            id == #[trigger] spec_login_id(
                db@,
                json_login.username@,
                json_login.password@,
                text_view(json_login.totp_code),
                time,
            ),
        json_login.totp_code is None ==> id == -1,
{
    let time = unix_time_now();
    get_login_id_at(json_login, db, time)
}

/// Sets the session data to the given mark of confirmed enrolment.
pub fn set_session(session: &mut Session, totp_verified: bool)
    ensures
        final(session)@ == (SessionView { totp_verified, ..old(session)@ }),
{
    session.user = Some(UserClientData { totp_verified });
}

/// The profile of the session's user, or the refusal `Not logged in`.
pub fn index(session: &Session, db: &MapDB) -> (response: JSONResponse)
    requires
        db.wf(),
    ensures
        response@ == (if session@.names_user_of(db@) {
            JSONResponseView::UserInfo(db@.user_info(db@.user(session@.identity->0)))
        } else {
            JSONResponseView::ErrorMsg(AuthError::NotAuthenticated.spec_message())
        }),
{
    match get_this_user(session, db) {
        Some(user) => JSONResponse::UserInfo(user),
        None => JSONResponse::new_error(AuthError::NotAuthenticated.message()),
    }
}

/// The text of the refusal to show a profile to a session that is not
/// verified.
pub const MUST_BE_LOGGED_IN: &'static str = "Must be logged in";

/// The text of the answer about a user name that nobody has.
pub const NO_SUCH_USER: &'static str = "No such user";

/// The profile of the user called `username`, for a verified session of a
/// user of the store. Other sessions are refused before the name is
/// looked at.
pub fn get_user(username: &str, session: &Session, db: &MapDB) -> (response: JSONResponse)
    requires
        db.wf(),
    ensures
        response@ == (if !(session@.names_user_of(db@) && session@.totp_verified) {
            JSONResponseView::ErrorMsg(MUST_BE_LOGGED_IN@)
        } else if !db@.is_user(username@) {
            JSONResponseView::ErrorMsg(NO_SUCH_USER@)
        } else {
            JSONResponseView::UserInfo(db@.user_info(db@.user(username@)))
        }),
{
    if !validate_session(session, db) {
        return JSONResponse::new_error(MUST_BE_LOGGED_IN);
    }
    match db.get_user_by_username(username) {
        Some(user) => JSONResponse::UserInfo(user),
        None => JSONResponse::new_error(NO_SUCH_USER),
    }
}

/// `OK` where a user is called `username`, else `No such user`.
pub fn is_user(username: &str, db: &MapDB) -> (response: JSONResponse)
    requires
        db.wf(),
    ensures
        response@ == (if db@.is_user(username@) {
            JSONResponseView::StatusMsg(STATUS_OK@)
        } else {
            JSONResponseView::ErrorMsg(NO_SUCH_USER@)
        }),
{
    if db.is_user(username) {
        JSONResponse::new_ok()
    } else {
        JSONResponse::new_error(NO_SUCH_USER)
    }
}

/// Logs in at `time`: see [`login_outcome`].
pub fn login_at(session: &mut Session, json_login: &LoginJSONIn, db: &MapDB, time: u64) -> (outcome:
    Result<(), AuthError>)
    requires
        db.wf(),
    ensures
        login_outcome(
            old(session)@,
            final(session)@,
            db@,
            json_login.username@,
            json_login.password@,
            text_view(json_login.totp_code),
            time,
            outcome,
        ),
{
    if session.identity.is_some() {
        return Err(AuthError::AlreadyAuthenticated);
    }
    if get_login_id_at(json_login, db, time) == -1 {
        return Err(AuthError::InvalidCredentials);
    }
    session.remember(json_login.username.as_str());
    set_session(session, db.is_user_totp_verified(json_login.username.as_str()));
    Ok(())
}

/// Logs in now: what [`login_at`] does for the second that the clock
/// showed.
pub fn login(session: &mut Session, json_login: &LoginJSONIn, db: &MapDB) -> (outcome: Result<
    (),
    AuthError,
>)
    requires
        db.wf(),
    ensures
        exists|time: u64| #[trigger]
            login_outcome(
                old(session)@,
                final(session)@,
                db@,
                json_login.username@,
                json_login.password@,
                text_view(json_login.totp_code),
                time,
                outcome,
            ),
{
    let time = unix_time_now();
    login_at(session, json_login, db, time)
}

/// Ends the session: the user name and the session data are dropped. A
/// session without an identity is refused and stays as it was.
pub fn logout(session: &mut Session) -> (outcome: Result<(), AuthError>)
    ensures
        old(session)@.identity is Some ==> outcome == Ok::<(), AuthError>(()) && final(session)@
            == SessionView::anonymous(),
        old(session)@.identity is None ==> outcome == Err::<(), AuthError>(
            AuthError::NotAuthenticated,
        ) && final(session)@ == old(session)@,
        final(session)@.state() == SessionState::Anonymous,
{
    if session.identity.is_none() {
        return Err(AuthError::NotAuthenticated);
    }
    session.forget();
    Ok(())
}

/// Registers a user under a given salt and secret: see
/// [`register_outcome`].
pub fn register_with(
    session: &mut Session,
    json_login: &LoginJSONIn,
    db: &mut MapDB,
    salt: &str,
    totp_secret: &str,
) -> (outcome: Result<QrResp, AuthError>)
    requires
        old(db).wf(),
    ensures
        final(db).wf(),
        register_outcome(
            old(session)@,
            final(session)@,
            old(db)@,
            final(db)@,
            json_login.username@,
            json_login.password@,
            salt@,
            totp_secret@,
            outcome,
        ),
{
    if session.identity.is_some() {
        return Err(AuthError::AlreadyAuthenticated);
    }
    if db.is_user(json_login.username.as_str()) {
        return Err(AuthError::UserExists);
    }
    match db.add_user_with(
        json_login.username.as_str(),
        json_login.password.as_str(),
        salt,
        totp_secret,
    ) {
        Ok((_, qr_code)) => {
            session.remember(json_login.username.as_str());
            set_session(session, false);
            Ok(QrResp { status: STATUS_OK.to_owned(), qr_code })
        },
        Err(e) => Err(e),
    }
}

/// Registers a user under a fresh salt and a fresh secret: what
/// [`register_with`] does for the salt and the secret that were drawn.
pub fn register(session: &mut Session, json_login: &LoginJSONIn, db: &mut MapDB) -> (outcome:
    Result<QrResp, AuthError>)
    requires
        old(db).wf(),
    ensures
        final(db).wf(),
        exists|salt: Seq<char>, totp_secret: Seq<char>|
            is_random_token(salt, SALT_LENGTH as nat) && is_random_token(
                totp_secret,
                SECRET_LENGTH as nat,
            ) && #[trigger] register_outcome(
                old(session)@,
                final(session)@,
                old(db)@,
                final(db)@,
                json_login.username@,
                json_login.password@,
                salt,
                totp_secret,
                outcome,
            ),
{
    let salt = DbCrypto::gen_rand_salt();
    let totp_secret = DbCrypto::gen_rand_secret();
    register_with(session, json_login, db, salt.as_str(), totp_secret.as_str())
}

/// Confirms enrolment at `time`: see [`check_totp_outcome`].
pub fn check_totp_at(
    session: &mut Session,
    json_login: &LoginTOTPReq,
    db: &mut MapDB,
    time: u64,
) -> (outcome: Result<(), AuthError>)
    requires
        old(db).wf(),
    ensures
        final(db).wf(),
        check_totp_outcome(
            old(session)@,
            final(session)@,
            old(db)@,
            final(db)@,
            json_login.totp_code@,
            time,
            outcome,
        ),
{
    let username = match get_this_username(session) {
        Some(username) => username,
        None => {
            return Err(AuthError::NotAuthenticated);
        },
    };
    if !db.is_user_totp_at(username.as_str(), json_login.totp_code.as_str(), time) {
        return Err(AuthError::InvalidTotpCode);
    }
    db.verified_totp(username.as_str());
    set_session(session, true);
    Ok(())
}

/// Confirms enrolment now: what [`check_totp_at`] does for the second that
/// the clock showed.
pub fn check_totp(session: &mut Session, json_login: &LoginTOTPReq, db: &mut MapDB) -> (outcome:
    Result<(), AuthError>)
    requires
        old(db).wf(),
    ensures
        final(db).wf(),
        exists|time: u64| #[trigger]
            check_totp_outcome(
                old(session)@,
                final(session)@,
                old(db)@,
                final(db)@,
                json_login.totp_code@,
                time,
                outcome,
            ),
{
    let time = unix_time_now();
    check_totp_at(session, json_login, db, time)
}

/// A session without an identity holds no permission, whatever the store
/// and the capability.
pub proof fn lemma_anonymous_is_denied(session: SessionView, db: MapDBView, permission: Seq<char>)
    requires
        session.state() == SessionState::Anonymous,
    ensures
        !session.authorized(db, permission),
{
}

/// A login never leaves an anonymous session in any state but the one of
/// the user it names: it is refused, or the session names the user of the
/// request.
pub proof fn lemma_login_keeps_or_binds(
    before: SessionView,
    after: SessionView,
    db: MapDBView,
    username: Seq<char>,
    password: Seq<char>,
    totp_code: Option<Seq<char>>,
    time: u64,
    outcome: Result<(), AuthError>,
)
    requires
        login_outcome(before, after, db, username, password, totp_code, time, outcome),
    ensures
        outcome is Err ==> after == before,
        outcome is Ok ==> before.state() == SessionState::Anonymous && after.identity == Some(
            username,
        ) && db.is_user(username),
{
}

/// A registration that goes through leaves the session identified, not
/// verified, and the store with the new user, who has not confirmed
/// enrolment.
pub proof fn lemma_registration_identifies(
    before: SessionView,
    after: SessionView,
    db_before: MapDBView,
    db_after: MapDBView,
    username: Seq<char>,
    password: Seq<char>,
    salt: Seq<char>,
    totp_secret: Seq<char>,
    outcome: Result<QrResp, AuthError>,
)
    requires
        db_before.wf(),
        register_outcome(
            before,
            after,
            db_before,
            db_after,
            username,
            password,
            salt,
            totp_secret,
            outcome,
        ),
        outcome is Ok,
    ensures
        before.state() == SessionState::Anonymous,
        after.state() == SessionState::Identified,
        after.identity == Some(username),
        !db_before.is_user(username),
        db_after.is_user(username),
        !db_after.totp_verified_of(username),
        db_after.salt_of(username) == salt,
        db_after.totp_secret_of(username) == totp_secret,
{
    lemma_new_user_is_guest(db_before, username, password, salt, totp_secret);
}

/// A confirmation that goes through leaves the session verified and the
/// user marked in the store; a second one changes nothing more.
pub proof fn lemma_confirmation_verifies(
    before: SessionView,
    after: SessionView,
    db_before: MapDBView,
    db_after: MapDBView,
    totp_code: Seq<char>,
    time: u64,
    outcome: Result<(), AuthError>,
)
    requires
        db_before.wf(),
        check_totp_outcome(before, after, db_before, db_after, totp_code, time, outcome),
        outcome is Ok,
    ensures
        before.state() != SessionState::Anonymous,
        after.state() == SessionState::Verified,
        after.identity == before.identity,
        db_after.totp_verified_of(before.identity->0),
        check_totp_outcome(after, after, db_after, db_after, totp_code, time, outcome),
{
    let username = before.identity->0;
    lemma_confirmation_marks(db_before, username);
    let k = choose|k: int| db_before.user_named(k, username);
    assert(db_after.user_named(k, username));
    lemma_totp_verified_keeps_wf(db_before, username);
    lemma_user_by_name(db_before, k, username);
    lemma_user_by_name(db_after, k, username);
}

} // verus!
