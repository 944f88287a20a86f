//! What the web server decides before it answers: its address, sessions,
//! logins and the shape of the answers.
pub mod api;
pub mod response;
pub mod upload;
pub mod user;

use crate::text::{decimal, push_char, to_decimal};
use vstd::prelude::*;

verus! {

/// The address the server listens on when none is given.
pub const DEFAULT_ADDRESS: &'static str = "0.0.0.0";

/// The port the server listens on when none is given.
pub const DEFAULT_PORT: u32 = 8080;

/// Where the server listens, and whether it offers the requests that need
/// a login.
#[derive(Debug)]
pub struct APIServer {
    pub full_address: String,
    pub use_auth_api: bool,
}

/// The mathematical content of an [`APIServer`].
pub struct APIServerView {
    pub full_address: Seq<char>,
    pub use_auth_api: bool,
}

impl View for APIServer {
    type V = APIServerView;

    open spec fn view(&self) -> APIServerView {
        APIServerView { full_address: self.full_address@, use_auth_api: self.use_auth_api }
    }
}

/// The address to listen on: `address`, or the default where it is empty;
/// a colon; `port` in decimal, or the default where it is `-1`.
pub open spec fn spec_full_address(address: Seq<char>, port: i32) -> Seq<char> {
    (if address.len() == 0 {
        DEFAULT_ADDRESS@
    } else {
        address
    }) + seq![':'] + (if port == -1 {
        decimal(DEFAULT_PORT as int)
    } else {
        decimal(port as int)
    })
}

impl APIServer {
    /// A server on `full_address` that offers every request.
    pub fn new_from_full_address(full_address: &String) -> (server: APIServer)
        ensures
            server@ == (APIServerView { full_address: full_address@, use_auth_api: true }),
    {
        APIServer { full_address: full_address.clone(), use_auth_api: true }
    }

    /// A server on `address` and `port` that offers every request. An
    /// empty address and the port `-1` stand for the defaults.
    pub fn new(address: &str, port: i32) -> (server: APIServer)
        ensures
            server@ == (APIServerView {
                full_address: spec_full_address(address@, port),
                use_auth_api: true,
            }),
    {
        let mut full_address = if address.is_empty() {
            DEFAULT_ADDRESS.to_owned()
        } else {
            address.to_owned()
        };
        push_char(&mut full_address, ':');
        let port_text = if port == -1 {
            to_decimal(DEFAULT_PORT as i64)
        } else {
            to_decimal(port as i64)
        };
        full_address.append(port_text.as_str());
        assert(full_address@ =~= spec_full_address(address@, port));
        APIServer::new_from_full_address(&full_address)
    }

    /// Turns off every request that needs a login, and with them every
    /// write.
    pub fn disable_auth_api(&mut self)
        ensures
            final(self)@ == (APIServerView { use_auth_api: false, ..old(self)@ }),
    {
        self.use_auth_api = false;
    }
}

} // verus!
