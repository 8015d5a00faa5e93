//! The server: the address it listens on, and what it answers before a
//! request reaches the router.
use crate::httprequest::{is_malformed, malformed};
use crate::httpresponse::{new_response, HttpResponse};
use vstd::prelude::*;

verus! {

/// A server that listens on one address.
pub struct Server<'a> {
    socket_addr: &'a str,
}

impl<'a> Server<'a> {
    /// The address of the server.
    pub closed spec fn address(&self) -> Seq<char> {
        self.socket_addr@
    }

    /// A server for the address `socket_addr`.
    pub fn new(socket_addr: &'a str) -> (s: Self)
        ensures
            s.address() == socket_addr@,
    {
        Server { socket_addr }
    }

    /// The answer to a text that holds a request line that cannot be read:
    /// that the request is bad. `None` for any other text.
    pub fn refuse(text: &str) -> (r: Option<HttpResponse<'static>>)
        ensures
            match r {
                Some(resp) => malformed(text@) && resp@ == new_response("400"@, None, None),
                None => !malformed(text@),
            },
    {
        if is_malformed(text) {
            Some(HttpResponse::new("400", None, None))
        } else {
            None
        }
    }

    /// The address that the server listens on.
    pub fn socket_addr(&self) -> (r: &'a str)
        ensures
            r@ == self.address(),
    {
        self.socket_addr
    }
}

} // verus!
