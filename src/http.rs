use crate::decimal::{nat_decimal, nat_text};
use crate::error::Error;
use vstd::prelude::*;
use vstd::string::*;

verus! {

#[derive(PartialEq, Eq, Structural, Clone, Copy, Debug)]
pub enum Method {
    Get,
    Post,
}

/// A header, or a query parameter: a name and a value.
#[derive(Debug)]
pub struct Pair {
    pub name: String,
    pub value: String,
}

/// A name and a value as texts.
pub type PairView = (Seq<char>, Seq<char>);

/// The texts of a list of pairs.
pub open spec fn pairs_view(pairs: Seq<Pair>) -> Seq<PairView> {
    Seq::new(pairs.len(), |i: int| (pairs[i].name@, pairs[i].value@))
}

/// Username and password for HTTP Basic authentication.
#[derive(Debug)]
pub struct BasicAuth {
    pub username: String,
    pub password: String,
}

/// One HTTP request as it is to be sent: nothing in it is decided later.
#[derive(Debug)]
pub struct HttpRequest {
    pub method: Method,
    pub url: String,
    pub headers: Vec<Pair>,
    pub query: Vec<Pair>,
    pub basic_auth: Option<BasicAuth>,
    pub body: Option<String>,
}

impl HttpRequest {
    pub open spec fn headers_view(&self) -> Seq<PairView> {
        pairs_view(self.headers@)
    }

    pub open spec fn query_view(&self) -> Seq<PairView> {
        pairs_view(self.query@)
    }

    pub open spec fn body_view(&self) -> Option<Seq<char>> {
        match self.body {
            Some(b) => Some(b@),
            None => None,
        }
    }
}

/// Builds a pair from two texts.
pub fn pair(name: &str, value: &str) -> (r: Pair)
    ensures
        r.name@ == name@,
        r.value@ == value@,
{
    Pair { name: name.to_owned(), value: value.to_owned() }
}

/// `status` is a success status (2xx).
pub open spec fn is_success(status: u16) -> bool {
    200 <= status < 300
}

/// The message of the transport error for a non-success status.
pub open spec fn status_message(status: u16) -> Seq<char> {
    "the server answered with status "@ + nat_text(status as nat)
}

/// The outcome of a response status: a non-success status is a transport
/// error that names it.
pub fn check_status(status: u16) -> (r: Result<(), Error>)
    ensures
        is_success(status) ==> r is Ok,
        !is_success(status) ==> (r matches Err(Error::Transport(m)) && m@ == status_message(
            status,
        )),
{
    if 200 <= status && status < 300 {
        Ok(())
    } else {
        let code = nat_decimal(status as u32);
        Err(Error::Transport(String::from_str("the server answered with status ").concat(code.as_str())))
    }
}

} // verus!
