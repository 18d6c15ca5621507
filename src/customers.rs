use crate::authorize::{request_headers, Authorize};
use crate::entities::AccessToken;
use crate::http::{HttpRequest, Method};
use vstd::prelude::*;

verus! {

pub const CUSTOMERS_URL: &'static str = "https://api.sbanken.no/customers/api/v1/customers";

/// Requests to the customer endpoint.
#[derive(Debug)]
pub struct CustomersAPI<'a> {
    pub authorize: &'a Authorize<'a>,
}

impl<'a> CustomersAPI<'a> {
    pub fn new(authorize: &'a Authorize<'a>) -> (r: CustomersAPI<'a>)
        ensures
            r.authorize == authorize,
    {
        CustomersAPI { authorize }
    }

    /// The request for the customer's own record.
    pub fn get_customer(&self, token: &AccessToken) -> (r: HttpRequest)
        ensures
            r.method == Method::Get,
            r.url@ == CUSTOMERS_URL@,
            r.headers_view() == request_headers(
                Method::Get,
                token.access_token@,
                self.authorize.credentials.customer_id@,
            ),
            r.query@.len() == 0,
            r.basic_auth is None,
            r.body is None,
    {
        self.authorize.get_request(token, CUSTOMERS_URL.to_owned(), None)
    }
}

} // verus!
