use crate::error::Error;
use vstd::prelude::*;
use vstd::string::*;

verus! {

/// The three secrets that identify the client and the customer.
#[derive(Debug)]
pub struct Credentials {
    pub secret: String,
    pub client_id: String,
    pub customer_id: String,
}

/// `r` is the error for the missing environment variable `name`.
pub open spec fn is_env_missing(r: Result<Credentials, Error>, name: Seq<char>) -> bool {
    r matches Err(Error::EnvMissing(n)) && n@ == name
}

/// The outcome of building credentials from three values that may be absent:
/// the first absent one, in the order secret, client id, customer id, is reported.
pub open spec fn credentials_outcome(
    secret: Option<String>,
    client_id: Option<String>,
    customer_id: Option<String>,
    r: Result<Credentials, Error>,
) -> bool {
    match (secret, client_id, customer_id) {
        (None, _, _) => is_env_missing(r, "SBANKEN_SECRET"@),
        (Some(_), None, _) => is_env_missing(r, "SBANKEN_CLIENT_ID"@),
        (Some(_), Some(_), None) => is_env_missing(r, "SBANKEN_CUSTOMER_ID"@),
        (Some(s), Some(i), Some(c)) => r matches Ok(k) && k.secret@ == s@ && k.client_id@ == i@
            && k.customer_id@ == c@,
    }
}

impl Credentials {
    pub fn new(secret: String, client_id: String, customer_id: String) -> (r: Credentials)
        ensures
            r.secret == secret,
            r.client_id == client_id,
            r.customer_id == customer_id,
    {
        Credentials { secret, client_id, customer_id }
    }

    /// Builds credentials from the values of the variables `SBANKEN_SECRET`,
    /// `SBANKEN_CLIENT_ID` and `SBANKEN_CUSTOMER_ID`; an absent one is a
    /// configuration error, reported before anything else is built.
    pub fn from_env_values(
        secret: Option<String>,
        client_id: Option<String>,
        customer_id: Option<String>,
    ) -> (r: Result<Credentials, Error>)
        ensures
            credentials_outcome(secret, client_id, customer_id, r),
    {
        match secret {
            None => Err(Error::EnvMissing(String::from_str("SBANKEN_SECRET"))),
            Some(s) => match client_id {
                None => Err(Error::EnvMissing(String::from_str("SBANKEN_CLIENT_ID"))),
                Some(i) => match customer_id {
                    None => Err(Error::EnvMissing(String::from_str("SBANKEN_CUSTOMER_ID"))),
                    Some(c) => Ok(Credentials::new(s, i, c)),
                },
            },
        }
    }
}

} // verus!
