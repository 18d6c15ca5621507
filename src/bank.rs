use crate::authorize::{request_headers, Authorize};
use crate::dates::{rfc3339_seconds, rfc3339_seconds_of};
use crate::decimal::{i32_decimal, int_text};
use crate::entities::AccessToken;
use crate::error::Error;
use crate::http::{pair, pairs_view, HttpRequest, Method, Pair, PairView};
use crate::transfer::TransferRequest;
use vstd::prelude::*;
use vstd::string::*;

verus! {

pub const ACCOUNTS_URL: &'static str = "https://api.sbanken.no/bank/api/v1/accounts";

pub const TRANSACTIONS_URL: &'static str = "https://api.sbanken.no/bank/api/v1/transactions";

pub const TRANSFERS_URL: &'static str = "https://api.sbanken.no/bank/api/v1/transfers";

/// The URL of one account.
pub open spec fn account_url(account: Seq<char>) -> Seq<char> {
    ACCOUNTS_URL@ + "/"@ + account + "/"@
}

/// The URL of the transactions of one account.
pub open spec fn transactions_url(account: Seq<char>) -> Seq<char> {
    TRANSACTIONS_URL@ + "/"@ + account
}

/// A validated transaction query: the window is in order and both of its
/// ends have their RFC 3339 texts, which are what is sent.
#[derive(Debug)]
pub struct TransactionQuery {
    pub account: String,
    pub length: i32,
    pub start_date: i64,
    pub end_date: i64,
    pub start_text: String,
    pub end_text: String,
}

impl TransactionQuery {
    /// A query for at most `length` transactions of `account` between two
    /// instants, inclusive. An end before the start, or an instant that has
    /// no RFC 3339 text, is a validation error; no request is made then.
    pub fn new(account: String, length: i32, start_date: i64, end_date: i64) -> (r: Result<
        TransactionQuery,
        Error,
    >)
        ensures
            end_date < start_date ==> r matches Err(Error::Validation(_)),
            start_date <= end_date ==> match (
                rfc3339_seconds_of(start_date as int),
                rfc3339_seconds_of(end_date as int),
            ) {
                (Some(s), Some(e)) => r matches Ok(q) && q.account == account && q.length
                    == length && q.start_date == start_date && q.end_date == end_date
                    && q.start_text@ == s && q.end_text@ == e,
                _ => r matches Err(Error::Validation(_)),
            },
    {
        if end_date < start_date {
            return Err(
                Error::Validation(String::from_str("end_date was earlier than start date")),
            );
        }
        let start_text = match rfc3339_seconds(start_date) {
            Some(t) => t,
            None => {
                return Err(Error::Validation(String::from_str("date out of range")));
            },
        };
        let end_text = match rfc3339_seconds(end_date) {
            Some(t) => t,
            None => {
                return Err(Error::Validation(String::from_str("date out of range")));
            },
        };
        Ok(TransactionQuery { account, length, start_date, end_date, start_text, end_text })
    }

    /// The query parameters that the query sends.
    pub open spec fn params(&self) -> Seq<PairView> {
        seq![
            ("length"@, int_text(self.length as int)),
            ("startDate"@, self.start_text@),
            ("endDate"@, self.end_text@),
        ]
    }
}

/// Requests to the account, transaction and transfer endpoints.
#[derive(Debug)]
pub struct BankAPI<'a> {
    pub authorize: &'a Authorize<'a>,
}

impl<'a> BankAPI<'a> {
    pub fn new(authorize: &'a Authorize<'a>) -> (r: BankAPI<'a>)
        ensures
            r.authorize == authorize,
    {
        BankAPI { authorize }
    }

    /// The customer id that every request carries.
    pub open spec fn customer_id(&self) -> Seq<char> {
        self.authorize.credentials.customer_id@
    }

    /// The request for the list of accounts.
    pub fn get_accounts(&self, token: &AccessToken) -> (r: HttpRequest)
        ensures
            r.method == Method::Get,
            r.url@ == ACCOUNTS_URL@,
            r.headers_view() == request_headers(
                Method::Get,
                token.access_token@,
                self.customer_id(),
            ),
            r.query@.len() == 0,
            r.basic_auth is None,
            r.body is None,
    {
        self.authorize.get_request(token, ACCOUNTS_URL.to_owned(), None)
    }

    /// The request for one account.
    pub fn get_account(&self, token: &AccessToken, account: &str) -> (r: HttpRequest)
        ensures
            r.method == Method::Get,
            r.url@ == account_url(account@),
            r.headers_view() == request_headers(
                Method::Get,
                token.access_token@,
                self.customer_id(),
            ),
            r.query@.len() == 0,
            r.basic_auth is None,
            r.body is None,
    {
        let url = String::from_str(ACCOUNTS_URL).concat("/").concat(account).concat("/");
        self.authorize.get_request(token, url, None)
    }

    /// The request for the transactions that `query` describes.
    pub fn get_transactions(&self, token: &AccessToken, query: &TransactionQuery) -> (r:
        HttpRequest)
        ensures
            r.method == Method::Get,
            r.url@ == transactions_url(query.account@),
            r.headers_view() == request_headers(
                Method::Get,
                token.access_token@,
                self.customer_id(),
            ),
            r.query_view() == query.params(),
            r.basic_auth is None,
            r.body is None,
    {
        let url = String::from_str(TRANSACTIONS_URL).concat("/").concat(query.account.as_str());
        let length = i32_decimal(query.length);
        let mut params: Vec<Pair> = Vec::new();
        params.push(Pair { name: String::from_str("length"), value: length });
        params.push(pair("startDate", query.start_text.as_str()));
        params.push(pair("endDate", query.end_text.as_str()));
        proof {
            assert(pairs_view(params@) =~= query.params());
        }
        self.authorize.get_request(token, url, Some(params))
    }

    /// The request that submits `transfer`, as its JSON body.
    pub fn post_transfer(&self, token: &AccessToken, transfer: &TransferRequest) -> (r:
        HttpRequest)
        ensures
            r.method == Method::Post,
            r.url@ == TRANSFERS_URL@,
            r.headers_view() == request_headers(
                Method::Post,
                token.access_token@,
                self.customer_id(),
            ),
            r.query@.len() == 0,
            r.basic_auth is None,
            r.body_view() == Some(transfer.json()),
    {
        let body = transfer.to_json();
        self.authorize.post_request(token, TRANSFERS_URL.to_owned(), body)
    }
}

} // verus!
