use sbanken_cli::authorize::Authorize;
use sbanken_cli::bank::{BankAPI, TransactionQuery};
use sbanken_cli::credentials::Credentials;
use sbanken_cli::customers::CustomersAPI;
use sbanken_cli::entities::AccessToken;
use sbanken_cli::error::Error;
use sbanken_cli::http::{check_status, HttpRequest, Method, Pair};
use sbanken_cli::transfer::TransferRequest;

fn credentials() -> Credentials {
    Credentials::new("p@ss w".to_string(), "my id/1".to_string(), "01017012345".to_string())
}

fn token(text: &str) -> AccessToken {
    AccessToken { access_token: text.to_string(), expires_in: 3600, token_type: "Bearer".to_string() }
}

fn pairs(v: &[Pair]) -> Vec<(String, String)> {
    v.iter().map(|p| (p.name.clone(), p.value.clone())).collect()
}

fn header<'a>(r: &'a HttpRequest, name: &str) -> Vec<&'a str> {
    r.headers.iter().filter(|p| p.name == name).map(|p| p.value.as_str()).collect()
}

#[test]
fn credentials_new_keeps_fields() {
    let c = credentials();
    assert_eq!(c.secret, "p@ss w");
    assert_eq!(c.client_id, "my id/1");
    assert_eq!(c.customer_id, "01017012345");
}

#[test]
fn token_request_is_one_basic_authenticated_post() {
    let c = credentials();
    let auth = Authorize::new(&c);
    let r = auth.token_request();
    assert_eq!(r.method, Method::Post);
    assert_eq!(r.url, "https://api.sbanken.no/identityserver/connect/token");
    assert_eq!(r.body.as_deref(), Some("grant_type=client_credentials"));
    assert!(r.query.is_empty());
    let basic = r.basic_auth.as_ref().unwrap();
    assert_eq!(basic.username, "my+id%2F1");
    assert_eq!(basic.password, "p%40ss+w");
    assert_eq!(
        pairs(&r.headers),
        vec![
            ("User-Agent".to_string(), "sbanken-cli/0.3.0".to_string()),
            ("Accept".to_string(), "application/json".to_string()),
            ("Content-Type".to_string(), "application/x-www-form-urlencoded".to_string()),
        ]
    );
}

#[test]
fn token_from_success_response() {
    let t = Authorize::token_from_response(200, Ok(token("abc"))).unwrap();
    assert_eq!(t.access_token, "abc");
    assert_eq!(t.expires_in, 3600);
}

#[test]
fn token_from_server_error_is_transport_error() {
    let r = Authorize::token_from_response(500, Ok(token("abc")));
    match r {
        Err(Error::Transport(m)) => assert_eq!(m, "the server answered with status 500"),
        other => panic!("unexpected {:?}", other),
    }
    let r = Authorize::token_from_response(500, Err("not json".to_string()));
    assert!(matches!(r, Err(Error::Transport(_))));
}

#[test]
fn token_from_undecodable_body_is_decode_error() {
    let r = Authorize::token_from_response(200, Err("missing field `access_token`".to_string()));
    match r {
        Err(Error::Decode(m)) => assert_eq!(m, "missing field `access_token`"),
        other => panic!("unexpected {:?}", other),
    }
}

#[test]
fn check_status_accepts_only_success() {
    assert!(check_status(200).is_ok());
    assert!(check_status(204).is_ok());
    assert!(matches!(check_status(199), Err(Error::Transport(_))));
    assert!(matches!(check_status(302), Err(Error::Transport(_))));
    match check_status(404) {
        Err(Error::Transport(m)) => assert_eq!(m, "the server answered with status 404"),
        other => panic!("unexpected {:?}", other),
    }
    match check_status(0) {
        Err(Error::Transport(m)) => assert_eq!(m, "the server answered with status 0"),
        other => panic!("unexpected {:?}", other),
    }
}

#[test]
fn get_request_carries_bearer_token_and_customer_id() {
    let c = credentials();
    let auth = Authorize::new(&c);
    let r = auth.get_request(&token("tok-1"), "https://example.org/x".to_string(), None);
    assert_eq!(r.method, Method::Get);
    assert_eq!(r.url, "https://example.org/x");
    assert_eq!(header(&r, "Authorization"), vec!["Bearer tok-1"]);
    assert_eq!(header(&r, "Accept"), vec!["application/json"]);
    assert_eq!(header(&r, "customerId"), vec!["01017012345"]);
    assert_eq!(header(&r, "User-Agent"), vec!["sbanken-cli/0.3.0"]);
    assert!(r.basic_auth.is_none());
    assert!(r.body.is_none());
}

#[test]
fn post_request_carries_bearer_token_and_json_type() {
    let c = credentials();
    let auth = Authorize::new(&c);
    let r = auth.post_request(&token("tok-2"), "https://example.org/y".to_string(), "{}".to_string());
    assert_eq!(r.method, Method::Post);
    assert_eq!(header(&r, "Authorization"), vec!["Bearer tok-2"]);
    assert_eq!(header(&r, "Content-Type"), vec!["application/json"]);
    assert!(header(&r, "Accept").is_empty());
    assert_eq!(r.body.as_deref(), Some("{}"));
}

#[test]
fn construct_headers_in_order() {
    let c = credentials();
    let auth = Authorize::new(&c);
    let h = auth.construct_headers(Method::Get, "T");
    assert_eq!(
        pairs(&h),
        vec![
            ("User-Agent".to_string(), "sbanken-cli/0.3.0".to_string()),
            ("Accept".to_string(), "application/json".to_string()),
            ("Authorization".to_string(), "Bearer T".to_string()),
            ("customerId".to_string(), "01017012345".to_string()),
        ]
    );
}

#[test]
fn domain_requests_use_their_endpoints() {
    let c = credentials();
    let auth = Authorize::new(&c);
    let bank = BankAPI::new(&auth);
    let customers = CustomersAPI::new(&auth);
    let t = token("tok-3");
    let r = bank.get_accounts(&t);
    assert_eq!(r.url, "https://api.sbanken.no/bank/api/v1/accounts");
    assert_eq!(header(&r, "Authorization"), vec!["Bearer tok-3"]);
    let r = bank.get_account(&t, "97104133219");
    assert_eq!(r.url, "https://api.sbanken.no/bank/api/v1/accounts/97104133219/");
    assert_eq!(r.method, Method::Get);
    let r = customers.get_customer(&t);
    assert_eq!(r.url, "https://api.sbanken.no/customers/api/v1/customers");
    assert_eq!(header(&r, "Authorization"), vec!["Bearer tok-3"]);
}

#[test]
fn transaction_query_rejects_end_before_start() {
    let r = TransactionQuery::new("123".to_string(), 20, 1_600_000_000, 1_599_999_999);
    match r {
        Err(Error::Validation(m)) => assert_eq!(m, "end_date was earlier than start date"),
        other => panic!("unexpected {:?}", other),
    }
}

#[test]
fn transaction_query_out_of_range_is_validation_error() {
    let r = TransactionQuery::new("123".to_string(), 20, i64::MIN, 0);
    assert!(matches!(r, Err(Error::Validation(_))));
}

#[test]
fn get_transactions_sends_length_and_window() {
    let c = credentials();
    let auth = Authorize::new(&c);
    let bank = BankAPI::new(&auth);
    let q = TransactionQuery::new("123".to_string(), 20, 1_577_923_200, 1_578_095_999).unwrap();
    assert_eq!(q.start_text, "2020-01-02T00:00:00Z");
    assert_eq!(q.end_text, "2020-01-03T23:59:59Z");
    let r = bank.get_transactions(&token("tok-4"), &q);
    assert_eq!(r.url, "https://api.sbanken.no/bank/api/v1/transactions/123");
    assert_eq!(
        pairs(&r.query),
        vec![
            ("length".to_string(), "20".to_string()),
            ("startDate".to_string(), "2020-01-02T00:00:00Z".to_string()),
            ("endDate".to_string(), "2020-01-03T23:59:59Z".to_string()),
        ]
    );
    assert_eq!(header(&r, "Authorization"), vec!["Bearer tok-4"]);
}

#[test]
fn get_transactions_negative_length_text() {
    let c = credentials();
    let auth = Authorize::new(&c);
    let bank = BankAPI::new(&auth);
    let q = TransactionQuery::new("9".to_string(), -2147483648, 0, 0).unwrap();
    let r = bank.get_transactions(&token("t"), &q);
    assert_eq!(r.query[0].value, "-2147483648");
    assert_eq!(r.query[1].value, "1970-01-01T00:00:00Z");
}

#[test]
fn post_transfer_sends_json_body() {
    let c = credentials();
    let auth = Authorize::new(&c);
    let bank = BankAPI::new(&auth);
    let transfer = TransferRequest::new("A".to_string(), "B".to_string(), "rent".to_string(), "100.0".to_string())
        .unwrap();
    let r = bank.post_transfer(&token("tok-5"), &transfer);
    assert_eq!(r.method, Method::Post);
    assert_eq!(r.url, "https://api.sbanken.no/bank/api/v1/transfers");
    assert_eq!(
        r.body.as_deref(),
        Some("{\"fromAccountId\":\"A\",\"toAccountId\":\"B\",\"message\":\"rent\",\"amount\":100.0}")
    );
    assert_eq!(header(&r, "Authorization"), vec!["Bearer tok-5"]);
    assert_eq!(header(&r, "Content-Type"), vec!["application/json"]);
}
