use crate::args::is_digit;
use crate::error::Error;
use vstd::prelude::*;
use vstd::string::*;

verus! {

/// The digits of an amount: one or more decimal digits, with at most one `.`
/// that has digits on both sides, and no leading zero before other digits.
pub open spec fn amount_digits(b: Seq<char>) -> bool {
    &&& b.len() > 0
    &&& is_digit(b[0])
    &&& is_digit(b[b.len() - 1])
    &&& forall|i: int| 0 <= i < b.len() ==> is_digit(#[trigger] b[i]) || b[i] == '.'
    &&& forall|i: int, j: int|
        0 <= i < j < b.len() && #[trigger] b[i] == '.' ==> #[trigger] b[j] != '.'
    &&& (b.len() > 1 && b[0] == '0' ==> b[1] == '.')
}

/// `s` is the text of an amount: an optional `-` followed by its digits.
/// Such a text is also a JSON number.
pub open spec fn is_amount_text(s: Seq<char>) -> bool {
    if s.len() > 0 && s[0] == '-' {
        amount_digits(s.drop_first())
    } else {
        amount_digits(s)
    }
}

fn check_amount_digits(b: &str) -> (ok: bool)
    ensures
        ok == amount_digits(b@),
{
    let n = b.unicode_len();
    if n == 0 {
        return false;
    }
    let mut dot: usize = n;
    let mut i: usize = 0;
    while i < n
        invariant
            n == b@.len(),
            i <= n,
            dot == n || dot < i,
            forall|k: int| 0 <= k < i ==> is_digit(#[trigger] b@[k]) || b@[k] == '.',
            dot == n ==> forall|k: int| 0 <= k < i ==> #[trigger] b@[k] != '.',
            dot < n ==> b@[dot as int] == '.',
            dot < n ==> forall|k: int| 0 <= k < i && k != dot ==> #[trigger] b@[k] != '.',
        decreases n - i,
    {
        let c = b.get_char(i);
        if c == '.' {
            if dot < n {
                assert(b@[dot as int] == '.' && b@[i as int] == '.');
                return false;
            }
            dot = i;
        } else if !('0' <= c && c <= '9') {
            assert(!(is_digit(b@[i as int]) || b@[i as int] == '.'));
            return false;
        }
        i = i + 1;
    }
    let first = b.get_char(0);
    let last = b.get_char(n - 1);
    if !('0' <= first && first <= '9' && '0' <= last && last <= '9') {
        return false;
    }
    if n > 1 && first == '0' && b.get_char(1) != '.' {
        return false;
    }
    true
}

/// Whether `s` is the text of an amount.
pub fn is_amount(s: &str) -> (ok: bool)
    ensures
        ok == is_amount_text(s@),
{
    let n = s.unicode_len();
    if n > 0 && s.get_char(0) == '-' {
        let rest = s.substring_char(1, n);
        assert(rest@ =~= s@.drop_first());
        check_amount_digits(rest)
    } else {
        check_amount_digits(s)
    }
}

/// The JSON string literal of a text: quoted, with the characters that JSON
/// requires escaped.
pub uninterp spec fn json_string_of(s: Seq<char>) -> Seq<char>;

/// Relies on `serde_json::to_string` on a `str`: its JSON string literal.
/// Serialising a `str` cannot fail.
#[verifier::external_body]
fn json_string(s: &str) -> (r: String)
    ensures
        r@ == json_string_of(s@),
{
    serde_json::to_string(s).unwrap_or_default()
}

/// `r` reports the missing argument `name`.
pub open spec fn is_argument_missing(r: Result<TransferRequest, Error>, name: Seq<char>) -> bool {
    r matches Err(Error::ArgumentMissing(n)) && n@ == name
}

/// The outcome of building a transfer from command-line arguments that may
/// be absent: the first missing one, in the order from, to, amount, message,
/// is reported; an amount that is not a decimal number is a parse error.
pub open spec fn transfer_args_outcome(
    from: Option<String>,
    to: Option<String>,
    amount: Option<String>,
    message: Option<String>,
    r: Result<TransferRequest, Error>,
) -> bool {
    match (from, to, amount, message) {
        (None, _, _, _) => is_argument_missing(r, "from"@),
        (Some(_), None, _, _) => is_argument_missing(r, "to"@),
        (Some(_), Some(_), None, _) => is_argument_missing(r, "amount"@),
        (Some(f), Some(t), Some(a), m) => if !is_amount_text(a@) {
            r matches Err(Error::Parsable(_))
        } else {
            match m {
                None => is_argument_missing(r, "message"@),
                Some(m) => r matches Ok(q) && q.from_account_id == f && q.to_account_id == t
                    && q.amount == a && q.message == m,
            }
        },
    }
}

/// A transfer between two accounts of the customer. The amount holds its
/// decimal text.
#[derive(Debug)]
pub struct TransferRequest {
    pub from_account_id: String,
    pub to_account_id: String,
    pub message: String,
    pub amount: String,
}

impl TransferRequest {
    /// The JSON body of the transfer, with its keys in camel case and the
    /// amount as the number it spells.
    pub open spec fn json(&self) -> Seq<char> {
        "{\"fromAccountId\":"@ + json_string_of(self.from_account_id@) + ",\"toAccountId\":"@
            + json_string_of(self.to_account_id@) + ",\"message\":"@ + json_string_of(
            self.message@,
        ) + ",\"amount\":"@ + self.amount@ + "}"@
    }

    /// A transfer; an amount that is not a decimal number is rejected.
    pub fn new(from_account_id: String, to_account_id: String, message: String, amount: String) -> (r:
        Result<TransferRequest, Error>)
        ensures
            is_amount_text(amount@) ==> (r matches Ok(t) && t.from_account_id == from_account_id
                && t.to_account_id == to_account_id && t.message == message && t.amount
                == amount),
            !is_amount_text(amount@) ==> r matches Err(Error::Parsable(_)),
    {
        if is_amount(amount.as_str()) {
            Ok(TransferRequest { from_account_id, to_account_id, message, amount })
        } else {
            Err(
                Error::Parsable(String::from_str("amount couldn't be parsed to a decimal value")),
            )
        }
    }

    /// A transfer from the command-line arguments; the first missing one, in
    /// the order from, to, amount, message, is reported.
    pub fn from_args(
        from: Option<String>,
        to: Option<String>,
        amount: Option<String>,
        message: Option<String>,
    ) -> (r: Result<TransferRequest, Error>)
        ensures
            transfer_args_outcome(from, to, amount, message, r),
    {
        let f = match from {
            Some(v) => v,
            None => {
                return Err(Error::ArgumentMissing(String::from_str("from")));
            },
        };
        let t = match to {
            Some(v) => v,
            None => {
                return Err(Error::ArgumentMissing(String::from_str("to")));
            },
        };
        let a = match amount {
            Some(v) => v,
            None => {
                return Err(Error::ArgumentMissing(String::from_str("amount")));
            },
        };
        if !is_amount(a.as_str()) {
            return Err(
                Error::Parsable(String::from_str("amount couldn't be parsed to a decimal value")),
            );
        }
        let m = match message {
            Some(v) => v,
            None => {
                return Err(Error::ArgumentMissing(String::from_str("message")));
            },
        };
        TransferRequest::new(f, t, m, a)
    }

    /// The JSON body of the transfer.
    pub fn to_json(&self) -> (r: String)
        ensures
            r@ == self.json(),
    {
        let from = json_string(self.from_account_id.as_str());
        let to = json_string(self.to_account_id.as_str());
        let message = json_string(self.message.as_str());
        String::from_str("{\"fromAccountId\":").concat(from.as_str()).concat(
            ",\"toAccountId\":",
        ).concat(to.as_str()).concat(",\"message\":").concat(message.as_str()).concat(
            ",\"amount\":",
        ).concat(self.amount.as_str()).concat("}")
    }
}

} // verus!
