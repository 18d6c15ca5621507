use crate::error::Error;
use vstd::prelude::*;
use vstd::string::*;

verus! {

/// A value that has a human-readable text form.
pub trait Render {
    spec fn rendered(&self) -> Seq<char>;

    fn render(&self) -> (r: String)
        ensures
            r@ == self.rendered(),
    ;
}

/// The text forms of `items`, each followed by `suffix`.
pub open spec fn joined<T: Render>(items: Seq<T>, suffix: Seq<char>) -> Seq<char>
    decreases items.len(),
{
    if items.len() == 0 {
        Seq::empty()
    } else {
        joined(items.drop_last(), suffix) + items.last().rendered() + suffix
    }
}

/// Renders each item, in order, each followed by `suffix`.
pub fn render_all<T: Render>(items: &Vec<T>, suffix: &str) -> (r: String)
    ensures
        r@ == joined(items@, suffix@),
{
    let mut out = String::new();
    let mut i: usize = 0;
    while i < items.len()
        invariant
            i <= items@.len(),
            out@ == joined(items@.subrange(0, i as int), suffix@),
        decreases items@.len() - i,
    {
        let piece = items[i].render();
        out = out.concat(piece.as_str());
        out = out.concat(suffix);
        proof {
            assert(items@.subrange(0, i + 1).drop_last() =~= items@.subrange(0, i as int));
        }
        i = i + 1;
    }
    proof {
        assert(items@.subrange(0, items@.len() as int) =~= items@);
    }
    out
}

/// An account as the server describes it. Amounts hold the decimal text of
/// the server's value.
#[derive(Debug)]
pub struct AccountObj {
    pub account_id: String,
    pub account_number: String,
    pub owner_customer_id: String,
    pub name: String,
    pub account_type: String,
    pub available: String,
    pub balance: String,
    pub credit_limit: String,
}

impl Render for AccountObj {
    open spec fn rendered(&self) -> Seq<char> {
        "Account Id:\t"@ + self.account_id@ + "\nAccount Nr:\t"@ + self.account_number@
            + "\nName:\t\t"@ + self.name@ + "\nType:\t\t"@ + self.account_type@
            + "\nAvailable:\t"@ + self.available@ + "\nBalance:\t"@ + self.balance@
    }

    fn render(&self) -> (r: String) {
        String::from_str("Account Id:\t").concat(self.account_id.as_str()).concat(
            "\nAccount Nr:\t",
        ).concat(self.account_number.as_str()).concat("\nName:\t\t").concat(
            self.name.as_str(),
        ).concat("\nType:\t\t").concat(self.account_type.as_str()).concat(
            "\nAvailable:\t",
        ).concat(self.available.as_str()).concat("\nBalance:\t").concat(self.balance.as_str())
    }
}

/// The envelope of a response that carries a list of items.
#[derive(Debug)]
pub struct MultipleItems<T> {
    pub available_items: i32,
    pub items: Vec<T>,
    pub error_type: Option<String>,
    pub is_error: bool,
    pub error_message: Option<String>,
    pub trace_id: Option<String>,
}

impl<T: Render> MultipleItems<T> {
    /// Every item's text, each followed by an empty line.
    pub open spec fn rendered(&self) -> Seq<char> {
        joined(self.items@, "\n\n"@)
    }

    pub fn render(&self) -> (r: String)
        ensures
            r@ == self.rendered(),
    {
        render_all(&self.items, "\n\n")
    }
}

/// The envelope of a response that carries one item.
#[derive(Debug)]
pub struct SingleItem<T> {
    pub item: T,
    pub error_type: Option<String>,
    pub error_message: Option<String>,
    pub is_error: bool,
    pub trace_id: Option<String>,
}

impl<T: Render> SingleItem<T> {
    pub open spec fn rendered(&self) -> Seq<char> {
        self.item.rendered()
    }

    pub fn render(&self) -> (r: String)
        ensures
            r@ == self.rendered(),
    {
        self.item.render()
    }
}

pub type Account = SingleItem<AccountObj>;

pub type Accounts = MultipleItems<AccountObj>;

/// A postal or street address; every line may be absent.
#[derive(Debug)]
pub struct AddressObj {
    pub address_line1: Option<String>,
    pub address_line2: Option<String>,
    pub address_line3: Option<String>,
    pub address_line4: Option<String>,
    pub country: Option<String>,
    pub zip_code: Option<String>,
    pub city: Option<String>,
}

#[derive(Debug)]
pub struct PhoneNumberObj {
    pub country_code: String,
    pub number: String,
}

impl Render for PhoneNumberObj {
    open spec fn rendered(&self) -> Seq<char> {
        "\t\t+"@ + self.country_code@ + " "@ + self.number@
    }

    fn render(&self) -> (r: String) {
        String::from_str("\t\t+").concat(self.country_code.as_str()).concat(" ").concat(
            self.number.as_str(),
        )
    }
}

#[derive(Debug)]
pub struct CustomerObj {
    pub customer_id: String,
    pub first_name: String,
    pub last_name: String,
    pub email_address: String,
    pub date_of_birth: String,
    pub postal_address: AddressObj,
    pub street_address: AddressObj,
    pub phone_numbers: Vec<PhoneNumberObj>,
}

impl Render for CustomerObj {
    open spec fn rendered(&self) -> Seq<char> {
        "First name:\t"@ + self.first_name@ + "\nLast name:\t"@ + self.last_name@
            + "\nEmail:\t\t"@ + self.email_address@ + "\nPhone numbers:\n"@
            + joined(self.phone_numbers@, "\n"@)
    }

    fn render(&self) -> (r: String) {
        let head = String::from_str("First name:\t").concat(self.first_name.as_str()).concat(
            "\nLast name:\t",
        ).concat(self.last_name.as_str()).concat("\nEmail:\t\t").concat(
            self.email_address.as_str(),
        ).concat("\nPhone numbers:\n");
        let numbers = render_all(&self.phone_numbers, "\n");
        head.concat(numbers.as_str())
    }
}

pub type Customer = SingleItem<CustomerObj>;

/// A bearer token handed out by the identity server.
#[derive(Debug)]
pub struct AccessToken {
    pub access_token: String,
    pub expires_in: i32,
    pub token_type: String,
}

/// Card details of a transaction. Amounts hold the decimal text of the
/// server's value.
#[derive(Debug)]
pub struct CardDetailsObj {
    pub card_number: String,
    pub currency_amount: String,
    pub currency_rate: String,
    pub merchant_category_code: String,
    pub merchant_category_description: String,
    pub merchant_city: String,
    pub merchant_name: String,
    pub original_currency_code: String,
    pub purchase_date: String,
    pub transaction_id: String,
}

/// A transaction on an account. The amount holds the decimal text of the
/// server's value.
#[derive(Debug)]
pub struct TransactionObj {
    pub accounting_date: String,
    pub interest_date: String,
    pub other_account_number_specified: bool,
    pub other_account_number: Option<String>,
    pub amount: String,
    pub text: String,
    pub transaction_type: String,
    pub transaction_type_code: i32,
    pub transaction_type_text: String,
    pub is_reservation: bool,
    pub reservation_type: Option<String>,
    pub card_details_specified: bool,
    pub card_details: Option<CardDetailsObj>,
    pub transaction_id: String,
}

/// An optional text as `Some("text")` or `None`.
pub open spec fn optional_text(o: Option<String>) -> Seq<char> {
    match o {
        Some(s) => "Some(\""@ + s@ + "\")"@,
        None => "None"@,
    }
}

pub fn render_optional(o: &Option<String>) -> (r: String)
    ensures
        r@ == optional_text(*o),
{
    match o {
        Some(s) => String::from_str("Some(\"").concat(s.as_str()).concat("\")"),
        None => String::from_str("None"),
    }
}

impl Render for TransactionObj {
    open spec fn rendered(&self) -> Seq<char> {
        "Accounting date:\t"@ + self.accounting_date@ + "\nInterest date:\t\t"@
            + self.interest_date@ + "\n"@ + (if self.other_account_number_specified {
            "Other account number:\t"@ + optional_text(self.other_account_number) + "\n"@
        } else {
            Seq::empty()
        }) + "Amount:\t\t\t"@ + self.amount@ + "\nDescription:\t\t"@ + self.text@
            + "\nReserved:\t\t"@ + (if self.is_reservation {
            "Yes"@
        } else {
            "No"@
        }) + "\nTransaction id:\t\t"@ + self.transaction_id@ + "\n"@
    }

    fn render(&self) -> (r: String) {
        let mut out = String::from_str("Accounting date:\t").concat(
            self.accounting_date.as_str(),
        ).concat("\nInterest date:\t\t").concat(self.interest_date.as_str()).concat("\n");
        if self.other_account_number_specified {
            let other = render_optional(&self.other_account_number);
            out = out.concat("Other account number:\t").concat(other.as_str()).concat("\n");
        }
        out = out.concat("Amount:\t\t\t").concat(self.amount.as_str()).concat(
            "\nDescription:\t\t",
        ).concat(self.text.as_str()).concat("\nReserved:\t\t");
        if self.is_reservation {
            out = out.concat("Yes");
        } else {
            out = out.concat("No");
        }
        out.concat("\nTransaction id:\t\t").concat(self.transaction_id.as_str()).concat("\n")
    }
}

pub type Transactions = MultipleItems<TransactionObj>;

/// The envelope of the answer to a transfer.
#[derive(Debug)]
pub struct TransferResponse {
    pub error_type: Option<String>,
    pub is_error: bool,
    pub error_message: Option<String>,
}

/// The message of a failure reported in an envelope: the server's message
/// where it gave a non-empty one, else `fallback`.
pub open spec fn failure_text(error_message: Option<String>, fallback: Seq<char>) -> Seq<char> {
    match error_message {
        Some(m) => if m@.len() > 0 {
            m@
        } else {
            fallback
        },
        None => fallback,
    }
}

/// `r` is the failure reported in an envelope whose message is `error_message`.
pub open spec fn is_remote_failure<T>(
    r: Result<T, Error>,
    error_message: Option<String>,
    fallback: Seq<char>,
) -> bool {
    r matches Err(Error::RemoteOperation(t)) && t@ == failure_text(error_message, fallback)
}

/// The error for a failure reported in an envelope.
pub fn remote_failure(error_message: &Option<String>, fallback: &str) -> (e: Error)
    ensures
        e matches Error::RemoteOperation(t) && t@ == failure_text(*error_message, fallback@),
{
    match error_message {
        Some(m) => if m.as_str().is_empty() {
            Error::RemoteOperation(fallback.to_owned())
        } else {
            Error::RemoteOperation(m.clone())
        },
        None => Error::RemoteOperation(fallback.to_owned()),
    }
}

/// The message used when the server reports a failure without saying why.
pub const UNEXPLAINED_FAILURE: &'static str = "the server reported an error";

/// The message used when a transfer fails without the server saying why.
pub const TRANSFER_FAILURE: &'static str = "couldn't perform your transfer";

impl<T> MultipleItems<T> {
    /// The envelope itself where it reports success; else the failure it
    /// reports, with the server's message.
    pub fn checked(self) -> (r: Result<MultipleItems<T>, Error>)
        ensures
            !self.is_error ==> r == Ok::<MultipleItems<T>, Error>(self),
            self.is_error ==> is_remote_failure(r, self.error_message, UNEXPLAINED_FAILURE@),
    {
        if self.is_error {
            Err(remote_failure(&self.error_message, UNEXPLAINED_FAILURE))
        } else {
            Ok(self)
        }
    }
}

impl<T> SingleItem<T> {
    /// The envelope itself where it reports success; else the failure it
    /// reports, with the server's message.
    pub fn checked(self) -> (r: Result<SingleItem<T>, Error>)
        ensures
            !self.is_error ==> r == Ok::<SingleItem<T>, Error>(self),
            self.is_error ==> is_remote_failure(r, self.error_message, UNEXPLAINED_FAILURE@),
    {
        if self.is_error {
            Err(remote_failure(&self.error_message, UNEXPLAINED_FAILURE))
        } else {
            Ok(self)
        }
    }
}

impl TransferResponse {
    /// Whether the transfer went through: a failure that the server reports
    /// is an error of its own, with the server's message.
    pub fn outcome(&self) -> (r: Result<(), Error>)
        ensures
            !self.is_error ==> r is Ok,
            self.is_error ==> is_remote_failure(r, self.error_message, TRANSFER_FAILURE@),
    {
        if self.is_error {
            Err(remote_failure(&self.error_message, TRANSFER_FAILURE))
        } else {
            Ok(())
        }
    }
}

} // verus!
