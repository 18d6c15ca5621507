use crate::entities::AccountObj;
use crate::error::Error;
use vstd::prelude::*;
use vstd::string::*;

verus! {

/// The pattern that finds the account number in a line that the picker
/// hands back.
pub const PICK_PATTERN: &'static str = ".+\\[nr: (?P<account_nr>\\w+)\\]";

/// The group of `PICK_PATTERN` that holds the account number.
pub const PICK_GROUP: &'static str = "account_nr";

/// What a regular expression finds: `None` where `pattern` does not compile;
/// else the text of the group named `group` in the first match in `text`,
/// `None` where there is no match or the group took no part in it.
pub uninterp spec fn regex_capture_of(pattern: Seq<char>, group: Seq<char>, text: Seq<char>) -> Option<
    Option<Seq<char>>,
>;

/// Relies on `regex::Regex::new`, `Regex::captures` and `Captures::name`:
/// the named group of the first match, or the reason the pattern does not
/// compile.
#[verifier::external_body]
fn capture_named(pattern: &str, group: &str, text: &str) -> (r: Result<Option<String>, String>)
    ensures
        match r {
            Ok(Some(t)) => regex_capture_of(pattern@, group@, text@) == Some(Some(t@)),
            Ok(None) => regex_capture_of(pattern@, group@, text@) == Some(None::<Seq<char>>),
            Err(_) => regex_capture_of(pattern@, group@, text@) is None,
        },
{
    let re = match regex::Regex::new(pattern) {
        Ok(re) => re,
        Err(e) => return Err(e.to_string()),
    };
    match re.captures(text) {
        Some(caps) => match caps.name(group) {
            Some(m) => Ok(Some(m.as_str().to_string())),
            None => Ok(None),
        },
        None => Ok(None),
    }
}

/// The line that the picker shows for an account.
pub open spec fn picker_line(a: AccountObj) -> Seq<char> {
    a.name@ + "\t\t[nr: "@ + a.account_number@ + "]\n"@
}

/// The picker's input: one line for each account, in order.
pub open spec fn picker_text(accounts: Seq<AccountObj>) -> Seq<char>
    decreases accounts.len(),
{
    if accounts.len() == 0 {
        Seq::empty()
    } else {
        picker_text(accounts.drop_last()) + picker_line(accounts.last())
    }
}

/// The text handed to the picker to choose among `accounts`.
pub fn picker_input(accounts: &Vec<AccountObj>) -> (r: String)
    ensures
        r@ == picker_text(accounts@),
{
    let mut out = String::new();
    let mut i: usize = 0;
    while i < accounts.len()
        invariant
            i <= accounts@.len(),
            out@ == picker_text(accounts@.subrange(0, i as int)),
        decreases accounts@.len() - i,
    {
        let a = &accounts[i];
        out = out.concat(a.name.as_str()).concat("\t\t[nr: ").concat(
            a.account_number.as_str(),
        ).concat("]\n");
        proof {
            assert(accounts@.subrange(0, i + 1).drop_last() =~= accounts@.subrange(0, i as int));
        }
        i = i + 1;
    }
    proof {
        assert(accounts@.subrange(0, accounts@.len() as int) =~= accounts@);
    }
    out
}

/// `i` is the first position in `accounts` of an account numbered `nr`.
pub open spec fn first_numbered(accounts: Seq<AccountObj>, nr: Seq<char>, i: int) -> bool {
    &&& 0 <= i < accounts.len()
    &&& accounts[i].account_number@ == nr
    &&& forall|j: int| 0 <= j < i ==> (#[trigger] accounts[j]).account_number@ != nr
}

/// The outcome of picking, out of the picker's answer `picked`, the first
/// account whose number the answer names.
pub open spec fn pick_outcome(accounts: Seq<AccountObj>, picked: Seq<char>, r: Result<
    &AccountObj,
    Error,
>) -> bool {
    match regex_capture_of(PICK_PATTERN@, PICK_GROUP@, picked) {
        None => r matches Err(Error::Regex(_)),
        Some(None) => r matches Err(Error::Message(_)),
        Some(Some(nr)) => if exists|i: int| first_numbered(accounts, nr, i) {
            r matches Ok(a) && exists|i: int| first_numbered(accounts, nr, i) && *a == accounts[i]
        } else {
            r matches Err(Error::NoAccountFound(_))
        },
    }
}

/// The account that the picker's answer names.
pub fn pick_account<'a>(accounts: &'a Vec<AccountObj>, picked: &str) -> (r: Result<
    &'a AccountObj,
    Error,
>)
    ensures
        pick_outcome(accounts@, picked@, r),
{
    let nr = match capture_named(PICK_PATTERN, PICK_GROUP, picked) {
        Err(e) => {
            return Err(Error::Regex(e));
        },
        Ok(None) => {
            return Err(Error::Message(String::from_str("couldn't find a capture")));
        },
        Ok(Some(nr)) => nr,
    };
    let mut i: usize = 0;
    while i < accounts.len()
        invariant
            i <= accounts@.len(),
            forall|j: int| 0 <= j < i ==> (#[trigger] accounts@[j]).account_number@ != nr@,
            regex_capture_of(PICK_PATTERN@, PICK_GROUP@, picked@) == Some(Some(nr@)),
        decreases accounts@.len() - i,
    {
        let a = &accounts[i];
        if a.account_number == nr {
            assert(first_numbered(accounts@, nr@, i as int) && *a == accounts@[i as int]);
            return Ok(a);
        }
        i = i + 1;
    }
    assert forall|k: int| !first_numbered(accounts@, nr@, k) by {
        if 0 <= k < accounts@.len() {
            assert(accounts@[k].account_number@ != nr@);
        }
    }
    Err(Error::NoAccountFound(String::from_str("Could not find an account")))
}

/// `i` is the first position in `accounts` of the account with id `id`.
pub open spec fn first_with_id(accounts: Seq<AccountObj>, id: Seq<char>, i: int) -> bool {
    &&& 0 <= i < accounts.len()
    &&& accounts[i].account_id@ == id
    &&& forall|j: int| 0 <= j < i ==> (#[trigger] accounts[j]).account_id@ != id
}

/// Removes the first account whose id is `account_id`; the list is left as
/// it is where there is none.
pub fn remove_account(accounts: &mut Vec<AccountObj>, account_id: &str)
    ensures
        (forall|k: int| !first_with_id(old(accounts)@, account_id@, k)) ==> final(accounts)@
            == old(accounts)@,
        forall|k: int|
            first_with_id(old(accounts)@, account_id@, k) ==> final(accounts)@ == old(
                accounts,
            )@.remove(k),
{
    let id = account_id.to_owned();
    let mut i: usize = 0;
    while i < accounts.len()
        invariant
            i <= accounts@.len(),
            forall|j: int| 0 <= j < i ==> (#[trigger] accounts@[j]).account_id@ != id@,
            id@ == account_id@,
            accounts@ == old(accounts)@,
        decreases accounts@.len() - i,
    {
        if accounts[i].account_id == id {
            proof {
                assert(first_with_id(accounts@, account_id@, i as int));
                assert forall|k: int| first_with_id(accounts@, account_id@, k) implies k
                    == i by {
                    if k < i {
                        assert(accounts@[k].account_id@ != id@);
                    } else if k > i {
                        assert(accounts@[i as int].account_id@ == account_id@);
                    }
                }
            }
            accounts.remove(i);
            return;
        }
        i = i + 1;
    }
    assert forall|k: int| !first_with_id(accounts@, account_id@, k) by {
        if 0 <= k < accounts@.len() {
            assert(accounts@[k].account_id@ != id@);
        }
    }
}

} // verus!
