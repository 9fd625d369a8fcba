//! The addresses that a request for a signed profile names.
//!
//! The query of the request is a list of `email=` pairs. Every value has to
//! be a valid email address of the domain that the request resolved to. The
//! first pair that breaks a rule fails the whole request, before anything is
//! signed.

use crate::text::str_eq;
use crate::text::texts;
use email_address::EmailAddress;
use std::str::FromStr;
use vstd::prelude::*;
use vstd::string::StringExecFns;

verus! {

/// Why `email_address` refused a text.
#[verifier::external_type_specification]
#[verifier::external_body]
pub struct ExEmailError(email_address::Error);

/// The name and value pairs of a query, as `form_urlencoded::parse` decodes
/// them.
pub uninterp spec fn form_pairs(query: Seq<char>) -> Seq<(Seq<char>, Seq<char>)>;

/// Whether a text is a valid email address, as `EmailAddress::from_str`
/// decides.
pub uninterp spec fn email_is_valid(text: Seq<char>) -> bool;

/// The domain part of a valid email address, as `EmailAddress::domain` gives
/// it.
pub uninterp spec fn email_domain_part(text: Seq<char>) -> Seq<char>;

/// The words in which the address parser refuses a text that is no valid
/// email address: its error, printed.
pub uninterp spec fn email_refusal(text: Seq<char>) -> Seq<char>;

/// The views of a list of pairs, in order.
pub open spec fn pair_views(pairs: Seq<(String, String)>) -> Seq<(Seq<char>, Seq<char>)> {
    Seq::new(pairs.len(), |i: int| (pairs[i].0@, pairs[i].1@))
}

/// A parsed email address: its text and its domain part.
#[derive(Clone, Debug, PartialEq, Eq)]
pub struct Mailbox {
    pub address: String,
    pub domain: String,
}

/// What the address parser said of a text that it refused.
#[derive(Debug, PartialEq)]
pub struct Refusal {
    /// The parser's own error.
    pub error: email_address::Error,
    /// The error, printed.
    pub message: String,
}

/// Calls `form_urlencoded::parse` on the bytes of the query and collects the
/// decoded pairs.
///
/// Trusted: the pairs depend on the query alone; they are known here only by
/// the name [`form_pairs`].
#[verifier::external_body]
fn parse_query(query: &str) -> (pairs: Vec<(String, String)>)
    ensures
        pair_views(pairs@) == form_pairs(query@),
{
    form_urlencoded::parse(query.as_bytes()).into_owned().collect()
}

/// Calls `EmailAddress::from_str`. For a valid address it hands out the
/// address's text and what `EmailAddress::domain` gives; for any other text
/// the parser's error and what its `Display` prints.
///
/// Trusted: whether the text is valid depends on the text alone
/// ([`email_is_valid`]); a valid address prints as the very text it was
/// parsed from; its domain part depends on the text alone
/// ([`email_domain_part`]); so do the words of the error
/// ([`email_refusal`]).
#[verifier::external_body]
fn parse_email(text: &str) -> (parsed: Result<Mailbox, Refusal>)
    ensures
        parsed is Ok == email_is_valid(text@),
        parsed matches Ok(mailbox) ==> mailbox.address@ == text@ && mailbox.domain@
            == email_domain_part(text@),
        parsed matches Err(refusal) ==> refusal.message@ == email_refusal(text@),
{
    match EmailAddress::from_str(text) {
        Ok(email) => Ok(Mailbox { address: email.to_string(), domain: email.domain().to_string() }),
        Err(error) => Err(Refusal { message: error.to_string(), error }),
    }
}

/// Why the query of a request was refused.
#[derive(Debug, PartialEq)]
pub enum QueryError {
    /// The request has no query.
    MissingQuery,
    /// A pair has another name than `email`.
    UnexpectedKey,
    /// A value is no valid email address; the parser's refusal says why.
    InvalidEmail(Refusal),
    /// This address belongs to another domain.
    ForeignEmail(String),
}

/// The rule that a query broke: the mathematical value of a [`QueryError`].
pub enum QueryFault {
    MissingQuery,
    UnexpectedKey,
    /// With the words of the parser's refusal.
    InvalidEmail(Seq<char>),
    /// With the address.
    ForeignEmail(Seq<char>),
}

impl QueryFault {
    /// The message of the fault.
    pub open spec fn message(self) -> Seq<char> {
        match self {
            QueryFault::MissingQuery => "query missing"@,
            QueryFault::UnexpectedKey => "only email query keys are allowed!"@,
            QueryFault::InvalidEmail(words) => words,
            QueryFault::ForeignEmail(address) => "email "@ + address
                + " does not belong to this server"@,
        }
    }
}

impl QueryError {
    /// The rule that was broken.
    pub open spec fn fault(&self) -> QueryFault {
        match self {
            QueryError::MissingQuery => QueryFault::MissingQuery,
            QueryError::UnexpectedKey => QueryFault::UnexpectedKey,
            QueryError::InvalidEmail(refusal) => QueryFault::InvalidEmail(refusal.message@),
            QueryError::ForeignEmail(address) => QueryFault::ForeignEmail(address@),
        }
    }

    /// The message of this error. For an invalid address the words are those
    /// of the address parser.
    pub fn message(&self) -> (text: String)
        ensures
            text@ == self.fault().message(),
    {
        match self {
            QueryError::MissingQuery => "query missing".to_owned(),
            QueryError::UnexpectedKey => "only email query keys are allowed!".to_owned(),
            QueryError::InvalidEmail(refusal) => refusal.message.clone(),
            QueryError::ForeignEmail(address) => "email ".to_owned().concat(
                address.as_str(),
            ).concat(" does not belong to this server"),
        }
    }
}

/// The name that every pair of the query must have.
pub open spec fn email_key() -> Seq<char> {
    "email"@
}

/// What one pair of a query gives for a domain.
pub open spec fn check_pair(key: Seq<char>, value: Seq<char>, email_domain: Seq<char>) -> Result<
    Seq<char>,
    QueryFault,
> {
    if key != email_key() {
        Err(QueryFault::UnexpectedKey)
    } else if !email_is_valid(value) {
        Err(QueryFault::InvalidEmail(email_refusal(value)))
    } else if email_domain_part(value) != email_domain {
        Err(QueryFault::ForeignEmail(value))
    } else {
        Ok(value)
    }
}

/// What the pairs of a query give for a domain: the addresses in their
/// order, or the fault of the first pair that has one.
pub open spec fn check_pairs(pairs: Seq<(Seq<char>, Seq<char>)>, email_domain: Seq<char>) -> Result<
    Seq<Seq<char>>,
    QueryFault,
>
    decreases pairs.len(),
{
    if pairs.len() == 0 {
        Ok(Seq::empty())
    } else {
        match check_pairs(pairs.drop_last(), email_domain) {
            Err(fault) => Err(fault),
            Ok(addresses) => match check_pair(pairs.last().0, pairs.last().1, email_domain) {
                Ok(address) => Ok(addresses.push(address)),
                Err(fault) => Err(fault),
            },
        }
    }
}

/// What a request's query gives for a domain.
pub open spec fn mails_of(query: Option<Seq<char>>, email_domain: Seq<char>) -> Result<
    Seq<Seq<char>>,
    QueryFault,
> {
    match query {
        None => Err(QueryFault::MissingQuery),
        Some(text) => check_pairs(form_pairs(text), email_domain),
    }
}

/// The mathematical value of what [`get_mails`] returns.
pub open spec fn mails_view(mails: Result<Vec<String>, QueryError>) -> Result<
    Seq<Seq<char>>,
    QueryFault,
> {
    match mails {
        Ok(addresses) => Ok(texts(addresses@)),
        Err(error) => Err(error.fault()),
    }
}

/// Decides on one value of the query once the address parser has answered:
/// a refused value is invalid, with the parser's own refusal as the cause; a
/// valid address of another domain is foreign; and any other address is
/// accepted as it was written.
pub fn check_address(parsed: Result<Mailbox, Refusal>, email_domain: &str) -> (checked: Result<
    String,
    QueryError,
>)
    ensures
        parsed is Err <==> checked matches Err(QueryError::InvalidEmail(_)),
        parsed matches Err(refusal) ==> checked == Err::<String, QueryError>(
            QueryError::InvalidEmail(refusal),
        ),
        parsed matches Ok(mailbox) ==> (if mailbox.domain@ == email_domain@ {
            checked matches Ok(address) && address@ == mailbox.address@
        } else {
            checked matches Err(QueryError::ForeignEmail(address)) && address@
                == mailbox.address@
        }),
{
    match parsed {
        Err(refusal) => Err(QueryError::InvalidEmail(refusal)),
        Ok(mailbox) => {
            if str_eq(mailbox.domain.as_str(), email_domain) {
                Ok(mailbox.address)
            } else {
                Err(QueryError::ForeignEmail(mailbox.address))
            }
        },
    }
}

/// Checks the decoded pairs of a query against a domain.
pub fn mails_from_pairs(pairs: &Vec<(String, String)>, email_domain: &str) -> (mails: Result<
    Vec<String>,
    QueryError,
>)
    ensures
        mails_view(mails) == check_pairs(pair_views(pairs@), email_domain@),
{
    let ghost all = pair_views(pairs@);
    let mut emails: Vec<String> = Vec::new();
    let mut i: usize = 0;
    proof {
        assert(all.take(0) =~= Seq::<(Seq<char>, Seq<char>)>::empty());
        assert(texts(emails@) =~= Seq::<Seq<char>>::empty());
    }
    while i < pairs.len()
        invariant
            i <= pairs.len(),
            all == pair_views(pairs@),
            check_pairs(all.take(i as int), email_domain@) == Ok::<
                Seq<Seq<char>>,
                QueryFault,
            >(texts(emails@)),
        decreases pairs.len() - i,
    {
        let ghost before = texts(emails@);
        proof {
            assert(all.take(i + 1).drop_last() =~= all.take(i as int));
            assert(all.take(i + 1).last() == all[i as int]);
        }
        let key = pairs[i].0.as_str();
        let value = pairs[i].1.as_str();
        if !str_eq(key, "email") {
            proof {
                lemma_fault_stays(all, i + 1, email_domain@);
            }
            return Err(QueryError::UnexpectedKey);
        }
        match check_address(parse_email(value), email_domain) {
            Ok(address) => {
                emails.push(address);
                proof {
                    assert(texts(emails@) =~= before.push(value@));
                }
            },
            Err(error) => {
                proof {
                    lemma_fault_stays(all, i + 1, email_domain@);
                }
                return Err(error);
            },
        }
        i = i + 1;
    }
    proof {
        assert(all.take(i as int) =~= all);
    }
    Ok(emails)
}

/// A fault among the first pairs is the fault of the whole list.
pub proof fn lemma_fault_stays(
    pairs: Seq<(Seq<char>, Seq<char>)>,
    checked: int,
    email_domain: Seq<char>,
)
    requires
        0 <= checked <= pairs.len(),
        check_pairs(pairs.take(checked), email_domain) is Err,
    ensures
        check_pairs(pairs, email_domain) == check_pairs(pairs.take(checked), email_domain),
    decreases pairs.len() - checked,
{
    if checked == pairs.len() {
        assert(pairs.take(checked) =~= pairs);
    } else {
        assert(pairs.take(checked + 1).drop_last() =~= pairs.take(checked));
        lemma_fault_stays(pairs, checked + 1, email_domain);
    }
}

/// A list of pairs with a fault in any one pair is refused.
pub proof fn lemma_one_fault_fails_all(
    pairs: Seq<(Seq<char>, Seq<char>)>,
    at: int,
    email_domain: Seq<char>,
)
    requires
        0 <= at < pairs.len(),
        check_pair(pairs[at].0, pairs[at].1, email_domain) is Err,
    ensures
        check_pairs(pairs, email_domain) is Err,
{
    let upto = pairs.take(at + 1);
    assert(upto.last() == pairs[at]);
    assert(check_pairs(upto, email_domain) is Err);
    lemma_fault_stays(pairs, at + 1, email_domain);
}

/// Reads the addresses that a request names in its query and checks them
/// against the domain that the request resolved to.
pub fn get_mails(query: Option<&str>, email_domain: &str) -> (mails: Result<
    Vec<String>,
    QueryError,
>)
    ensures
        mails_view(mails) == mails_of(
            match query {
                Some(text) => Some(text@),
                None => None,
            },
            email_domain@,
        ),
{
    match query {
        None => Err(QueryError::MissingQuery),
        Some(text) => {
            let pairs = parse_query(text);
            mails_from_pairs(&pairs, email_domain)
        },
    }
}

} // verus!
