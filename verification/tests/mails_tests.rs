use mail_autoconfig::mails::check_address;
use mail_autoconfig::mails::get_mails;
use mail_autoconfig::mails::mails_from_pairs;
use mail_autoconfig::mails::Mailbox;
use mail_autoconfig::mails::QueryError;
use mail_autoconfig::mails::Refusal;

fn refused(error: email_address::Error, message: &str) -> QueryError {
    QueryError::InvalidEmail(Refusal { error, message: message.to_string() })
}

fn pair(key: &str, value: &str) -> (String, String) {
    (key.to_string(), value.to_string())
}

#[test]
fn addresses_of_the_domain_are_accepted_in_order() {
    assert_eq!(
        get_mails(Some("email=b@example.com&email=a@example.com"), "example.com"),
        Ok(vec!["b@example.com".to_string(), "a@example.com".to_string()])
    );
}

#[test]
fn query_values_are_decoded() {
    assert_eq!(
        get_mails(Some("email=first.last%40example.com"), "example.com"),
        Ok(vec!["first.last@example.com".to_string()])
    );
    assert_eq!(
        get_mails(Some("em%61il=a%2Bb@example.com"), "example.com"),
        Ok(vec!["a+b@example.com".to_string()])
    );
}

#[test]
fn empty_query_names_no_address() {
    assert_eq!(get_mails(Some(""), "example.com"), Ok(Vec::new()));
    assert_eq!(get_mails(Some("&&"), "example.com"), Ok(Vec::new()));
}

#[test]
fn missing_query_is_refused() {
    assert_eq!(get_mails(None, "example.com"), Err(QueryError::MissingQuery));
}

#[test]
fn other_keys_are_refused() {
    assert_eq!(
        get_mails(Some("mail=a@example.com"), "example.com"),
        Err(QueryError::UnexpectedKey)
    );
    assert_eq!(
        get_mails(Some("email=a@example.com&x=1"), "example.com"),
        Err(QueryError::UnexpectedKey)
    );
    assert_eq!(
        get_mails(Some("Email=a@example.com"), "example.com"),
        Err(QueryError::UnexpectedKey)
    );
}

#[test]
fn invalid_address_is_refused() {
    assert_eq!(
        get_mails(Some("email=nobody"), "example.com"),
        Err(refused(
            email_address::Error::MissingSeparator,
            "Missing separator character '@'."
        ))
    );
    assert_eq!(
        get_mails(Some("email=@example.com"), "example.com"),
        Err(refused(email_address::Error::LocalPartEmpty, "Local part is empty."))
    );
}

#[test]
fn address_of_another_domain_is_refused() {
    assert_eq!(
        get_mails(Some("email=user@other.com"), "example.com"),
        Err(QueryError::ForeignEmail("user@other.com".to_string()))
    );
}

#[test]
fn the_domain_must_match_exactly() {
    assert_eq!(
        get_mails(Some("email=user@mail.example.com"), "example.com"),
        Err(QueryError::ForeignEmail("user@mail.example.com".to_string()))
    );
    assert_eq!(
        get_mails(Some("email=user@EXAMPLE.com"), "example.com"),
        Err(QueryError::ForeignEmail("user@EXAMPLE.com".to_string()))
    );
}

#[test]
fn the_first_fault_decides() {
    assert_eq!(
        get_mails(
            Some("email=a@example.com&email=b@other.com&key=x&email=broken"),
            "example.com"
        ),
        Err(QueryError::ForeignEmail("b@other.com".to_string()))
    );
    assert_eq!(
        get_mails(Some("email=broken&email=b@other.com"), "example.com"),
        Err(refused(
            email_address::Error::MissingSeparator,
            "Missing separator character '@'."
        ))
    );
    assert_eq!(
        get_mails(Some("key=broken&email=b@other.com"), "example.com"),
        Err(QueryError::UnexpectedKey)
    );
}

#[test]
fn the_key_is_checked_before_the_value() {
    assert_eq!(
        get_mails(Some("key=broken"), "example.com"),
        Err(QueryError::UnexpectedKey)
    );
}

#[test]
fn pairs_are_checked_as_the_query_is() {
    let pairs = vec![pair("email", "a@example.com"), pair("email", "b@example.com")];
    assert_eq!(
        mails_from_pairs(&pairs, "example.com"),
        Ok(vec!["a@example.com".to_string(), "b@example.com".to_string()])
    );
    assert_eq!(mails_from_pairs(&Vec::new(), "example.com"), Ok(Vec::new()));
    let pairs = vec![pair("email", "a@example.com"), pair("other", "b@example.com")];
    assert_eq!(
        mails_from_pairs(&pairs, "example.com"),
        Err(QueryError::UnexpectedKey)
    );
}

#[test]
fn a_parsed_address_is_checked_against_the_domain() {
    let mailbox = Mailbox { address: "a@example.com".to_string(), domain: "example.com".to_string() };
    assert_eq!(
        check_address(Ok(mailbox.clone()), "example.com"),
        Ok("a@example.com".to_string())
    );
    assert_eq!(
        check_address(Ok(mailbox), "example.org"),
        Err(QueryError::ForeignEmail("a@example.com".to_string()))
    );
    let refusal = Refusal {
        error: email_address::Error::DomainEmpty,
        message: "Domain is empty.".to_string(),
    };
    assert_eq!(
        check_address(Err(refusal), "example.com"),
        Err(refused(email_address::Error::DomainEmpty, "Domain is empty."))
    );
}

#[test]
fn query_errors_have_their_messages() {
    assert_eq!(QueryError::MissingQuery.message(), "query missing");
    assert_eq!(
        QueryError::UnexpectedKey.message(),
        "only email query keys are allowed!"
    );
    assert_eq!(
        QueryError::ForeignEmail("user@other.com".to_string()).message(),
        "email user@other.com does not belong to this server"
    );
    assert_eq!(
        refused(
            email_address::Error::MissingSeparator,
            "Missing separator character '@'."
        )
        .message(),
        "Missing separator character '@'."
    );
}
