use mail_autoconfig::util::get_email_from_request;
use mail_autoconfig::util::EmailExtractor;
use mail_autoconfig::util::ExtractError;
use mail_autoconfig::util::Progress;
use mail_autoconfig::util::XmlEvent;
use rxml::error::XmlError;
use rxml::EventRead;
use rxml::PullParser;
use rxml::ResolvedEvent;

/// Reads a whole body with the XML parser and hands its events on as the
/// library takes them.
fn events_of(body: &[u8]) -> Vec<XmlEvent> {
    let mut source = body;
    let mut parser = PullParser::new(&mut source);
    let mut events = Vec::new();
    loop {
        match parser.read() {
            Ok(Some(ResolvedEvent::XmlDeclaration(..))) => events.push(XmlEvent::Declaration),
            Ok(Some(ResolvedEvent::StartElement(_, (_, name), _))) => {
                events.push(XmlEvent::StartElement(name.as_str().to_string()))
            }
            Ok(Some(ResolvedEvent::EndElement(_))) => events.push(XmlEvent::EndElement),
            Ok(Some(ResolvedEvent::Text(_, text))) => {
                events.push(XmlEvent::Text(text.as_str().to_string()))
            }
            Ok(None) => break,
            Err(rxml::Error::Xml(XmlError::InvalidEof(_))) => {
                events.push(XmlEvent::Truncated);
                break;
            }
            Err(error) => {
                events.push(XmlEvent::Malformed(error.to_string()));
                break;
            }
        }
    }
    events
}

fn start(name: &str) -> XmlEvent {
    XmlEvent::StartElement(name.to_string())
}

fn text(content: &str) -> XmlEvent {
    XmlEvent::Text(content.to_string())
}

#[test]
fn extracts_the_address_of_a_request() {
    let body = b"<Autodiscover><Request><EMailAddress>a@b.com</EMailAddress></Request></Autodiscover>";
    assert_eq!(get_email_from_request(&events_of(body)), Ok("a@b.com".to_string()));
}

#[test]
fn extracts_the_address_after_a_declaration_and_other_elements() {
    let body = b"<?xml version='1.0'?><Autodiscover xmlns='urn:x'><Request><Schema>s</Schema><EMailAddress>user@example.com</EMailAddress></Request></Autodiscover>";
    assert_eq!(
        get_email_from_request(&events_of(body)),
        Ok("user@example.com".to_string())
    );
}

#[test]
fn nested_element_is_refused() {
    let body = b"<Autodiscover><EMailAddress><X/></EMailAddress></Autodiscover>";
    assert_eq!(
        get_email_from_request(&events_of(body)),
        Err(ExtractError::NestedElementNotAllowed("X".to_string()))
    );
}

#[test]
fn body_without_the_element_has_no_email() {
    let body = b"<Autodiscover><Request><Other>a@b.com</Other></Request></Autodiscover>";
    assert_eq!(
        get_email_from_request(&events_of(body)),
        Err(ExtractError::NoEmailFound)
    );
}

#[test]
fn truncated_body_ends_unexpectedly() {
    let body = b"<Autodiscover><Request><EMailAddress>a@b.c";
    assert_eq!(
        get_email_from_request(&events_of(body)),
        Err(ExtractError::UnexpectedEof)
    );
}

#[test]
fn truncated_body_before_the_element_has_no_email() {
    let body = b"<Autodiscover><Requ";
    assert_eq!(
        get_email_from_request(&events_of(body)),
        Err(ExtractError::NoEmailFound)
    );
}

#[test]
fn empty_element_has_no_email() {
    let body = b"<Autodiscover><EMailAddress></EMailAddress></Autodiscover>";
    assert_eq!(
        get_email_from_request(&events_of(body)),
        Err(ExtractError::NoEmailFound)
    );
}

#[test]
fn body_that_is_not_well_formed_is_malformed() {
    let body = b"<Autodiscover><Request></Autodiscover>";
    let result = get_email_from_request(&events_of(body));
    assert!(matches!(result, Err(ExtractError::Malformed(_))));
}

#[test]
fn no_events_give_no_email() {
    assert_eq!(get_email_from_request(&Vec::new()), Err(ExtractError::NoEmailFound));
}

#[test]
fn text_pieces_are_joined_in_order() {
    let events = vec![
        start("Autodiscover"),
        text("ignored"),
        start("EMailAddress"),
        text("a@"),
        XmlEvent::Declaration,
        text("b."),
        text("com"),
        XmlEvent::EndElement,
        text("after"),
    ];
    assert_eq!(get_email_from_request(&events), Ok("a@b.com".to_string()));
}

#[test]
fn events_after_the_end_are_not_read() {
    let events = vec![
        start("EMailAddress"),
        text("a@b.com"),
        XmlEvent::EndElement,
        XmlEvent::Malformed("late".to_string()),
    ];
    assert_eq!(get_email_from_request(&events), Ok("a@b.com".to_string()));
}

#[test]
fn the_element_name_is_matched_exactly() {
    let events = vec![
        start("emailaddress"),
        text("a@b.com"),
        XmlEvent::EndElement,
    ];
    assert_eq!(get_email_from_request(&events), Err(ExtractError::NoEmailFound));
}

#[test]
fn malformed_before_the_element_is_reported() {
    let events = vec![start("Autodiscover"), XmlEvent::Malformed("bad".to_string())];
    assert_eq!(
        get_email_from_request(&events),
        Err(ExtractError::Malformed("bad".to_string()))
    );
}

#[test]
fn malformed_inside_the_element_is_reported() {
    let events = vec![
        start("EMailAddress"),
        text("a@"),
        XmlEvent::Malformed("bad".to_string()),
    ];
    assert_eq!(
        get_email_from_request(&events),
        Err(ExtractError::Malformed("bad".to_string()))
    );
}

#[test]
fn truncated_input_counts_as_the_end_of_the_stream() {
    assert_eq!(
        get_email_from_request(&vec![start("Autodiscover"), XmlEvent::Truncated]),
        Err(ExtractError::NoEmailFound)
    );
    assert_eq!(
        get_email_from_request(&vec![
            start("EMailAddress"),
            text("a@b.com"),
            XmlEvent::Truncated,
            XmlEvent::EndElement,
        ]),
        Err(ExtractError::UnexpectedEof)
    );
    assert_eq!(
        EmailExtractor::new().feed(&XmlEvent::Truncated),
        Progress::Finished(Err(ExtractError::NoEmailFound))
    );
}

#[test]
fn stream_that_ends_inside_the_element_ends_unexpectedly() {
    let events = vec![start("EMailAddress"), text("a@b.com")];
    assert_eq!(get_email_from_request(&events), Err(ExtractError::UnexpectedEof));
}

#[test]
fn feeding_event_by_event_agrees_with_the_whole_stream() {
    let events = vec![
        start("Autodiscover"),
        start("EMailAddress"),
        text("a@b.com"),
        XmlEvent::EndElement,
        XmlEvent::EndElement,
    ];
    let mut extractor = EmailExtractor::new();
    let mut finished = None;
    for event in &events {
        match extractor.feed(event) {
            Progress::Pending(next) => extractor = next,
            Progress::Finished(result) => {
                finished = Some(result);
                break;
            }
        }
    }
    assert_eq!(finished, Some(get_email_from_request(&events)));
    assert_eq!(finished, Some(Ok("a@b.com".to_string())));
}

#[test]
fn finish_tells_where_the_stream_ended() {
    assert_eq!(EmailExtractor::new().finish(), ExtractError::NoEmailFound);
    let inside = match EmailExtractor::new().feed(&start("EMailAddress")) {
        Progress::Pending(next) => next,
        Progress::Finished(_) => panic!("the start of the element does not end the extraction"),
    };
    assert_eq!(inside.finish(), ExtractError::UnexpectedEof);
}

#[test]
fn extraction_errors_have_their_messages() {
    assert_eq!(
        ExtractError::NoEmailFound.message(),
        "no email found in request body"
    );
    assert_eq!(
        ExtractError::NestedElementNotAllowed("X".to_string()).message(),
        "No nested xml node X allowed inside EMailAddress"
    );
    assert_eq!(
        ExtractError::UnexpectedEof.message(),
        "EOF in the middle of EMailAddress"
    );
    assert_eq!(ExtractError::Malformed("why".to_string()).message(), "why");
}
