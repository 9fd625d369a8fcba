//! Pulling the one email address out of an Autodiscover request body.
//!
//! The body arrives as a stream of XML events. The extractor looks at one
//! event at a time and never sees the body as a whole: it first scans for the
//! start of an `EMailAddress` element, then gathers the text inside it until
//! the element ends. Input that breaks off is a stream that ends.

use crate::text::str_eq;
use vstd::prelude::*;

verus! {

/// One thing that a read of the XML parser yields before the stream ends.
#[derive(Clone, Debug, PartialEq, Eq)]
pub enum XmlEvent {
    /// The XML declaration.
    Declaration,
    /// The start of an element, with its local name.
    StartElement(String),
    /// The end of the innermost open element.
    EndElement,
    /// Character data.
    Text(String),
    /// The parser found the input not well-formed, and says why.
    Malformed(String),
    /// The input ended where the parser expected more.
    Truncated,
}

/// The mathematical value of an [`XmlEvent`].
pub enum XmlEventView {
    Declaration,
    StartElement(Seq<char>),
    EndElement,
    Text(Seq<char>),
    Malformed(Seq<char>),
    Truncated,
}

impl View for XmlEvent {
    type V = XmlEventView;

    open spec fn view(&self) -> XmlEventView {
        match self {
            XmlEvent::Declaration => XmlEventView::Declaration,
            XmlEvent::StartElement(name) => XmlEventView::StartElement(name@),
            XmlEvent::EndElement => XmlEventView::EndElement,
            XmlEvent::Text(text) => XmlEventView::Text(text@),
            XmlEvent::Malformed(reason) => XmlEventView::Malformed(reason@),
            XmlEvent::Truncated => XmlEventView::Truncated,
        }
    }
}

/// Why no email address came out of a request body.
#[derive(Clone, Debug, PartialEq, Eq)]
pub enum ExtractError {
    /// The stream ended before any `EMailAddress` element started, or the
    /// element held no text.
    NoEmailFound,
    /// An element with this name started inside `EMailAddress`.
    NestedElementNotAllowed(String),
    /// The stream ended inside `EMailAddress`.
    UnexpectedEof,
    /// The body is not well-formed XML.
    Malformed(String),
}

/// The mathematical value of an [`ExtractError`].
pub enum ExtractErrorView {
    NoEmailFound,
    NestedElementNotAllowed(Seq<char>),
    UnexpectedEof,
    Malformed(Seq<char>),
}

impl View for ExtractError {
    type V = ExtractErrorView;

    open spec fn view(&self) -> ExtractErrorView {
        match self {
            ExtractError::NoEmailFound => ExtractErrorView::NoEmailFound,
            ExtractError::NestedElementNotAllowed(name) => {
                ExtractErrorView::NestedElementNotAllowed(name@)
            },
            ExtractError::UnexpectedEof => ExtractErrorView::UnexpectedEof,
            ExtractError::Malformed(reason) => ExtractErrorView::Malformed(reason@),
        }
    }
}

/// The local name of the element that holds the address.
pub open spec fn address_element() -> Seq<char> {
    "EMailAddress"@
}

/// The views of a list of events, in order.
pub open spec fn event_views(events: Seq<XmlEvent>) -> Seq<XmlEventView> {
    Seq::new(events.len(), |i: int| events[i]@)
}

/// What the events after the start of `EMailAddress` give, when `gathered`
/// is the text seen inside the element so far.
pub open spec fn gather(events: Seq<XmlEventView>, gathered: Seq<char>) -> Result<
    Seq<char>,
    ExtractErrorView,
>
    decreases events.len(),
{
    if events.len() == 0 {
        Err(ExtractErrorView::UnexpectedEof)
    } else {
        match events[0] {
            XmlEventView::StartElement(name) => Err(
                ExtractErrorView::NestedElementNotAllowed(name),
            ),
            XmlEventView::EndElement => if gathered.len() == 0 {
                Err(ExtractErrorView::NoEmailFound)
            } else {
                Ok(gathered)
            },
            XmlEventView::Text(text) => gather(events.skip(1), gathered + text),
            XmlEventView::Declaration => gather(events.skip(1), gathered),
            XmlEventView::Malformed(reason) => Err(ExtractErrorView::Malformed(reason)),
            XmlEventView::Truncated => Err(ExtractErrorView::UnexpectedEof),
        }
    }
}

/// What a whole stream of events gives: everything before the first start of
/// an `EMailAddress` element is passed over, then the text inside it is
/// gathered.
pub open spec fn extract(events: Seq<XmlEventView>) -> Result<Seq<char>, ExtractErrorView>
    decreases events.len(),
{
    if events.len() == 0 {
        Err(ExtractErrorView::NoEmailFound)
    } else {
        match events[0] {
            XmlEventView::StartElement(name) => if name == address_element() {
                gather(events.skip(1), Seq::empty())
            } else {
                extract(events.skip(1))
            },
            XmlEventView::Malformed(reason) => Err(ExtractErrorView::Malformed(reason)),
            XmlEventView::Truncated => Err(ExtractErrorView::NoEmailFound),
            _ => extract(events.skip(1)),
        }
    }
}

/// The mathematical value of an extraction result.
pub open spec fn result_view(result: Result<String, ExtractError>) -> Result<
    Seq<char>,
    ExtractErrorView,
> {
    match result {
        Ok(email) => Ok(email@),
        Err(error) => Err(error@),
    }
}

/// The extractor between two events.
#[derive(Clone, Debug, PartialEq, Eq)]
pub struct EmailExtractor {
    inside: bool,
    gathered: String,
}

/// What the extractor does after one event.
#[derive(Debug, PartialEq, Eq)]
pub enum Progress {
    /// More events are needed.
    Pending(EmailExtractor),
    /// The extraction is over; no further event is read.
    Finished(Result<String, ExtractError>),
}

impl EmailExtractor {
    /// Whether the start of `EMailAddress` has been seen.
    pub closed spec fn is_inside(&self) -> bool {
        self.inside
    }

    /// The text gathered inside `EMailAddress` so far.
    pub closed spec fn gathered_text(&self) -> Seq<char> {
        self.gathered@
    }

    /// What this extractor gives when exactly `rest` is still to come.
    pub open spec fn outcome(&self, rest: Seq<XmlEventView>) -> Result<
        Seq<char>,
        ExtractErrorView,
    > {
        if self.is_inside() {
            gather(rest, self.gathered_text())
        } else {
            extract(rest)
        }
    }

    /// An extractor that has seen nothing yet.
    pub fn new() -> (fresh: EmailExtractor)
        ensures
            !fresh.is_inside(),
            fresh.gathered_text() == Seq::<char>::empty(),
    {
        EmailExtractor { inside: false, gathered: String::new() }
    }

    /// Takes the next event of the stream.
    ///
    /// Whatever follows the event, the extraction ends as it would have ended
    /// from this state with the event in front.
    pub fn feed(self, event: &XmlEvent) -> (progress: Progress)
        ensures
            match progress {
                Progress::Pending(next) => forall|rest: Seq<XmlEventView>|
                    #[trigger] next.outcome(rest) == self.outcome(seq![event@] + rest),
                Progress::Finished(result) => forall|rest: Seq<XmlEventView>|
                    result_view(result) == #[trigger] self.outcome(seq![event@] + rest),
            },
    {
        proof {
            assert forall|rest: Seq<XmlEventView>|
                (#[trigger] (seq![event@] + rest)).skip(1) == rest && (seq![event@] + rest)[0]
                    == event@ && (seq![event@] + rest).len() > 0 by {
                assert((seq![event@] + rest).skip(1) =~= rest);
            }
        }
        if self.inside {
            match event {
                XmlEvent::StartElement(name) => Progress::Finished(
                    Err(ExtractError::NestedElementNotAllowed(name.clone())),
                ),
                XmlEvent::EndElement => {
                    if self.gathered.as_str().unicode_len() == 0 {
                        Progress::Finished(Err(ExtractError::NoEmailFound))
                    } else {
                        Progress::Finished(Ok(self.gathered))
                    }
                },
                XmlEvent::Text(text) => {
                    let mut gathered = self.gathered;
                    gathered.append(text.as_str());
                    Progress::Pending(EmailExtractor { inside: true, gathered })
                },
                XmlEvent::Declaration => Progress::Pending(self),
                XmlEvent::Malformed(reason) => Progress::Finished(
                    Err(ExtractError::Malformed(reason.clone())),
                ),
                XmlEvent::Truncated => Progress::Finished(Err(ExtractError::UnexpectedEof)),
            }
        } else {
            match event {
                XmlEvent::StartElement(name) => {
                    if str_eq(name.as_str(), "EMailAddress") {
                        Progress::Pending(EmailExtractor { inside: true, gathered: String::new() })
                    } else {
                        Progress::Pending(self)
                    }
                },
                XmlEvent::Malformed(reason) => Progress::Finished(
                    Err(ExtractError::Malformed(reason.clone())),
                ),
                XmlEvent::Truncated => Progress::Finished(Err(ExtractError::NoEmailFound)),
                _ => Progress::Pending(self),
            }
        }
    }

    /// Ends the extraction where the stream ends before the extractor has
    /// finished.
    pub fn finish(self) -> (error: ExtractError)
        ensures
            Err::<Seq<char>, ExtractErrorView>(error@) == self.outcome(Seq::empty()),
            error@ == (if self.is_inside() {
                ExtractErrorView::UnexpectedEof
            } else {
                ExtractErrorView::NoEmailFound
            }),
    {
        if self.inside {
            ExtractError::UnexpectedEof
        } else {
            ExtractError::NoEmailFound
        }
    }
}

/// Extracts the email address from the events of a request body, read in
/// order up to the end of the stream.
pub fn get_email_from_request(events: &Vec<XmlEvent>) -> (result: Result<String, ExtractError>)
    ensures
        result_view(result) == extract(event_views(events@)),
{
    let ghost all = event_views(events@);
    let mut extractor = EmailExtractor::new();
    let mut i: usize = 0;
    proof {
        assert(all.skip(0) =~= all);
    }
    while i < events.len()
        invariant
            i <= events.len(),
            all == event_views(events@),
            extractor.outcome(all.skip(i as int)) == extract(all),
        decreases events.len() - i,
    {
        let ghost before = extractor;
        proof {
            assert(all.skip(i as int) =~= seq![events@[i as int]@] + all.skip(i + 1));
        }
        match extractor.feed(&events[i]) {
            Progress::Pending(next) => {
                proof {
                    assert(next.outcome(all.skip(i + 1)) == before.outcome(
                        seq![events@[i as int]@] + all.skip(i + 1),
                    ));
                }
                extractor = next;
            },
            Progress::Finished(result) => {
                proof {
                    assert(result_view(result) == before.outcome(
                        seq![events@[i as int]@] + all.skip(i + 1),
                    ));
                }
                return result;
            },
        }
        i = i + 1;
    }
    proof {
        assert(all.skip(i as int) =~= Seq::<XmlEventView>::empty());
    }
    Err(extractor.finish())
}

} // verus!
