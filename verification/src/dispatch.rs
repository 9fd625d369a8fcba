//! From a request to its answer.
//!
//! Answering a request alternates between decisions and work that is done
//! elsewhere: rendering a template, reading the request body. Each decision
//! is a function here. [`serve`] looks at the head of the request and says
//! what is to be done first; [`after_body`] goes on once the body was read,
//! [`after_render`] once the template was rendered.

use crate::certs::SignError;
use crate::certs::MAX_INPUT;
use crate::config::Domain;
use crate::config::DomainView;
use crate::global_state::GlobalStateData;
use crate::mails::check_pair;
use crate::mails::form_pairs;
use crate::mails::get_mails;
use crate::mails::lemma_one_fault_fails_all;
use crate::mails::mails_of;
use crate::mails::QueryError;
use crate::mails::QueryFault;
use crate::payload::is_random_uuid;
use crate::payload::Payload;
use crate::text::lowercased;
use crate::text::str_eq;
use crate::text::texts;
use crate::text::to_lowercase;
use crate::util::ExtractError;
use vstd::prelude::*;
use vstd::string::StringExecFns;
use vstd::utf8::encode_utf8;

verus! {

/// The status of an answer that carries a document.
pub const OK: u16 = 200;

/// The status of a request whose input was refused.
pub const BAD_REQUEST: u16 = 400;

/// The status of a request for a host that no domain declares.
pub const FORBIDDEN: u16 = 403;

/// The status of a request for a path that is no route.
pub const NOT_FOUND: u16 = 404;

/// The status of a request to a route with a method it does not take.
pub const METHOD_NOT_ALLOWED: u16 = 405;

/// The status of a request that failed inside the service.
pub const INTERNAL_SERVER_ERROR: u16 = 500;

/// The method of a request, as far as routes tell methods apart.
#[derive(Clone, Copy, Debug, PartialEq, Eq, Structural)]
pub enum Method {
    Get,
    Post,
    Other,
}

/// The routes of the service. The set is closed.
#[derive(Clone, Copy, Debug, PartialEq, Eq, Structural)]
pub enum Route {
    /// The landing page that offers the profile.
    GenerateProfile,
    /// The signed profile for Apple Mail.
    MobileConfig,
    /// The configuration for Thunderbird.
    ThunderbirdConfig,
    /// The answer to Microsoft Autodiscover.
    Autodiscover,
}

impl Route {
    /// The path of the route, in lower case.
    pub open spec fn path_spec(self) -> Seq<char> {
        match self {
            Route::GenerateProfile => "/generate_profile"@,
            Route::MobileConfig => "/email.mobileconfig"@,
            Route::ThunderbirdConfig => "/mail/config-v1.1.xml"@,
            Route::Autodiscover => "/autodiscover/autodiscover.xml"@,
        }
    }

    /// The one method that the route takes.
    pub open spec fn method_spec(self) -> Method {
        match self {
            Route::Autodiscover => Method::Post,
            _ => Method::Get,
        }
    }

    /// The name of the template that the route renders.
    pub open spec fn template_spec(self) -> Seq<char> {
        match self {
            Route::GenerateProfile => "apple_email.html"@,
            Route::MobileConfig => "apple_config.plist"@,
            Route::ThunderbirdConfig => "thunderbolt_config.xml"@,
            Route::Autodiscover => "microsoft_config.xml"@,
        }
    }

    /// The content type of the document that the route answers with.
    pub open spec fn content_type_spec(self) -> Seq<char> {
        match self {
            Route::GenerateProfile => "text/html"@,
            Route::MobileConfig => "application/pkcs7-mime; smime-type=signed-data; name=email.mobileconfig"@,
            Route::ThunderbirdConfig => "text/xml"@,
            Route::Autodiscover => "text/xml"@,
        }
    }

    /// The content disposition of the answer, for the route that has one.
    pub open spec fn content_disposition_spec(self) -> Option<Seq<char>> {
        match self {
            Route::MobileConfig => Some("attachment; filename=email.mobileconfig"@),
            _ => None,
        }
    }

    /// The path of the route, in lower case.
    pub fn path(&self) -> (path: &'static str)
        ensures
            path@ == self.path_spec(),
    {
        match self {
            Route::GenerateProfile => "/generate_profile",
            Route::MobileConfig => "/email.mobileconfig",
            Route::ThunderbirdConfig => "/mail/config-v1.1.xml",
            Route::Autodiscover => "/autodiscover/autodiscover.xml",
        }
    }

    /// The one method that the route takes.
    pub fn method(&self) -> (method: Method)
        ensures
            method == self.method_spec(),
    {
        match self {
            Route::Autodiscover => Method::Post,
            _ => Method::Get,
        }
    }

    /// The name of the template that the route renders.
    pub fn template(&self) -> (name: &'static str)
        ensures
            name@ == self.template_spec(),
    {
        match self {
            Route::GenerateProfile => "apple_email.html",
            Route::MobileConfig => "apple_config.plist",
            Route::ThunderbirdConfig => "thunderbolt_config.xml",
            Route::Autodiscover => "microsoft_config.xml",
        }
    }

    /// The content type of the document that the route answers with.
    pub fn content_type(&self) -> (content_type: &'static str)
        ensures
            content_type@ == self.content_type_spec(),
    {
        match self {
            Route::GenerateProfile => "text/html",
            Route::MobileConfig => "application/pkcs7-mime; smime-type=signed-data; name=email.mobileconfig",
            Route::ThunderbirdConfig => "text/xml",
            Route::Autodiscover => "text/xml",
        }
    }

    /// The content disposition of the answer, for the route that has one.
    pub fn content_disposition(&self) -> (disposition: Option<&'static str>)
        ensures
            match disposition {
                Some(text) => self.content_disposition_spec() == Some(text@),
                None => self.content_disposition_spec() is None,
            },
    {
        match self {
            Route::MobileConfig => Some("attachment; filename=email.mobileconfig"),
            _ => None,
        }
    }
}

/// The route with the given path, where the path is already in lower case.
pub open spec fn route_of(lowered_path: Seq<char>) -> Option<Route> {
    if lowered_path == Route::GenerateProfile.path_spec() {
        Some(Route::GenerateProfile)
    } else if lowered_path == Route::MobileConfig.path_spec() {
        Some(Route::MobileConfig)
    } else if lowered_path == Route::ThunderbirdConfig.path_spec() {
        Some(Route::ThunderbirdConfig)
    } else if lowered_path == Route::Autodiscover.path_spec() {
        Some(Route::Autodiscover)
    } else {
        None
    }
}

/// Finds the route of a path that is already in lower case.
pub fn find_route(lowered_path: &str) -> (route: Option<Route>)
    ensures
        route == route_of(lowered_path@),
{
    if str_eq(lowered_path, Route::GenerateProfile.path()) {
        Some(Route::GenerateProfile)
    } else if str_eq(lowered_path, Route::MobileConfig.path()) {
        Some(Route::MobileConfig)
    } else if str_eq(lowered_path, Route::ThunderbirdConfig.path()) {
        Some(Route::ThunderbirdConfig)
    } else if str_eq(lowered_path, Route::Autodiscover.path()) {
        Some(Route::Autodiscover)
    } else {
        None
    }
}

/// The head of a request: what the dispatcher reads of it.
#[derive(Clone, Debug, PartialEq, Eq)]
pub struct Request {
    /// The `Host` header, if the request has one that is text.
    pub host: Option<String>,
    /// The path of the request, in the case it was written in.
    pub path: String,
    pub method: Method,
    /// The query of the request, if it has one.
    pub query: Option<String>,
}

/// The mathematical value of a [`Request`].
pub struct RequestView {
    pub host: Option<Seq<char>>,
    pub path: Seq<char>,
    pub method: Method,
    pub query: Option<Seq<char>>,
}

impl View for Request {
    type V = RequestView;

    open spec fn view(&self) -> RequestView {
        RequestView {
            host: match self.host {
                Some(host) => Some(host@),
                None => None,
            },
            path: self.path@,
            method: self.method,
            query: match self.query {
                Some(query) => Some(query@),
                None => None,
            },
        }
    }
}

/// The body of an answer.
#[derive(Clone, Debug, PartialEq, Eq)]
pub enum Body {
    Empty,
    Text(String),
    Binary(Vec<u8>),
}

/// The mathematical value of a [`Body`].
pub enum BodyView {
    Empty,
    Text(Seq<char>),
    Binary(Seq<u8>),
}

impl View for Body {
    type V = BodyView;

    open spec fn view(&self) -> BodyView {
        match self {
            Body::Empty => BodyView::Empty,
            Body::Text(text) => BodyView::Text(text@),
            Body::Binary(bytes) => BodyView::Binary(bytes@),
        }
    }
}

/// An answer, ready to be sent.
#[derive(Clone, Debug, PartialEq, Eq)]
pub struct Response {
    pub status: u16,
    pub content_type: Option<String>,
    pub content_disposition: Option<String>,
    pub body: Body,
}

/// The mathematical value of a [`Response`].
pub struct ResponseView {
    pub status: u16,
    pub content_type: Option<Seq<char>>,
    pub content_disposition: Option<Seq<char>>,
    pub body: BodyView,
}

impl View for Response {
    type V = ResponseView;

    open spec fn view(&self) -> ResponseView {
        ResponseView {
            status: self.status,
            content_type: match self.content_type {
                Some(text) => Some(text@),
                None => None,
            },
            content_disposition: match self.content_disposition {
                Some(text) => Some(text@),
                None => None,
            },
            body: self.body@,
        }
    }
}

/// The answer that carries a status and nothing else.
pub open spec fn bare(status: u16) -> ResponseView {
    ResponseView { status, content_type: None, content_disposition: None, body: BodyView::Empty }
}

/// The answer to a request whose input was refused, with the reason as text.
pub open spec fn refusal(message: Seq<char>) -> ResponseView {
    ResponseView {
        status: BAD_REQUEST,
        content_type: None,
        content_disposition: None,
        body: BodyView::Text("Error: "@ + message),
    }
}

/// The answer that carries the document of a route.
pub open spec fn document(route: Route, body: BodyView) -> ResponseView {
    ResponseView {
        status: OK,
        content_type: Some(route.content_type_spec()),
        content_disposition: route.content_disposition_spec(),
        body,
    }
}

impl Response {
    /// Makes the answer that carries a status and nothing else.
    pub fn bare(status: u16) -> (response: Response)
        ensures
            response@ == bare(status),
    {
        Response { status, content_type: None, content_disposition: None, body: Body::Empty }
    }

    /// Makes the answer to a request whose input was refused.
    pub fn refusal(message: &str) -> (response: Response)
        ensures
            response@ == refusal(message@),
    {
        Response {
            status: BAD_REQUEST,
            content_type: None,
            content_disposition: None,
            body: Body::Text(String::from_str("Error: ").concat(message)),
        }
    }

    /// Makes the answer that carries the document of a route.
    pub fn document(route: Route, body: Body) -> (response: Response)
        ensures
            response@ == document(route, body@),
    {
        let content_disposition = match route.content_disposition() {
            Some(text) => Some(String::from_str(text)),
            None => None,
        };
        Response {
            status: OK,
            content_type: Some(String::from_str(route.content_type())),
            content_disposition,
            body,
        }
    }
}

/// What a template is rendered from, beside the domain.
#[derive(Clone, Debug, PartialEq, Eq)]
pub struct RenderJob {
    /// The position of the domain in the snapshot's domain list.
    pub domain: usize,
    /// The route that is answered; it names the template.
    pub route: Route,
    /// The address that the request body named, for Autodiscover.
    pub email: Option<String>,
    /// The umbrella payload, for the signed profile.
    pub plist_payload: Option<Payload>,
    /// One mail account payload for every address of the query, for the
    /// signed profile. No address occurs twice.
    pub payloads: Vec<(String, Payload)>,
}

/// What is to be done next for a request.
#[derive(Clone, Debug, PartialEq, Eq)]
pub enum Action {
    /// Send this answer; the request is done.
    Respond(Response),
    /// Render the template of the job, then go on with [`after_render`].
    Render(RenderJob),
    /// Extract the address from the request body, then go on with
    /// [`after_body`]. The domain is given by its position.
    ReadBody { domain: usize },
}

/// What the head of a request asks for.
pub enum Plan {
    /// The request has no usable `Host` header.
    MissingHost,
    /// No domain declares the host.
    Forbidden,
    /// The path is no route.
    NotFound,
    /// The route does not take the method.
    MethodNotAllowed,
    /// The query broke a rule.
    BadRequest(QueryFault),
    /// A page is rendered from the domain alone.
    Page { domain: usize, route: Route },
    /// A profile for these addresses is rendered and signed.
    Profile { domain: usize, emails: Seq<Seq<char>> },
    /// The body is read for the address.
    ReadBody { domain: usize },
}

/// What the head of a request asks for, in a snapshot, once its path is in
/// lower case.
pub open spec fn plan_for_path(
    state: GlobalStateData,
    request: RequestView,
    lowered_path: Seq<char>,
) -> Plan {
    match request.host {
        None => Plan::MissingHost,
        Some(header) => match state.resolve_spec(header) {
            None => Plan::Forbidden,
            Some(domain) => match route_of(lowered_path) {
                None => Plan::NotFound,
                Some(route) => if request.method != route.method_spec() {
                    Plan::MethodNotAllowed
                } else {
                    match route {
                        Route::MobileConfig => match mails_of(
                            request.query,
                            state.config_view().domains[domain as int].email_domain,
                        ) {
                            Err(fault) => Plan::BadRequest(fault),
                            Ok(emails) => Plan::Profile { domain, emails },
                        },
                        Route::Autodiscover => Plan::ReadBody { domain },
                        _ => Plan::Page { domain, route },
                    }
                },
            },
        },
    }
}

/// What the head of a request asks for, in a snapshot. Paths are matched
/// without regard to case.
pub open spec fn plan_of(state: GlobalStateData, request: RequestView) -> Plan {
    plan_for_path(state, request, lowercased(request.path))
}

/// The addresses of a list without repetition, each where it first occurs.
pub open spec fn distinct(emails: Seq<Seq<char>>) -> Seq<Seq<char>>
    decreases emails.len(),
{
    if emails.len() == 0 {
        Seq::empty()
    } else {
        let before = distinct(emails.drop_last());
        if before.contains(emails.last()) {
            before
        } else {
            before.push(emails.last())
        }
    }
}

/// The addresses of a list of account payloads, in order.
pub open spec fn payload_keys(payloads: Seq<(String, Payload)>) -> Seq<Seq<char>> {
    Seq::new(payloads.len(), |i: int| payloads[i].0@)
}

/// The message of the answer to a request without a usable `Host` header.
pub open spec fn missing_host_message() -> Seq<char> {
    "host header missing or invalid"@
}

/// Whether no text of a list occurs twice in it.
pub open spec fn no_repeats(texts: Seq<Seq<char>>) -> bool {
    forall|i: int, j: int| 0 <= i < j < texts.len() ==> texts[i] != texts[j]
}

/// What `distinct` gives holds no text twice, and holds the texts of the list
/// and no others.
pub proof fn distinct_has_no_repeats(emails: Seq<Seq<char>>)
    ensures
        no_repeats(distinct(emails)),
        forall|email: Seq<char>| distinct(emails).contains(email) <==> emails.contains(email),
    decreases emails.len(),
{
    if emails.len() > 0 {
        let shorter = emails.drop_last();
        let before = distinct(shorter);
        distinct_has_no_repeats(shorter);
        assert forall|email: Seq<char>| distinct(emails).contains(email) <==> emails.contains(
            email,
        ) by {
            if emails.contains(email) {
                let at = choose|at: int| 0 <= at < emails.len() && emails[at] == email;
                if at < emails.len() - 1 {
                    assert(shorter[at] == email);
                    assert(shorter.contains(email));
                    assert(before.contains(email));
                    let found = choose|found: int| 0 <= found < before.len() && before[found]
                        == email;
                    assert(distinct(emails)[found] == email);
                } else if before.contains(email) {
                    let found = choose|found: int| 0 <= found < before.len() && before[found]
                        == email;
                    assert(distinct(emails)[found] == email);
                } else {
                    assert(distinct(emails)[before.len() as int] == email);
                }
            }
            if distinct(emails).contains(email) {
                let found = choose|found: int| 0 <= found < distinct(emails).len() && distinct(
                    emails,
                )[found] == email;
                if found < before.len() {
                    assert(before[found] == email);
                    assert(before.contains(email));
                    assert(shorter.contains(email));
                    let at = choose|at: int| 0 <= at < shorter.len() && shorter[at] == email;
                    assert(emails[at] == email);
                } else {
                    assert(emails[emails.len() - 1] == email);
                }
            }
        }
        if !before.contains(emails.last()) {
            assert forall|i: int, j: int| 0 <= i < j < distinct(emails).len() implies distinct(
                emails,
            )[i] != distinct(emails)[j] by {
                if j == before.len() {
                    assert(before.contains(before[i]));
                }
            }
        }
    }
}

impl RenderJob {
    /// Whether this job renders a page of `route` from the domain alone.
    pub open spec fn is_page(&self, domain: usize, route: Route) -> bool {
        &&& self.domain == domain
        &&& self.route == route
        &&& self.email is None
        &&& self.plist_payload is None
        &&& self.payloads@.len() == 0
    }

    /// Whether this job renders the profile of the domain at `domain` for
    /// `emails`: it holds the umbrella payload of the domain and, for every
    /// distinct address, one account payload of the domain, each with a
    /// random identifier number of its own.
    pub open spec fn is_profile(
        &self,
        domain: usize,
        domain_view: DomainView,
        emails: Seq<Seq<char>>,
    ) -> bool {
        &&& self.domain == domain
        &&& self.route == Route::MobileConfig
        &&& self.email is None
        &&& self.plist_payload matches Some(umbrella)
        &&& is_random_uuid(umbrella.uuid)
        &&& umbrella@ == Payload::plist_spec(domain_view, umbrella.uuid)
        &&& payload_keys(self.payloads@) == distinct(emails)
        &&& no_repeats(payload_keys(self.payloads@))
        &&& forall|i: int|
            0 <= i < self.payloads@.len() ==> is_random_uuid((#[trigger] self.payloads@[i]).1.uuid)
                && self.payloads@[i].1@ == Payload::domain_spec(
                domain_view,
                self.payloads@[i].1.uuid,
            )
    }

    /// Whether this job renders the Autodiscover answer for `email`.
    pub open spec fn is_autodiscover(&self, domain: usize, email: Seq<char>) -> bool {
        &&& self.domain == domain
        &&& self.route == Route::Autodiscover
        &&& self.email matches Some(text)
        &&& text@ == email
        &&& self.plist_payload is None
        &&& self.payloads@.len() == 0
    }
}

impl Action {
    /// Whether this action is an answer with the given status.
    pub open spec fn answers_with(&self, status: u16) -> bool {
        *self matches Action::Respond(response) && response.status == status
    }

    /// Whether this action carries out a plan, in a snapshot.
    pub open spec fn carries_out(&self, plan: Plan, state: GlobalStateData) -> bool {
        match plan {
            Plan::MissingHost => *self matches Action::Respond(response) && response@
                == refusal(missing_host_message()),
            Plan::Forbidden => *self matches Action::Respond(response) && response@ == bare(
                FORBIDDEN,
            ),
            Plan::NotFound => *self matches Action::Respond(response) && response@ == bare(
                NOT_FOUND,
            ),
            Plan::MethodNotAllowed => *self matches Action::Respond(response) && response@
                == bare(METHOD_NOT_ALLOWED),
            Plan::BadRequest(fault) => *self matches Action::Respond(response) && response@
                == refusal(fault.message()),
            Plan::Page { domain, route } => *self matches Action::Render(job) && job.is_page(
                domain,
                route,
            ),
            Plan::Profile { domain, emails } => *self matches Action::Render(job)
                && job.is_profile(domain, state.config_view().domains[domain as int], emails),
            Plan::ReadBody { domain } => *self matches Action::ReadBody { domain: position }
                && position == domain,
        }
    }
}

/// Whether `email` is the address of one of the account payloads.
fn has_payload(payloads: &Vec<(String, Payload)>, email: &String) -> (found: bool)
    ensures
        found == payload_keys(payloads@).contains(email@),
{
    let mut i: usize = 0;
    while i < payloads.len()
        invariant
            i <= payloads.len(),
            forall|k: int| 0 <= k < i ==> payload_keys(payloads@)[k] != email@,
        decreases payloads.len() - i,
    {
        if payloads[i].0 == *email {
            assert(payload_keys(payloads@)[i as int] == email@);
            return true;
        }
        i = i + 1;
    }
    false
}

/// Makes the job that renders the profile of a domain for the addresses of a
/// request: the umbrella payload and one account payload for every distinct
/// address, each with a fresh identifier number.
pub fn profile_job(position: usize, domain: &Domain, emails: Vec<String>) -> (job: RenderJob)
    ensures
        job.is_profile(position, domain@, texts(emails@)),
{
    let ghost all = texts(emails@);
    let umbrella = Payload::new_plist(domain);
    let mut payloads: Vec<(String, Payload)> = Vec::new();
    proof {
        assert(all.take(0) =~= Seq::<Seq<char>>::empty());
        assert(payload_keys(payloads@) =~= Seq::<Seq<char>>::empty());
    }
    let count = emails.len();
    let mut i: usize = 0;
    for email in it: emails
        invariant
            i == it.index(),
            i <= count,
            count == all.len(),
            texts(it.seq()) == all,
            payload_keys(payloads@) == distinct(all.take(i as int)),
            forall|k: int|
                0 <= k < payloads@.len() ==> is_random_uuid((#[trigger] payloads@[k]).1.uuid)
                    && payloads@[k].1@ == Payload::domain_spec(domain@, payloads@[k].1.uuid),
    {
        let ghost before = payload_keys(payloads@);
        proof {
            assert(all.take(i + 1).drop_last() =~= all.take(i as int));
            assert(all.take(i + 1).last() == email@);
        }
        if !has_payload(&payloads, &email) {
            let payload = Payload::new_domain(domain);
            payloads.push((email, payload));
            proof {
                assert(payload_keys(payloads@) =~= before.push(email@));
            }
        }
        i = i + 1;
    }
    proof {
        assert(all.take(i as int) =~= all);
        distinct_has_no_repeats(all);
    }
    RenderJob {
        domain: position,
        route: Route::MobileConfig,
        email: None,
        plist_payload: Some(umbrella),
        payloads,
    }
}

/// Turns a refused query into its answer: the cause, as text.
pub fn refuse_query(error: &QueryError) -> (response: Response)
    ensures
        response@ == refusal(error.fault().message()),
{
    let message = error.message();
    Response::refusal(message.as_str())
}

/// Decides what is to be done for a request whose path was put in lower
/// case.
pub fn serve_path(state: &GlobalStateData, request: &Request, lowered_path: &str) -> (action:
    Action)
    ensures
        action.carries_out(plan_for_path(*state, request@, lowered_path@), *state),
{
    let header = match &request.host {
        Some(header) => header,
        None => {
            return Action::Respond(Response::refusal("host header missing or invalid"));
        },
    };
    let (position, domain) = match state.resolve_domain(header.as_str()) {
        Some(found) => found,
        None => {
            return Action::Respond(Response::bare(FORBIDDEN));
        },
    };
    let route = match find_route(lowered_path) {
        Some(route) => route,
        None => {
            return Action::Respond(Response::bare(NOT_FOUND));
        },
    };
    if request.method != route.method() {
        return Action::Respond(Response::bare(METHOD_NOT_ALLOWED));
    }
    match route {
        Route::MobileConfig => {
            let query = match &request.query {
                Some(query) => Some(query.as_str()),
                None => None,
            };
            match get_mails(query, domain.email_domain.as_str()) {
                Ok(emails) => Action::Render(profile_job(position, domain, emails)),
                Err(error) => Action::Respond(refuse_query(&error)),
            }
        },
        Route::Autodiscover => Action::ReadBody { domain: position },
        _ => Action::Render(
            RenderJob {
                domain: position,
                route,
                email: None,
                plist_payload: None,
                payloads: Vec::new(),
            },
        ),
    }
}

/// Decides what is to be done for a request, from its head alone.
///
/// A request without a usable `Host` header is refused with a message that
/// says so. A host that no domain of the snapshot declares is forbidden; then
/// a path that is no route is not found; then a method that the route does
/// not take is not allowed. A query that breaks a rule is refused, with the
/// cause as text, before anything is rendered or signed.
pub fn serve(state: &GlobalStateData, request: &Request) -> (action: Action)
    ensures
        action.carries_out(plan_of(*state, request@), *state),
{
    let lowered = to_lowercase(request.path.as_str());
    serve_path(state, request, lowered.as_str())
}

impl ExtractError {
    /// The message of this error, for the errors whose text is this
    /// library's own.
    pub open spec fn message_spec(&self) -> Seq<char> {
        match self {
            ExtractError::NoEmailFound => "no email found in request body"@,
            ExtractError::NestedElementNotAllowed(name) => "No nested xml node "@ + name@
                + " allowed inside EMailAddress"@,
            ExtractError::UnexpectedEof => "EOF in the middle of EMailAddress"@,
            ExtractError::Malformed(reason) => reason@,
        }
    }

    /// The message of this error.
    pub fn message(&self) -> (text: String)
        ensures
            text@ == self.message_spec(),
    {
        match self {
            ExtractError::NoEmailFound => String::from_str("no email found in request body"),
            ExtractError::NestedElementNotAllowed(name) => String::from_str(
                "No nested xml node ",
            ).concat(name.as_str()).concat(" allowed inside EMailAddress"),
            ExtractError::UnexpectedEof => String::from_str("EOF in the middle of EMailAddress"),
            ExtractError::Malformed(reason) => reason.clone(),
        }
    }
}

/// Goes on with an Autodiscover request once its body was read: with an
/// address the answer is rendered, without one the request is refused.
pub fn after_body(domain: usize, extracted: Result<String, ExtractError>) -> (action: Action)
    ensures
        match extracted {
            Ok(email) => action matches Action::Render(job) && job.is_autodiscover(
                domain,
                email@,
            ),
            Err(error) => action matches Action::Respond(response) && response@ == refusal(
                error.message_spec(),
            ),
        },
{
    match extracted {
        Ok(email) => Action::Render(
            RenderJob {
                domain,
                route: Route::Autodiscover,
                email: Some(email),
                plist_payload: None,
                payloads: Vec::new(),
            },
        ),
        Err(error) => {
            let message = error.message();
            Action::Respond(Response::refusal(message.as_str()))
        },
    }
}

/// Makes the answer of a route from what rendering and, for the profile,
/// signing gave: a document where both went well, else the bare status of an
/// internal error.
pub fn finish(route: Route, rendered: Result<String, String>, signed: Option<
    Result<Vec<u8>, SignError>,
>) -> (response: Response)
    ensures
        response@ == (match rendered {
            Err(_) => bare(INTERNAL_SERVER_ERROR),
            Ok(text) => match signed {
                None => document(route, BodyView::Text(text@)),
                Some(Ok(bytes)) => document(route, BodyView::Binary(bytes@)),
                Some(Err(_)) => bare(INTERNAL_SERVER_ERROR),
            },
        }),
{
    match rendered {
        Err(_) => Response::bare(INTERNAL_SERVER_ERROR),
        Ok(text) => match signed {
            None => Response::document(route, Body::Text(text)),
            Some(Ok(bytes)) => Response::document(route, Body::Binary(bytes)),
            Some(Err(_)) => Response::bare(INTERNAL_SERVER_ERROR),
        },
    }
}

/// Goes on with a request once its template was rendered. The profile is
/// signed with the certificate bundle of the job's domain; every other
/// document is sent as it was rendered. A template that did not render and a
/// profile that could not be signed, be it for its length, end in the bare
/// status of an internal error.
pub fn after_render(state: &GlobalStateData, job: &RenderJob, rendered: Result<String, String>) -> (response:
    Response)
    ensures
        match rendered {
            Err(_) => response@ == bare(INTERNAL_SERVER_ERROR),
            Ok(text) => if job.route != Route::MobileConfig {
                response@ == document(job.route, BodyView::Text(text@))
            } else if job.domain >= state.config_view().domains.len() || encode_utf8(text@).len()
                > MAX_INPUT {
                response@ == bare(INTERNAL_SERVER_ERROR)
            } else {
                response@ == bare(INTERNAL_SERVER_ERROR) || (response.body is Binary && response@
                    == document(job.route, response.body@))
            },
        },
{
    let signed = match &rendered {
        Ok(text) => match job.route {
            Route::MobileConfig => Some(state.sign(job.domain, text.as_str().as_bytes())),
            _ => None,
        },
        Err(_) => None,
    };
    finish(job.route, rendered, signed)
}

/// A request without a usable `Host` header is a bad request and is told so,
/// whatever its path and method. A request for a host that no domain declares
/// is forbidden, whatever its path and method; for a known host, a path that
/// is no route is not found; and for a known host and a route, a method that
/// the route does not take is not allowed.
pub proof fn refusals_in_order(state: GlobalStateData, request: RequestView, action: Action)
    requires
        action.carries_out(plan_of(state, request), state),
    ensures
        request.host is None ==> action.answers_with(BAD_REQUEST),
        request.host is None ==> (action matches Action::Respond(response) ==> response.body@
            == BodyView::Text("Error: "@ + missing_host_message())),
        request.host is Some && state.resolve_spec(request.host->Some_0) is None
            ==> action.answers_with(FORBIDDEN),
        request.host is Some && state.resolve_spec(request.host->Some_0) is Some && route_of(
            lowercased(request.path),
        ) is None ==> action.answers_with(NOT_FOUND),
        request.host is Some && state.resolve_spec(request.host->Some_0) is Some && route_of(
            lowercased(request.path),
        ) is Some && request.method != route_of(lowercased(request.path))->Some_0.method_spec()
            ==> action.answers_with(METHOD_NOT_ALLOWED),
{
}

/// A request for a profile is refused, with nothing rendered and nothing
/// signed for it, as soon as one pair of its query breaks a rule: has another
/// name than `email`, holds no valid address, or holds an address of another
/// domain than the one the host resolved to.
pub proof fn faulty_query_is_refused(
    state: GlobalStateData,
    request: RequestView,
    action: Action,
    at: int,
)
    requires
        action.carries_out(plan_of(state, request), state),
        request.host is Some,
        state.resolve_spec(request.host->Some_0) is Some,
        route_of(lowercased(request.path)) == Some(Route::MobileConfig),
        request.method == Method::Get,
        request.query is Some,
        0 <= at < form_pairs(request.query->Some_0).len(),
        check_pair(
            form_pairs(request.query->Some_0)[at].0,
            form_pairs(request.query->Some_0)[at].1,
            state.config_view().domains[state.resolve_spec(
                request.host->Some_0,
            )->Some_0 as int].email_domain,
        ) is Err,
    ensures
        action.answers_with(BAD_REQUEST),
{
    lemma_one_fault_fails_all(
        form_pairs(request.query->Some_0),
        at,
        state.config_view().domains[state.resolve_spec(
            request.host->Some_0,
        )->Some_0 as int].email_domain,
    );
}

/// The answer to a request that names an address of another domain says so.
pub proof fn foreign_email_is_refused(
    state: GlobalStateData,
    request: RequestView,
    action: Action,
    address: Seq<char>,
)
    requires
        action.carries_out(plan_of(state, request), state),
        plan_of(state, request) == Plan::BadRequest(QueryFault::ForeignEmail(address)),
    ensures
        action.answers_with(BAD_REQUEST),
        action matches Action::Respond(response) ==> response@ == refusal(
            "email "@ + address + " does not belong to this server"@,
        ),
{
}

} // verus!
