//! The configuration record and the mail domains it lists.
//!
//! A configuration is immutable once loaded: a reload replaces it wholesale.
//! Every record has a mathematical view (`@`) made of character sequences,
//! and `==` on a record means equality of views.

use vstd::prelude::*;
use vstd::std_specs::cmp::PartialEqSpecImpl;

verus! {

/// How a mail client secures its connection to a server.
#[derive(Clone, Copy, Debug, PartialEq, Eq, Structural)]
pub enum SocketType {
    Plain,
    SSL,
    StartTLS,
}

impl SocketType {
    /// The name templates print for this socket type.
    pub open spec fn label_spec(self) -> Seq<char> {
        match self {
            SocketType::Plain => "plain"@,
            SocketType::SSL => "SSL"@,
            SocketType::StartTLS => "STARTTLS"@,
        }
    }

    /// Returns the name templates print for this socket type.
    pub fn label(&self) -> (text: &'static str)
        ensures
            text@ == self.label_spec(),
    {
        match self {
            SocketType::Plain => "plain",
            SocketType::SSL => "SSL",
            SocketType::StartTLS => "STARTTLS",
        }
    }
}

/// One mail server (SMTP or IMAP) that a domain's clients connect to.
#[derive(Clone, Debug)]
pub struct ServerConfig {
    pub host: String,
    pub port: u16,
    pub socket_type: SocketType,
}

/// The mathematical value of a [`ServerConfig`].
pub struct ServerConfigView {
    pub host: Seq<char>,
    pub port: u16,
    pub socket_type: SocketType,
}

impl View for ServerConfig {
    type V = ServerConfigView;

    open spec fn view(&self) -> ServerConfigView {
        ServerConfigView { host: self.host@, port: self.port, socket_type: self.socket_type }
    }
}

impl PartialEq for ServerConfig {
    fn eq(&self, other: &Self) -> (same: bool) {
        self.host == other.host && self.port == other.port && self.socket_type
            == other.socket_type
    }
}

impl PartialEqSpecImpl for ServerConfig {
    open spec fn obeys_eq_spec() -> bool {
        true
    }

    open spec fn eq_spec(&self, other: &Self) -> bool {
        self@ == other@
    }
}

/// One hosted mail domain.
#[derive(Clone, Debug)]
pub struct Domain {
    /// The part after `@` of every address this domain serves.
    pub email_domain: String,
    pub ssl_cert: String,
    /// Path of the PEM file with the certificate chain, leaf first.
    pub ssl_chain: String,
    /// Path of the PEM file with the private key of the leaf certificate.
    pub ssl_key: String,
    pub display_name: String,
    pub display_short_name: String,
    /// The HTTP host names that resolve to this domain.
    pub allowed_hosts: Vec<String>,
    pub smtp: ServerConfig,
    pub imap: ServerConfig,
}

/// The mathematical value of a [`Domain`].
pub struct DomainView {
    pub email_domain: Seq<char>,
    pub ssl_cert: Seq<char>,
    pub ssl_chain: Seq<char>,
    pub ssl_key: Seq<char>,
    pub display_name: Seq<char>,
    pub display_short_name: Seq<char>,
    pub allowed_hosts: Seq<Seq<char>>,
    pub smtp: ServerConfigView,
    pub imap: ServerConfigView,
}

impl View for Domain {
    type V = DomainView;

    open spec fn view(&self) -> DomainView {
        DomainView {
            email_domain: self.email_domain@,
            ssl_cert: self.ssl_cert@,
            ssl_chain: self.ssl_chain@,
            ssl_key: self.ssl_key@,
            display_name: self.display_name@,
            display_short_name: self.display_short_name@,
            allowed_hosts: self.allowed_hosts.deep_view(),
            smtp: self.smtp@,
            imap: self.imap@,
        }
    }
}

/// Compares two lists of strings element by element.
pub fn same_strings(left: &Vec<String>, right: &Vec<String>) -> (same: bool)
    ensures
        same == (left.deep_view() == right.deep_view()),
{
    if left.len() != right.len() {
        assert(left.deep_view().len() != right.deep_view().len());
        return false;
    }
    let mut i: usize = 0;
    while i < left.len()
        invariant
            i <= left.len(),
            left.len() == right.len(),
            forall|k: int| 0 <= k < i ==> left@[k]@ == right@[k]@,
        decreases left.len() - i,
    {
        if left[i] != right[i] {
            assert(left.deep_view()[i as int] != right.deep_view()[i as int]);
            return false;
        }
        i = i + 1;
    }
    assert(left.deep_view() =~= right.deep_view());
    true
}

impl PartialEq for Domain {
    fn eq(&self, other: &Self) -> (same: bool) {
        self.email_domain == other.email_domain && self.ssl_cert == other.ssl_cert
            && self.ssl_chain == other.ssl_chain && self.ssl_key == other.ssl_key
            && self.display_name == other.display_name && self.display_short_name
            == other.display_short_name && same_strings(&self.allowed_hosts, &other.allowed_hosts)
            && self.smtp == other.smtp && self.imap == other.imap
    }
}

impl PartialEqSpecImpl for Domain {
    open spec fn obeys_eq_spec() -> bool {
        true
    }

    open spec fn eq_spec(&self, other: &Self) -> bool {
        self@ == other@
    }
}

/// The views of a list of domains, in order.
pub open spec fn domain_views(domains: Seq<Domain>) -> Seq<DomainView> {
    Seq::new(domains.len(), |i: int| domains[i]@)
}

/// Compares two domain lists element by element.
pub fn same_domains(left: &Vec<Domain>, right: &Vec<Domain>) -> (same: bool)
    ensures
        same == (domain_views(left@) == domain_views(right@)),
{
    if left.len() != right.len() {
        assert(domain_views(left@).len() != domain_views(right@).len());
        return false;
    }
    let mut i: usize = 0;
    while i < left.len()
        invariant
            i <= left.len(),
            left.len() == right.len(),
            forall|k: int| 0 <= k < i ==> left@[k]@ == right@[k]@,
        decreases left.len() - i,
    {
        if left[i] != right[i] {
            assert(domain_views(left@)[i as int] != domain_views(right@)[i as int]);
            return false;
        }
        i = i + 1;
    }
    assert(domain_views(left@) =~= domain_views(right@));
    true
}

/// The whole configuration of the service.
#[derive(Clone, Debug)]
pub struct Config {
    pub domains: Vec<Domain>,
    /// The address the server binds once at startup, as text.
    pub socket_address: String,
    /// Where the template set is compiled from.
    pub template_path: String,
    /// A path whose changes ask for a reload, if any.
    pub watch_path: Option<String>,
}

/// The mathematical value of a [`Config`].
pub struct ConfigView {
    pub domains: Seq<DomainView>,
    pub socket_address: Seq<char>,
    pub template_path: Seq<char>,
    pub watch_path: Option<Seq<char>>,
}

impl View for Config {
    type V = ConfigView;

    open spec fn view(&self) -> ConfigView {
        ConfigView {
            domains: domain_views(self.domains@),
            socket_address: self.socket_address@,
            template_path: self.template_path@,
            watch_path: match self.watch_path {
                Some(path) => Some(path@),
                None => None,
            },
        }
    }
}

impl PartialEq for Config {
    fn eq(&self, other: &Self) -> (same: bool) {
        let same_watch = match &self.watch_path {
            Some(mine) => match &other.watch_path {
                Some(theirs) => *mine == *theirs,
                None => false,
            },
            None => other.watch_path.is_none(),
        };
        assert(same_watch == (self@.watch_path == other@.watch_path));
        let same_address = self.socket_address == other.socket_address;
        let same_templates = self.template_path == other.template_path;
        let same_list = same_domains(&self.domains, &other.domains);
        same_watch && same_address && same_templates && same_list
    }
}

impl PartialEqSpecImpl for Config {
    open spec fn obeys_eq_spec() -> bool {
        true
    }

    open spec fn eq_spec(&self, other: &Self) -> bool {
        self@ == other@
    }
}

} // verus!
