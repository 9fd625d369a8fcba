//! The snapshot of everything a request is answered from, and the container
//! that holds the current snapshot.
//!
//! A snapshot is built as a whole or not at all: the configuration, the index
//! from host names to domains, the certificate bundle of every domain and the
//! compiled templates. The container replaces its snapshot only by one that
//! was built in full; a failed build leaves it as it was.

use crate::certs::CertError;
use crate::certs::Certs;
use crate::certs::SignError;
use crate::certs::MAX_INPUT;
use crate::config::Config;
use crate::config::ConfigView;
use crate::config::Domain;
use crate::config::DomainView;
use crate::text::find_char;
use crate::text::first_index_of;
use crate::text::first_index_of_is_first;
use crate::text::first_index_of_unique;
use std::sync::Arc;
use tera::Tera;
use vstd::hash_map::StringHashMap;
use vstd::prelude::*;

verus! {

/// A compiled set of templates.
#[verifier::external_type_specification]
#[verifier::external_body]
pub struct ExTera(Tera);

/// Calls `Arc::clone`.
///
/// Trusted: the clone points to the same value.
#[verifier::external_body]
fn share<T>(pointer: &Arc<T>) -> (shared: Arc<T>)
    ensures
        shared == *pointer,
{
    Arc::clone(pointer)
}

/// The position of the last domain that declares `host`, or -1 where no
/// domain declares it.
pub open spec fn host_owner(domains: Seq<DomainView>, host: Seq<char>) -> int
    decreases domains.len(),
{
    if domains.len() == 0 {
        -1
    } else if domains.last().allowed_hosts.contains(host) {
        domains.len() - 1
    } else {
        host_owner(domains.drop_last(), host)
    }
}

/// The index from host names to positions in the domain list. Where two
/// domains declare one host, the later one has it.
pub open spec fn host_index(domains: Seq<DomainView>) -> Map<Seq<char>, usize> {
    Map::new(
        |host: Seq<char>| host_owner(domains, host) >= 0,
        |host: Seq<char>| host_owner(domains, host) as usize,
    )
}

/// The position of the last domain with this email domain, or -1 where there
/// is none.
pub open spec fn bundle_owner(domains: Seq<DomainView>, email_domain: Seq<char>) -> int
    decreases domains.len(),
{
    if domains.len() == 0 {
        -1
    } else if domains.last().email_domain == email_domain {
        domains.len() - 1
    } else {
        bundle_owner(domains.drop_last(), email_domain)
    }
}

/// `host_owner` is a position in the list, and the domain there declares the
/// host.
pub proof fn host_owner_is_valid(domains: Seq<DomainView>, host: Seq<char>)
    ensures
        -1 <= host_owner(domains, host) < domains.len(),
        host_owner(domains, host) >= 0 ==> domains[host_owner(domains, host)].allowed_hosts.contains(
            host,
        ),
        forall|i: int|
            0 <= i < domains.len() && #[trigger] domains[i].allowed_hosts.contains(host)
                ==> host_owner(domains, host) >= i,
    decreases domains.len(),
{
    if domains.len() > 0 {
        host_owner_is_valid(domains.drop_last(), host);
        assert forall|i: int|
            0 <= i < domains.len() && #[trigger] domains[i].allowed_hosts.contains(
                host,
            ) implies host_owner(domains, host) >= i by {
            if i < domains.len() - 1 {
                assert(domains.drop_last()[i] == domains[i]);
            }
        }
    }
}

/// `bundle_owner` is a position in the list, and the domain there has the
/// email domain.
pub proof fn bundle_owner_is_valid(domains: Seq<DomainView>, email_domain: Seq<char>)
    ensures
        -1 <= bundle_owner(domains, email_domain) < domains.len(),
        bundle_owner(domains, email_domain) >= 0 ==> domains[bundle_owner(
            domains,
            email_domain,
        )].email_domain == email_domain,
        forall|i: int|
            0 <= i < domains.len() && #[trigger] domains[i].email_domain == email_domain
                ==> bundle_owner(domains, email_domain) >= i,
    decreases domains.len(),
{
    if domains.len() > 0 {
        bundle_owner_is_valid(domains.drop_last(), email_domain);
        assert forall|i: int|
            0 <= i < domains.len() && #[trigger] domains[i].email_domain
                == email_domain implies bundle_owner(domains, email_domain) >= i by {
            if i < domains.len() - 1 {
                assert(domains.drop_last()[i] == domains[i]);
            }
        }
    }
}

/// The host part of a `Host` header: what stands before the first colon.
pub open spec fn host_of(header: Seq<char>) -> Seq<char> {
    header.take(first_index_of(header, ':'))
}

/// Why a snapshot could not be built.
#[derive(Debug)]
pub enum BuildError {
    /// The configuration could not be loaded; the text says why.
    Config(String),
    /// No certificate bundle was loaded for the domain at this position.
    MissingBundle { domain: usize },
    /// Loading the certificate bundle of the domain at this position failed.
    Certificate { domain: usize, error: CertError },
    /// The templates did not compile; the text says why.
    Templates(String),
}

/// Whether a certificate bundle was loaded for the domain at `position`.
pub open spec fn bundle_loaded(bundles: Seq<Result<Certs, CertError>>, position: int) -> bool {
    0 <= position < bundles.len() && bundles[position] is Ok
}

/// One consistent bundle of configuration, host routing, certificates and
/// templates.
pub struct GlobalStateData {
    config: Config,
    host_map: StringHashMap<usize>,
    cert_map: StringHashMap<Certs>,
    templates: Tera,
}

impl GlobalStateData {
    /// The configuration of this snapshot.
    pub closed spec fn config_view(&self) -> ConfigView {
        self.config@
    }

    /// The index from host names to positions in the domain list.
    pub closed spec fn hosts(&self) -> Map<Seq<char>, usize> {
        self.host_map@
    }

    /// The certificate bundles, by email domain.
    pub closed spec fn bundles(&self) -> Map<Seq<char>, Certs> {
        self.cert_map@
    }

    /// The compiled templates.
    pub closed spec fn template_set(&self) -> Tera {
        self.templates
    }

    /// The host index is the index of this snapshot's own domain list, and
    /// exactly the email domains of the list have a certificate bundle.
    #[verifier::type_invariant]
    pub closed spec fn wf(&self) -> bool {
        &&& self.hosts() == host_index(self.config_view().domains)
        &&& forall|email_domain: Seq<char>| #[trigger]
            self.bundles().contains_key(email_domain) <==> bundle_owner(
                self.config_view().domains,
                email_domain,
            ) >= 0
    }

    /// Whether this snapshot is the one that is built from a configuration
    /// and the bundles loaded for its domains.
    pub open spec fn built_from(
        &self,
        config: ConfigView,
        bundles: Seq<Result<Certs, CertError>>,
        templates: Tera,
    ) -> bool {
        &&& self.wf()
        &&& self.config_view() == config
        &&& self.template_set() == templates
        &&& forall|i: int|
            0 <= i < config.domains.len() ==> #[trigger] self.bundles()[config.domains[i].email_domain]
                == bundles[bundle_owner(config.domains, config.domains[i].email_domain)]->Ok_0
    }

    /// The domain that a `Host` header resolves to, by its position.
    pub open spec fn resolve_spec(&self, host_header: Seq<char>) -> Option<usize> {
        if self.hosts().contains_key(host_of(host_header)) {
            Some(self.hosts()[host_of(host_header)])
        } else {
            None
        }
    }

    /// Builds a snapshot, as one transaction.
    ///
    /// `bundles` holds, for the domain at each position of the
    /// configuration, what loading its certificate bundle gave. The build
    /// succeeds only if a bundle was loaded for every domain and the
    /// templates compiled. Else the first domain without a bundle decides the
    /// error, and only after the domains the templates.
    pub fn new(
        config: Config,
        bundles: Vec<Result<Certs, CertError>>,
        templates: Result<Tera, String>,
    ) -> (built: Result<GlobalStateData, BuildError>)
        ensures
            built is Ok <==> templates is Ok && forall|i: int|
                0 <= i < config@.domains.len() ==> bundle_loaded(bundles@, i),
            match built {
                Ok(state) => state.built_from(config@, bundles@, templates->Ok_0),
                Err(BuildError::MissingBundle { domain }) => {
                    &&& bundles@.len() <= domain < config@.domains.len()
                    &&& forall|i: int| 0 <= i < domain ==> bundle_loaded(bundles@, i)
                },
                Err(BuildError::Certificate { domain, error }) => {
                    &&& domain < config@.domains.len()
                    &&& domain < bundles@.len()
                    &&& bundles@[domain as int] == Err::<Certs, CertError>(error)
                    &&& forall|i: int| 0 <= i < domain ==> bundle_loaded(bundles@, i)
                },
                Err(BuildError::Templates(reason)) => {
                    &&& templates matches Err(text)
                    &&& text@ == reason@
                    &&& forall|i: int|
                        0 <= i < config@.domains.len() ==> bundle_loaded(bundles@, i)
                },
                Err(BuildError::Config(_)) => false,
            },
    {
        let ghost domains = config@.domains;
        let ghost loaded = bundles@;
        let count = config.domains.len();
        let mut host_map: StringHashMap<usize> = StringHashMap::new();
        let mut cert_map: StringHashMap<Certs> = StringHashMap::new();
        let mut i: usize = 0;
        proof {
            assert(host_map@ =~= host_index(domains.take(0)));
        }
        for bundle in it: bundles
            invariant
                it.seq() == loaded,
                loaded == bundles@,
                count == config.domains@.len(),
                domains == config@.domains,
                domains.len() == count,
                i == (if it.index() <= count {
                    it.index()
                } else {
                    count as int
                }),
                forall|k: int| 0 <= k < i ==> bundle_loaded(loaded, k),
                host_map@ == host_index(domains.take(i as int)),
                forall|email_domain: Seq<char>| #[trigger]
                    cert_map@.contains_key(email_domain) <==> bundle_owner(
                        domains.take(i as int),
                        email_domain,
                    ) >= 0,
                forall|email_domain: Seq<char>| #[trigger]
                    cert_map@.contains_key(email_domain) ==> cert_map@[email_domain]
                        == loaded[bundle_owner(domains.take(i as int), email_domain)]->Ok_0,
        {
            if i < count {
                let domain = &config.domains[i];
                let ghost shorter = domains.take(i as int);
                let ghost longer = domains.take(i + 1);
                proof {
                    assert(longer.drop_last() =~= shorter);
                    assert(longer.last() == domain@);
                }
                enter_hosts(&mut host_map, Ghost(shorter), &domain.allowed_hosts, i);
                proof {
                    assert(host_map@ =~= host_index(longer));
                }
                match bundle {
                    Err(error) => {
                        proof {
                            assert(!bundle_loaded(loaded, i as int));
                        }
                        return Err(BuildError::Certificate { domain: i, error });
                    },
                    Ok(certs) => {
                        cert_map.insert(domain.email_domain.clone(), certs);
                    },
                }
                proof {
                    assert forall|email_domain: Seq<char>| #[trigger]
                        cert_map@.contains_key(email_domain) implies cert_map@[email_domain]
                        == loaded[bundle_owner(longer, email_domain)]->Ok_0 by {
                        if email_domain != domain@.email_domain {
                            assert(bundle_owner(longer, email_domain) == bundle_owner(
                                shorter,
                                email_domain,
                            ));
                        }
                    }
                }
                i = i + 1;
            }
        }
        if i < count {
            proof {
                assert(!bundle_loaded(loaded, i as int));
            }
            return Err(BuildError::MissingBundle { domain: i });
        }
        proof {
            assert(domains.take(count as int) =~= domains);
        }
        match templates {
            Err(reason) => Err(BuildError::Templates(reason)),
            Ok(templates) => {
                proof {
                    assert forall|k: int| 0 <= k < domains.len() implies #[trigger] cert_map@[domains[k].email_domain]
                        == loaded[bundle_owner(domains, domains[k].email_domain)]->Ok_0 by {
                        bundle_owner_is_valid(domains, domains[k].email_domain);
                        assert(cert_map@.contains_key(domains[k].email_domain));
                    }
                }
                Ok(GlobalStateData { config, host_map, cert_map, templates })
            },
        }
    }

    /// The configuration of this snapshot.
    pub fn config(&self) -> (config: &Config)
        ensures
            config@ == self.config_view(),
    {
        &self.config
    }

    /// The compiled templates of this snapshot.
    pub fn templates(&self) -> (templates: &Tera)
        ensures
            *templates == self.template_set(),
    {
        &self.templates
    }

    /// Resolves a `Host` header to the position of its domain: the port, if
    /// the header names one, is left aside and the host is looked up in the
    /// index.
    pub fn resolve(&self, host_header: &str) -> (found: Option<usize>)
        ensures
            found == self.resolve_spec(host_header@),
            found matches Some(position) ==> position < self.config_view().domains.len()
                && self.config_view().domains[position as int].allowed_hosts.contains(
                host_of(host_header@),
            ),
    {
        proof {
            use_type_invariant(self);
            first_index_of_is_first(host_header@, ':');
            host_owner_is_valid(self.config_view().domains, host_of(host_header@));
            assert(self.config_view().domains.len() == self.config.domains.len());
        }
        let colon = find_char(host_header, ':');
        let host = host_header.substring_char(0, colon);
        match self.host_map.get(host) {
            Some(position) => Some(*position),
            None => None,
        }
    }

    /// Resolves a `Host` header to its domain, together with the position of
    /// the domain in this snapshot's list.
    pub fn resolve_domain(&self, host_header: &str) -> (found: Option<(usize, &Domain)>)
        ensures
            match found {
                Some((position, domain)) => {
                    &&& self.resolve_spec(host_header@) == Some(position)
                    &&& position < self.config_view().domains.len()
                    &&& domain@ == self.config_view().domains[position as int]
                },
                None => self.resolve_spec(host_header@) is None,
            },
    {
        match self.resolve(host_header) {
            Some(position) => Some((position, &self.config.domains[position])),
            None => None,
        }
    }

    /// The domain at a position of the domain list.
    pub fn domain(&self, position: usize) -> (found: Option<&Domain>)
        ensures
            position < self.config_view().domains.len() <==> found is Some,
            found matches Some(domain) ==> domain@ == self.config_view().domains[position as int],
    {
        if position < self.config.domains.len() {
            Some(&self.config.domains[position])
        } else {
            None
        }
    }

    /// The certificate bundle held for an email domain.
    pub fn certs(&self, email_domain: &str) -> (found: Option<&Certs>)
        ensures
            found is Some <==> self.bundles().contains_key(email_domain@),
            found matches Some(certs) ==> *certs == self.bundles()[email_domain@],
    {
        self.cert_map.get(email_domain)
    }

    /// The certificate bundle that the domain at `position` signs with: the
    /// one held for its email domain. Every position of the domain list has
    /// one (see [`every_domain_has_its_bundle`]); a position outside the list
    /// has none.
    pub fn signing_bundle(&self, position: usize) -> (found: Option<&Certs>)
        ensures
            position < self.config_view().domains.len() <==> found is Some,
            found matches Some(certs) ==> *certs
                == self.bundles()[self.config_view().domains[position as int].email_domain],
    {
        proof {
            use_type_invariant(self);
        }
        match self.domain(position) {
            Some(domain) => {
                proof {
                    every_domain_has_its_bundle(*self, position as int);
                }
                self.certs(domain.email_domain.as_str())
            },
            None => None,
        }
    }

    /// Signs `content` with the certificate bundle of the domain at
    /// `position`, the one that [`GlobalStateData::signing_bundle`] gives. A
    /// position outside the domain list has no bundle. More content than
    /// OpenSSL takes is refused unsigned.
    pub fn sign(&self, position: usize, content: &[u8]) -> (signed: Result<Vec<u8>, SignError>)
        ensures
            position >= self.config_view().domains.len() <==> signed matches Err(
                SignError::MissingCertificate,
            ),
            (position < self.config_view().domains.len() && content@.len() > MAX_INPUT)
                <==> signed matches Err(SignError::ContentTooLong),
    {
        match self.signing_bundle(position) {
            Some(certs) => certs.sign(content),
            None => Err(SignError::MissingCertificate),
        }
    }
}

/// Enters the hosts of the domain at `position` into the host index.
fn enter_hosts(
    host_map: &mut StringHashMap<usize>,
    Ghost(before): Ghost<Seq<DomainView>>,
    hosts: &Vec<String>,
    position: usize,
)
    requires
        old(host_map)@ == host_index(before),
    ensures
        final(host_map)@ == partial_host_index(before, hosts.deep_view(), position),
{
    let mut j: usize = 0;
    proof {
        assert(hosts.deep_view().take(0) =~= Seq::<Seq<char>>::empty());
        assert(host_map@ =~= partial_host_index(before, hosts.deep_view().take(0), position));
    }
    while j < hosts.len()
        invariant
            j <= hosts.len(),
            host_map@ == partial_host_index(before, hosts.deep_view().take(j as int), position),
        decreases hosts.len() - j,
    {
        let ghost seen = hosts.deep_view().take(j as int);
        host_map.insert(hosts[j].clone(), position);
        proof {
            let more = hosts.deep_view().take(j + 1);
            assert(more =~= seen.push(hosts@[j as int]@));
            assert forall|host: Seq<char>| more.contains(host) <==> (seen.contains(host) || host
                == hosts@[j as int]@) by {
                if seen.contains(host) {
                    let at = choose|at: int| 0 <= at < seen.len() && seen[at] == host;
                    assert(more[at] == host);
                }
                if host == hosts@[j as int]@ {
                    assert(more[j as int] == host);
                }
            }
            assert(host_map@ =~= partial_host_index(before, more, position));
        }
        j = j + 1;
    }
    proof {
        assert(hosts.deep_view().take(j as int) =~= hosts.deep_view());
    }
}

/// The host index while the hosts of the domain at `position` are being
/// entered: the index of the domains before it, with the hosts entered so
/// far given to `position`.
pub open spec fn partial_host_index(
    before: Seq<DomainView>,
    entered: Seq<Seq<char>>,
    position: usize,
) -> Map<Seq<char>, usize> {
    Map::new(
        |host: Seq<char>| entered.contains(host) || host_owner(before, host) >= 0,
        |host: Seq<char>|
            if entered.contains(host) {
                position
            } else {
                host_owner(before, host) as usize
            },
    )
}

/// What every snapshot holds: its host index is the index of its own domain
/// list, and its certificate bundles are those of the email domains of the
/// list and of no others.
pub proof fn snapshot_holds_its_own_index(state: GlobalStateData)
    requires
        state.wf(),
    ensures
        state.hosts() == host_index(state.config_view().domains),
        forall|email_domain: Seq<char>| #[trigger]
            state.bundles().contains_key(email_domain) <==> bundle_owner(
                state.config_view().domains,
                email_domain,
            ) >= 0,
{
}

/// In every snapshot, a host that a domain of the list declares is in the
/// host index, and it leads to the last domain that declares it.
pub proof fn declared_host_leads_to_its_last_domain(
    state: GlobalStateData,
    position: int,
    host: Seq<char>,
)
    requires
        state.wf(),
        0 <= position < state.config_view().domains.len(),
        state.config_view().domains[position].allowed_hosts.contains(host),
    ensures
        state.hosts().contains_key(host),
        state.hosts()[host] == host_owner(state.config_view().domains, host),
        position <= state.hosts()[host] < state.config_view().domains.len(),
        state.config_view().domains[state.hosts()[host] as int].allowed_hosts.contains(host),
        forall|later: int|
            state.hosts()[host] < later < state.config_view().domains.len()
                ==> !state.config_view().domains[later].allowed_hosts.contains(host),
{
    host_owner_is_valid(state.config_view().domains, host);
    assert(state.config_view().domains.len() == state.config.domains.len());
}

/// In every snapshot, each domain of the list has a certificate bundle.
pub proof fn every_domain_has_its_bundle(state: GlobalStateData, position: int)
    requires
        state.wf(),
        0 <= position < state.config_view().domains.len(),
    ensures
        state.bundles().contains_key(state.config_view().domains[position].email_domain),
{
    bundle_owner_is_valid(
        state.config_view().domains,
        state.config_view().domains[position].email_domain,
    );
}

/// In every snapshot, each entry of the host index is a position in the
/// snapshot's own domain list, and the domain there declares the host.
pub proof fn host_index_points_into_domains(state: GlobalStateData, host: Seq<char>)
    requires
        state.wf(),
        state.hosts().contains_key(host),
    ensures
        state.hosts()[host] < state.config_view().domains.len(),
        state.config_view().domains[state.hosts()[host] as int].allowed_hosts.contains(host),
{
    host_owner_is_valid(state.config_view().domains, host);
    assert(state.config_view().domains.len() == state.config.domains.len());
}

/// Building twice from the same configuration gives the same host index,
/// the same domain list, and certificate bundles for the same email domains.
pub proof fn build_is_idempotent(
    first: GlobalStateData,
    second: GlobalStateData,
    config: ConfigView,
    first_bundles: Seq<Result<Certs, CertError>>,
    second_bundles: Seq<Result<Certs, CertError>>,
    first_templates: Tera,
    second_templates: Tera,
)
    requires
        first.built_from(config, first_bundles, first_templates),
        second.built_from(config, second_bundles, second_templates),
    ensures
        first.hosts() == second.hosts(),
        first.config_view() == second.config_view(),
        first.config_view().domains == second.config_view().domains,
        forall|email_domain: Seq<char>|
            first.bundles().contains_key(email_domain) <==> second.bundles().contains_key(
                email_domain,
            ),
{
}

/// A header that names a port resolves as the header without it.
pub proof fn port_does_not_matter(state: GlobalStateData, host: Seq<char>, port: Seq<char>)
    requires
        !host.contains(':'),
    ensures
        state.resolve_spec(host + seq![':'] + port) == state.resolve_spec(host),
{
    let with_port = host + seq![':'] + port;
    assert forall|i: int| 0 <= i < host.len() implies with_port[i] != ':' by {
        assert(with_port[i] == host[i]);
        assert(host.contains(host[i]));
    }
    assert(with_port[host.len() as int] == ':');
    first_index_of_unique(with_port, ':', host.len() as int);
    assert forall|i: int| 0 <= i < host.len() implies host[i] != ':' by {
        assert(host.contains(host[i]));
    }
    first_index_of_unique(host, ':', host.len() as int);
    assert(with_port.take(host.len() as int) =~= host);
    assert(host.take(host.len() as int) =~= host);
}

/// A request to rebuild the snapshot. It carries nothing.
#[derive(Clone, Copy, Debug, PartialEq, Eq, Structural)]
pub enum Notify {
    Reload,
}

/// How an attempt to reload ended.
#[derive(Debug)]
pub enum ReloadReport {
    /// The new snapshot is current. `state_changed` says whether its
    /// configuration differs from the one it replaced.
    Updated { state_changed: bool },
    /// The build failed; the snapshot from before stays current.
    Failed(BuildError),
}

/// The snapshot that is current after an attempt to reload: the new one if
/// it was built, else the one from before.
pub open spec fn after_reload(
    current: GlobalStateData,
    built: Result<GlobalStateData, BuildError>,
) -> GlobalStateData {
    match built {
        Ok(next) => next,
        Err(_) => current,
    }
}

/// The container of the current snapshot.
pub struct GlobalState {
    current: Arc<GlobalStateData>,
}

impl GlobalState {
    /// The snapshot that is current.
    pub closed spec fn snapshot(&self) -> GlobalStateData {
        *self.current
    }

    /// A container that holds `initial`.
    pub fn new(initial: GlobalStateData) -> (state: GlobalState)
        ensures
            state.snapshot() == initial,
    {
        GlobalState { current: Arc::new(initial) }
    }

    /// A container that holds a snapshot that is already shared.
    pub fn from_shared(current: Arc<GlobalStateData>) -> (state: GlobalState)
        ensures
            state.snapshot() == *current,
    {
        GlobalState { current }
    }

    /// Tells whether the configuration of `next` differs from the one of the
    /// snapshot that this container holds.
    pub fn config_changed(&self, next: &GlobalStateData) -> (changed: bool)
        ensures
            changed == (next.config_view() != self.snapshot().config_view()),
    {
        !(*next.config() == *self.current.config())
    }

    /// Hands out the current snapshot. A reader keeps what it was handed,
    /// whole, whatever is reloaded later.
    pub fn load(&self) -> (snapshot: Arc<GlobalStateData>)
        ensures
            *snapshot == self.snapshot(),
    {
        share(&self.current)
    }

    /// Ends an attempt to reload: a snapshot that was built becomes current,
    /// a failed build changes nothing.
    pub fn reload_state(&mut self, built: Result<GlobalStateData, BuildError>) -> (report:
        ReloadReport)
        ensures
            final(self).snapshot() == after_reload(old(self).snapshot(), built),
            built is Err ==> *final(self) == *old(self),
            match built {
                Ok(next) => report matches ReloadReport::Updated { state_changed }
                    && state_changed == (next.config_view() != old(self).snapshot().config_view()),
                Err(error) => report == ReloadReport::Failed(error),
            },
    {
        match built {
            Ok(next) => {
                let state_changed = self.config_changed(&next);
                self.current = Arc::new(next);
                ReloadReport::Updated { state_changed }
            },
            Err(error) => ReloadReport::Failed(error),
        }
    }

    /// Takes a request to reload, once the build it asked for has ended. A
    /// request says no more than "rebuild now", whichever source it came from.
    pub fn notify(&mut self, message: Notify, built: Result<GlobalStateData, BuildError>) -> (report:
        ReloadReport)
        ensures
            final(self).snapshot() == after_reload(old(self).snapshot(), built),
            built is Err ==> *final(self) == *old(self),
            match built {
                Ok(next) => report matches ReloadReport::Updated { state_changed }
                    && state_changed == (next.config_view() != old(self).snapshot().config_view()),
                Err(error) => report == ReloadReport::Failed(error),
            },
    {
        match message {
            Notify::Reload => self.reload_state(built),
        }
    }

    /// Builds a snapshot and makes it current if, and only if, the build
    /// succeeded.
    pub fn reload(
        &mut self,
        config: Config,
        bundles: Vec<Result<Certs, CertError>>,
        templates: Result<Tera, String>,
    ) -> (report: ReloadReport)
        ensures
            report is Updated <==> templates is Ok && forall|i: int|
                0 <= i < config@.domains.len() ==> bundle_loaded(bundles@, i),
            report is Updated ==> final(self).snapshot().built_from(
                config@,
                bundles@,
                templates->Ok_0,
            ),
            report is Failed ==> *final(self) == *old(self),
            (exists|i: int| 0 <= i < config@.domains.len() && !bundle_loaded(bundles@, i))
                ==> *final(self) == *old(self),
    {
        let built = GlobalStateData::new(config, bundles, templates);
        self.reload_state(built)
    }
}

/// Of two attempts to reload that end one after the other, one with a
/// snapshot that was built and one with a failed build, the built snapshot
/// is current at the end, in whichever order they end.
pub proof fn failed_reload_never_wins(
    prior: GlobalStateData,
    valid: GlobalStateData,
    error: BuildError,
)
    ensures
        after_reload(after_reload(prior, Ok(valid)), Err(error)) == valid,
        after_reload(after_reload(prior, Err(error)), Ok(valid)) == valid,
        after_reload(prior, Err(error)) == prior,
{
}

/// After any two attempts to reload, whatever their order, the current
/// snapshot is the prior one or one that was built in full.
pub proof fn reloads_keep_a_built_snapshot(
    prior: GlobalStateData,
    first: Result<GlobalStateData, BuildError>,
    second: Result<GlobalStateData, BuildError>,
)
    ensures
        ({
            let last = after_reload(after_reload(prior, first), second);
            last == prior || first == Ok::<GlobalStateData, BuildError>(last) || second == Ok::<
                GlobalStateData,
                BuildError,
            >(last)
        }),
{
}

} // verus!
