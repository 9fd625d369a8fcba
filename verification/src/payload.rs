//! The payload records of an Apple configuration profile.
//!
//! A profile holds one umbrella payload for the whole profile and one mail
//! account payload for every address it configures. Every payload carries a
//! fresh random identifier; all its other fields follow from the domain.

use crate::config::Domain;
use crate::config::DomainView;
use crate::text::join_with;
use crate::text::split;
use crate::text::split_on;
use crate::text::texts;
use uuid::Uuid;
use vstd::prelude::*;
use vstd::string::StringExecFns;

verus! {

/// One payload record of a profile.
#[derive(Clone, Debug, PartialEq, Eq)]
pub struct Payload {
    /// The unique identifier of the payload, as the 128-bit number of a UUID.
    pub uuid: u128,
    /// The reverse-DNS identifier of the payload.
    pub identifier: String,
    pub description: String,
    pub display_name: String,
    /// The type tag of the payload.
    pub ptype: String,
    pub organization: String,
}

/// The mathematical value of a [`Payload`].
pub struct PayloadView {
    pub uuid: u128,
    pub identifier: Seq<char>,
    pub description: Seq<char>,
    pub display_name: Seq<char>,
    pub ptype: Seq<char>,
    pub organization: Seq<char>,
}

impl View for Payload {
    type V = PayloadView;

    open spec fn view(&self) -> PayloadView {
        PayloadView {
            uuid: self.uuid,
            identifier: self.identifier@,
            description: self.description@,
            display_name: self.display_name@,
            ptype: self.ptype@,
            organization: self.organization@,
        }
    }
}

/// Whether a 128-bit number is a random (version 4) UUID of the RFC 4122
/// variant: the version digit is 4 and the two variant bits are `10`.
pub open spec fn is_random_uuid(value: u128) -> bool {
    value & 0xf000_c000_0000_0000_0000u128 == 0x4000_8000_0000_0000_0000u128
}

/// Calls `Uuid::new_v4` and hands the UUID out as its 128-bit number.
///
/// Trusted: whatever the random source gave, the version and variant bits
/// are those of a random UUID. Nothing else is known of the number.
#[verifier::external_body]
fn fresh_uuid() -> (value: u128)
    ensures
        is_random_uuid(value),
{
    Uuid::new_v4().as_u128()
}

/// The reverse-DNS identifier of a domain: its labels in reverse order,
/// followed by `autoconfig`, with dots between.
pub open spec fn identifier_of(email_domain: Seq<char>) -> Seq<char> {
    join_with(split_on(email_domain, '.').reverse().push("autoconfig"@), '.')
}

/// Computes the reverse-DNS identifier of a domain.
pub fn reverse_dns_identifier(email_domain: &str) -> (identifier: String)
    ensures
        identifier@ == identifier_of(email_domain@),
{
    let labels = split(email_domain, '.');
    let count = labels.len();
    let ghost reversed = texts(labels@).reverse();
    let mut identifier = labels[count - 1].clone();
    let mut taken: usize = 1;
    proof {
        reveal_strlit(".");
        assert(reversed.take(1).len() == 1);
        assert(reversed.take(1)[0] == labels@[count - 1]@);
    }
    while taken < count
        invariant
            1 <= taken <= count,
            count == labels@.len(),
            reversed == texts(labels@).reverse(),
            "."@ == seq!['.'],
            identifier@ == join_with(reversed.take(taken as int), '.'),
        decreases count - taken,
    {
        let ghost shorter = reversed.take(taken as int);
        let ghost longer = reversed.take(taken + 1);
        identifier.append(".");
        identifier.append(labels[count - 1 - taken].as_str());
        proof {
            assert(longer.drop_last() =~= shorter);
            assert(longer.last() == labels@[count - 1 - taken]@);
            assert(identifier@ =~= join_with(shorter, '.').push('.') + longer.last());
        }
        taken = taken + 1;
    }
    identifier.append(".");
    identifier.append("autoconfig");
    proof {
        let all = reversed.push("autoconfig"@);
        assert(reversed.take(count as int) =~= reversed);
        assert(all.drop_last() =~= reversed);
        assert(identifier@ =~= join_with(reversed, '.').push('.') + "autoconfig"@);
    }
    identifier
}

impl Payload {
    /// The umbrella payload of the profile of `domain`, with the given
    /// identifier number.
    pub open spec fn plist_spec(domain: DomainView, uuid: u128) -> PayloadView {
        PayloadView {
            uuid,
            identifier: identifier_of(domain.email_domain),
            description: "Install this profile to autoconfigure your email on "@
                + domain.email_domain,
            display_name: "Email Autoconfiguration"@,
            ptype: "Configuration"@,
            organization: domain.email_domain + " mail provider"@,
        }
    }

    /// The mail account payload of `domain`, with the given identifier
    /// number: the umbrella payload with its own type tag, described by the
    /// domain's display name and named by its short name.
    pub open spec fn domain_spec(domain: DomainView, uuid: u128) -> PayloadView {
        PayloadView {
            ptype: "com.apple.mail.managed"@,
            description: domain.display_name,
            display_name: domain.display_short_name,
            ..Self::plist_spec(domain, uuid)
        }
    }

    /// Makes the umbrella payload of `domain` around a given identifier
    /// number.
    pub fn plist_with_uuid(domain: &Domain, uuid: u128) -> (payload: Payload)
        ensures
            payload@ == Self::plist_spec(domain@, uuid),
    {
        let email_domain = domain.email_domain.as_str();
        let identifier = reverse_dns_identifier(email_domain);
        let description = String::from_str(
            "Install this profile to autoconfigure your email on ",
        ).concat(email_domain);
        let display_name = String::from_str("Email Autoconfiguration");
        let ptype = String::from_str("Configuration");
        let organization = domain.email_domain.clone().concat(" mail provider");
        Payload { uuid, identifier, description, display_name, ptype, organization }
    }

    /// Makes the mail account payload of `domain` around a given identifier
    /// number.
    pub fn domain_with_uuid(domain: &Domain, uuid: u128) -> (payload: Payload)
        ensures
            payload@ == Self::domain_spec(domain@, uuid),
    {
        let mut this = Self::plist_with_uuid(domain, uuid);
        this.ptype = String::from_str("com.apple.mail.managed");
        this.description = domain.display_name.clone();
        this.display_name = domain.display_short_name.clone();
        this
    }

    /// Makes the umbrella payload of `domain` with a fresh random
    /// identifier number.
    pub fn new_plist(domain: &Domain) -> (payload: Payload)
        ensures
            is_random_uuid(payload.uuid),
            payload@ == Self::plist_spec(domain@, payload.uuid),
    {
        Self::plist_with_uuid(domain, fresh_uuid())
    }

    /// Makes the mail account payload of `domain` with a fresh random
    /// identifier number.
    pub fn new_domain(domain: &Domain) -> (payload: Payload)
        ensures
            is_random_uuid(payload.uuid),
            payload@ == Self::domain_spec(domain@, payload.uuid),
    {
        Self::domain_with_uuid(domain, fresh_uuid())
    }
}

} // verus!
