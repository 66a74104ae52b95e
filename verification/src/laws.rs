//! The laws of the responder, stated over the store model and
//! [`resolution`], the spec that [`crate::server::Server::resolve`] is
//! proved against.

use vstd::prelude::*;

use crate::name::dns_normal_form;
use crate::records::{Answer, IpAddress, ResponseView, StatusCode, RECORD_TTL};
use crate::server::{resolution, Fallback};

verus! {

/// Querying a registered name returns all of its registered addresses, in
/// registration order, each with the fixed TTL, with response code success
/// and the authoritative flag set — under either fallback policy.
pub proof fn lemma_registered_addresses_are_answered(
    store: Map<Seq<u8>, ResponseView>,
    name: Seq<u8>,
    addrs: Seq<IpAddress>,
    fallback: Fallback,
    source: IpAddress,
)
    ensures
        ({
            let r = resolution(
                store.insert(name, ResponseView::Addresses(addrs)),
                fallback,
                name,
                source,
            );
            &&& r.authoritative
            &&& r.code == StatusCode::NoError
            &&& r.answers.len() == addrs.len()
            &&& forall|i: int| 0 <= i < addrs.len() ==> r.answers[i]
                == (Answer { address: addrs[i], ttl: RECORD_TTL })
        }),
{
}

/// Querying a name that was never registered returns response code "server
/// failure" and zero answer records under the default fallback policy.
pub proof fn lemma_unregistered_names_fail(
    store: Map<Seq<u8>, ResponseView>,
    name: Seq<u8>,
    source: IpAddress,
)
    requires
        !store.contains_key(name),
    ensures
        ({
            let r = resolution(store, Fallback::ServerFailure, name, source);
            &&& r.authoritative
            &&& r.code == StatusCode::ServFail
            &&& r.answers.len() == 0
        }),
{
}

/// Querying a name registered with a bare status code returns exactly that
/// code and zero answer records; registered as name-error it is thereby
/// distinguishable from the unregistered-name default of server failure.
pub proof fn lemma_registered_status_is_returned(
    store: Map<Seq<u8>, ResponseView>,
    name: Seq<u8>,
    code: StatusCode,
    fallback: Fallback,
    source: IpAddress,
)
    ensures
        ({
            let r = resolution(store.insert(name, ResponseView::Code(code)), fallback, name, source);
            &&& r.authoritative
            &&& r.code == code
            &&& r.answers.len() == 0
        }),
        code == StatusCode::NXDomain ==> resolution(
            store.insert(name, ResponseView::Code(code)),
            fallback,
            name,
            source,
        ).code != StatusCode::ServFail,
{
}

/// Two textual spellings with the same normal form address the same store
/// entry: whatever is registered under one is found by a query spelled the
/// other way.  Together with the normalization of the name parser this is
/// what makes matching case-insensitive and trailing-dot-normalized.
pub proof fn lemma_equal_normal_forms_match(
    store: Map<Seq<u8>, ResponseView>,
    spelling1: Seq<char>,
    spelling2: Seq<char>,
    outcome: ResponseView,
    fallback: Fallback,
    source: IpAddress,
)
    ensures
        (dns_normal_form(spelling1) is Some && dns_normal_form(spelling1) == dns_normal_form(
            spelling2,
        )) ==> ({
            let registered = store.insert(dns_normal_form(spelling1)->0, outcome);
            &&& registered.contains_key(dns_normal_form(spelling2)->0)
            &&& resolution(registered, fallback, dns_normal_form(spelling2)->0, source)
                == resolution(registered, fallback, dns_normal_form(spelling1)->0, source)
        }),
{
}

/// Re-registering a name overwrites: the store after two registrations of
/// the same name resolves that name exactly as if only the later one had
/// happened.
pub proof fn lemma_later_registration_wins(
    store: Map<Seq<u8>, ResponseView>,
    name: Seq<u8>,
    earlier: ResponseView,
    later: ResponseView,
    fallback: Fallback,
    source: IpAddress,
)
    ensures
        resolution(store.insert(name, earlier).insert(name, later), fallback, name, source)
            == resolution(store.insert(name, later), fallback, name, source),
{
}

/// In the opt-in echo mode, querying an unregistered name answers
/// successfully with exactly one record carrying the requester's source
/// address.
pub proof fn lemma_echo_mode_returns_source(
    store: Map<Seq<u8>, ResponseView>,
    name: Seq<u8>,
    source: IpAddress,
)
    requires
        !store.contains_key(name),
    ensures
        ({
            let r = resolution(store, Fallback::EchoSource, name, source);
            &&& r.authoritative
            &&& r.code == StatusCode::NoError
            &&& r.answers =~= seq![Answer { address: source, ttl: RECORD_TTL }]
        }),
{
}

} // verus!
