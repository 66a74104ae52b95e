//! The record store and the query resolver.

use vstd::prelude::*;

use crate::name::{dns_normal_form, NameError, NormalizedName};
use crate::records::{
    Answer, IpAddress, Reply, ReplyView, Response, ResponseView, StatusCode, RECORD_TTL,
};

verus! {

/// What an unregistered name resolves to.
///
/// The two policies are mutually exclusive test semantics: a server answers
/// unknown names either with a server-failure status or, in the opt-in echo
/// mode, with the requester's own source address.
#[derive(Clone, Copy, PartialEq, Eq, Structural, Debug)]
pub enum Fallback {
    /// Answer unregistered names with response code "server failure".
    ServerFailure,
    /// Answer unregistered names with the requester's source address.
    EchoSource,
}

/// One registration: a normalized name and its configured outcome.
struct Entry {
    name: NormalizedName,
    response: Response,
}

/// A mock DNS responder.
///
/// Construct one with [`Server::default`], register mappings, then hand it to
/// the run loop.  Registration must be complete before the server starts
/// serving: the store is read-only from then on.
pub struct Server {
    entries: Vec<Entry>,
    fallback: Fallback,
}

/// The store a sequence of registrations denotes: later registrations of a
/// name shadow earlier ones.
spec fn store_map(entries: Seq<Entry>) -> Map<Seq<u8>, ResponseView>
    decreases entries.len(),
{
    if entries.len() == 0 {
        Map::empty()
    } else {
        store_map(entries.drop_last()).insert(entries.last().name@, entries.last().response@)
    }
}

impl View for Server {
    type V = Map<Seq<u8>, ResponseView>;

    closed spec fn view(&self) -> Map<Seq<u8>, ResponseView> {
        store_map(self.entries@)
    }
}

proof fn lemma_store_map_last_match(entries: Seq<Entry>, k: Seq<u8>, i: int)
    requires
        0 <= i < entries.len(),
        entries[i].name@ == k,
        forall|j: int| i < j < entries.len() ==> entries[j].name@ != k,
    ensures
        store_map(entries).contains_key(k),
        store_map(entries)[k] == entries[i].response@,
    decreases entries.len(),
{
    if i < entries.len() - 1 {
        lemma_store_map_last_match(entries.drop_last(), k, i);
    }
}

proof fn lemma_store_map_no_match(entries: Seq<Entry>, k: Seq<u8>)
    requires
        forall|j: int| 0 <= j < entries.len() ==> entries[j].name@ != k,
    ensures
        !store_map(entries).contains_key(k),
    decreases entries.len(),
{
    if entries.len() > 0 {
        lemma_store_map_no_match(entries.drop_last(), k);
    }
}

impl Default for Server {
    /// An empty responder with the server-failure fallback.
    fn default() -> (r: Server)
        ensures
            r@ == Map::<Seq<u8>, ResponseView>::empty(),
            r.policy() == Fallback::ServerFailure,
    {
        Server { entries: Vec::new(), fallback: Fallback::ServerFailure }
    }
}

impl Server {
    /// The configured fallback policy for unregistered names.
    pub closed spec fn policy(&self) -> Fallback {
        self.fallback
    }

    /// Chooses the fallback policy for unregistered names.
    ///
    /// Like registration, this must be done before the server starts serving.
    pub fn set_fallback(&mut self, fallback: Fallback)
        ensures
            final(self)@ == old(self)@,
            final(self).policy() == fallback,
    {
        self.fallback = fallback;
    }

    /// Registers an outcome for a textual name, overwriting any earlier
    /// registration of the same normalized name.
    ///
    /// Fails with [`NameError`] exactly when the text is empty or cannot be
    /// parsed as a DNS name; the store is unchanged then.
    pub fn add_response(&mut self, name: &str, response: Response) -> (r: Result<(), NameError>)
        ensures
            final(self).policy() == old(self).policy(),
            r is Ok ==> (dns_normal_form(name@) matches Some(k)
                && final(self)@ == old(self)@.insert(k, response@)),
            r is Err <==> (name@.len() == 0 || dns_normal_form(name@) is None),
            r is Err ==> final(self)@ == old(self)@,
    {
        match NormalizedName::parse(name) {
            Ok(parsed) => {
                let ghost before = self.entries@;
                self.entries.push(Entry { name: parsed, response });
                proof {
                    assert(self.entries@.drop_last() =~= before);
                }
                Ok(())
            }
            Err(e) => Err(e),
        }
    }

    /// Registers a list of addresses for a textual name, to be answered in
    /// this order, overwriting any earlier registration of the same
    /// normalized name.
    ///
    /// Fails with [`NameError`] exactly when the text is empty or cannot be
    /// parsed as a DNS name; the store is unchanged then.
    pub fn add_records(&mut self, name: &str, records: Vec<IpAddress>) -> (r: Result<(), NameError>)
        ensures
            final(self).policy() == old(self).policy(),
            r is Ok ==> (dns_normal_form(name@) matches Some(k)
                && final(self)@ == old(self)@.insert(k, ResponseView::Addresses(records@))),
            r is Err <==> (name@.len() == 0 || dns_normal_form(name@) is None),
            r is Err ==> final(self)@ == old(self)@,
    {
        self.add_response(name, Response::Addresses(records))
    }

    /// Looks up the outcome registered for a normalized name.
    ///
    /// Pure and exact: no wildcard or suffix matching, so an unregistered
    /// subdomain of a registered domain is itself unregistered.
    pub fn lookup(&self, name: &NormalizedName) -> (r: Option<&Response>)
        ensures
            r matches Some(response) ==> (self@.contains_key(name@)
                && self@[name@] == response@),
            r is None <==> !self@.contains_key(name@),
    {
        let mut i: usize = self.entries.len();
        while i > 0
            invariant
                i <= self.entries.len(),
                forall|j: int| i <= j < self.entries@.len() ==> self.entries@[j].name@ != name@,
            decreases i,
        {
            i = i - 1;
            if self.entries[i].name.same_as(name) {
                proof {
                    lemma_store_map_last_match(self.entries@, name@, i as int);
                }
                return Some(&self.entries[i].response);
            }
        }
        proof {
            lemma_store_map_no_match(self.entries@, name@);
        }
        None
    }

    /// Resolves one query against the store, producing the response
    /// descriptor [`resolution`] prescribes: the registered addresses as
    /// answer records in registration order, a registered bare status code
    /// with no answers, or the fallback outcome for unregistered names.
    ///
    /// `source` is the requester's source address; it is answered back only
    /// under the [`Fallback::EchoSource`] policy.  Resolution itself cannot
    /// fail: every query gets a descriptor.
    pub fn resolve(&self, query: &NormalizedName, source: &IpAddress) -> (r: Reply)
        ensures
            r@ == resolution(self@, self.policy(), query@, *source),
    {
        match self.lookup(query) {
            Some(found) => match found {
                Response::Addresses(addrs) => {
                    let mut answers: Vec<Answer> = Vec::new();
                    let mut i: usize = 0;
                    while i < addrs.len()
                        invariant
                            i <= addrs.len(),
                            answers@.len() == i,
                            forall|j: int| 0 <= j < i ==> answers@[j]
                                == (Answer { address: addrs@[j], ttl: RECORD_TTL }),
                        decreases addrs.len() - i,
                    {
                        answers.push(Answer { address: addrs[i], ttl: RECORD_TTL });
                        i = i + 1;
                    }
                    proof {
                        assert(answers@ =~= rendered_answers(addrs@));
                    }
                    Reply { authoritative: true, code: StatusCode::NoError, answers }
                }
                Response::Code(code) => {
                    let reply = Reply { authoritative: true, code: *code, answers: Vec::new() };
                    proof {
                        assert(reply.answers@ =~= Seq::<Answer>::empty());
                    }
                    reply
                }
            },
            None => match self.fallback {
                Fallback::ServerFailure => {
                    let reply = Reply {
                        authoritative: true,
                        code: StatusCode::ServFail,
                        answers: Vec::new(),
                    };
                    proof {
                        assert(reply.answers@ =~= Seq::<Answer>::empty());
                    }
                    reply
                }
                Fallback::EchoSource => {
                    let mut answers: Vec<Answer> = Vec::new();
                    answers.push(Answer { address: *source, ttl: RECORD_TTL });
                    proof {
                        assert(answers@ =~= seq![Answer { address: *source, ttl: RECORD_TTL }]);
                    }
                    Reply { authoritative: true, code: StatusCode::NoError, answers }
                }
            },
        }
    }
}

/// The answer section that a registered address list is rendered to: one
/// record per address, in order, each with the fixed TTL.
pub open spec fn rendered_answers(addrs: Seq<IpAddress>) -> Seq<Answer> {
    addrs.map_values(|a: IpAddress| Answer { address: a, ttl: RECORD_TTL })
}

/// The response every query is owed: always authoritative; a registered
/// address list answers successfully with its rendered records, a registered
/// status code answers with that code and no records, and an unregistered
/// name answers by the fallback policy — server failure, or in the opt-in
/// echo mode a single record carrying the requester's source address.
pub open spec fn resolution(
    store: Map<Seq<u8>, ResponseView>,
    fallback: Fallback,
    query: Seq<u8>,
    source: IpAddress,
) -> ReplyView {
    if store.contains_key(query) {
        match store[query] {
            ResponseView::Addresses(addrs) => ReplyView {
                authoritative: true,
                code: StatusCode::NoError,
                answers: rendered_answers(addrs),
            },
            ResponseView::Code(code) => ReplyView {
                authoritative: true,
                code: code,
                answers: Seq::empty(),
            },
        }
    } else {
        match fallback {
            Fallback::ServerFailure => ReplyView {
                authoritative: true,
                code: StatusCode::ServFail,
                answers: Seq::empty(),
            },
            Fallback::EchoSource => ReplyView {
                authoritative: true,
                code: StatusCode::NoError,
                answers: seq![Answer { address: source, ttl: RECORD_TTL }],
            },
        }
    }
}

} // verus!
