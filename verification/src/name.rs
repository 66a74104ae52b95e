//! Normalized domain names, the keys of the record store.
//!
//! Matching is case-insensitive and trailing-dot-normalized: two spellings
//! that normalize identically address the same store entry.

use vstd::prelude::*;

verus! {

/// The textual name given at registration cannot be parsed as a DNS name.
#[derive(Clone, Copy, PartialEq, Eq, Structural, Debug)]
pub struct NameError;

/// The canonical byte form that the outside name parser assigns to a textual
/// domain name: lower-cased, with a trailing dot, or `None` where the text is
/// not a valid DNS name in presentation form.
pub uninterp spec fn dns_normal_form(s: Seq<char>) -> Option<Seq<u8>>;

/// Relies on `hickory_proto::rr::Name::from_str` to parse a DNS name in
/// presentation form (rejecting it where it is invalid), on `Name::set_fqdn`
/// to make the trailing-dot form canonical, and on the lowering done by
/// `hickory_proto::rr::LowerName::from` together with its display form to
/// produce the lower-cased text.  The result depends on the characters of the
/// input alone.
#[verifier::external_body]
fn normalize_dns_name(s: &str) -> (r: Option<Vec<u8>>)
    ensures
        r matches Some(b) ==> dns_normal_form(s@) == Some(b@),
        r is None <==> dns_normal_form(s@) is None,
{
    match <hickory_proto::rr::Name as core::str::FromStr>::from_str(s) {
        Ok(mut parsed) => {
            parsed.set_fqdn(true);
            let lowered = hickory_proto::rr::LowerName::from(parsed);
            Some(format!("{lowered}").into_bytes())
        }
        Err(_) => None,
    }
}

/// A domain name in canonical form: lower case, with a trailing dot.
///
/// Values are only produced by [`NormalizedName::parse`], so every value of
/// this type is the normal form of some valid textual name.
pub struct NormalizedName {
    bytes: Vec<u8>,
}

impl View for NormalizedName {
    type V = Seq<u8>;

    closed spec fn view(&self) -> Seq<u8> {
        self.bytes@
    }
}

impl NormalizedName {
    /// Parses a textual domain name into its canonical form.
    ///
    /// An empty string is rejected outright: a name is required here.  Any
    /// other text is rejected exactly when it is not a valid DNS name.
    pub fn parse(s: &str) -> (r: Result<NormalizedName, NameError>)
        ensures
            r matches Ok(n) ==> dns_normal_form(s@) == Some(n@),
            r is Err <==> s@.len() == 0 || dns_normal_form(s@) is None,
    {
        if s.unicode_len() == 0 {
            return Err(NameError);
        }
        match normalize_dns_name(s) {
            Some(bytes) => Ok(NormalizedName { bytes }),
            None => Err(NameError),
        }
    }

    /// Whether two normalized names are the same name.
    pub fn same_as(&self, other: &NormalizedName) -> (r: bool)
        ensures
            r == (self@ == other@),
    {
        if self.bytes.len() != other.bytes.len() {
            return false;
        }
        let mut i: usize = 0;
        while i < self.bytes.len()
            invariant
                i <= self.bytes.len(),
                self.bytes.len() == other.bytes.len(),
                forall|j: int| 0 <= j < i ==> self.bytes@[j] == other.bytes@[j],
            decreases self.bytes.len() - i,
        {
            if self.bytes[i] != other.bytes[i] {
                return false;
            }
            i = i + 1;
        }
        proof {
            assert(self@ =~= other@);
        }
        true
    }
}

} // verus!
