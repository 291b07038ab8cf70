//! Which redirects may carry the provider's credential.
//!
//! The client holds one static credential. Before it follows a redirect, the
//! credential is taken out of the request unless the redirect stays with the
//! trusted provider: its target is the trusted domain or one of its
//! subdomains.

use crate::text::chars_of;
use vstd::prelude::*;

verus! {

/// The domain name that `url` parses a URL with, where it has one: `None` for
/// a text that is no URL, and for a URL whose host is an address or missing.
pub uninterp spec fn url_domain(url: Seq<char>) -> Option<Seq<char>>;

/// Parses a URL with `url::Url::parse` and hands out what `url::Url::domain`
/// gives for it.
#[verifier::external_body]
fn domain_of(url: &str) -> (domain: Option<String>)
    ensures
        match domain {
            Some(name) => url_domain(url@) == Some(name@),
            None => url_domain(url@) is None,
        },
{
    match url::Url::parse(url) {
        Ok(parsed) => match parsed.domain() {
            Some(name) => Some(name.to_string()),
            None => None,
        },
        Err(_) => None,
    }
}

/// Whether `host` is `domain` or a subdomain of it: it ends with `domain`, and
/// what stands before, if anything, ends with the full stop that closes a
/// label.
pub open spec fn is_domain_or_subdomain(host: Seq<char>, domain: Seq<char>) -> bool {
    &&& host.len() >= domain.len()
    &&& host.skip(host.len() - domain.len()) == domain
    &&& (host.len() == domain.len() || host[host.len() - domain.len() - 1] == '.')
}

/// Whether a header of this name carries the credential: the name is
/// `authorization`, in any mix of upper and lower case.
pub open spec fn is_credential_name(name: Seq<char>) -> bool {
    &&& name.len() == "authorization"@.len()
    &&& forall|i: int|
        0 <= i < name.len() ==> #[trigger] name[i] == "authorization"@[i] || name[i]
            == "AUTHORIZATION"@[i]
}

/// How many redirects one request follows at most.
pub const REDIRECT_LIMIT: usize = 10;

/// What is done with the answer to a request.
#[derive(Clone, Copy, PartialEq, Eq, Structural, Debug)]
pub enum Hop {
    /// The answer is no redirect: it is the answer to the request.
    Deliver,
    /// The answer is a redirect that is followed.
    Follow,
    /// The answer is one redirect too many: the request fails.
    GiveUp,
}

/// What is done with an answer after `followed` redirects were followed: a
/// redirect is followed as long as the limit is not reached.
pub open spec fn hop_after(is_redirect: bool, followed: int) -> Hop {
    if !is_redirect {
        Hop::Deliver
    } else if followed < REDIRECT_LIMIT {
        Hop::Follow
    } else {
        Hop::GiveUp
    }
}

/// Decides what is done with an answer after `followed` redirects were
/// followed.
pub fn next_hop(is_redirect: bool, followed: usize) -> (hop: Hop)
    ensures
        hop == hop_after(is_redirect, followed as int),
{
    if !is_redirect {
        Hop::Deliver
    } else if followed < REDIRECT_LIMIT {
        Hop::Follow
    } else {
        Hop::GiveUp
    }
}

/// One header of a request.
#[derive(Debug, PartialEq)]
pub struct Header {
    pub name: String,
    pub value: String,
    /// Whether the value is to be kept out of logs.
    pub sensitive: bool,
}

impl Header {
    pub fn new(name: &str, value: &str, sensitive: bool) -> (header: Header)
        ensures
            header.name@ == name@,
            header.value@ == value@,
            header.sensitive == sensitive,
    {
        Header { name: String::from_str(name), value: String::from_str(value), sensitive }
    }

    /// Whether the header carries the credential.
    pub fn is_credential(&self) -> (b: bool)
        ensures
            b == is_credential_name(self.name@),
    {
        let name = chars_of(self.name.as_str());
        let lower = chars_of("authorization");
        let upper = chars_of("AUTHORIZATION");
        proof {
            reveal_strlit("authorization");
            reveal_strlit("AUTHORIZATION");
        }
        if name.len() != lower.len() {
            return false;
        }
        let mut i: usize = 0;
        while i < name.len()
            invariant
                name@ == self.name@,
                lower@ == "authorization"@,
                upper@ == "AUTHORIZATION"@,
                name@.len() == lower@.len(),
                lower@.len() == upper@.len(),
                i <= name@.len(),
                forall|j: int|
                    0 <= j < i ==> #[trigger] name@[j] == lower@[j] || name@[j] == upper@[j],
            decreases name@.len() - i,
        {
            if name[i] != lower[i] && name[i] != upper[i] {
                return false;
            }
            i += 1;
        }
        true
    }
}

impl Clone for Header {
    fn clone(&self) -> (r: Self)
        ensures
            r == *self,
    {
        Header { name: self.name.clone(), value: self.value.clone(), sensitive: self.sensitive }
    }
}

/// The headers that carry no credential, in their order.
pub open spec fn without_credentials(headers: Seq<Header>) -> Seq<Header>
    decreases headers.len(),
{
    if headers.len() == 0 {
        Seq::empty()
    } else if is_credential_name(headers.last().name@) {
        without_credentials(headers.drop_last())
    } else {
        without_credentials(headers.drop_last()).push(headers.last())
    }
}

/// The policy: redirects to the trusted domain and its subdomains keep the
/// credential, all others lose it.
#[derive(Debug)]
pub struct AllowCrossOrigin {
    trusted_domain: String,
}

impl AllowCrossOrigin {
    /// The domain whose redirects keep the credential.
    pub closed spec fn trusted(&self) -> Seq<char> {
        self.trusted_domain@
    }

    /// Whether a redirect to `next` keeps the credential: `next` is a URL whose
    /// host is a domain name, and that name is the trusted domain or a subdomain
    /// of it.
    pub open spec fn keeps_credential(&self, next: Seq<char>) -> bool {
        match url_domain(next) {
            Some(host) => is_domain_or_subdomain(host, self.trusted()),
            None => false,
        }
    }

    pub fn new(trusted_domain: &str) -> (policy: Self)
        ensures
            policy.trusted() == trusted_domain@,
    {
        Self { trusted_domain: String::from_str(trusted_domain) }
    }

    /// Whether `host` is the trusted domain or a subdomain of it.
    pub fn trusts(&self, host: &str) -> (trusted: bool)
        ensures
            trusted == is_domain_or_subdomain(host@, self.trusted()),
    {
        let name = chars_of(host);
        let domain = chars_of(self.trusted_domain.as_str());
        let total = name.len();
        if total < domain.len() {
            return false;
        }
        let offset = total - domain.len();
        let mut i: usize = 0;
        while i < domain.len()
            invariant
                name@ == host@,
                domain@ == self.trusted(),
                total == name@.len(),
                offset + domain@.len() == total,
                i <= domain@.len(),
                forall|j: int| 0 <= j < i ==> name@[offset + j] == domain@[j],
            decreases domain@.len() - i,
        {
            if name[offset + i] != domain[i] {
                assert(name@.skip(offset as int)[i as int] != domain@[i as int]);
                return false;
            }
            i += 1;
        }
        assert(name@.skip(offset as int) =~= domain@);
        offset == 0 || name[offset - 1] == '.'
    }

    /// Whether a redirect to the URL `next` keeps the credential.
    pub fn retains_credentials(&self, next: &str) -> (keeps: bool)
        ensures
            keeps == self.keeps_credential(next@),
    {
        match domain_of(next) {
            Some(host) => self.trusts(host.as_str()),
            None => false,
        }
    }

    /// Prepares the headers of a request for the redirect to the URL `next`:
    /// the headers that carry the credential are removed unless the redirect
    /// keeps it. All other headers stay, in their order.
    pub fn handle_sensitive_headers(&self, headers: &mut Vec<Header>, next: &str)
        ensures
            final(headers)@ == if self.keeps_credential(next@) {
                old(headers)@
            } else {
                without_credentials(old(headers)@)
            },
    {
        if self.retains_credentials(next) {
            return ;
        }
        let mut kept: Vec<Header> = Vec::new();
        let mut i: usize = 0;
        assert(headers@.take(0) == Seq::<Header>::empty());
        while i < headers.len()
            invariant
                i <= headers@.len(),
                kept@ == without_credentials(headers@.take(i as int)),
            decreases headers@.len() - i,
        {
            proof {
                let next_part = headers@.take(i + 1);
                assert(next_part.drop_last() == headers@.take(i as int));
                assert(next_part.last() == headers@[i as int]);
            }
            if !headers[i].is_credential() {
                kept.push(headers[i].clone());
            }
            i += 1;
        }
        assert(headers@.take(i as int) == headers@);
        *headers = kept;
    }
}

impl Default for AllowCrossOrigin {
    /// The policy of the ocean colour provider, whose services live under
    /// `nasa.gov`.
    fn default() -> (policy: Self)
        ensures
            policy.trusted() == "nasa.gov"@,
    {
        AllowCrossOrigin::new("nasa.gov")
    }
}

/// No header that is left after the credential was taken out carries it.
pub proof fn lemma_without_credentials_is_clean(headers: Seq<Header>, i: int)
    requires
        0 <= i < without_credentials(headers).len(),
    ensures
        !is_credential_name(without_credentials(headers)[i].name@),
    decreases headers.len(),
{
    if headers.len() > 0 {
        let rest = without_credentials(headers.drop_last());
        if is_credential_name(headers.last().name@) {
            lemma_without_credentials_is_clean(headers.drop_last(), i);
        } else if i < rest.len() {
            lemma_without_credentials_is_clean(headers.drop_last(), i);
        }
    }
}

/// A domain is trusted under itself, and so is every name made of a label, a
/// full stop and a trusted name.
pub proof fn lemma_subdomains_are_trusted(domain: Seq<char>, label: Seq<char>)
    ensures
        is_domain_or_subdomain(domain, domain),
        is_domain_or_subdomain(label + seq!['.'] + domain, domain),
{
    assert(domain.skip(0) == domain);
    let host = label + seq!['.'] + domain;
    assert(host.skip(host.len() - domain.len()) == domain);
    assert(host[host.len() - domain.len() - 1] == '.');
}

/// A name that merely ends with the letters of the trusted domain, without a
/// full stop before them, is not trusted.
pub proof fn lemma_lookalikes_are_not_trusted(domain: Seq<char>, prefix: Seq<char>)
    requires
        prefix.len() > 0,
        prefix.last() != '.',
    ensures
        !is_domain_or_subdomain(prefix + domain, domain),
{
    let host = prefix + domain;
    assert(host[host.len() - domain.len() - 1] == prefix.last());
}

} // verus!
