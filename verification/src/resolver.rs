//! Ordered source resolution: query each configured source manifest in
//! priority order and return the first match for the requested package.
//!
//! Fetching a manifest over the network is the application's work, so the
//! resolver is a small state machine: it names the source to fetch next,
//! is handed the outcome (`Some` body on success, `None` on any transport
//! failure), and decides. Per-source failures are expected and non-fatal;
//! only total exhaustion yields "not found".

use vstd::prelude::*;

use crate::manifest::{body_lookup, decode_manifest, lookup_package};

verus! {

/// The result of trying a sequence of fetched bodies in order: the URL
/// from the first body that yields one, if any. This is the meaning of
/// the whole resolution protocol once each source's fetch outcome is
/// fixed.
pub open spec fn resolve_spec(bodies: Seq<Option<String>>, package: Seq<char>) -> Option<String>
    decreases bodies.len(),
{
    if bodies.len() == 0 {
        None
    } else if body_lookup(bodies[0], package) is Some {
        body_lookup(bodies[0], package)
    } else {
        resolve_spec(bodies.drop_first(), package)
    }
}

/// The resolver returns the URL from the first source, in list order,
/// that both responded and contains the requested key; sources after the
/// first match are never consulted, so their entries for the same package
/// cannot influence the result.
pub proof fn lemma_resolver_first_match_wins(
    bodies: Seq<Option<String>>,
    package: Seq<char>,
    i: int,
)
    requires
        0 <= i < bodies.len(),
        body_lookup(bodies[i], package) is Some,
        forall|j: int| 0 <= j < i ==> body_lookup(#[trigger] bodies[j], package) is None,
    ensures
        resolve_spec(bodies, package) == body_lookup(bodies[i], package),
    decreases i,
{
    if i == 0 {
    } else {
        assert(body_lookup(bodies[0], package) is None);
        lemma_resolver_first_match_wins(bodies.drop_first(), package, i - 1);
        assert(bodies.drop_first()[i - 1] == bodies[i]);
        assert forall|j: int| 0 <= j < i - 1 implies body_lookup(
            #[trigger] bodies.drop_first()[j],
            package,
        ) is None by {
            assert(bodies.drop_first()[j] == bodies[j + 1]);
        }
    }
}

/// When no source yields a match — every source unreachable, every body
/// undecodable, or the key absent everywhere — resolution returns "not
/// found", not an error.
pub proof fn lemma_resolver_exhaustion(bodies: Seq<Option<String>>, package: Seq<char>)
    requires
        forall|j: int| 0 <= j < bodies.len() ==> body_lookup(#[trigger] bodies[j], package) is None,
    ensures
        resolve_spec(bodies, package) is None,
    decreases bodies.len(),
{
    if bodies.len() > 0 {
        lemma_resolver_exhaustion(bodies.drop_first(), package);
        assert forall|j: int| 0 <= j < bodies.drop_first().len() implies body_lookup(
            #[trigger] bodies.drop_first()[j],
            package,
        ) is None by {
            assert(bodies.drop_first()[j] == bodies[j + 1]);
        }
    }
}

proof fn lemma_resolve_spec_push(bodies: Seq<Option<String>>, package: Seq<char>, b: Option<String>)
    ensures
        resolve_spec(bodies.push(b), package) == if resolve_spec(bodies, package) is Some {
            resolve_spec(bodies, package)
        } else {
            body_lookup(b, package)
        },
    decreases bodies.len(),
{
    let e = bodies.push(b);
    assert(e.len() == bodies.len() + 1);
    if bodies.len() == 0 {
        assert(e[0] == b);
        assert(e.drop_first() =~= Seq::<Option<String>>::empty());
        assert(resolve_spec(e.drop_first(), package) is None);
        if body_lookup(b, package) is Some {
            assert(resolve_spec(e, package) == body_lookup(b, package));
        } else {
            assert(resolve_spec(e, package) == resolve_spec(e.drop_first(), package));
        }
    } else {
        assert(e[0] == bodies[0]);
        assert(e.drop_first() =~= bodies.drop_first().push(b));
        lemma_resolve_spec_push(bodies.drop_first(), package, b);
        if body_lookup(bodies[0], package) is Some {
            assert(resolve_spec(e, package) == body_lookup(bodies[0], package));
            assert(resolve_spec(bodies, package) == body_lookup(bodies[0], package));
        } else {
            assert(resolve_spec(e, package) == resolve_spec(e.drop_first(), package));
            assert(resolve_spec(bodies, package) == resolve_spec(bodies.drop_first(), package));
        }
    }
}

/// Once a prefix of the outcomes already resolves to a URL, the later
/// outcomes cannot change the result.
pub proof fn lemma_resolve_spec_take(bodies: Seq<Option<String>>, package: Seq<char>, k: int)
    requires
        0 <= k <= bodies.len(),
        resolve_spec(bodies.take(k), package) is Some,
    ensures
        resolve_spec(bodies, package) == resolve_spec(bodies.take(k), package),
    decreases k,
{
    let p = bodies.take(k);
    if p.len() == 0 {
    } else if body_lookup(p[0], package) is Some {
        assert(p[0] == bodies[0]);
    } else {
        assert(p[0] == bodies[0]);
        assert(p.drop_first() =~= bodies.drop_first().take(k - 1));
        lemma_resolve_spec_take(bodies.drop_first(), package, k - 1);
    }
}

/// One resolution attempt: the configured sources in priority order, the
/// requested package, and how many sources have been tried so far. The
/// ghost `offered` records the fetch outcomes handed in, in order; while
/// the machine is live none of them has matched.
pub struct Resolution {
    pub sources: Vec<String>,
    pub package: String,
    pub next: usize,
    pub offered: Ghost<Seq<Option<String>>>,
}

impl Resolution {
    pub open spec fn wf(&self) -> bool {
        &&& self.next <= self.sources@.len()
        &&& self.offered@.len() == self.next
        &&& resolve_spec(self.offered@, self.package@) is None
    }

    pub open spec fn exhausted_spec(&self) -> bool {
        self.next >= self.sources@.len()
    }

    pub fn new(sources: Vec<String>, package: String) -> (r: Self)
        ensures
            r.wf(),
            r.sources == sources,
            r.package == package,
            r.next == 0,
            r.offered@ == Seq::<Option<String>>::empty(),
    {
        Resolution { sources, package, next: 0, offered: Ghost(Seq::empty()) }
    }

    /// Whether every source has been tried without a match.
    pub fn exhausted(&self) -> (r: bool)
        ensures
            r == self.exhausted_spec(),
    {
        self.next >= self.sources.len()
    }

    /// The URL of the source to fetch next.
    pub fn pending_source(&self) -> (r: String)
        requires
            self.next < self.sources@.len(),
        ensures
            r == self.sources@[self.next as int],
    {
        self.sources[self.next].clone()
    }

    /// Hands the machine the outcome of fetching the pending source and
    /// returns the resolved URL if that source matched. The result is
    /// always the first match over every body offered so far, in order;
    /// on a miss the machine moves on to the next source.
    pub fn offer(&mut self, body: Option<String>) -> (r: Option<String>)
        requires
            old(self).wf(),
            old(self).next < old(self).sources@.len(),
        ensures
            final(self).sources == old(self).sources,
            final(self).package == old(self).package,
            final(self).offered@ == old(self).offered@.push(body),
            r == body_lookup(body, old(self).package@),
            r == resolve_spec(final(self).offered@, old(self).package@),
            r is None ==> final(self).wf() && final(self).next == old(self).next + 1,
            r is Some ==> final(self).next == old(self).next,
    {
        proof {
            lemma_resolve_spec_push(self.offered@, self.package@, body);
        }
        let found = match &body {
            Some(b) => match decode_manifest(b.as_str()) {
                Some(entries) => lookup_package(&entries, &self.package),
                None => None,
            },
            None => None,
        };
        self.offered = Ghost(self.offered@.push(body));
        let total: usize = self.sources.len();
        if found.is_none() && self.next < total {
            self.next = self.next + 1;
        }
        found
    }
}

pub(crate) fn clone_body(body: &Option<String>) -> (r: Option<String>)
    ensures
        r == *body,
{
    match body {
        Some(s) => Some(s.clone()),
        None => None,
    }
}

/// Tries each source in order against the fetch outcome recorded for it
/// and returns the first match: the try-each-source combinator over a
/// fixed sequence of outcomes.
pub fn resolve_with_bodies(sources: Vec<String>, package: &String, bodies: &Vec<Option<String>>) -> (r:
    Option<String>)
    requires
        bodies@.len() == sources@.len(),
    ensures
        r == resolve_spec(bodies@, package@),
{
    let ghost pkg = package@;
    let n: usize = bodies.len();
    let mut res = Resolution::new(sources, package.clone());
    proof {
        assert(bodies@.take(0) =~= Seq::<Option<String>>::empty());
    }
    let mut i: usize = 0;
    while i < n
        invariant
            res.wf(),
            pkg == package@,
            res.package@ == pkg,
            res.sources@.len() == n,
            bodies@.len() == n,
            res.next == i,
            i <= n,
            res.offered@ == bodies@.take(i as int),
        decreases n - i,
    {
        let body = clone_body(&bodies[i]);
        let found = res.offer(body);
        proof {
            assert(res.offered@ =~= bodies@.take(i + 1));
        }
        if let Some(url) = found {
            proof {
                assert(resolve_spec(bodies@.take(i + 1), pkg) == Some(url));
                lemma_resolve_spec_take(bodies@, pkg, i + 1);
            }
            return Some(url);
        }
        i = i + 1;
    }
    proof {
        assert(bodies@.take(n as int) =~= bodies@);
    }
    None
}

} // verus!
