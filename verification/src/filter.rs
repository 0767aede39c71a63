//! Filters over subject strings: a regular-expression pattern plus a
//! polarity. `Additive` rejects a subject that matches the pattern;
//! `Subtractive` rejects a subject that does not match it. A `FilterChain`
//! combines filters with logical AND: the chain accepts a subject exactly
//! when every filter in it accepts the subject.

use vstd::prelude::*;

verus! {

/// Whether the regular expression `pattern` is a valid pattern (compiles).
/// Named for the success of `regex::Regex::new`; a function of the pattern
/// text alone.
pub uninterp spec fn regex_valid(pattern: Seq<char>) -> bool;

/// Whether `subject` matches the regular expression `pattern` anywhere.
/// Named for the result of `regex::Regex::is_match`; a function of the
/// pattern text and the subject alone.
pub uninterp spec fn regex_match(pattern: Seq<char>, subject: Seq<char>) -> bool;

/// Relies on `regex::Regex::new` and `regex::Regex::is_match`: compiles
/// `pattern` and tests whether `subject` matches it anywhere. Returns `None`
/// exactly when the pattern is not a valid regular expression. Both results
/// depend on the two strings alone.
#[verifier::external_body]
fn regex_is_match(pattern: &str, subject: &str) -> (r: Option<bool>)
    ensures
        regex_valid(pattern@) ==> r == Some(regex_match(pattern@, subject@)),
        !regex_valid(pattern@) ==> r is None,
{
    match regex::Regex::new(pattern) {
        Ok(re) => Some(re.is_match(subject)),
        Err(_) => None,
    }
}

/// Whether `pattern` is a valid regular expression.
pub fn pattern_is_valid(pattern: &str) -> (r: bool)
    ensures
        r == regex_valid(pattern@),
{
    regex_is_match(pattern, "").is_some()
}

/// Whether `pattern` is a valid regular expression that matches `subject`
/// anywhere. An invalid pattern matches nothing.
pub fn pattern_matches(pattern: &str, subject: &str) -> (r: bool)
    ensures
        r == (regex_valid(pattern@) && regex_match(pattern@, subject@)),
{
    match regex_is_match(pattern, subject) {
        Some(b) => b,
        None => false,
    }
}

/// Which way a filter's match condition points: `Additive` means "reject the
/// subject if it matches the pattern", `Subtractive` means "reject the
/// subject if it does NOT match the pattern".
#[derive(Clone, Copy, PartialEq, Eq, Structural)]
pub enum Polarity {
    Additive,
    Subtractive,
}

/// The early-exit control signal of a rejecting filter. It carries no
/// payload: a rejection only aborts the formatting pipeline for one event
/// and is never surfaced to the event producer.
pub struct Rejected;

/// One predicate over a subject string: a regular-expression pattern and a
/// polarity. Immutable after construction.
pub struct Filter {
    pattern: String,
    polarity: Polarity,
}

impl Filter {
    /// The pattern text of this filter.
    pub closed spec fn spec_pattern(self) -> Seq<char> {
        self.pattern@
    }

    /// The polarity of this filter.
    pub closed spec fn spec_polarity(self) -> Polarity {
        self.polarity
    }

    /// A well-formed filter holds a valid regular expression. `new` returns
    /// only well-formed filters.
    pub open spec fn wf(self) -> bool {
        regex_valid(self.spec_pattern())
    }

    /// Whether this filter rejects `subject`: an `Additive` filter rejects a
    /// matching subject, a `Subtractive` filter rejects a non-matching one.
    pub open spec fn rejects(self, subject: Seq<char>) -> bool {
        match self.spec_polarity() {
            Polarity::Additive => regex_match(self.spec_pattern(), subject),
            Polarity::Subtractive => !regex_match(self.spec_pattern(), subject),
        }
    }

    /// Build a filter from a pattern and a polarity. Fails exactly when the
    /// pattern is not a valid regular expression.
    pub fn new(pattern: String, polarity: Polarity) -> (r: Result<Filter, Rejected>)
        ensures
            r is Ok <==> regex_valid(pattern@),
            r is Ok ==> {
                let f = r->Ok_0;
                &&& f.spec_pattern() == pattern@
                &&& f.spec_polarity() == polarity
                &&& f.wf()
            },
    {
        let probe = regex_is_match(pattern.as_str(), "");
        match probe {
            Some(_) => Ok(Filter { pattern, polarity }),
            None => Err(Rejected),
        }
    }

    /// Run this filter on one subject. Accepts (returns `Ok`) exactly when
    /// the filter is well-formed and does not reject the subject; a filter
    /// whose pattern does not compile rejects everything.
    pub fn process(&self, subject: &str) -> (r: Result<(), Rejected>)
        ensures
            r is Ok <==> (self.wf() && !self.rejects(subject@)),
    {
        match regex_is_match(self.pattern.as_str(), subject) {
            Some(matched) => {
                let reject = match self.polarity {
                    Polarity::Additive => matched,
                    Polarity::Subtractive => !matched,
                };
                if reject {
                    Err(Rejected)
                } else {
                    Ok(())
                }
            },
            None => Err(Rejected),
        }
    }
}

/// The polarity law: a `Subtractive` filter rejects a subject exactly when
/// the subject does not match the pattern; an `Additive` filter rejects it
/// exactly when the subject does match.
pub proof fn lemma_filter_polarity(f: Filter, subject: Seq<char>)
    ensures
        f.spec_polarity() == Polarity::Subtractive ==> (f.rejects(subject) <==> !regex_match(
            f.spec_pattern(),
            subject,
        )),
        f.spec_polarity() == Polarity::Additive ==> (f.rejects(subject) <==> regex_match(
            f.spec_pattern(),
            subject,
        )),
{
}

/// An ordered collection of filters combined with logical AND. Order matters
/// only for early exit, not for the boolean result.
pub struct FilterChain {
    filters: Vec<Filter>,
}

impl FilterChain {
    /// The filters of this chain, in order.
    pub closed spec fn spec_filters(self) -> Seq<Filter> {
        self.filters@
    }

    /// A chain is well-formed when every filter in it is.
    pub open spec fn wf(self) -> bool {
        forall|i: int| 0 <= i < self.spec_filters().len() ==> (#[trigger] self.spec_filters()[i]).wf()
    }

    /// Whether this chain rejects `subject`: it does exactly when some
    /// filter in it rejects the subject.
    pub open spec fn rejects(self, subject: Seq<char>) -> bool {
        exists|i: int|
            0 <= i < self.spec_filters().len() && (#[trigger] self.spec_filters()[i]).rejects(
                subject,
            )
    }

    /// An empty chain: the accept-everything identity that stands in for an
    /// absent optional chain.
    pub fn empty() -> (r: FilterChain)
        ensures
            r.spec_filters() == Seq::<Filter>::empty(),
            r.wf(),
            forall|s: Seq<char>| !r.rejects(s),
    {
        FilterChain { filters: Vec::new() }
    }

    /// A chain holding one filter.
    pub fn single(f: Filter) -> (r: FilterChain)
        ensures
            r.spec_filters() =~= seq![f],
    {
        let mut filters: Vec<Filter> = Vec::new();
        filters.push(f);
        FilterChain { filters }
    }

    /// Append one more filter to the chain.
    pub fn push(&mut self, f: Filter)
        ensures
            final(self).spec_filters() =~= old(self).spec_filters().push(f),
    {
        self.filters.push(f);
    }

    /// Run the chain on one subject, left to right, stopping at the first
    /// rejection. Accepts exactly when the chain is well-formed and every
    /// filter in it accepts the subject.
    pub fn process(&self, subject: &str) -> (r: Result<(), Rejected>)
        ensures
            r is Ok <==> (self.wf() && !self.rejects(subject@)),
    {
        let n = self.filters.len();
        let mut i: usize = 0;
        while i < n
            invariant
                n == self.spec_filters().len(),
                0 <= i <= n,
                forall|j: int|
                    0 <= j < i ==> (#[trigger] self.spec_filters()[j]).wf()
                        && !self.spec_filters()[j].rejects(subject@),
            decreases n - i,
        {
            let f = &self.filters[i];
            if f.process(subject).is_err() {
                return Err(Rejected);
            }
            i = i + 1;
        }
        Ok(())
    }
}

/// The AND-composition law: a chain of two filters rejects a subject exactly
/// when either filter alone rejects it, and accepts only subjects that both
/// accept.
pub proof fn lemma_chain_and_composition(c: FilterChain, f1: Filter, f2: Filter, subject: Seq<char>)
    requires
        c.spec_filters() =~= seq![f1, f2],
    ensures
        c.rejects(subject) <==> (f1.rejects(subject) || f2.rejects(subject)),
{
    assert(c.spec_filters()[0] == f1);
    assert(c.spec_filters()[1] == f2);
    if f1.rejects(subject) {
        assert(c.rejects(subject));
    }
    if f2.rejects(subject) {
        assert(c.rejects(subject));
    }
}

} // verus!
