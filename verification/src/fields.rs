//! Key/value fields of an event, and the policies that thin them out before
//! formatting: duplicate keys collapse (last write wins, first-occurrence
//! order), the key "message" is pulled out as the message text, an exclusion
//! set drops fields whose key matches any of its regular expressions, and an
//! optional key filter chain drops fields whose key it rejects.

use vstd::prelude::*;

use crate::filter::FilterChain;
use crate::filter::Rejected;
use crate::filter::regex_match;
use crate::filter::regex_valid;

verus! {

/// A free-form field value carried by an event.
pub enum FieldValue {
    Null,
    Bool(bool),
    Int(i64),
    Str(String),
}

/// One key/value field of an event.
pub struct Field {
    pub key: String,
    pub value: FieldValue,
}

/// The first index of `s` whose field has key `k`, or -1 when no field does.
pub open spec fn find_key(s: Seq<Field>, k: Seq<char>) -> int
    decreases s.len(),
{
    if s.len() == 0 {
        -1
    } else if s[0].key@ == k {
        0
    } else {
        let r = find_key(s.drop_first(), k);
        if r < 0 {
            -1
        } else {
            r + 1
        }
    }
}

/// Whether some field of `s` has key `k`.
pub open spec fn contains_key(s: Seq<Field>, k: Seq<char>) -> bool {
    find_key(s, k) >= 0
}

/// `find_key` points at the first field with key `k` when one exists, and is
/// -1 exactly when none does.
pub proof fn lemma_find_key(s: Seq<Field>, k: Seq<char>)
    ensures
        contains_key(s, k) ==> {
            let i = find_key(s, k);
            &&& 0 <= i < s.len()
            &&& s[i].key@ == k
            &&& forall|j: int| 0 <= j < i ==> (#[trigger] s[j]).key@ != k
        },
        !contains_key(s, k) ==> forall|j: int| 0 <= j < s.len() ==> (#[trigger] s[j]).key@ != k,
    decreases s.len(),
{
    if s.len() > 0 {
        lemma_find_key(s.drop_first(), k);
        if s[0].key@ != k {
            assert(forall|j: int|
                0 < j < s.len() ==> #[trigger] s[j] == s.drop_first()[j - 1]);
        }
    }
}

/// The fields of `s` with duplicate keys collapsed: a later field with an
/// already-seen key overwrites the value in place, so keys keep the order of
/// their first occurrence and each key carries the value last written to it.
pub open spec fn dedup_keys(s: Seq<Field>) -> Seq<Field>
    decreases s.len(),
{
    if s.len() == 0 {
        Seq::empty()
    } else {
        let prev = dedup_keys(s.drop_last());
        let f = s.last();
        if contains_key(prev, f.key@) {
            prev.update(find_key(prev, f.key@), f)
        } else {
            prev.push(f)
        }
    }
}

/// The keys of a deduplicated sequence are unique.
pub proof fn lemma_dedup_keys_unique(s: Seq<Field>)
    ensures
        forall|i: int, j: int|
            0 <= i < j < dedup_keys(s).len() ==> (#[trigger] dedup_keys(s)[i]).key@ != (
            #[trigger] dedup_keys(s)[j]).key@,
    decreases s.len(),
{
    if s.len() > 0 {
        lemma_dedup_keys_unique(s.drop_last());
        let prev = dedup_keys(s.drop_last());
        let f = s.last();
        lemma_find_key(prev, f.key@);
    }
}

/// Collapsing duplicate keys only rearranges fields of the input: a property
/// of every field survives it.
pub proof fn lemma_dedup_keys_preserves(s: Seq<Field>, p: spec_fn(Field) -> bool)
    requires
        forall|i: int| 0 <= i < s.len() ==> p(#[trigger] s[i]),
    ensures
        forall|i: int| 0 <= i < dedup_keys(s).len() ==> p(#[trigger] dedup_keys(s)[i]),
    decreases s.len(),
{
    if s.len() > 0 {
        assert(forall|i: int| 0 <= i < s.drop_last().len() ==> p(#[trigger] s.drop_last()[i]));
        lemma_dedup_keys_preserves(s.drop_last(), p);
        let prev = dedup_keys(s.drop_last());
        let f = s.last();
        assert(p(f));
        let whole = dedup_keys(s);
        lemma_find_key(prev, f.key@);
        if contains_key(prev, f.key@) {
            let k = find_key(prev, f.key@);
            assert(whole == prev.update(k, f));
            assert(forall|i: int|
                0 <= i < whole.len() && i != k ==> #[trigger] whole[i] == prev[i]);
        } else {
            assert(whole == prev.push(f));
            assert(forall|i: int| 0 <= i < prev.len() ==> #[trigger] whole[i] == prev[i]);
        }
    }
}

/// Collapse duplicate keys: last write wins, keys keep first-occurrence
/// order.
pub fn dedup_fields(fields: Vec<Field>) -> (r: Vec<Field>)
    ensures
        r@ == dedup_keys(fields@),
{
    let ghost orig = fields@;
    let mut rest = fields;
    let mut acc: Vec<Field> = Vec::new();
    let ghost mut taken: int = 0;
    while rest.len() > 0
        invariant
            0 <= taken <= orig.len(),
            rest@ =~= orig.subrange(taken, orig.len() as int),
            acc@ == dedup_keys(orig.subrange(0, taken)),
        decreases rest@.len(),
    {
        let f = rest.remove(0);
        let ghost prefix = orig.subrange(0, taken);
        let ghost prev = acc@;
        proof {
            lemma_find_key(prev, f.key@);
            assert(orig.subrange(0, taken + 1).drop_last() =~= prefix);
            assert(orig.subrange(0, taken + 1).last() == f);
        }
        let n = acc.len();
        let mut j: usize = 0;
        let mut found: bool = false;
        while j < n && !found
            invariant
                n == acc.len(),
                0 <= j <= n,
                acc@ == prev,
                !found ==> forall|m: int| 0 <= m < j ==> (#[trigger] prev[m]).key@ != f.key@,
                found ==> j < n && prev[j as int].key@ == f.key@ && forall|m: int|
                    0 <= m < j ==> (#[trigger] prev[m]).key@ != f.key@,
            decreases n - j, (if found { 0int } else { 1int }),
        {
            if acc[j].key == f.key {
                found = true;
            } else {
                j = j + 1;
            }
        }
        if found {
            proof {
                assert(contains_key(prev, f.key@));
                assert(find_key(prev, f.key@) == j as int);
            }
            acc.set(j, f);
        } else {
            proof {
                if contains_key(prev, f.key@) {
                    assert(prev[find_key(prev, f.key@)].key@ == f.key@);
                    assert(false);
                }
            }
            acc.push(f);
        }
        proof {
            taken = taken + 1;
        }
    }
    proof {
        assert(orig.subrange(0, orig.len() as int) =~= orig);
    }
    acc
}

/// The fields of `s` whose key is not `k`, in order.
pub open spec fn drop_key(s: Seq<Field>, k: Seq<char>) -> Seq<Field>
    decreases s.len(),
{
    if s.len() == 0 {
        Seq::empty()
    } else {
        let rest = drop_key(s.drop_last(), k);
        if s.last().key@ == k {
            rest
        } else {
            rest.push(s.last())
        }
    }
}

/// Remove every field whose key is exactly `k`.
pub fn remove_key(fields: Vec<Field>, k: &String) -> (r: Vec<Field>)
    ensures
        r@ == drop_key(fields@, k@),
{
    let ghost orig = fields@;
    let mut rest = fields;
    let mut acc: Vec<Field> = Vec::new();
    let ghost mut taken: int = 0;
    while rest.len() > 0
        invariant
            0 <= taken <= orig.len(),
            rest@ =~= orig.subrange(taken, orig.len() as int),
            acc@ == drop_key(orig.subrange(0, taken), k@),
        decreases rest@.len(),
    {
        let f = rest.remove(0);
        proof {
            assert(orig.subrange(0, taken + 1).drop_last() =~= orig.subrange(0, taken));
            assert(orig.subrange(0, taken + 1).last() == f);
        }
        if !(f.key == *k) {
            acc.push(f);
        }
        proof {
            taken = taken + 1;
        }
    }
    proof {
        assert(orig.subrange(0, orig.len() as int) =~= orig);
    }
    acc
}

/// A set of regular expressions matched against field keys: a field is
/// dropped when any pattern of the set matches its key. Purely subtractive:
/// there is no polarity.
pub struct FieldExclusionSet {
    patterns: Vec<String>,
}

impl FieldExclusionSet {
    /// The pattern texts of this set, in order.
    pub closed spec fn spec_patterns(self) -> Seq<Seq<char>> {
        self.patterns@.map_values(|p: String| p@)
    }

    /// A well-formed set holds only valid regular expressions; `add` admits
    /// no other.
    pub open spec fn wf(self) -> bool {
        forall|i: int|
            0 <= i < self.spec_patterns().len() ==> regex_valid(#[trigger] self.spec_patterns()[i])
    }

    /// Whether this set excludes key `k`: it does exactly when some valid
    /// pattern of the set matches `k`.
    pub open spec fn spec_excludes(self, k: Seq<char>) -> bool {
        exists|i: int|
            0 <= i < self.spec_patterns().len() && regex_valid(#[trigger] self.spec_patterns()[i])
                && regex_match(self.spec_patterns()[i], k)
    }

    /// The empty exclusion set, which drops nothing.
    pub fn new() -> (r: FieldExclusionSet)
        ensures
            r.spec_patterns() == Seq::<Seq<char>>::empty(),
            r.wf(),
            forall|k: Seq<char>| !r.spec_excludes(k),
    {
        FieldExclusionSet { patterns: Vec::new() }
    }

    /// Add one exclusion pattern. Fails exactly when the pattern is not a
    /// valid regular expression, leaving the set unchanged.
    pub fn add(&mut self, pattern: String) -> (r: Result<(), Rejected>)
        ensures
            r is Ok <==> regex_valid(pattern@),
            r is Ok ==> final(self).spec_patterns() =~= old(self).spec_patterns().push(pattern@),
            r is Err ==> final(self).spec_patterns() == old(self).spec_patterns(),
    {
        if crate::filter::pattern_is_valid(pattern.as_str()) {
            self.patterns.push(pattern);
            proof {
                assert(self.patterns@.drop_last() =~= old(self).patterns@);
            }
            Ok(())
        } else {
            Err(Rejected)
        }
    }

    /// Whether this set excludes key `k`. A pattern that does not compile
    /// excludes nothing.
    pub fn excludes(&self, k: &str) -> (r: bool)
        ensures
            r == self.spec_excludes(k@),
    {
        let n = self.patterns.len();
        let mut i: usize = 0;
        while i < n
            invariant
                n == self.spec_patterns().len(),
                0 <= i <= n,
                forall|j: int|
                    0 <= j < i ==> !(regex_valid(#[trigger] self.spec_patterns()[j]) && regex_match(
                        self.spec_patterns()[j],
                        k@,
                    )),
            decreases n - i,
        {
            if crate::filter::pattern_matches(self.patterns[i].as_str(), k) {
                proof {
                    assert(regex_valid(self.spec_patterns()[i as int]) && regex_match(
                        self.spec_patterns()[i as int],
                        k@,
                    ));
                }
                return true;
            }
            i = i + 1;
        }
        false
    }
}

/// The fields of `s` whose key the exclusion set does not exclude, in order.
pub open spec fn drop_excluded(s: Seq<Field>, sel: FieldExclusionSet) -> Seq<Field>
    decreases s.len(),
{
    if s.len() == 0 {
        Seq::empty()
    } else {
        let rest = drop_excluded(s.drop_last(), sel);
        if sel.spec_excludes(s.last().key@) {
            rest
        } else {
            rest.push(s.last())
        }
    }
}

/// The field-exclusion law: a field whose key the exclusion set excludes
/// never survives it, whatever its value.
pub proof fn lemma_field_exclusion(s: Seq<Field>, sel: FieldExclusionSet)
    ensures
        forall|i: int|
            0 <= i < drop_excluded(s, sel).len() ==> !sel.spec_excludes(
                (#[trigger] drop_excluded(s, sel)[i]).key@,
            ),
    decreases s.len(),
{
    if s.len() > 0 {
        lemma_field_exclusion(s.drop_last(), sel);
    }
}

/// Apply the exclusion set: remove every field whose key it excludes.
pub fn apply_exclusions(fields: Vec<Field>, sel: &FieldExclusionSet) -> (r: Vec<Field>)
    ensures
        r@ == drop_excluded(fields@, *sel),
{
    let ghost orig = fields@;
    let mut rest = fields;
    let mut acc: Vec<Field> = Vec::new();
    let ghost mut taken: int = 0;
    while rest.len() > 0
        invariant
            0 <= taken <= orig.len(),
            rest@ =~= orig.subrange(taken, orig.len() as int),
            acc@ == drop_excluded(orig.subrange(0, taken), *sel),
        decreases rest@.len(),
    {
        let f = rest.remove(0);
        proof {
            assert(orig.subrange(0, taken + 1).drop_last() =~= orig.subrange(0, taken));
            assert(orig.subrange(0, taken + 1).last() == f);
        }
        if !sel.excludes(f.key.as_str()) {
            acc.push(f);
        }
        proof {
            taken = taken + 1;
        }
    }
    proof {
        assert(orig.subrange(0, orig.len() as int) =~= orig);
    }
    acc
}

/// The fields of `s` whose key the filter chain accepts, in order. A field
/// whose key the chain rejects is dropped; the event itself survives.
pub open spec fn drop_chain_rejected(s: Seq<Field>, c: FilterChain) -> Seq<Field>
    decreases s.len(),
{
    if s.len() == 0 {
        Seq::empty()
    } else {
        let rest = drop_chain_rejected(s.drop_last(), c);
        if c.wf() && !c.rejects(s.last().key@) {
            rest.push(s.last())
        } else {
            rest
        }
    }
}

/// The field-key chain only thins a field sequence: a property of every
/// field survives it.
pub proof fn lemma_drop_chain_rejected_preserves(
    s: Seq<Field>,
    c: FilterChain,
    p: spec_fn(Field) -> bool,
)
    requires
        forall|i: int| 0 <= i < s.len() ==> p(#[trigger] s[i]),
    ensures
        forall|i: int|
            0 <= i < drop_chain_rejected(s, c).len() ==> p(#[trigger] drop_chain_rejected(s, c)[i]),
    decreases s.len(),
{
    if s.len() > 0 {
        assert(forall|i: int|
            0 <= i < s.drop_last().len() ==> p(#[trigger] s.drop_last()[i]));
        lemma_drop_chain_rejected_preserves(s.drop_last(), c, p);
        let rest = drop_chain_rejected(s.drop_last(), c);
        let whole = drop_chain_rejected(s, c);
        if c.wf() && !c.rejects(s.last().key@) {
            assert(whole == rest.push(s.last()));
            assert(p(s.last()));
            assert(forall|i: int| 0 <= i < rest.len() ==> #[trigger] whole[i] == rest[i]);
        }
    }
}

/// Apply the field-key filter chain: keep exactly the fields whose key the
/// chain accepts.
pub fn apply_key_chain(fields: Vec<Field>, c: &FilterChain) -> (r: Vec<Field>)
    ensures
        r@ == drop_chain_rejected(fields@, *c),
{
    let ghost orig = fields@;
    let mut rest = fields;
    let mut acc: Vec<Field> = Vec::new();
    let ghost mut taken: int = 0;
    while rest.len() > 0
        invariant
            0 <= taken <= orig.len(),
            rest@ =~= orig.subrange(taken, orig.len() as int),
            acc@ == drop_chain_rejected(orig.subrange(0, taken), *c),
        decreases rest@.len(),
    {
        let f = rest.remove(0);
        proof {
            assert(orig.subrange(0, taken + 1).drop_last() =~= orig.subrange(0, taken));
            assert(orig.subrange(0, taken + 1).last() == f);
        }
        if c.process(f.key.as_str()).is_ok() {
            acc.push(f);
        }
        proof {
            taken = taken + 1;
        }
    }
    proof {
        assert(orig.subrange(0, orig.len() as int) =~= orig);
    }
    acc
}

} // verus!
