//! The standard library's workhorse types: growable vectors, owned strings
//! and string literals, a set with a uniqueness invariant, and shared
//! ownership through reference counting.

use std::collections::HashMap;
use std::rc::Rc;
use crate::conversion::push_char;
use vstd::prelude::*;
use vstd::string::StrSliceExecFns;
use vstd::string::StringExecFns;

verus! {

/// The sum of a sequence of integers.
pub open spec fn sum_of(s: Seq<i32>) -> int
    decreases s.len(),
{
    if s.len() == 0 {
        0
    } else {
        sum_of(s.drop_last()) + s.last()
    }
}

/// Every partial sum stays within the element bound times the length.
proof fn lemma_sum_bound(s: Seq<i32>)
    ensures
        -2147483648 * s.len() <= sum_of(s) <= 2147483647 * s.len(),
    decreases s.len(),
{
    if s.len() > 0 {
        lemma_sum_bound(s.drop_last());
        assert(-2147483648 * s.len() == -2147483648 * (s.len() - 1) + -2147483648)
            by (nonlinear_arith);
        assert(2147483647 * s.len() == 2147483647 * (s.len() - 1) + 2147483647)
            by (nonlinear_arith);
    }
}

/// Sums a vector with a plain loop.
#[verifier::loop_isolation(false)]
pub fn sum_vec(xs: &Vec<i32>) -> (r: i64)
    requires
        xs@.len() <= 0x1_0000_0000,
    ensures
        r == sum_of(xs@),
{
    let mut total: i64 = 0;
    let mut i: usize = 0;
    while i < xs.len()
        invariant
            0 <= i <= xs@.len(),
            total == sum_of(xs@.subrange(0, i as int)),
            -2147483648 * i <= total <= 2147483647 * i,
        decreases xs@.len() - i,
    {
        let ghost before = xs@.subrange(0, i as int);
        proof {
            lemma_sum_bound(before);
        }
        total = total + (xs[i] as i64);
        i = i + 1;
        proof {
            let after = xs@.subrange(0, i as int);
            assert(after.drop_last() =~= before);
        }
    }
    proof {
        assert(xs@.subrange(0, xs@.len() as int) =~= xs@);
    }
    total
}

/// Vectors grow with `push`, shrink with `pop`, and know their length.
pub fn vector_ops() {
    let mut xs: Vec<i32> = Vec::new();
    xs.push(1);
    xs.push(2);
    xs.push(3);
    assert(xs@.len() == 3);
    xs.push(1);
    assert(xs@.len() == 4);
    let popped = xs.pop();
    assert(popped == Some(1i32));
    let total = sum_vec(&xs);
    assert(xs@ =~= seq![1i32, 2i32, 3i32]);
    assert(total == 6) by {
        reveal_with_fuel(sum_of, 5);
    }
}

/// Owned strings are built character by character or slice by slice;
/// literals are borrowed slices with escapes resolved at compile time.
pub fn string_ops() {
    let mut s = String::new();
    push_char(&mut s, 'a');
    s.append(" cake");
    proof {
        reveal_strlit(" cake");
        reveal_strlit("a cake");
        assert(s@ =~= "a cake"@);
    }

    let replaced_string = replace_str("a cake", "cake", "baked cake");
    assert(replaced_string@ == replaced("a cake"@, "cake"@, "baked cake"@));

    let literal: &str = "some literal string";
    let n = literal.unicode_len();
    proof {
        reveal_strlit("some literal string");
    }
    assert(n == 19);

    let escaped = "I'm writing \x52\x75\x73\x74!";
    proof {
        reveal_strlit("I'm writing \x52\x75\x73\x74!");
        reveal_strlit("I'm writing Rust!");
    }
    assert(escaped@ =~= "I'm writing Rust!"@);

    let raw = r"No escapes needed";
    proof {
        reveal_strlit(r"No escapes needed");
        reveal_strlit("No escapes needed");
    }
    assert(raw@ =~= "No escapes needed"@);

    let code_point = "\u{211D}";
    let cp_len = code_point.unicode_len();
    proof {
        reveal_strlit("\u{211D}");
    }
    assert(cp_len == 1);

    let multiline = "Cake
is a lie";
    proof {
        reveal_strlit("Cake
is a lie");
        reveal_strlit("Cake\nis a lie");
    }
    assert(multiline@ =~= "Cake\nis a lie"@);

    let quoted = r#"Guarded quotes: "" stay"#;
    proof {
        reveal_strlit(r#"Guarded quotes: "" stay"#);
        reveal_strlit("Guarded quotes: \"\" stay");
    }
    assert(quoted@ =~= "Guarded quotes: \"\" stay"@);
}

/// Whether `prefix` stands at the front of `s`.
pub open spec fn starts_with(s: Seq<char>, prefix: Seq<char>) -> bool {
    s.len() >= prefix.len() && s.subrange(0, prefix.len() as int) == prefix
}

/// `s` with every non-overlapping occurrence of `from`, found left to
/// right, replaced by `to`. The empty pattern matches before every
/// character and once more at the end.
pub open spec fn replaced(s: Seq<char>, from: Seq<char>, to: Seq<char>) -> Seq<char>
    decreases s.len(),
{
    if s.len() == 0 {
        if from.len() == 0 {
            to
        } else {
            Seq::empty()
        }
    } else if from.len() > 0 && starts_with(s, from) {
        to + replaced(s.skip(from.len() as int), from, to)
    } else if from.len() == 0 {
        to + seq![s[0]] + replaced(s.skip(1), from, to)
    } else {
        seq![s[0]] + replaced(s.skip(1), from, to)
    }
}

/// Whether `from` stands in `s` at position `i`.
#[verifier::loop_isolation(false)]
fn match_at(s: &Vec<char>, from: &Vec<char>, i: usize) -> (r: bool)
    requires
        i <= s@.len(),
    ensures
        r == starts_with(s@.skip(i as int), from@),
{
    if s.len() - i < from.len() {
        return false;
    }
    let mut k: usize = 0;
    while k < from.len()
        invariant
            0 <= k <= from@.len(),
            from@.len() <= s@.len() - i,
            forall|j: int| 0 <= j < k ==> s@[i + j] == from@[j],
        decreases from@.len() - k,
    {
        if s[i + k] != from[k] {
            assert(!starts_with(s@.skip(i as int), from@)) by {
                assert(s@.skip(i as int).subrange(0, from@.len() as int)[k as int] != from@[
                    k as int
                ]);
            }
            return false;
        }
        k = k + 1;
    }
    proof {
        assert(s@.skip(i as int).subrange(0, from@.len() as int) =~= from@);
    }
    true
}

/// Appends every character of `src` to `dst`.
#[verifier::loop_isolation(false)]
fn push_chars(dst: &mut Vec<char>, src: &Vec<char>)
    ensures
        final(dst)@ == old(dst)@ + src@,
{
    let mut k: usize = 0;
    proof {
        assert(old(dst)@ + src@.subrange(0, 0) =~= old(dst)@);
    }
    while k < src.len()
        invariant
            0 <= k <= src@.len(),
            dst@ == old(dst)@ + src@.subrange(0, k as int),
        decreases src@.len() - k,
    {
        dst.push(src[k]);
        proof {
            assert(src@.subrange(0, k + 1) =~= src@.subrange(0, k as int).push(src@[k as int]));
            assert(old(dst)@ + src@.subrange(0, k + 1) =~= (old(dst)@ + src@.subrange(
                0,
                k as int,
            )).push(src@[k as int]));
        }
        k = k + 1;
    }
    proof {
        assert(src@.subrange(0, src@.len() as int) =~= src@);
    }
}

/// Replaces every non-overlapping occurrence of `from` in `s` by `to`,
/// scanning left to right; the empty pattern matches at every position.
#[verifier::loop_isolation(false)]
pub fn replace_chars(s: &Vec<char>, from: &Vec<char>, to: &Vec<char>) -> (r: Vec<char>)
    ensures
        r@ == replaced(s@, from@, to@),
{
    let mut out: Vec<char> = Vec::new();
    let mut i: usize = 0;
    proof {
        assert(s@.skip(0) =~= s@);
        assert(Seq::<char>::empty() + replaced(s@, from@, to@) =~= replaced(s@, from@, to@));
    }
    if from.len() == 0 {
        while i < s.len()
            invariant
                0 <= i <= s@.len(),
                replaced(s@, from@, to@) == out@ + replaced(s@.skip(i as int), from@, to@),
            decreases s@.len() - i,
        {
            let ghost out_before = out@;
            let ghost rest = s@.skip(i as int);
            push_chars(&mut out, to);
            out.push(s[i]);
            i = i + 1;
            proof {
                assert(rest[0] == s@[i - 1]);
                assert(rest.skip(1) =~= s@.skip(i as int));
                assert(out@ + replaced(s@.skip(i as int), from@, to@) =~= out_before + (to@
                    + seq![rest[0]] + replaced(s@.skip(i as int), from@, to@)));
            }
        }
        push_chars(&mut out, to);
        proof {
            assert(s@.skip(i as int) =~= Seq::<char>::empty());
        }
        return out;
    }
    while i < s.len()
        invariant
            0 <= i <= s@.len(),
            from@.len() > 0,
            replaced(s@, from@, to@) == out@ + replaced(s@.skip(i as int), from@, to@),
        decreases s@.len() - i,
    {
        let ghost out_before = out@;
        let ghost rest = s@.skip(i as int);
        if match_at(s, from, i) {
            push_chars(&mut out, to);
            i = i + from.len();
            proof {
                assert(rest.skip(from@.len() as int) =~= s@.skip(i as int));
                assert(out@ + replaced(s@.skip(i as int), from@, to@) =~= out_before + (to@
                    + replaced(s@.skip(i as int), from@, to@)));
            }
        } else {
            out.push(s[i]);
            i = i + 1;
            proof {
                assert(rest[0] == s@[i - 1]);
                assert(rest.skip(1) =~= s@.skip(i as int));
                assert(out@ + replaced(s@.skip(i as int), from@, to@) =~= out_before + (seq![
                    rest[0]
                ] + replaced(s@.skip(i as int), from@, to@)));
            }
        }
    }
    proof {
        assert(s@.skip(i as int) =~= Seq::<char>::empty());
        assert(out@ + Seq::<char>::empty() =~= out@);
    }
    out
}

/// The characters of a string slice, gathered into a vector.
#[verifier::loop_isolation(false)]
pub fn chars_of(s: &str) -> (r: Vec<char>)
    ensures
        r@ == s@,
{
    let n = s.unicode_len();
    let mut out: Vec<char> = Vec::new();
    let mut i: usize = 0;
    while i < n
        invariant
            0 <= i <= s@.len(),
            n == s@.len(),
            out@ == s@.subrange(0, i as int),
        decreases s@.len() - i,
    {
        out.push(s.get_char(i));
        proof {
            assert(s@.subrange(0, i + 1) =~= s@.subrange(0, i as int).push(s@[i as int]));
        }
        i = i + 1;
    }
    proof {
        assert(s@.subrange(0, s@.len() as int) =~= s@);
    }
    out
}

/// The characters of a vector, gathered back into an owned string.
#[verifier::loop_isolation(false)]
pub fn string_from_chars(cs: &Vec<char>) -> (r: String)
    ensures
        r@ == cs@,
{
    let mut out = String::new();
    let mut i: usize = 0;
    while i < cs.len()
        invariant
            0 <= i <= cs@.len(),
            out@ == cs@.subrange(0, i as int),
        decreases cs@.len() - i,
    {
        push_char(&mut out, cs[i]);
        proof {
            assert(cs@.subrange(0, i + 1) =~= cs@.subrange(0, i as int).push(cs@[i as int]));
        }
        i = i + 1;
    }
    proof {
        assert(cs@.subrange(0, cs@.len() as int) =~= cs@);
    }
    out
}

/// The `replace` lesson: a new string with every occurrence of `from`
/// replaced by `to`; the receiver is left as it was.
pub fn replace_str(s: &str, from: &str, to: &str) -> (r: String)
    ensures
        r@ == replaced(s@, from@, to@),
{
    let s_chars = chars_of(s);
    let from_chars = chars_of(from);
    let to_chars = chars_of(to);
    let out_chars = replace_chars(&s_chars, &from_chars, &to_chars);
    string_from_chars(&out_chars)
}

/// Whether `c` is an ASCII whitespace character.
pub open spec fn is_space_char(c: char) -> bool {
    c == ' ' || c == '\t' || c == '\n' || c == '\r'
}

/// The whitespace-separated words of `s`, in order: maximal runs of
/// non-whitespace characters.
pub open spec fn words_of(s: Seq<char>) -> Seq<Seq<char>>
    decreases s.len(),
{
    if s.len() == 0 {
        Seq::empty()
    } else {
        let init = words_of(s.drop_last());
        let c = s.last();
        if is_space_char(c) {
            init
        } else if s.len() >= 2 && !is_space_char(s[s.len() - 2]) {
            init.update(init.len() - 1, init.last().push(c))
        } else {
            init.push(seq![c])
        }
    }
}

/// A string ending in a non-space character has at least one word.
proof fn lemma_words_nonempty_tail(s: Seq<char>)
    requires
        s.len() > 0,
        !is_space_char(s.last()),
    ensures
        words_of(s).len() > 0,
    decreases s.len(),
{
    if s.len() >= 2 && !is_space_char(s[s.len() - 2]) {
        lemma_words_nonempty_tail(s.drop_last());
    }
}

/// Splits a character vector on whitespace, one vector per word.
#[verifier::loop_isolation(false)]
pub fn split_whitespace_chars(s: &Vec<char>) -> (r: Vec<Vec<char>>)
    ensures
        r@.map_values(|w: Vec<char>| w@) == words_of(s@),
{
    let mut out: Vec<Vec<char>> = Vec::new();
    let mut i: usize = 0;
    proof {
        assert(s@.subrange(0, 0) =~= Seq::<char>::empty());
        assert(out@.map_values(|w: Vec<char>| w@) =~= Seq::<Seq<char>>::empty());
    }
    while i < s.len()
        invariant
            0 <= i <= s@.len(),
            out@.map_values(|w: Vec<char>| w@) == words_of(s@.subrange(0, i as int)),
        decreases s@.len() - i,
    {
        let ghost prefix = s@.subrange(0, i as int);
        let ghost old_words = out@.map_values(|w: Vec<char>| w@);
        let c = s[i];
        let space = c == ' ' || c == '\t' || c == '\n' || c == '\r';
        if !space {
            let continuing = i > 0 && {
                let prev = s[i - 1];
                !(prev == ' ' || prev == '\t' || prev == '\n' || prev == '\r')
            };
            if continuing {
                proof {
                    assert(prefix.last() == s@[i - 1]);
                    lemma_words_nonempty_tail(prefix);
                }
                let mut word = out.pop().unwrap();
                word.push(c);
                out.push(word);
                proof {
                    assert(out@.map_values(|w: Vec<char>| w@) =~= old_words.update(
                        old_words.len() - 1,
                        old_words.last().push(c),
                    ));
                }
            } else {
                let mut word: Vec<char> = Vec::new();
                word.push(c);
                out.push(word);
                proof {
                    assert(word@ =~= seq![c]);
                    assert(out@.map_values(|w: Vec<char>| w@) =~= old_words.push(seq![c]));
                }
            }
        }
        i = i + 1;
        proof {
            let grown = s@.subrange(0, i as int);
            assert(grown.drop_last() =~= prefix);
            assert(grown.last() == s@[i - 1]);
            if i >= 2 {
                assert(grown[grown.len() - 2] == s@[i - 2]);
                assert(prefix.last() == s@[i - 2]);
            }
        }
    }
    proof {
        assert(s@.subrange(0, s@.len() as int) =~= s@);
    }
    out
}

/// The `n`-th whitespace-separated word of a string: the lesson's
/// skip-and-take over a split, as one verified lookup.
pub fn nth_word(s: &str, n: usize) -> (r: Option<String>)
    ensures
        n < words_of(s@).len() ==> (r matches Some(w) && w@ == words_of(s@)[n as int]),
        n >= words_of(s@).len() ==> r is None,
{
    let cs = chars_of(s);
    let words = split_whitespace_chars(&cs);
    if n < words.len() {
        proof {
            assert(words@.map_values(|w: Vec<char>| w@)[n as int] == words@[n as int]@);
        }
        Some(string_from_chars(&words[n]))
    } else {
        None
    }
}

/// A keyed map: insert, look up, and remove, with integer keys whose
/// hashing the standard library models faithfully.
pub fn hash_map_ops() {
    broadcast use vstd::std_specs::hash::group_hash_axioms;

    let mut map: HashMap<u64, i64> = HashMap::new();
    map.insert(1, 10);
    map.insert(2, 20);
    assert(map@.len() == 2);
    let found = map.get(&1);
    assert(found == Some(&10i64));
    let missing = map.get(&3);
    assert(missing is None);
    map.remove(&1);
    let gone = map.get(&1);
    assert(gone is None);
}

/// A set of integers held in a vector without duplicates: the collection
/// lesson's invariant, carried by every operation.
pub struct IntSet {
    items: Vec<i64>,
}

impl IntSet {
    /// Whether the set holds `v`.
    pub closed spec fn has(self, v: i64) -> bool {
        self.items@.contains(v)
    }

    /// The uniqueness invariant: no element is stored twice.
    pub closed spec fn well_formed(self) -> bool {
        self.items@.no_duplicates()
    }

    /// An empty set.
    pub fn new() -> (r: IntSet)
        ensures
            r.well_formed(),
            forall|v: i64| !r.has(v),
    {
        IntSet { items: Vec::new() }
    }

    /// Whether `v` is an element.
    #[verifier::loop_isolation(false)]
    pub fn contains(&self, v: i64) -> (r: bool)
        ensures
            r == self.has(v),
    {
        let mut i: usize = 0;
        while i < self.items.len()
            invariant
                0 <= i <= self.items@.len(),
                forall|j: int| 0 <= j < i ==> self.items@[j] != v,
            decreases self.items@.len() - i,
        {
            if self.items[i] == v {
                assert(self.items@.contains(v)) by {
                    assert(self.items@[i as int] == v);
                }
                return true;
            }
            i = i + 1;
        }
        assert(!self.items@.contains(v));
        false
    }

    /// Adds `v`; adding an element already present changes nothing.
    pub fn insert(&mut self, v: i64)
        requires
            old(self).well_formed(),
        ensures
            final(self).well_formed(),
            forall|w: i64| final(self).has(w) == (old(self).has(w) || w == v),
    {
        if !self.contains(v) {
            self.items.push(v);
            assert forall|w: i64| final(self).has(w) == (old(self).has(w) || w == v) by {
                if old(self).has(w) {
                    let j = choose|j: int|
                        0 <= j < old(self).items@.len() && old(self).items@[j] == w;
                    assert(self.items@[j] == w);
                }
                if w == v {
                    assert(self.items@.last() == v);
                }
                if self.has(w) {
                    let j = choose|j: int| 0 <= j < self.items@.len() && self.items@[j] == w;
                    if j < old(self).items@.len() {
                        assert(old(self).items@[j] == w);
                    }
                }
            }
        }
    }

    /// How many elements the set stores.
    pub closed spec fn size(self) -> nat {
        self.items@.len()
    }

    /// How many elements the set holds.
    pub fn len(&self) -> (r: usize)
        ensures
            r == self.size(),
    {
        self.items.len()
    }

    /// The elements present in this set or the other.
    #[verifier::loop_isolation(false)]
    pub fn union(&self, other: &IntSet) -> (r: IntSet)
        requires
            self.well_formed(),
            other.well_formed(),
        ensures
            r.well_formed(),
            forall|w: i64| r.has(w) == (self.has(w) || other.has(w)),
    {
        let mut out = IntSet::new();
        let mut i: usize = 0;
        while i < self.items.len()
            invariant
                0 <= i <= self.items@.len(),
                out.well_formed(),
                forall|w: i64| out.has(w) == self.items@.subrange(0, i as int).contains(w),
            decreases self.items@.len() - i,
        {
            out.insert(self.items[i]);
            proof {
                let grown = self.items@.subrange(0, i + 1);
                assert(grown.drop_last() =~= self.items@.subrange(0, i as int));
                assert forall|w: i64| grown.contains(w) == (self.items@.subrange(0,
                    i as int).contains(w) || w == self.items@[i as int]) by {
                    if grown.contains(w) {
                        let j = choose|j: int| 0 <= j < grown.len() && grown[j] == w;
                        if j < i {
                            assert(self.items@.subrange(0, i as int)[j] == w);
                        }
                    }
                    if self.items@.subrange(0, i as int).contains(w) {
                        let j = choose|j: int|
                            0 <= j < i && self.items@.subrange(0, i as int)[j] == w;
                        assert(grown[j] == w);
                    }
                    if w == self.items@[i as int] {
                        assert(grown[i as int] == w);
                    }
                }
            }
            i = i + 1;
        }
        proof {
            assert(self.items@.subrange(0, self.items@.len() as int) =~= self.items@);
        }
        let mut k: usize = 0;
        while k < other.items.len()
            invariant
                0 <= k <= other.items@.len(),
                out.well_formed(),
                forall|w: i64|
                    out.has(w) == (self.has(w) || other.items@.subrange(0, k as int).contains(w)),
            decreases other.items@.len() - k,
        {
            out.insert(other.items[k]);
            proof {
                let grown = other.items@.subrange(0, k + 1);
                assert(grown.drop_last() =~= other.items@.subrange(0, k as int));
                assert forall|w: i64| grown.contains(w) == (other.items@.subrange(0,
                    k as int).contains(w) || w == other.items@[k as int]) by {
                    if grown.contains(w) {
                        let j = choose|j: int| 0 <= j < grown.len() && grown[j] == w;
                        if j < k {
                            assert(other.items@.subrange(0, k as int)[j] == w);
                        }
                    }
                    if other.items@.subrange(0, k as int).contains(w) {
                        let j = choose|j: int|
                            0 <= j < k && other.items@.subrange(0, k as int)[j] == w;
                        assert(grown[j] == w);
                    }
                    if w == other.items@[k as int] {
                        assert(grown[k as int] == w);
                    }
                }
            }
            k = k + 1;
        }
        proof {
            assert(other.items@.subrange(0, other.items@.len() as int) =~= other.items@);
        }
        out
    }

    /// The elements present in both sets.
    #[verifier::loop_isolation(false)]
    pub fn intersection(&self, other: &IntSet) -> (r: IntSet)
        requires
            self.well_formed(),
            other.well_formed(),
        ensures
            r.well_formed(),
            forall|w: i64| r.has(w) == (self.has(w) && other.has(w)),
    {
        self.filtered(other, true)
    }

    /// The elements of this set that the other lacks.
    #[verifier::loop_isolation(false)]
    pub fn difference(&self, other: &IntSet) -> (r: IntSet)
        requires
            self.well_formed(),
            other.well_formed(),
        ensures
            r.well_formed(),
            forall|w: i64| r.has(w) == (self.has(w) && !other.has(w)),
    {
        self.filtered(other, false)
    }

    /// The elements of this set whose membership in the other equals
    /// `keep_present`.
    #[verifier::loop_isolation(false)]
    fn filtered(&self, other: &IntSet, keep_present: bool) -> (r: IntSet)
        requires
            self.well_formed(),
            other.well_formed(),
        ensures
            r.well_formed(),
            forall|w: i64| r.has(w) == (self.has(w) && other.has(w) == keep_present),
    {
        let mut out = IntSet::new();
        let mut i: usize = 0;
        while i < self.items.len()
            invariant
                0 <= i <= self.items@.len(),
                out.well_formed(),
                forall|w: i64|
                    out.has(w) == (self.items@.subrange(0, i as int).contains(w) && other.has(w)
                        == keep_present),
            decreases self.items@.len() - i,
        {
            let candidate = self.items[i];
            if other.contains(candidate) == keep_present {
                out.insert(candidate);
            }
            proof {
                let grown = self.items@.subrange(0, i + 1);
                assert(grown.drop_last() =~= self.items@.subrange(0, i as int));
                assert forall|w: i64| grown.contains(w) == (self.items@.subrange(0,
                    i as int).contains(w) || w == self.items@[i as int]) by {
                    if grown.contains(w) {
                        let j = choose|j: int| 0 <= j < grown.len() && grown[j] == w;
                        if j < i {
                            assert(self.items@.subrange(0, i as int)[j] == w);
                        }
                    }
                    if self.items@.subrange(0, i as int).contains(w) {
                        let j = choose|j: int|
                            0 <= j < i && self.items@.subrange(0, i as int)[j] == w;
                        assert(grown[j] == w);
                    }
                    if w == self.items@[i as int] {
                        assert(grown[i as int] == w);
                    }
                }
            }
            i = i + 1;
        }
        proof {
            assert(self.items@.subrange(0, self.items@.len() as int) =~= self.items@);
        }
        out
    }

    /// The elements in exactly one of the two sets.
    pub fn symmetric_difference(&self, other: &IntSet) -> (r: IntSet)
        requires
            self.well_formed(),
            other.well_formed(),
        ensures
            r.well_formed(),
            forall|w: i64| r.has(w) == (self.has(w) != other.has(w)),
    {
        let left = self.difference(other);
        let right = other.difference(self);
        left.union(&right)
    }

    /// Builds a set from the elements of a vector, duplicates collapsed.
    #[verifier::loop_isolation(false)]
    pub fn from_vec(xs: &Vec<i64>) -> (r: IntSet)
        ensures
            r.well_formed(),
            forall|w: i64| r.has(w) == xs@.contains(w),
    {
        let mut out = IntSet::new();
        let mut i: usize = 0;
        while i < xs.len()
            invariant
                0 <= i <= xs@.len(),
                out.well_formed(),
                forall|w: i64| out.has(w) == xs@.subrange(0, i as int).contains(w),
            decreases xs@.len() - i,
        {
            out.insert(xs[i]);
            proof {
                let grown = xs@.subrange(0, i + 1);
                assert(grown.drop_last() =~= xs@.subrange(0, i as int));
                assert forall|w: i64| grown.contains(w) == (xs@.subrange(0, i as int).contains(w)
                    || w == xs@[i as int]) by {
                    if grown.contains(w) {
                        let j = choose|j: int| 0 <= j < grown.len() && grown[j] == w;
                        if j < i {
                            assert(xs@.subrange(0, i as int)[j] == w);
                        }
                    }
                    if xs@.subrange(0, i as int).contains(w) {
                        let j = choose|j: int| 0 <= j < i && xs@.subrange(0, i as int)[j] == w;
                        assert(grown[j] == w);
                    }
                    if w == xs@[i as int] {
                        assert(grown[i as int] == w);
                    }
                }
            }
            i = i + 1;
        }
        proof {
            assert(xs@.subrange(0, xs@.len() as int) =~= xs@);
        }
        out
    }
}

/// The smallest entry of a vector: the repetition lesson's cascade of
/// two-way minima written as one loop.
#[verifier::loop_isolation(false)]
pub fn min_of(xs: &Vec<u32>) -> (r: Option<u32>)
    ensures
        xs@.len() == 0 ==> r is None,
        xs@.len() > 0 ==> (r matches Some(m) && xs@.contains(m) && forall|i: int|
            0 <= i < xs@.len() ==> m <= #[trigger] xs@[i]),
{
    if xs.len() == 0 {
        return None;
    }
    let mut best = xs[0];
    let mut i: usize = 1;
    while i < xs.len()
        invariant
            1 <= i <= xs@.len(),
            xs@.contains(best),
            forall|j: int| 0 <= j < i ==> best <= #[trigger] xs@[j],
        decreases xs@.len() - i,
    {
        if xs[i] < best {
            best = xs[i];
            assert(xs@.contains(best)) by {
                assert(xs@[i as int] == best);
            }
        }
        i = i + 1;
    }
    Some(best)
}

/// Relies on `Rc::clone`: the clone shares the same value.
#[verifier::external_body]
fn clone_rc(rc: &Rc<i32>) -> (r: Rc<i32>)
    ensures
        r == *rc,
{
    rc.clone()
}

/// Shared read-only ownership: a reference-counted value read through the
/// original handle and through a clone.
pub fn reference_counting() {
    let rc = Rc::new(42i32);
    assert(*rc == 42);
    let cloned = clone_rc(&rc);
    assert(*cloned == 42);
}

} // verus!
