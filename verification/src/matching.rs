//! A small evaluator for `match`-style pattern dispatch over tagged-union
//! values.
//!
//! A [`Value`] is one of a fixed set of shapes; an ordered list of [`Arm`]s
//! pairs a structural [`Pattern`] with an optional [`Guard`]. Arms are tried
//! in declaration order; the first arm whose pattern matches the value and
//! whose guard holds under the pattern's bindings is selected. A [`MatchExpr`]
//! can only be constructed from an arm list that provably covers every
//! constructible value, so evaluation is total; a list that may leave a value
//! uncovered is rejected at construction time with
//! [`MatchError::NonExhaustiveMatch`].

use vstd::prelude::*;

verus! {

/// A tagged-union value: exactly one of a fixed set of named shapes.
#[derive(Clone, Copy, PartialEq, Eq, Structural, Debug)]
pub enum Value {
    /// A bare integer.
    Int(i64),
    /// A bare truth value.
    Flag(bool),
    /// A pair of an integer and a truth value.
    Pair(i64, bool),
    /// Three integer colour channels.
    Rgb(i64, i64, i64),
}

/// A pattern for one integer slot of a value.
#[derive(PartialEq, Eq, Debug)]
pub enum NumPattern {
    /// `_`: matches any integer, binds nothing.
    AnyNum,
    /// `n @ _`: matches any integer and binds it.
    BindNum,
    /// A literal: matches exactly one integer.
    NumLit(i64),
    /// `lo..=hi` with the upper bound included.
    RangeIncl(i64, i64),
    /// `n @ lo..=hi`: an inclusive range that also binds the matched integer.
    BindRangeIncl(i64, i64),
    /// `lo..hi` with the upper bound excluded.
    RangeExcl(i64, i64),
    /// `a | b | c`: literal alternatives; matches if any alternative matches.
    OneOf(Vec<i64>),
}

/// A pattern for one truth-value slot of a value.
#[derive(Clone, Copy, PartialEq, Eq, Structural, Debug)]
pub enum FlagPattern {
    /// `_`: matches any truth value, binds nothing.
    AnyFlag,
    /// `g @ _`: matches any truth value and binds it.
    BindFlag,
    /// A literal `true` or `false`.
    FlagLit(bool),
    /// `g @ lit`: a literal that also binds the matched truth value.
    BindFlagLit(bool),
}

/// A structural pattern over whole [`Value`]s: a shape tag with sub-patterns,
/// or a wildcard that covers every shape.
#[derive(PartialEq, Eq, Debug)]
pub enum Pattern {
    /// `_`: matches every shape.
    Wildcard,
    /// Matches `Value::Int` when the sub-pattern accepts the integer.
    IntPat(NumPattern),
    /// Matches `Value::Flag` when the sub-pattern accepts the truth value.
    FlagPat(FlagPattern),
    /// Matches `Value::Pair` when both sub-patterns accept their slot.
    PairPat(NumPattern, FlagPattern),
    /// Matches `Value::Rgb` when all three sub-patterns accept their channel.
    RgbPat(NumPattern, NumPattern, NumPattern),
}

/// What a successful structural match brings into scope for the guard:
/// at most one bound integer and at most one bound truth value.
#[derive(Clone, Copy, PartialEq, Eq, Structural, Debug)]
pub struct Bindings {
    /// The integer bound by a `BindNum`/`BindRangeIncl` sub-pattern, if any.
    pub num: Option<i64>,
    /// The truth value bound by a `BindFlag`/`BindFlagLit` sub-pattern, if any.
    pub flag: Option<bool>,
}

/// A condition checked after a structural match, with the pattern's bindings
/// in scope. A guard that speaks of a binding the pattern did not produce
/// never holds.
#[derive(Clone, Copy, PartialEq, Eq, Structural, Debug)]
pub enum Guard {
    /// No guard: always holds.
    Always,
    /// Holds when the bound integer is even.
    NumIsEven,
    /// Holds when the bound integer is odd.
    NumIsOdd,
    /// Holds when the bound truth value is `true`.
    FlagIsSet,
}

/// One arm of a match expression: a structural pattern, a guard, and the
/// result the arm stands for.
#[derive(PartialEq, Eq, Debug)]
pub struct Arm {
    /// The structural pattern tried first.
    pub pattern: Pattern,
    /// The guard evaluated, under the pattern's bindings, after a structural
    /// match; if it fails, matching continues with the next arm and the
    /// original value.
    pub guard: Guard,
    /// The label of the arm's result expression, handed back together with
    /// the bindings when the arm is selected.
    pub label: u64,
}

/// The outcome of evaluating a match: which arm was selected and what its
/// pattern bound.
#[derive(Clone, Copy, PartialEq, Eq, Structural, Debug)]
pub struct Selection {
    /// Index of the selected arm in the arm list.
    pub index: usize,
    /// The label of the selected arm's result expression.
    pub label: u64,
    /// The bindings produced by the selected arm's pattern.
    pub bindings: Bindings,
}

/// Why a match expression could not be built.
#[derive(Clone, Copy, PartialEq, Eq, Structural, Debug)]
pub enum MatchError {
    /// The arm list may leave some constructible value unmatched.
    NonExhaustiveMatch,
}

/// Whether a number pattern accepts the integer `n`.
pub open spec fn num_matches(p: NumPattern, n: i64) -> bool {
    match p {
        NumPattern::AnyNum => true,
        NumPattern::BindNum => true,
        NumPattern::NumLit(k) => n == k,
        NumPattern::RangeIncl(lo, hi) => lo <= n <= hi,
        NumPattern::BindRangeIncl(lo, hi) => lo <= n <= hi,
        NumPattern::RangeExcl(lo, hi) => lo <= n < hi,
        NumPattern::OneOf(ks) => ks@.contains(n),
    }
}

/// Whether a flag pattern accepts the truth value `f`.
pub open spec fn flag_matches(p: FlagPattern, f: bool) -> bool {
    match p {
        FlagPattern::AnyFlag => true,
        FlagPattern::BindFlag => true,
        FlagPattern::FlagLit(k) => f == k,
        FlagPattern::BindFlagLit(k) => f == k,
    }
}

/// The integer a number pattern binds when it accepts `n`.
pub open spec fn num_binding(p: NumPattern, n: i64) -> Option<i64> {
    match p {
        NumPattern::BindNum => Some(n),
        NumPattern::BindRangeIncl(_, _) => Some(n),
        _ => None,
    }
}

/// The truth value a flag pattern binds when it accepts `f`.
pub open spec fn flag_binding(p: FlagPattern, f: bool) -> Option<bool> {
    match p {
        FlagPattern::BindFlag => Some(f),
        FlagPattern::BindFlagLit(_) => Some(f),
        _ => None,
    }
}

/// The later of two optional bindings, the later one winning.
pub open spec fn merge_num<T>(first: Option<T>, second: Option<T>) -> Option<T> {
    if second is Some {
        second
    } else {
        first
    }
}

/// Whether a structural pattern matches a value: the shapes agree and every
/// sub-pattern accepts its slot. A wildcard matches every shape.
pub open spec fn pattern_matches(p: Pattern, v: Value) -> bool {
    match p {
        Pattern::Wildcard => true,
        Pattern::IntPat(np) => v matches Value::Int(n) && num_matches(np, n),
        Pattern::FlagPat(fp) => v matches Value::Flag(f) && flag_matches(fp, f),
        Pattern::PairPat(np, fp) => v matches Value::Pair(n, f) && num_matches(np, n)
            && flag_matches(fp, f),
        Pattern::RgbPat(rp, gp, bp) => v matches Value::Rgb(r, g, b) && num_matches(rp, r)
            && num_matches(gp, g) && num_matches(bp, b),
    }
}

/// The bindings a structural match of `p` against `v` brings into scope.
/// Where several channel sub-patterns bind, the rightmost binding wins.
pub open spec fn bindings_of(p: Pattern, v: Value) -> Bindings {
    match p {
        Pattern::Wildcard => Bindings { num: None, flag: None },
        Pattern::IntPat(np) => Bindings {
            num: match v {
                Value::Int(n) => num_binding(np, n),
                _ => None,
            },
            flag: None,
        },
        Pattern::FlagPat(fp) => Bindings {
            num: None,
            flag: match v {
                Value::Flag(f) => flag_binding(fp, f),
                _ => None,
            },
        },
        Pattern::PairPat(np, fp) => {
            match v {
                Value::Pair(n, f) => Bindings {
                    num: num_binding(np, n),
                    flag: flag_binding(fp, f),
                },
                _ => Bindings { num: None, flag: None },
            }
        },
        Pattern::RgbPat(rp, gp, bp) => {
            match v {
                Value::Rgb(r, g, b) => Bindings {
                    num: merge_num(merge_num(num_binding(rp, r), num_binding(gp, g)),
                        num_binding(bp, b)),
                    flag: None,
                },
                _ => Bindings { num: None, flag: None },
            }
        },
    }
}

/// Whether a guard holds under the given bindings.
pub open spec fn guard_holds(g: Guard, b: Bindings) -> bool {
    match g {
        Guard::Always => true,
        Guard::NumIsEven => b.num matches Some(n) && n % 2 == 0,
        Guard::NumIsOdd => b.num matches Some(n) && n % 2 != 0,
        Guard::FlagIsSet => b.flag matches Some(f) && f,
    }
}

/// Whether an arm fully matches a value: structural match plus a guard that
/// holds under the pattern's bindings.
pub open spec fn arm_matches(a: Arm, v: Value) -> bool {
    pattern_matches(a.pattern, v) && guard_holds(a.guard, bindings_of(a.pattern, v))
}

/// `i` is the arm that first-match-wins dispatch selects for `v`: arm `i`
/// fully matches and no earlier arm does.
pub open spec fn selects(arms: Seq<Arm>, v: Value, i: int) -> bool {
    &&& 0 <= i < arms.len()
    &&& arm_matches(arms[i], v)
    &&& forall|j: int| 0 <= j < i ==> !arm_matches(#[trigger] arms[j], v)
}

/// A number pattern that accepts every integer.
pub open spec fn num_irrefutable(p: NumPattern) -> bool {
    p is AnyNum || p is BindNum
}

/// A flag pattern that accepts every truth value.
pub open spec fn flag_irrefutable(p: FlagPattern) -> bool {
    p is AnyFlag || p is BindFlag
}

/// An arm that matches every value of the given shape, whatever its payload:
/// its pattern is irrefutable for the shape and it carries no guard.
pub open spec fn arm_covers_int(a: Arm) -> bool {
    a.guard is Always && match a.pattern {
        Pattern::Wildcard => true,
        Pattern::IntPat(np) => num_irrefutable(np),
        _ => false,
    }
}

/// As [`arm_covers_int`], for the `Flag` shape.
pub open spec fn arm_covers_flag(a: Arm) -> bool {
    a.guard is Always && match a.pattern {
        Pattern::Wildcard => true,
        Pattern::FlagPat(fp) => flag_irrefutable(fp),
        _ => false,
    }
}

/// As [`arm_covers_int`], for the `Pair` shape.
pub open spec fn arm_covers_pair(a: Arm) -> bool {
    a.guard is Always && match a.pattern {
        Pattern::Wildcard => true,
        Pattern::PairPat(np, fp) => num_irrefutable(np) && flag_irrefutable(fp),
        _ => false,
    }
}

/// As [`arm_covers_int`], for the `Rgb` shape.
pub open spec fn arm_covers_rgb(a: Arm) -> bool {
    a.guard is Always && match a.pattern {
        Pattern::Wildcard => true,
        Pattern::RgbPat(rp, gp, bp) => num_irrefutable(rp) && num_irrefutable(gp)
            && num_irrefutable(bp),
        _ => false,
    }
}

/// The static exhaustiveness criterion: for each of the four shapes some arm
/// unconditionally covers it.
pub open spec fn exhaustive(arms: Seq<Arm>) -> bool {
    &&& exists|i: int| 0 <= i < arms.len() && arm_covers_int(#[trigger] arms[i])
    &&& exists|i: int| 0 <= i < arms.len() && arm_covers_flag(#[trigger] arms[i])
    &&& exists|i: int| 0 <= i < arms.len() && arm_covers_pair(#[trigger] arms[i])
    &&& exists|i: int| 0 <= i < arms.len() && arm_covers_rgb(#[trigger] arms[i])
}

/// An arm that unconditionally covers a shape fully matches every value of
/// that shape.
proof fn lemma_cover_matches(a: Arm, v: Value)
    requires
        match v {
            Value::Int(_) => arm_covers_int(a),
            Value::Flag(_) => arm_covers_flag(a),
            Value::Pair(_, _) => arm_covers_pair(a),
            Value::Rgb(_, _, _) => arm_covers_rgb(a),
        },
    ensures
        arm_matches(a, v),
{
}

/// Every constructible value fully matches some arm of an exhaustive arm
/// list.
pub proof fn lemma_exhaustive_some_arm_matches(arms: Seq<Arm>, v: Value)
    requires
        exhaustive(arms),
    ensures
        exists|i: int| 0 <= i < arms.len() && arm_matches(#[trigger] arms[i], v),
{
    match v {
        Value::Int(_) => {
            let i = choose|i: int| 0 <= i < arms.len() && arm_covers_int(#[trigger] arms[i]);
            lemma_cover_matches(arms[i], v);
        },
        Value::Flag(_) => {
            let i = choose|i: int| 0 <= i < arms.len() && arm_covers_flag(#[trigger] arms[i]);
            lemma_cover_matches(arms[i], v);
        },
        Value::Pair(_, _) => {
            let i = choose|i: int| 0 <= i < arms.len() && arm_covers_pair(#[trigger] arms[i]);
            lemma_cover_matches(arms[i], v);
        },
        Value::Rgb(_, _, _) => {
            let i = choose|i: int| 0 <= i < arms.len() && arm_covers_rgb(#[trigger] arms[i]);
            lemma_cover_matches(arms[i], v);
        },
    }
}

/// Where some arm fully matches, first-match-wins dispatch selects an arm.
pub proof fn lemma_some_match_gives_selection(arms: Seq<Arm>, v: Value)
    requires
        exists|i: int| 0 <= i < arms.len() && arm_matches(#[trigger] arms[i], v),
    ensures
        exists|i: int| selects(arms, v, i),
{
    let k = choose|i: int| 0 <= i < arms.len() && arm_matches(#[trigger] arms[i], v);
    lemma_first_match_below(arms, v, k);
}

/// Below any fully-matching arm `k` there is a first fully-matching arm.
proof fn lemma_first_match_below(arms: Seq<Arm>, v: Value, k: int)
    requires
        0 <= k < arms.len(),
        arm_matches(arms[k], v),
    ensures
        exists|i: int| i <= k && selects(arms, v, i),
    decreases k,
{
    if forall|j: int| 0 <= j < k ==> !arm_matches(#[trigger] arms[j], v) {
        assert(selects(arms, v, k));
    } else {
        let j = choose|j: int| 0 <= j < k && arm_matches(#[trigger] arms[j], v);
        lemma_first_match_below(arms, v, j);
    }
}

/// Every constructible value is dispatched to exactly one arm of an
/// exhaustive arm list: a selected arm exists, and any two selected arms are
/// the same arm.
pub proof fn lemma_exhaustive_unique_selection(arms: Seq<Arm>, v: Value)
    requires
        exhaustive(arms),
    ensures
        exists|i: int| selects(arms, v, i),
        forall|i: int, j: int| selects(arms, v, i) && selects(arms, v, j) ==> i == j,
{
    lemma_exhaustive_some_arm_matches(arms, v);
    lemma_some_match_gives_selection(arms, v);
    assert forall|i: int, j: int| selects(arms, v, i) && selects(arms, v, j) implies i == j by {
        if i < j {
            assert(!arm_matches(arms[i], v));
        } else if j < i {
            assert(!arm_matches(arms[j], v));
        }
    }
}

/// Arms are tried in declaration order: of two arms with the same structural
/// pattern, dispatch never selects the later one when the earlier one's guard
/// holds. The earlier arm fully matching is exactly "same structural match,
/// guard true".
pub proof fn lemma_first_true_guard_wins(arms: Seq<Arm>, v: Value, i: int, j: int)
    requires
        0 <= i < j < arms.len(),
        arms[i].pattern == arms[j].pattern,
        arm_matches(arms[j], v),
        guard_holds(arms[i].guard, bindings_of(arms[i].pattern, v)),
    ensures
        !selects(arms, v, j),
        exists|k: int| k <= i && selects(arms, v, k),
{
    assert(arm_matches(arms[i], v));
    lemma_first_match_below(arms, v, i);
}

/// A guard failure does not consume the match: when the earlier of two
/// structurally identical arms has a failing guard and no arm before `j`
/// fully matches, dispatch falls through to the later arm, which sees the
/// original value.
pub proof fn lemma_failed_guard_falls_through(arms: Seq<Arm>, v: Value, i: int, j: int)
    requires
        0 <= i < j < arms.len(),
        arms[i].pattern == arms[j].pattern,
        arm_matches(arms[j], v),
        forall|k: int| 0 <= k < j ==> !arm_matches(#[trigger] arms[k], v),
    ensures
        selects(arms, v, j),
        !guard_holds(arms[i].guard, bindings_of(arms[i].pattern, v)),
{
    assert(pattern_matches(arms[i].pattern, v));
}

/// A value equal to the upper bound of an inclusive range matches it; a value
/// equal to the upper bound of an exclusive range never does.
pub proof fn lemma_range_upper_bounds(lo: i64, hi: i64)
    ensures
        lo <= hi ==> num_matches(NumPattern::RangeIncl(lo, hi), hi),
        !num_matches(NumPattern::RangeExcl(lo, hi), hi),
{
}

/// Runs a number pattern against an integer.
#[verifier::loop_isolation(false)]
pub fn num_match(p: &NumPattern, n: i64) -> (r: bool)
    ensures
        r == num_matches(*p, n),
{
    match p {
        NumPattern::AnyNum => true,
        NumPattern::BindNum => true,
        NumPattern::NumLit(k) => n == *k,
        NumPattern::RangeIncl(lo, hi) => *lo <= n && n <= *hi,
        NumPattern::BindRangeIncl(lo, hi) => *lo <= n && n <= *hi,
        NumPattern::RangeExcl(lo, hi) => *lo <= n && n < *hi,
        NumPattern::OneOf(ks) => {
            let mut i: usize = 0;
            while i < ks.len()
                invariant
                    0 <= i <= ks@.len(),
                    forall|j: int| 0 <= j < i ==> ks@[j] != n,
                decreases ks@.len() - i,
            {
                if ks[i] == n {
                    assert(ks@.contains(n)) by {
                        assert(ks@[i as int] == n);
                    }
                    return true;
                }
                i = i + 1;
            }
            assert(!ks@.contains(n));
            false
        },
    }
}

/// Runs a flag pattern against a truth value.
pub fn flag_match(p: &FlagPattern, f: bool) -> (r: bool)
    ensures
        r == flag_matches(*p, f),
{
    match p {
        FlagPattern::AnyFlag => true,
        FlagPattern::BindFlag => true,
        FlagPattern::FlagLit(k) => f == *k,
        FlagPattern::BindFlagLit(k) => f == *k,
    }
}

/// Runs a structural pattern against a value.
pub fn pattern_match(p: &Pattern, v: &Value) -> (r: bool)
    ensures
        r == pattern_matches(*p, *v),
{
    match p {
        Pattern::Wildcard => true,
        Pattern::IntPat(np) => {
            match v {
                Value::Int(n) => num_match(np, *n),
                _ => false,
            }
        },
        Pattern::FlagPat(fp) => {
            match v {
                Value::Flag(f) => flag_match(fp, *f),
                _ => false,
            }
        },
        Pattern::PairPat(np, fp) => {
            match v {
                Value::Pair(n, f) => num_match(np, *n) && flag_match(fp, *f),
                _ => false,
            }
        },
        Pattern::RgbPat(rp, gp, bp) => {
            match v {
                Value::Rgb(r, g, b) => num_match(rp, *r) && num_match(gp, *g) && num_match(
                    bp,
                    *b,
                ),
                _ => false,
            }
        },
    }
}

/// Collects the bindings a structural match of `p` against `v` produces.
pub fn compute_bindings(p: &Pattern, v: &Value) -> (r: Bindings)
    ensures
        r == bindings_of(*p, *v),
{
    match p {
        Pattern::Wildcard => Bindings { num: None, flag: None },
        Pattern::IntPat(np) => {
            match v {
                Value::Int(n) => Bindings { num: num_bind(np, *n), flag: None },
                _ => Bindings { num: None, flag: None },
            }
        },
        Pattern::FlagPat(fp) => {
            match v {
                Value::Flag(f) => Bindings { num: None, flag: flag_bind(fp, *f) },
                _ => Bindings { num: None, flag: None },
            }
        },
        Pattern::PairPat(np, fp) => {
            match v {
                Value::Pair(n, f) => Bindings { num: num_bind(np, *n), flag: flag_bind(fp, *f) },
                _ => Bindings { num: None, flag: None },
            }
        },
        Pattern::RgbPat(rp, gp, bp) => {
            match v {
                Value::Rgb(r, g, b) => {
                    let first = num_bind(rp, *r);
                    let second = num_bind(gp, *g);
                    let third = num_bind(bp, *b);
                    let merged = if third.is_some() {
                        third
                    } else if second.is_some() {
                        second
                    } else {
                        first
                    };
                    Bindings { num: merged, flag: None }
                },
                _ => Bindings { num: None, flag: None },
            }
        },
    }
}

/// The integer a number pattern binds.
fn num_bind(p: &NumPattern, n: i64) -> (r: Option<i64>)
    ensures
        r == num_binding(*p, n),
{
    match p {
        NumPattern::BindNum => Some(n),
        NumPattern::BindRangeIncl(_, _) => Some(n),
        _ => None,
    }
}

/// The truth value a flag pattern binds.
fn flag_bind(p: &FlagPattern, f: bool) -> (r: Option<bool>)
    ensures
        r == flag_binding(*p, f),
{
    match p {
        FlagPattern::BindFlag => Some(f),
        FlagPattern::BindFlagLit(_) => Some(f),
        _ => None,
    }
}

/// Evaluates a guard under the given bindings.
pub fn guard_check(g: &Guard, b: &Bindings) -> (r: bool)
    ensures
        r == guard_holds(*g, *b),
{
    match g {
        Guard::Always => true,
        Guard::NumIsEven => {
            match b.num {
                Some(n) => n % 2 == 0,
                None => false,
            }
        },
        Guard::NumIsOdd => {
            match b.num {
                Some(n) => n % 2 != 0,
                None => false,
            }
        },
        Guard::FlagIsSet => {
            match b.flag {
                Some(f) => f,
                None => false,
            }
        },
    }
}

/// Runs one arm against a value: structural match, then the guard under the
/// pattern's bindings.
pub fn arm_match(a: &Arm, v: &Value) -> (r: bool)
    ensures
        r == arm_matches(*a, *v),
{
    if pattern_match(&a.pattern, v) {
        let b = compute_bindings(&a.pattern, v);
        guard_check(&a.guard, &b)
    } else {
        false
    }
}

/// Whether an arm unconditionally covers the `Int` shape.
fn check_covers_int(a: &Arm) -> (r: bool)
    ensures
        r == arm_covers_int(*a),
{
    a.guard == Guard::Always && match &a.pattern {
        Pattern::Wildcard => true,
        Pattern::IntPat(np) => matches!(np, NumPattern::AnyNum | NumPattern::BindNum),
        _ => false,
    }
}

/// Whether an arm unconditionally covers the `Flag` shape.
fn check_covers_flag(a: &Arm) -> (r: bool)
    ensures
        r == arm_covers_flag(*a),
{
    a.guard == Guard::Always && match &a.pattern {
        Pattern::Wildcard => true,
        Pattern::FlagPat(fp) => matches!(fp, FlagPattern::AnyFlag | FlagPattern::BindFlag),
        _ => false,
    }
}

/// Whether an arm unconditionally covers the `Pair` shape.
fn check_covers_pair(a: &Arm) -> (r: bool)
    ensures
        r == arm_covers_pair(*a),
{
    a.guard == Guard::Always && match &a.pattern {
        Pattern::Wildcard => true,
        Pattern::PairPat(np, fp) => matches!(np, NumPattern::AnyNum | NumPattern::BindNum)
            && matches!(fp, FlagPattern::AnyFlag | FlagPattern::BindFlag),
        _ => false,
    }
}

/// Whether an arm unconditionally covers the `Rgb` shape.
fn check_covers_rgb(a: &Arm) -> (r: bool)
    ensures
        r == arm_covers_rgb(*a),
{
    a.guard == Guard::Always && match &a.pattern {
        Pattern::Wildcard => true,
        Pattern::RgbPat(rp, gp, bp) => matches!(rp, NumPattern::AnyNum | NumPattern::BindNum)
            && matches!(gp, NumPattern::AnyNum | NumPattern::BindNum)
            && matches!(bp, NumPattern::AnyNum | NumPattern::BindNum),
        _ => false,
    }
}

/// The static exhaustiveness analysis: every shape must be unconditionally
/// covered by some arm.
#[verifier::loop_isolation(false)]
pub fn check_exhaustive(arms: &Vec<Arm>) -> (r: bool)
    ensures
        r == exhaustive(arms@),
{
    let mut int_done = false;
    let mut flag_done = false;
    let mut pair_done = false;
    let mut rgb_done = false;
    let mut i: usize = 0;
    while i < arms.len()
        invariant
            0 <= i <= arms@.len(),
            int_done == exists|j: int| 0 <= j < i && arm_covers_int(#[trigger] arms@[j]),
            flag_done == exists|j: int| 0 <= j < i && arm_covers_flag(#[trigger] arms@[j]),
            pair_done == exists|j: int| 0 <= j < i && arm_covers_pair(#[trigger] arms@[j]),
            rgb_done == exists|j: int| 0 <= j < i && arm_covers_rgb(#[trigger] arms@[j]),
        decreases arms@.len() - i,
    {
        if check_covers_int(&arms[i]) {
            int_done = true;
        }
        if check_covers_flag(&arms[i]) {
            flag_done = true;
        }
        if check_covers_pair(&arms[i]) {
            pair_done = true;
        }
        if check_covers_rgb(&arms[i]) {
            rgb_done = true;
        }
        i = i + 1;
    }
    int_done && flag_done && pair_done && rgb_done
}

/// A match expression whose arm list has passed the exhaustiveness analysis,
/// so that evaluation is total.
pub struct MatchExpr {
    arms: Vec<Arm>,
}

impl MatchExpr {
    /// The arm list, in declaration order.
    pub closed spec fn arms_seq(self) -> Seq<Arm> {
        self.arms@
    }

    /// The constructor's guarantee: the arm list covers every value.
    pub closed spec fn well_formed(self) -> bool {
        exhaustive(self.arms@)
    }

    /// Builds a match expression, rejecting an arm list that may leave some
    /// value unmatched.
    pub fn new(arms: Vec<Arm>) -> (r: Result<MatchExpr, MatchError>)
        ensures
            exhaustive(arms@) ==> (r matches Ok(m) && m.arms_seq() == arms@ && m.well_formed()),
            !exhaustive(arms@) ==> (r matches Err(e) && e == MatchError::NonExhaustiveMatch),
    {
        if check_exhaustive(&arms) {
            Ok(MatchExpr { arms })
        } else {
            Err(MatchError::NonExhaustiveMatch)
        }
    }

    /// How many arms the expression has.
    pub fn arm_count(&self) -> (r: usize)
        ensures
            r == self.arms_seq().len(),
    {
        self.arms.len()
    }

    /// Dispatches a value to the first arm that fully matches it, returning
    /// the arm's index and what its pattern bound. Total: the construction-
    /// time analysis guarantees some arm matches every value.
    pub fn eval(&self, v: &Value) -> (r: Selection)
        requires
            self.well_formed(),
        ensures
            selects(self.arms_seq(), *v, r.index as int),
            r.label == self.arms_seq()[r.index as int].label,
            r.bindings == bindings_of(self.arms_seq()[r.index as int].pattern, *v),
    {
        let mut i: usize = 0;
        loop
            invariant_except_break
                0 <= i <= self.arms@.len(),
                exhaustive(self.arms@),
                forall|j: int| 0 <= j < i ==> !arm_matches(#[trigger] self.arms@[j], *v),
            ensures
                0 <= i < self.arms@.len(),
                selects(self.arms@, *v, i as int),
            decreases self.arms@.len() - i,
        {
            if i == self.arms.len() {
                proof {
                    lemma_exhaustive_some_arm_matches(self.arms@, *v);
                }
                assert(false);
            }
            if arm_match(&self.arms[i], v) {
                break;
            }
            i = i + 1;
        }
        let bindings = compute_bindings(&self.arms[i].pattern, v);
        let label = self.arms[i].label;
        Selection { index: i, label, bindings }
    }
}

} // verus!
