//! Control flow lessons: loops that return values, range sums, `match` with
//! ranges, alternation and guards, destructuring of tuples, structs and
//! enums, `if let`, a `while let`-style drain, and matching through
//! references.

use vstd::prelude::*;

verus! {

/// A bare `loop` with `continue` and `break`: counts to five, takes a detour
/// at three, and breaks out with an answer.
pub fn loop_with_breaks() -> (r: (i32, i32))
    ensures
        r == (11i32, 42i32),
{
    let mut x: i32 = 1;
    let mut count: i32 = 0;
    loop
        invariant_except_break
            0 <= count <= 4,
            x == if count >= 3 {
                11i32
            } else {
                1i32
            },
        ensures
            x == 11,
        decreases 5 - count,
    {
        count = count + 1;
        if count == 3 {
            x = x + 10;
            continue ;
        }
        if count == 5 {
            break ;
        }
    }
    (x, 42)
}

/// A `while` loop left early with `break`: the counter stops at three, well
/// before the loop condition would fail.
pub fn while_with_break() -> (r: i32)
    ensures
        r == 3,
{
    let mut k: i32 = 1;
    while k < 10
        invariant_except_break
            1 <= k <= 2,
        ensures
            k == 3,
        decreases 10 - k,
    {
        k = k + 1;
        if k < 3 {
            continue ;
        }
        break ;
    }
    k
}

/// `if`/`else if`/`else` as an expression: scales a number by how large it
/// is.
pub fn scale_by_magnitude(n: i32) -> (r: i32)
    requires
        -536870912 <= n <= 536870911,
    ensures
        n < 10 ==> r == 2 * n,
        10 <= n < 20 ==> r == 3 * n,
        n >= 20 ==> r == 4 * n,
{
    if n < 10 {
        n * 2
    } else if n < 20 {
        n * 3
    } else {
        n * 4
    }
}

/// The sum `1 + 2 + ... + n`.
pub open spec fn triangle(n: nat) -> nat
    decreases n,
{
    if n == 0 {
        0
    } else {
        n + triangle((n - 1) as nat)
    }
}

/// The triangle sum never exceeds the square.
proof fn lemma_triangle_le_square(n: nat)
    ensures
        triangle(n) <= n * n,
    decreases n,
{
    if n > 0 {
        lemma_triangle_le_square((n - 1) as nat);
        assert((n - 1) * (n - 1) == n * n - 2 * n + 1) by (nonlinear_arith);
    }
}

/// The triangle sum grows with its bound.
proof fn lemma_triangle_monotone(a: nat, b: nat)
    requires
        a <= b,
    ensures
        triangle(a) <= triangle(b),
    decreases b,
{
    if a < b {
        lemma_triangle_monotone(a, (b - 1) as nat);
    }
}

/// A `for`-range sum with the upper bound included: `1 + ... + hi`.
#[verifier::loop_isolation(false)]
pub fn sum_inclusive(hi: u32) -> (r: u64)
    ensures
        r == triangle(hi as nat),
{
    let mut total: u64 = 0;
    let mut n: u32 = 0;
    while n < hi
        invariant
            0 <= n <= hi,
            total == triangle(n as nat),
        decreases hi - n,
    {
        n = n + 1;
        proof {
            lemma_triangle_monotone(n as nat, hi as nat);
            lemma_triangle_le_square(hi as nat);
            assert((hi as int) * (hi as int) <= 0xffff_ffff * 0xffff_ffff) by (nonlinear_arith)
                requires
                    hi <= 0xffff_ffffu32,
            ;
        }
        total = total + (n as u64);
    }
    total
}

/// A `for`-range sum with the upper bound excluded: `1 + ... + (hi - 1)`.
pub fn sum_exclusive(hi: u32) -> (r: u64)
    ensures
        hi == 0 ==> r == 0,
        hi > 0 ==> r == triangle((hi - 1) as nat),
{
    if hi == 0 {
        0
    } else {
        sum_inclusive(hi - 1)
    }
}

/// A counted loop left early: one pass per round, stopping at the cap even
/// when more rounds were on offer.
pub fn capped_count(rounds: u32, cap: u32) -> (r: u32)
    ensures
        r == if cap <= rounds {
            cap
        } else {
            rounds
        },
{
    let mut z: u32 = 0;
    while z < rounds
        invariant_except_break
            0 <= z <= rounds,
            z <= cap,
        ensures
            z == if cap <= rounds {
                cap
            } else {
                rounds
            },
        decreases rounds - z,
    {
        if z == cap {
            break ;
        }
        z = z + 1;
        if z < cap {
            continue ;
        } else {
            break ;
        }
    }
    z
}

/// Iterating a borrowed vector: the original stays usable, and the copy
/// holds the same elements.
#[verifier::loop_isolation(false)]
pub fn collect_borrowed(names: &Vec<u64>) -> (r: Vec<u64>)
    ensures
        r@ == names@,
{
    let mut gathered: Vec<u64> = Vec::new();
    let mut i: usize = 0;
    while i < names.len()
        invariant
            0 <= i <= names@.len(),
            gathered@ == names@.subrange(0, i as int),
        decreases names@.len() - i,
    {
        gathered.push(names[i]);
        i = i + 1;
    }
    proof {
        assert(names@.subrange(0, names@.len() as int) =~= names@);
    }
    gathered
}

/// Iterating a vector by value: the argument is moved in and consumed, and
/// only the gathered copy comes back.
pub fn collect_owned(names: Vec<u64>) -> (r: Vec<u64>)
    ensures
        r@ == names@,
{
    collect_borrowed(&names)
}

/// What matching an integer against the layered arms yields: a literal, an
/// alternation, a range, two guarded binding ranges, or the wildcard.
#[derive(Clone, Copy, PartialEq, Eq, Structural, Debug)]
pub enum NumberKind {
    /// The literal arm `1`.
    One,
    /// The alternation arm `2 | 3 | 4 | 5`.
    SmallAlternative,
    /// The inclusive range arm `6..=10`.
    MidRange,
    /// The guarded binding arm for even `11..=42`, carrying the binding.
    EvenTeen(i32),
    /// The guarded binding arm for odd `11..=42`, carrying the binding.
    OddTeen(i32),
    /// The trailing wildcard.
    Unmatched,
}

/// Matches a number against literal, alternation, range, guarded-binding
/// and wildcard arms, in declaration order.
pub fn describe_number(n: i32) -> (r: NumberKind)
    ensures
        r == if n == 1 {
            NumberKind::One
        } else if 2 <= n <= 5 {
            NumberKind::SmallAlternative
        } else if 6 <= n <= 10 {
            NumberKind::MidRange
        } else if 11 <= n <= 42 && n % 2 == 0 {
            NumberKind::EvenTeen(n)
        } else if 11 <= n <= 42 {
            NumberKind::OddTeen(n)
        } else {
            NumberKind::Unmatched
        },
{
    match n {
        1 => NumberKind::One,
        2 | 3 | 4 | 5 => NumberKind::SmallAlternative,
        6..=10 => NumberKind::MidRange,
        m @ 11..=42 if m % 2 == 0 => NumberKind::EvenTeen(m),
        m @ 11..=42 => NumberKind::OddTeen(m),
        _ => NumberKind::Unmatched,
    }
}

/// Which arm a `(number, flag)` pair falls into.
#[derive(Clone, Copy, PartialEq, Eq, Structural, Debug)]
pub enum PairLabel {
    /// `(2, true)`.
    TwoSet,
    /// `(2, false) | (3, false)`: an alternation of tuple patterns.
    SmallClear,
    /// `(_, true)`: any number with the flag set.
    AnySet,
    /// `(_, g @ false) if g`: a guard that can never hold.
    Impossible,
    /// The trailing wildcard.
    Leftover,
}

/// Destructures a tuple in `match` arms, with alternation and a guard whose
/// condition contradicts its own pattern.
pub fn classify_pair(pair: (i32, bool)) -> (r: PairLabel)
    ensures
        r == if pair == (2i32, true) {
            PairLabel::TwoSet
        } else if pair == (2i32, false) || pair == (3i32, false) {
            PairLabel::SmallClear
        } else if pair.1 {
            PairLabel::AnySet
        } else {
            PairLabel::Leftover
        },
        r != PairLabel::Impossible,
{
    match pair {
        (2, true) => PairLabel::TwoSet,
        (2, false) | (3, false) => PairLabel::SmallClear,
        (_, true) => PairLabel::AnySet,
        (_d, g @ false) if g => PairLabel::Impossible,
        _ => PairLabel::Leftover,
    }
}

/// A struct destructured by `match` arms.
#[derive(Clone, Copy, PartialEq, Eq, Debug)]
pub struct Foo {
    /// A nested tuple, destructured field by field.
    pub x: (u32, u32),
    /// A plain field, bound or matched against a literal.
    pub y: u32,
}

/// Which arm a [`Foo`] falls into, with what the arm's pattern bound.
#[derive(Clone, Copy, PartialEq, Eq, Structural, Debug)]
pub enum FooCase {
    /// `Foo { x: (1, b), y }`: first tuple slot is one; carries `b` and `y`.
    StartsWithOne(u32, u32),
    /// `Foo { x: i, y: 2 }`: `y` is two; carries the whole tuple `i`.
    YIsTwo(u32, u32),
    /// `Foo { x: (2, _), .. }`: first tuple slot is two, the rest ignored.
    StartsWithTwo,
    /// The trailing wildcard.
    AnythingElse,
}

/// Destructures a struct in `match` arms: naming a field, matching a field
/// against a literal, and ignoring the rest with `..`.
pub fn classify_foo(foo: &Foo) -> (r: FooCase)
    ensures
        r == if foo.x.0 == 1 {
            FooCase::StartsWithOne(foo.x.1, foo.y)
        } else if foo.y == 2 {
            FooCase::YIsTwo(foo.x.0, foo.x.1)
        } else if foo.x.0 == 2 {
            FooCase::StartsWithTwo
        } else {
            FooCase::AnythingElse
        },
{
    match foo {
        Foo { x: (1, b), y } => FooCase::StartsWithOne(*b, *y),
        Foo { x: i, y: 2 } => FooCase::YIsTwo(i.0, i.1),
        Foo { x: (2, _), .. } => FooCase::StartsWithTwo,
        _ => FooCase::AnythingElse,
    }
}

/// A colour that is either named or given by channels.
#[derive(Clone, Copy, PartialEq, Eq, Structural, Debug)]
pub enum Colour {
    /// The named colour red.
    Red,
    /// The named colour blue.
    Blue,
    /// Explicit red, green and blue channels.
    Rgb(u32, u32, u32),
}

/// What destructuring a colour yields: its name, or its channels.
#[derive(Clone, Copy, PartialEq, Eq, Structural, Debug)]
pub enum ColourLabel {
    /// A named colour, `true` for red and `false` for blue.
    Named(bool),
    /// The three channels of an explicit colour.
    Channels(u32, u32, u32),
}

/// Destructures an enum in `match` arms, binding the payload of the
/// channel-bearing variant.
pub fn classify_colour(c: &Colour) -> (r: ColourLabel)
    ensures
        r == match *c {
            Colour::Red => ColourLabel::Named(true),
            Colour::Blue => ColourLabel::Named(false),
            Colour::Rgb(red, green, blue) => ColourLabel::Channels(red, green, blue),
        },
{
    match c {
        Colour::Red => ColourLabel::Named(true),
        Colour::Blue => ColourLabel::Named(false),
        Colour::Rgb(red, green, blue) => ColourLabel::Channels(*red, *green, *blue),
    }
}

/// `if let` in place of a one-armed `match`: which branch of the
/// `if let`/`else if`/`else` ladder runs.
pub fn if_let_ladder(x: Option<i32>, flag: bool) -> (r: u8)
    ensures
        x is Some ==> r == 0,
        x is None && flag ==> r == 1,
        x is None && !flag ==> r == 2,
{
    if let Some(_y) = x {
        0
    } else if flag {
        1
    } else {
        2
    }
}

/// A single-variant enum that deliberately has no equality: `if let` can
/// still inspect it where `==` cannot compare it.
#[derive(Clone, Copy, Debug)]
pub enum Solo {
    /// The one shape a `Solo` can take.
    Bar,
}

/// An irrefutable `f @` pattern in `if let`: it always matches, binding the
/// whole value, so the `else` branch is never taken.
pub fn if_let_irrefutable(value: Solo) -> (r: (Solo, bool))
    ensures
        r.0 is Bar,
        r.1,
{
    #[allow(irrefutable_let_patterns)]
    if let f @ Solo::Bar = value {
        (f, true)
    } else {
        (Solo::Bar, false)
    }
}

/// A `while let`-style drain: an optional counter is advanced until it
/// reaches the stop value, then taken; the loop ends with nothing left.
pub fn count_until(stop: u32) -> (r: u32)
    ensures
        r == stop,
{
    let mut optional: Option<u32> = Some(0);
    let mut last: u32 = 0;
    loop
        invariant_except_break
            optional matches Some(v) ==> 0 <= v <= stop,
            optional is None ==> last == stop,
        ensures
            optional is None,
            last == stop,
        decreases (match optional {
            Some(v) => stop - v + 1,
            None => 0,
        }),
    {
        match optional {
            Some(i) => {
                if i != stop {
                    optional = Some(i + 1);
                } else {
                    last = i;
                    optional = None;
                }
            },
            None => {
                break ;
            },
        }
    }
    last
}

/// Matching through a reference: the pattern sees the value behind it.
pub fn read_through_ref(reference: &i32) -> (r: i32)
    ensures
        r == *reference,
{
    match reference {
        val => *val,
    }
}

/// A `ref mut` binding inside a `match`: the bound name mutates the matched
/// value in place.
pub fn increment_in_match(value: i32) -> (r: i32)
    requires
        value < i32::MAX,
    ensures
        r == value + 1,
{
    let mut scratch = value;
    match scratch {
        ref mut x => {
            *x = *x + 1;
        },
    }
    scratch
}

} // verus!
