//! Traits: a trait with constructor, method and override; a hand-written
//! ordering; combining two types into a third; a verified iterator-style
//! stepper; returning and taking callables; copy and clone semantics;
//! supertraits; and two traits whose methods share a name.

use core::cmp::Ordering;
use vstd::prelude::*;
use vstd::string::StringExecFns;

verus! {

/// Animals are named, make a noise, and can talk.
pub trait Animal: Sized {
    /// The animal's name.
    spec fn spec_name(&self) -> Seq<char>;

    /// The noise the animal makes.
    spec fn spec_noise(&self) -> Seq<char>;

    /// A new animal of the given name.
    fn new(name: &'static str) -> (r: Self)
        ensures
            r.spec_name() == name@,
    ;

    /// The noise, computed.
    fn noise(&self) -> (r: &'static str)
        ensures
            r@ == self.spec_noise(),
    ;

    /// What the animal says: by default, its noise.
    fn talk(&self) -> (r: String)
        ensures
            r@ == self.spec_noise(),
    ;
}

/// A sheep: born clothed, named at birth.
pub struct Sheep {
    naked: bool,
    name: &'static str,
}

impl Sheep {
    /// Whether the sheep has been shorn.
    pub closed spec fn spec_naked(self) -> bool {
        self.naked
    }

    /// Whether the sheep has been shorn, computed.
    pub fn is_naked(&self) -> (r: bool)
        ensures
            r == self.spec_naked(),
    {
        self.naked
    }
}

impl Animal for Sheep {
    closed spec fn spec_name(&self) -> Seq<char> {
        self.name@
    }

    open spec fn spec_noise(&self) -> Seq<char> {
        "blaaaah"@
    }

    fn new(name: &'static str) -> (r: Self)
        ensures
            r.spec_name() == name@,
            !r.spec_naked(),
    {
        Sheep { name, naked: false }
    }

    fn noise(&self) -> (r: &'static str) {
        "blaaaah"
    }

    fn talk(&self) -> (r: String) {
        String::from_str(self.noise())
    }
}

/// A length in centimetres, ordered by hand so that contracts can speak of
/// the comparison.
#[derive(Clone, Copy, Debug)]
pub struct Centimeters(pub i64);

impl PartialEq for Centimeters {
    fn eq(&self, other: &Centimeters) -> (r: bool) {
        self.0 == other.0
    }
}

impl vstd::std_specs::cmp::PartialEqSpecImpl for Centimeters {
    open spec fn obeys_eq_spec() -> bool {
        true
    }

    open spec fn eq_spec(&self, other: &Centimeters) -> bool {
        self.0 == other.0
    }
}

impl PartialOrd for Centimeters {
    fn partial_cmp(&self, other: &Centimeters) -> (r: Option<Ordering>) {
        if self.0 < other.0 {
            Some(Ordering::Less)
        } else if self.0 == other.0 {
            Some(Ordering::Equal)
        } else {
            Some(Ordering::Greater)
        }
    }
}

impl vstd::std_specs::cmp::PartialOrdSpecImpl for Centimeters {
    open spec fn obeys_partial_cmp_spec() -> bool {
        true
    }

    open spec fn partial_cmp_spec(&self, other: &Centimeters) -> Option<Ordering> {
        if self.0 < other.0 {
            Some(Ordering::Less)
        } else if self.0 == other.0 {
            Some(Ordering::Equal)
        } else {
            Some(Ordering::Greater)
        }
    }
}

/// The comparison lesson: smaller really compares smaller.
pub fn compare_lengths() {
    let shorter = Centimeters(1);
    let longer = Centimeters(2);
    let is_less = shorter < longer;
    assert(is_less);
}

/// One operand of the combination lesson.
pub struct FooPiece;

/// The other operand.
pub struct BarPiece;

/// What combining the two yields.
#[derive(Clone, Copy, PartialEq, Eq, Structural, Debug)]
pub struct FooBar;

impl core::ops::Add<BarPiece> for FooPiece {
    type Output = FooBar;

    /// `foo + bar` combines the two pieces, consuming both.
    fn add(self, _rhs: BarPiece) -> (r: FooBar) {
        FooBar
    }
}

impl vstd::std_specs::ops::AddSpecImpl<BarPiece> for FooPiece {
    open spec fn obeys_add_spec() -> bool {
        true
    }

    open spec fn add_req(self, _rhs: BarPiece) -> bool {
        true
    }

    open spec fn add_spec(self, _rhs: BarPiece) -> FooBar {
        FooBar
    }
}

/// The overloaded operator at work: adding the pieces yields the combined
/// value.
pub fn operator_overloading() -> (r: FooBar)
    ensures
        r == FooBar,
{
    let foobar = FooPiece + BarPiece;
    foobar
}

/// The Fibonacci numbers.
pub open spec fn fib(n: nat) -> nat
    decreases n,
{
    if n == 0 {
        0
    } else if n == 1 {
        1
    } else {
        fib((n - 2) as nat) + fib((n - 1) as nat)
    }
}

/// Fibonacci numbers never shrink as the index grows.
pub proof fn lemma_fib_monotone(a: nat, b: nat)
    requires
        a <= b,
    ensures
        fib(a) <= fib(b),
    decreases b,
{
    if a < b && b >= 2 {
        lemma_fib_monotone(a, (b - 1) as nat);
    } else if a < b {
        assert(fib(0) <= fib(1));
    }
}

/// An iterator-style stepper over the Fibonacci numbers: each call to
/// [`Fibonacci::advance`] yields the next number in the sequence.
pub struct Fibonacci {
    curr: u32,
    upcoming: u32,
    index: Ghost<nat>,
}

impl Fibonacci {
    /// How many steps have been taken.
    pub closed spec fn position(self) -> nat {
        self.index@
    }

    /// The stepper's fields track the sequence at its position.
    pub closed spec fn well_formed(self) -> bool {
        self.curr == fib(self.position()) && self.upcoming == fib(self.position() + 1)
    }

    /// A stepper at the start of the sequence.
    pub fn new() -> (r: Fibonacci)
        ensures
            r.well_formed(),
            r.position() == 0,
    {
        Fibonacci { curr: 0, upcoming: 1, index: Ghost(0) }
    }

    /// Steps once and yields the number now reached.
    pub fn advance(&mut self) -> (r: u32)
        requires
            old(self).well_formed(),
            fib(old(self).position() + 2) <= u32::MAX,
        ensures
            final(self).well_formed(),
            final(self).position() == old(self).position() + 1,
            r == fib(final(self).position()),
    {
        let after = self.curr + self.upcoming;
        self.curr = self.upcoming;
        self.upcoming = after;
        proof {
            self.index@ = self.index@ + 1;
        }
        self.curr
    }
}

/// Steps a fresh stepper `n` times: the direct way to the `n`-th Fibonacci
/// number.
#[verifier::loop_isolation(false)]
pub fn nth_fibonacci(n: u32) -> (r: u32)
    requires
        fib(n as nat + 1) <= u32::MAX,
    ensures
        r == fib(n as nat),
{
    let mut stepper = Fibonacci::new();
    let mut taken: u32 = 0;
    let mut latest: u32 = 0;
    while taken < n
        invariant
            0 <= taken <= n,
            stepper.well_formed(),
            stepper.position() == taken,
            latest == fib(taken as nat),
        decreases n - taken,
    {
        proof {
            lemma_fib_monotone(taken as nat + 2, n as nat + 1);
        }
        latest = stepper.advance();
        taken = taken + 1;
    }
    latest
}

/// The positive entries doubled, the rest dropped.
pub open spec fn doubled_positives(s: Seq<i32>) -> Seq<i32>
    decreases s.len(),
{
    if s.len() == 0 {
        Seq::empty()
    } else {
        doubled_positives(s.drop_last()) + if s.last() > 0 {
            seq![(2 * s.last()) as i32]
        } else {
            Seq::empty()
        }
    }
}

/// An iterator chain written as a verified loop: filter the positives, then
/// double each survivor.
#[verifier::loop_isolation(false)]
pub fn double_positives(numbers: &Vec<i32>) -> (r: Vec<i32>)
    requires
        forall|i: int| 0 <= i < numbers@.len() ==> #[trigger] numbers@[i] <= 1073741823,
    ensures
        r@ == doubled_positives(numbers@),
{
    let mut out: Vec<i32> = Vec::new();
    let mut i: usize = 0;
    while i < numbers.len()
        invariant
            0 <= i <= numbers@.len(),
            out@ == doubled_positives(numbers@.subrange(0, i as int)),
        decreases numbers@.len() - i,
    {
        let ghost before = numbers@.subrange(0, i as int);
        let n = numbers[i];
        if n > 0 {
            out.push(2 * n);
        }
        i = i + 1;
        proof {
            let after = numbers@.subrange(0, i as int);
            assert(after.drop_last() =~= before);
        }
    }
    proof {
        assert(numbers@.subrange(0, numbers@.len() as int) =~= numbers@);
    }
    out
}

/// Returns a closure whose type cannot be written out: the returned
/// callable adds the captured offset to whatever it is given.
pub fn make_adder_function(y: i32) -> (f: impl Fn(i32) -> i32)
    requires
        -1000 <= y <= 1000,
    ensures
        forall|x: i32| -1000 <= x <= 1000 ==> #[trigger] call_requires(f, (x,)),
        forall|x: i32, r: i32| #[trigger] call_ensures(f, (x,), r) ==> r == x + y,
{
    let adder = move |x: i32| -> (r: i32)
        requires
            -1000 <= x <= 1000,
        ensures
            r == x + y,
        { x + y };
    adder
}

/// Uses the returned adder: its contract alone pins the answer.
pub fn adder_lesson() -> (r: i32)
    ensures
        r == 9,
{
    let add_five = make_adder_function(5);
    add_five(4)
}

/// Two vectors chained into one.
#[verifier::loop_isolation(false)]
pub fn combine_vecs(v: Vec<i32>, u: Vec<i32>) -> (r: Vec<i32>)
    ensures
        r@ == v@ + u@,
{
    let mut out = v;
    let mut i: usize = 0;
    while i < u.len()
        invariant
            0 <= i <= u@.len(),
            out@ == v@ + u@.subrange(0, i as int),
        decreases u@.len() - i,
    {
        out.push(u[i]);
        proof {
            assert(v@ + u@.subrange(0, i + 1) =~= (v@ + u@.subrange(0, i as int)).push(
                u@[i as int],
            ));
        }
        i = i + 1;
    }
    proof {
        assert(u@.subrange(0, u@.len() as int) =~= u@);
    }
    out
}

/// A unit type that is copied, not moved: both names stay usable.
#[derive(Clone, Copy, PartialEq, Eq, Structural, Debug)]
pub struct CopyUnit;

/// The copy and clone lesson: a `Copy` value remains usable after being
/// duplicated either way.
pub fn clone_lesson() {
    let first = CopyUnit;
    let second = first;
    assert(first == second);

    let third = first.clone();
    assert(third == first);
}

/// Everyone with a name.
pub trait Person {
    /// The name.
    spec fn spec_name(&self) -> Seq<char>;

    /// The name, computed.
    fn name(&self) -> (r: String)
        ensures
            r@ == self.spec_name(),
    ;
}

/// A person who studies somewhere.
pub trait Student: Person {
    /// The university.
    spec fn spec_university(&self) -> Seq<char>;

    /// The university, computed.
    fn university(&self) -> (r: String)
        ensures
            r@ == self.spec_university(),
    ;
}

/// Someone with a favourite language.
pub trait Programmer {
    /// The favourite language.
    spec fn spec_fav_language(&self) -> Seq<char>;

    /// The favourite language, computed.
    fn fav_language(&self) -> (r: String)
        ensures
            r@ == self.spec_fav_language(),
    ;
}

/// A programming student: both supertraits at once, plus a username.
pub trait CompSciStudent: Programmer + Student {
    /// The source-control username.
    spec fn spec_git_username(&self) -> Seq<char>;

    /// The source-control username, computed.
    fn git_username(&self) -> (r: String)
        ensures
            r@ == self.spec_git_username(),
    ;
}

/// Greets a programming student using methods from every level of the
/// supertrait hierarchy.
pub fn greeting<S: CompSciStudent>(student: &S) -> (r: String)
    ensures
        r@ == "My name is "@ + student.spec_name() + " and I attend "@
            + student.spec_university() + ". My favorite language is "@
            + student.spec_fav_language() + ". My Git username is "@
            + student.spec_git_username(),
{
    let mut s = String::from_str("My name is ");
    let name = student.name();
    s.append(name.as_str());
    s.append(" and I attend ");
    let university = student.university();
    s.append(university.as_str());
    s.append(". My favorite language is ");
    let language = student.fav_language();
    s.append(language.as_str());
    s.append(". My Git username is ");
    let username = student.git_username();
    s.append(username.as_str());
    s
}

/// One concrete programming student.
pub struct ExampleStudent;

impl Person for ExampleStudent {
    open spec fn spec_name(&self) -> Seq<char> {
        "Ada"@
    }

    fn name(&self) -> (r: String) {
        String::from_str("Ada")
    }
}

impl Student for ExampleStudent {
    open spec fn spec_university(&self) -> Seq<char> {
        "Cambridge"@
    }

    fn university(&self) -> (r: String) {
        String::from_str("Cambridge")
    }
}

impl Programmer for ExampleStudent {
    open spec fn spec_fav_language(&self) -> Seq<char> {
        "Rust"@
    }

    fn fav_language(&self) -> (r: String) {
        String::from_str("Rust")
    }
}

impl CompSciStudent for ExampleStudent {
    open spec fn spec_git_username(&self) -> Seq<char> {
        "ada"@
    }

    fn git_username(&self) -> (r: String) {
        String::from_str("ada")
    }
}

/// A form holding a username and an age.
pub struct Form {
    /// The username.
    pub username: String,
    /// The age.
    pub age: u8,
}

/// A widget that shows a username; its accessor shares its name with
/// [`AgeWidget`]'s.
pub trait UsernameWidget {
    /// The shown username.
    spec fn spec_username(&self) -> Seq<char>;

    /// The shown username, computed.
    fn get(&self) -> (r: String)
        ensures
            r@ == self.spec_username(),
    ;
}

/// A widget that shows an age; its accessor shares its name with
/// [`UsernameWidget`]'s.
pub trait AgeWidget {
    /// The shown age.
    spec fn spec_age(&self) -> u8;

    /// The shown age, computed.
    fn get(&self) -> (r: u8)
        ensures
            r == self.spec_age(),
    ;
}

impl UsernameWidget for Form {
    open spec fn spec_username(&self) -> Seq<char> {
        self.username@
    }

    fn get(&self) -> (r: String) {
        self.username.clone()
    }
}

impl AgeWidget for Form {
    open spec fn spec_age(&self) -> u8 {
        self.age
    }

    fn get(&self) -> (r: u8) {
        self.age
    }
}

/// Disambiguates the two same-named accessors with fully qualified calls.
pub fn read_form(form: &Form) -> (r: (String, u8))
    ensures
        r.0@ == form.username@,
        r.1 == form.age,
{
    let shown_name = <Form as UsernameWidget>::get(form);
    let shown_age = <Form as AgeWidget>::get(form);
    (shown_name, shown_age)
}

} // verus!
