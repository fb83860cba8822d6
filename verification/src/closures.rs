//! Closure capture modes and the access discipline each one imposes.
//!
//! A block of code that closes over outer variables needs exactly one of
//! three capabilities: it consumes a captured variable (callable once), it
//! mutates one in place (callable repeatedly, but only with exclusive
//! access), or it only reads (callable freely). [`classify`] picks the
//! minimal capability for a recorded list of accesses. The three runner types
//! enforce the discipline at the call site: [`OnceRunner`] guards its single
//! invocation with a one-shot flag, [`MutRunner`] demands `&mut` access, and
//! [`SharedRunner`] is invoked through a shared reference.

use vstd::prelude::*;

verus! {

/// One access the body of a closure makes to a captured variable.
#[derive(Clone, Copy, PartialEq, Eq, Structural, Debug)]
pub enum Access {
    /// The body relinquishes ownership of the variable.
    MoveOut,
    /// The body mutates the variable but keeps it.
    MutateInPlace,
    /// The body only reads the variable.
    ReadOnlyUse,
}

/// The capability a closure needs from its caller, from strongest to
/// weakest.
#[derive(Clone, Copy, PartialEq, Eq, Structural, Debug)]
pub enum CaptureMode {
    /// Ownership of at least one capture is given up: callable only once.
    Consuming,
    /// Some capture is mutated: callable repeatedly under exclusive access.
    Mutating,
    /// Captures are only read: callable repeatedly and shared freely.
    ReadOnly,
}

/// Whether some recorded access relinquishes ownership.
pub open spec fn any_move(accesses: Seq<Access>) -> bool {
    exists|i: int| 0 <= i < accesses.len() && accesses[i] is MoveOut
}

/// Whether some recorded access mutates a capture in place.
pub open spec fn any_mutation(accesses: Seq<Access>) -> bool {
    exists|i: int| 0 <= i < accesses.len() && accesses[i] is MutateInPlace
}

/// The minimal capability covering every recorded access: consuming if
/// anything is moved out, else mutating if anything is mutated, else
/// read-only.
pub open spec fn minimal_mode(accesses: Seq<Access>) -> CaptureMode {
    if any_move(accesses) {
        CaptureMode::Consuming
    } else if any_mutation(accesses) {
        CaptureMode::Mutating
    } else {
        CaptureMode::ReadOnly
    }
}

/// Classifies a closure body, recorded as the list of accesses it makes to
/// its captured variables, into exactly one capture mode: the minimal
/// capability it needs.
#[verifier::loop_isolation(false)]
pub fn classify(accesses: &Vec<Access>) -> (mode: CaptureMode)
    ensures
        mode == minimal_mode(accesses@),
{
    let mut moved = false;
    let mut mutated = false;
    let mut i: usize = 0;
    while i < accesses.len()
        invariant
            0 <= i <= accesses@.len(),
            moved == exists|j: int| 0 <= j < i && accesses@[j] is MoveOut,
            mutated == exists|j: int| 0 <= j < i && accesses@[j] is MutateInPlace,
        decreases accesses@.len() - i,
    {
        match accesses[i] {
            Access::MoveOut => {
                moved = true;
            },
            Access::MutateInPlace => {
                mutated = true;
            },
            Access::ReadOnlyUse => {},
        }
        i = i + 1;
    }
    if moved {
        CaptureMode::Consuming
    } else if mutated {
        CaptureMode::Mutating
    } else {
        CaptureMode::ReadOnly
    }
}

/// Why an invocation was rejected.
#[derive(Clone, Copy, PartialEq, Eq, Structural, Debug)]
pub enum InvokeError {
    /// A consuming closure was invoked after its single permitted
    /// invocation.
    AlreadyConsumed,
}

/// A consuming-mode closure over an owned message: invoking it relinquishes
/// the message, so a one-shot guard rejects every later invocation.
pub struct OnceRunner {
    payload: Option<String>,
}

/// Whether the runner still holds its message, so that an invocation can
/// succeed.
pub open spec fn once_available(r: OnceRunner) -> bool {
    r.payload() is Some
}

/// What one invocation of a consuming closure returns: the owned message the
/// first time, a rejection every time after.
pub open spec fn once_outcome(r: OnceRunner) -> Result<Seq<char>, InvokeError> {
    match r.payload() {
        Some(s) => Ok(s),
        None => Err(InvokeError::AlreadyConsumed),
    }
}

/// The runner as one invocation leaves it: spent, whatever it was before.
pub closed spec fn once_next(r: OnceRunner) -> OnceRunner {
    OnceRunner { payload: None }
}

impl OnceRunner {
    /// The message still held, as a sequence of characters.
    pub closed spec fn payload(self) -> Option<Seq<char>> {
        match self.payload {
            Some(s) => Some(s@),
            None => None,
        }
    }

    /// A fresh consuming closure holding `message`.
    pub fn new(message: String) -> (r: OnceRunner)
        ensures
            r.payload() == Some(message@),
            once_available(r),
    {
        OnceRunner { payload: Some(message) }
    }

    /// Invokes the closure: the first invocation yields the owned message
    /// and spends the runner; any later invocation is rejected.
    pub fn invoke(&mut self) -> (r: Result<String, InvokeError>)
        ensures
            !once_available(*final(self)),
            *final(self) == once_next(*old(self)),
            match r {
                Ok(s) => once_outcome(*old(self)) == Ok::<Seq<char>, InvokeError>(s@),
                Err(e) => once_outcome(*old(self)) == Err::<Seq<char>, InvokeError>(e),
            },
    {
        let mut taken: Option<String> = None;
        core::mem::swap(&mut taken, &mut self.payload);
        match taken {
            Some(s) => Ok(s),
            None => Err(InvokeError::AlreadyConsumed),
        }
    }
}

/// A second invocation of the same consuming closure instance, after a first
/// invocation, is always rejected: any invocation leaves the runner spent,
/// and a spent runner rejects.
pub proof fn lemma_consuming_single_use(r: OnceRunner)
    ensures
        !once_available(once_next(r)),
        once_outcome(once_next(r)) == Err::<Seq<char>, InvokeError>(InvokeError::AlreadyConsumed),
{
}

/// A mutating-mode closure: each invocation advances a captured counter.
/// Invoking it needs `&mut` access, so a caller must hold the runner
/// exclusively for the call's duration.
pub struct MutRunner {
    count: u64,
}

impl MutRunner {
    /// How often the closure has been invoked.
    pub closed spec fn count(self) -> u64 {
        self.count
    }

    /// A fresh mutating closure that has not been invoked yet.
    pub fn new() -> (r: MutRunner)
        ensures
            r.count() == 0,
    {
        MutRunner { count: 0 }
    }

    /// Invokes the closure: bumps the captured counter and reports its new
    /// value.
    pub fn invoke(&mut self) -> (r: u64)
        requires
            old(self).count() < u64::MAX,
        ensures
            final(self).count() == old(self).count() + 1,
            r == final(self).count(),
    {
        self.count = self.count + 1;
        self.count
    }
}

/// A mutating-mode closure over an owned text: each invocation appends one
/// character to the capture and yields the grown text, so after `n`
/// invocations the text has grown by `n` characters.
pub struct AppendRunner {
    text: String,
}

impl AppendRunner {
    /// The captured text as grown so far.
    pub closed spec fn text(self) -> Seq<char> {
        self.text@
    }

    /// A fresh mutating closure over `text`.
    pub fn new(text: String) -> (r: AppendRunner)
        ensures
            r.text() == text@,
    {
        AppendRunner { text }
    }

    /// Invokes the closure: appends `'2'` to the captured text and yields a
    /// copy of the new value.
    pub fn invoke(&mut self) -> (r: String)
        ensures
            final(self).text() == old(self).text().push('2'),
            r@ == final(self).text(),
    {
        crate::conversion::push_char(&mut self.text, '2');
        self.text.clone()
    }
}

/// A read-only-mode closure: it only reads its captured text, so it is
/// invoked through a shared reference, as often as desired and from as many
/// holders as desired.
pub struct SharedRunner {
    text: String,
}

impl SharedRunner {
    /// The captured text.
    pub closed spec fn text(self) -> Seq<char> {
        self.text@
    }

    /// A fresh read-only closure over `text`.
    pub fn new(text: String) -> (r: SharedRunner)
        ensures
            r.text() == text@,
    {
        SharedRunner { text }
    }

    /// Invokes the closure: yields a copy of the captured text and leaves
    /// the runner untouched, so it can be invoked again.
    pub fn invoke(&self) -> (r: String)
        ensures
            r@ == self.text(),
    {
        self.text.clone()
    }
}

/// Applies a callable once, consuming it; the counterpart of taking a
/// closure by value under the weakest bound.
pub fn apply_once<F: FnOnce() -> u64>(f: F) -> (r: u64)
    requires
        call_requires(f, ()),
    ensures
        call_ensures(f, (), r),
{
    f()
}

/// Applies a callable through a plain value under the strongest bound: the
/// caller keeps no exclusive claim and may pass the same callable again.
pub fn apply_shared<F: Fn() -> u64>(f: &F) -> (r: u64)
    requires
        call_requires(*f, ()),
    ensures
        call_ensures(*f, (), r),
{
    f()
}

/// A read-only closure satisfies every applier: the same closure is first
/// applied through a shared borrow, then consumed.
pub fn closure_traits_lesson() -> (r: (u64, u64))
    ensures
        r == (42u64, 42u64),
{
    let value: u64 = 42;
    let f = move || -> (res: u64)
        ensures
            res == value,
        { value };
    let shared = apply_shared(&f);
    let consumed = apply_once(f);
    (shared, consumed)
}

} // verus!
