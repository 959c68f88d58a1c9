use vstd::prelude::*;
use vstd::pervasive::unreached;

verus! {

/// A two-variant outcome: either a success carrying a value of type `T`, or a
/// failure carrying an error of type `E`. Exactly one variant is populated;
/// there is no third state and no implicit coercion to a boolean.
#[derive(Debug, PartialEq, Eq)]
pub enum Result<T, E> {
    Success(T),
    Failure(E),
}

impl<T, E> Result<T, E> {
    /// True exactly when the receiver holds a success value.
    pub fn is_ok(&self) -> (b: bool)
        ensures
            b == (self is Success),
    {
        match self {
            Result::Success(_) => true,
            Result::Failure(_) => false,
        }
    }

    /// True exactly when the receiver holds a failure value; the negation of `is_ok`.
    pub fn is_err(&self) -> (b: bool)
        ensures
            b == (self is Failure),
    {
        !self.is_ok()
    }

    /// Consumes the receiver; the success value if present, otherwise nothing
    /// (the failure payload is discarded).
    pub fn ok(self) -> (r: Option<T>)
        ensures
            self matches Result::Success(t) ==> r == Some(t),
            self is Failure ==> r is None,
    {
        match self {
            Result::Success(t) => Some(t),
            Result::Failure(_) => None,
        }
    }

    /// Consumes the receiver; the failure value if present, otherwise nothing
    /// (the success payload is discarded).
    pub fn err(self) -> (r: Option<E>)
        ensures
            self matches Result::Failure(e) ==> r == Some(e),
            self is Success ==> r is None,
    {
        match self {
            Result::Success(_) => None,
            Result::Failure(e) => Some(e),
        }
    }

    /// An outcome of borrowed references to the existing payload, for
    /// inspection without consuming the receiver.
    pub fn as_ref(&self) -> (r: Result<&T, &E>)
        ensures
            self matches Result::Success(t) ==> (r matches Result::Success(x) && x == t),
            self matches Result::Failure(e) ==> (r matches Result::Failure(x) && x == e),
    {
        match self {
            Result::Success(t) => Result::Success(t),
            Result::Failure(e) => Result::Failure(e),
        }
    }

    /// An outcome of mutable references to the existing payload, permitting
    /// in-place mutation of whichever payload is present.
    pub fn as_mut(&mut self) -> (r: Result<&mut T, &mut E>)
        ensures
            (*old(self)) matches Result::Success(t) ==> (r matches Result::Success(x)
                && *x == t
                && *final(self) == (Result::<T, E>::Success(*final(x)))),
            (*old(self)) matches Result::Failure(e) ==> (r matches Result::Failure(x)
                && *x == e
                && *final(self) == (Result::<T, E>::Failure(*final(x)))),
    {
        match self {
            Result::Success(t) => Result::Success(t),
            Result::Failure(e) => Result::Failure(e),
        }
    }

    /// Applies `op` to the success value and rewraps it; a failure passes
    /// through unchanged. `op` is demanded to be callable only on a success
    /// receiver, so a failure receiver never invokes it.
    pub fn map<U, F: FnOnce(T) -> U>(self, op: F) -> (r: Result<U, E>)
        requires
            self matches Result::Success(t) ==> call_requires(op, (t,)),
        ensures
            self matches Result::Success(t) ==> (r matches Result::Success(u)
                && call_ensures(op, (t,), u)),
            self matches Result::Failure(e) ==> r == Result::<U, E>::Failure(e),
    {
        match self {
            Result::Success(t) => Result::Success(op(t)),
            Result::Failure(e) => Result::Failure(e),
        }
    }

    /// Applies `op` to the failure value and rewraps it; a success passes
    /// through unchanged. `op` is demanded to be callable only on a failure
    /// receiver, so a success receiver never invokes it.
    pub fn map_err<U, F: FnOnce(E) -> U>(self, op: F) -> (r: Result<T, U>)
        requires
            self matches Result::Failure(e) ==> call_requires(op, (e,)),
        ensures
            self matches Result::Failure(e) ==> (r matches Result::Failure(u)
                && call_ensures(op, (e,), u)),
            self matches Result::Success(t) ==> r == Result::<T, U>::Success(t),
    {
        match self {
            Result::Success(t) => Result::Success(t),
            Result::Failure(e) => Result::Failure(op(e)),
        }
    }

    /// The success value. A failure receiver is excluded by precondition:
    /// outside of verified code such a call is a fatal misuse, never an
    /// expected failure path.
    pub fn unwrap(self) -> (t: T)
        requires
            self is Success,
        ensures
            self matches Result::Success(v) && t == v,
    {
        match self {
            Result::Success(t) => t,
            Result::Failure(_) => unreached(),
        }
    }

    /// The failure value. A success receiver is excluded by precondition,
    /// symmetric to `unwrap`.
    pub fn unwrap_err(self) -> (e: E)
        requires
            self is Failure,
        ensures
            self matches Result::Failure(v) && e == v,
    {
        match self {
            Result::Success(_) => unreached(),
            Result::Failure(e) => e,
        }
    }

    /// `other` if the receiver is a success (its value is discarded); the
    /// receiver's own failure otherwise.
    pub fn and<U>(self, other: Result<U, E>) -> (r: Result<U, E>)
        ensures
            self is Success ==> r == other,
            self matches Result::Failure(e) ==> r == Result::<U, E>::Failure(e),
    {
        match self {
            Result::Success(_) => other,
            Result::Failure(e) => Result::Failure(e),
        }
    }

    /// Monadic bind: applies `op` to the success value and returns its outcome
    /// directly; a failure short-circuits without invoking `op`.
    pub fn and_then<U, F: FnOnce(T) -> Result<U, E>>(self, op: F) -> (r: Result<U, E>)
        requires
            self matches Result::Success(t) ==> call_requires(op, (t,)),
        ensures
            self matches Result::Success(t) ==> call_ensures(op, (t,), r),
            self matches Result::Failure(e) ==> r == Result::<U, E>::Failure(e),
    {
        match self {
            Result::Success(t) => op(t),
            Result::Failure(e) => Result::Failure(e),
        }
    }
}

/// A failure value en route to being re-wrapped as the enclosing
/// computation's outcome. It carries only the failure payload and exists only
/// during a propagation step.
pub struct Residual<E>(pub E);

/// What one propagation step decides: continue the enclosing computation with
/// the extracted success value, or return from it at once with a residual.
pub enum Step<T, E> {
    Continuing(T),
    ShortCircuiting(Residual<E>),
}

/// The propagation step as a mathematical function: a success continues with
/// its value, a failure short-circuits with exactly its error as the residual.
pub open spec fn spec_branch<T, E>(r: Result<T, E>) -> Step<T, E> {
    match r {
        Result::Success(t) => Step::Continuing(t),
        Result::Failure(e) => Step::ShortCircuiting(Residual(e)),
    }
}

/// Re-wrapping a residual as the outcome of the enclosing computation, when
/// the enclosing error type is the same: the payload is kept unchanged.
pub open spec fn spec_rewrap<U, E>(res: Residual<E>) -> Result<U, E> {
    Result::Failure(res.0)
}

impl<T, E> Result<T, E> {
    /// Wraps an ordinary value as a success outcome.
    pub fn from_output(output: T) -> (r: Result<T, E>)
        ensures
            r == Result::<T, E>::Success(output),
    {
        Result::Success(output)
    }

    /// One propagation step: decides whether the enclosing computation
    /// continues with the success value or returns at once with the failure.
    pub fn branch(self) -> (step: Step<T, E>)
        ensures
            step == spec_branch(self),
    {
        match self {
            Result::Success(t) => Step::Continuing(t),
            Result::Failure(e) => Step::ShortCircuiting(Residual(e)),
        }
    }

    /// Re-wraps a short-circuited failure as this computation's outcome,
    /// converting the payload through the `From` conversion declared for the
    /// pairing of error types. The result is always a failure, and its payload
    /// is an output that `E::from` admits for the residual's payload; when the
    /// conversion obeys its specification the payload is exactly
    /// `E::from_spec` of the residual's payload.
    pub fn from_residual<E2>(residual: Residual<E2>) -> (r: Result<T, E>) where E: From<E2>
        ensures
            r matches Result::Failure(b) && call_ensures(<E as From<E2>>::from, (residual.0,), b),
    {
        Result::Failure(E::from(residual.0))
    }
}

/// Law: a success outcome is a success and not a failure, whatever the payload.
pub proof fn lemma_success_is_success<T, E>(v: T)
    ensures
        (Result::<T, E>::Success(v)) is Success,
        !((Result::<T, E>::Success(v)) is Failure),
{
}

/// Law: a failure outcome is a failure and not a success, whatever the payload.
pub proof fn lemma_failure_is_failure<T, E>(e: E)
    ensures
        (Result::<T, E>::Failure(e)) is Failure,
        !((Result::<T, E>::Failure(e)) is Success),
{
}

/// Mapping the success value as a mathematical function: the model that
/// `map`'s contract refines pointwise.
pub open spec fn spec_map<T, E, U>(r: Result<T, E>, f: spec_fn(T) -> U) -> Result<U, E> {
    match r {
        Result::Success(t) => Result::Success(f(t)),
        Result::Failure(e) => Result::Failure(e),
    }
}

/// Mapping the failure value as a mathematical function: the model that
/// `map_err`'s contract refines pointwise.
pub open spec fn spec_map_err<T, E, U>(r: Result<T, E>, f: spec_fn(E) -> U) -> Result<T, U> {
    match r {
        Result::Success(t) => Result::Success(t),
        Result::Failure(e) => Result::Failure(f(e)),
    }
}

/// Monadic bind as a mathematical function: the model that `and_then`'s
/// contract refines pointwise.
pub open spec fn spec_and_then<T, E, U>(
    r: Result<T, E>,
    f: spec_fn(T) -> Result<U, E>,
) -> Result<U, E> {
    match r {
        Result::Success(t) => f(t),
        Result::Failure(e) => Result::Failure(e),
    }
}

/// Law: mapping the success value with the identity function returns the
/// original outcome unchanged.
pub proof fn lemma_map_identity<T, E>(r: Result<T, E>)
    ensures
        spec_map(r, (|t: T| t)) == r,
{
}

/// Law: mapping the failure value with the identity function returns the
/// original outcome unchanged.
pub proof fn lemma_map_err_identity<T, E>(r: Result<T, E>)
    ensures
        spec_map_err(r, (|e: E| e)) == r,
{
}

/// Law: any outcome that `map`'s contract admits for an identity-behaved
/// operation is equal to the receiver itself.
pub proof fn lemma_map_exec_identity<T, E>(r: Result<T, E>, s: Result<T, E>)
    requires
        r matches Result::Success(t) ==> (s matches Result::Success(u) && u == t),
        r matches Result::Failure(e) ==> s == (Result::<T, E>::Failure(e)),
    ensures
        s == r,
{
}

/// Law: bind is associative. Chaining two continuations one after the other
/// is the same as one continuation that chains inside.
pub proof fn lemma_and_then_assoc<T, E, U, V>(
    r: Result<T, E>,
    f: spec_fn(T) -> Result<U, E>,
    g: spec_fn(U) -> Result<V, E>,
)
    ensures
        spec_and_then(spec_and_then(r, f), g) == spec_and_then(r, (|t: T| spec_and_then(f(t), g))),
{
}

/// Law: propagating a failure into an enclosing computation with the same
/// error type re-wraps exactly the original failure value; no other residual
/// is produced, and a success never short-circuits.
pub proof fn lemma_propagation_round_trip<T, U, E>(e: E)
    ensures
        spec_branch(Result::<T, E>::Failure(e)) matches Step::ShortCircuiting(res)
            && spec_rewrap::<U, E>(res) == (Result::<U, E>::Failure(e)),
        forall|t: T| #[trigger] spec_branch(Result::<T, E>::Success(t)) == Step::<T, E>::Continuing(t),
{
}

} // verus!
