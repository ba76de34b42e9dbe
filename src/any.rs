use vstd::prelude::*;

use crate::boxed::BoxResult;

verus! {

#[verifier::external_type_specification]
#[verifier::external_body]
pub struct ExAnyhowError(anyhow::Error);

/// Relies on anyhow::Error::new: wraps a standard error and records its type,
/// so that a later downcast can recover it.
#[verifier::external_body]
fn wrap_error<E: std::error::Error + Send + Sync + 'static>(e: E) -> anyhow::Error {
    anyhow::Error::new(e)
}

/// Relies on the `From` impls of anyhow::Error, reached through `Into`.
#[verifier::external_body]
fn into_error<E: Into<anyhow::Error>>(e: E) -> anyhow::Error {
    e.into()
}

/// Relies on anyhow::Error::msg, given the message's rendering as text.
#[verifier::external_body]
fn error_from_message<M: std::fmt::Display + std::fmt::Debug + Send + Sync + 'static>(
    message: M,
) -> anyhow::Error {
    anyhow::Error::msg(message.to_string())
}

/// Relies on anyhow::Error::downcast: when the wrapped value is not of type
/// `E`, the error is handed back as it came in.
#[verifier::external_body]
fn downcast_error<E: std::fmt::Display + std::fmt::Debug + Send + Sync + 'static>(
    e: anyhow::Error,
) -> (r: Result<E, anyhow::Error>)
    ensures
        r is Err ==> r->Err_0 == e,
{
    e.downcast::<E>()
}

/// Relies on the Display impl of anyhow::Error: the wrapped error's own text.
#[verifier::external_body]
fn render(e: &anyhow::Error) -> String {
    format!("{}", e)
}

/// One error value of any type that is a standard error, with the type
/// recorded so that it can be recovered.
#[derive(Debug)]
pub struct AnyError(anyhow::Error);

impl AnyError {
    /// The text that the wrapped error renders to.
    pub fn to_string(&self) -> String {
        render(&self.0)
    }
}

/// An error type that can absorb any universal error that is not one of its
/// own, so that recovering it from a universal error never fails.
pub trait Downcast: Sized + Send + Sync + 'static + std::fmt::Debug + std::fmt::Display {
    /// Wraps a universal error that holds some other type.
    fn other(r: AnyError) -> Self;

    /// Recovers a value of this type, held directly or boxed; anything else
    /// goes to `other` as it came in.
    fn cast(r: AnyError) -> Self {
        match downcast_error::<Self>(r.0) {
            Ok(e) => e,
            Err(x) => match downcast_error::<Box<Self>>(x) {
                Ok(b) => *b,
                Err(y) => Self::other(AnyError(y)),
            },
        }
    }
}

/// A result whose error is a universal error.
#[derive(Debug)]
pub struct AnyResult<T>(Result<T, AnyError>);

impl<T> View for AnyResult<T> {
    type V = Result<T, AnyError>;

    closed spec fn view(&self) -> Result<T, AnyError> {
        self.0
    }
}

impl<T> AnyResult<T> {
    /// A success holding `v`.
    pub fn success(v: T) -> (r: AnyResult<T>)
        ensures
            r@ == Ok::<T, AnyError>(v),
    {
        AnyResult(Ok(v))
    }

    /// A failure holding `e`, turned into a universal error.
    pub fn failure<E: Into<anyhow::Error>>(e: E) -> (r: AnyResult<T>)
        ensures
            r@ is Err,
    {
        AnyResult(Err(AnyError(into_error(e))))
    }

    /// A failure holding a universal error as it is.
    pub fn from_error(e: AnyError) -> (r: AnyResult<T>)
        ensures
            r@ == Err::<T, AnyError>(e),
    {
        AnyResult(Err(e))
    }

    /// A failure whose error is a message, given as anything that renders as
    /// text.
    pub fn from_display<M>(message: M) -> (r: AnyResult<T>)
        where
            M: std::fmt::Display + std::fmt::Debug + Send + Sync + 'static,
        ensures
            r@ is Err,
    {
        AnyResult(Err(AnyError(error_from_message(message))))
    }

    /// Turns a typed result into one with a universal error that holds the
    /// error unboxed, so that `cast` and `try_cast` find it again; a success
    /// is kept.
    pub fn from_boxed<E: std::error::Error + Send + Sync + 'static>(r: BoxResult<T, E>) -> (a:
        AnyResult<T>)
        ensures
            r@ is Ok ==> a@ == Ok::<T, AnyError>(r@->Ok_0),
            r@ is Err ==> a@ is Err,
    {
        match r.unbox() {
            Ok(v) => AnyResult(Ok(v)),
            Err(e) => AnyResult(Err(AnyError(wrap_error(e)))),
        }
    }

    /// The plain result, for early return on failure.
    pub fn into_result(self) -> (r: Result<T, AnyError>)
        ensures
            r == self@,
    {
        self.0
    }

    /// Tries to recover a typed result whose error is of type `E`, held
    /// directly or boxed. A success is kept. When the error holds another type,
    /// the result is handed back unchanged so that another type can be tried.
    pub fn try_cast<E: std::error::Error + Send + Sync + 'static>(self) -> (r: Result<
        BoxResult<T, E>,
        AnyResult<T>,
    >)
        ensures
            try_cast_outcome(self@, r),
    {
        match self.0 {
            Ok(v) => Ok(BoxResult::success(v)),
            Err(AnyError(e)) => match downcast_error::<E>(e) {
                Ok(v) => Ok(BoxResult::failure(v)),
                Err(x) => match downcast_error::<Box<E>>(x) {
                    Ok(b) => Ok(BoxResult::from_boxed_err(b)),
                    Err(y) => Err(AnyResult(Err(AnyError(y)))),
                },
            },
        }
    }

    /// Recovers a typed result whose error is of type `E`; an error of another
    /// type becomes `E`'s fallback variant. A success is kept.
    pub fn cast<E: Downcast + std::error::Error>(self) -> (r: BoxResult<T, E>)
        ensures
            self@ is Ok ==> r@ == Ok::<T, E>(self@->Ok_0),
            self@ is Err ==> r@ is Err,
    {
        match self.0 {
            Ok(v) => BoxResult::success(v),
            Err(e) => BoxResult::failure(E::cast(e)),
        }
    }
}

/// What `try_cast` may return for a result whose view is `input`: a success
/// is kept as a typed success; an error either comes back as a typed error, or
/// the whole result is handed back unchanged.
pub open spec fn try_cast_outcome<T, E>(
    input: Result<T, AnyError>,
    r: Result<BoxResult<T, E>, AnyResult<T>>,
) -> bool {
    &&& input is Ok ==> r is Ok && r->Ok_0@ == Ok::<T, E>(input->Ok_0)
    &&& input is Err && r is Err ==> r->Err_0@ == input
    &&& input is Err && r is Ok ==> r->Ok_0@ is Err
}

/// Trying a type on what `try_cast` handed back is the same as trying it on
/// the original result: a failed probe loses nothing.
pub proof fn lemma_try_cast_retry<T, A, B>(
    input: Result<T, AnyError>,
    first: Result<BoxResult<T, B>, AnyResult<T>>,
    second: Result<BoxResult<T, A>, AnyResult<T>>,
)
    requires
        try_cast_outcome(input, first),
        first is Err,
        try_cast_outcome(first->Err_0@, second),
    ensures
        try_cast_outcome(input, second),
        second is Err ==> second->Err_0@ == input,
{
}

} // verus!
