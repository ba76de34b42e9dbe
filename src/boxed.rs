use vstd::prelude::*;

verus! {

/// A result whose error lives on the heap, so that a large error type does not
/// widen the success path.
#[derive(Debug)]
pub struct BoxResult<T, E>(Result<T, Box<E>>);

impl<T, E> View for BoxResult<T, E> {
    type V = Result<T, E>;

    /// The result with the box taken away.
    closed spec fn view(&self) -> Result<T, E> {
        match self.0 {
            Ok(v) => Ok(v),
            Err(b) => Err(*b),
        }
    }
}

impl<T: Clone, E: Clone> Clone for BoxResult<T, E> {
    /// Clones the success value or the boxed error; the variant is kept.
    fn clone(&self) -> (r: Self)
        ensures
            self@ is Ok ==> r@ is Ok && cloned(self@->Ok_0, r@->Ok_0),
            self@ is Err ==> r@ is Err && cloned(self@->Err_0, r@->Err_0),
    {
        match &self.0 {
            Ok(v) => BoxResult(Ok(v.clone())),
            Err(e) => BoxResult(Err(e.clone())),
        }
    }
}

impl<T, E> BoxResult<T, E> {
    /// A success holding `v`.
    pub fn success(v: T) -> (r: BoxResult<T, E>)
        ensures
            r@ == Ok::<T, E>(v),
    {
        BoxResult(Ok(v))
    }

    /// A failure holding `v`, which is moved into a fresh box.
    pub fn failure(v: E) -> (r: BoxResult<T, E>)
        ensures
            r@ == Err::<T, E>(v),
    {
        BoxResult(Err(Box::new(v)))
    }

    /// A failure holding an error that is boxed already; the box is kept.
    pub fn from_boxed_err(e: Box<E>) -> (r: BoxResult<T, E>)
        ensures
            r@ == Err::<T, E>(*e),
    {
        BoxResult(Err(e))
    }

    /// Borrows the success value or the error, leaving `self` in place, so
    /// that a caller can match on the error's variants through the box.
    pub fn as_ref2(&self) -> (r: Result<&T, &E>)
        ensures
            r is Ok <==> self@ is Ok,
            r is Ok ==> *r->Ok_0 == self@->Ok_0,
            r is Err ==> *r->Err_0 == self@->Err_0,
    {
        match &self.0 {
            Ok(t) => Ok(t),
            Err(e) => Err(&**e),
        }
    }

    /// Applies `f` to a success value; an error passes through untouched and
    /// `f` is not called on it.
    pub fn map<F, U>(self, f: F) -> (r: BoxResult<U, E>)
        where
            F: FnOnce(T) -> U,
        requires
            self@ is Ok ==> f.requires((self@->Ok_0,)),
        ensures
            self@ is Ok ==> r@ is Ok && f.ensures((self@->Ok_0,), r@->Ok_0),
            self@ is Err ==> r@ == Err::<U, E>(self@->Err_0),
    {
        match self.0 {
            Ok(t) => BoxResult(Ok(f(t))),
            Err(e) => BoxResult(Err(e)),
        }
    }

    /// Applies `f` to the boxed error; a success value passes through untouched
    /// and `f` is not called on it.
    pub fn map_err<F, E2>(self, f: F) -> (r: BoxResult<T, E2>)
        where
            F: FnOnce(Box<E>) -> Box<E2>,
        requires
            self@ is Err ==> f.requires((Box::new(self@->Err_0),)),
        ensures
            self@ is Err ==> r@ is Err && f.ensures((Box::new(self@->Err_0),), Box::new(r@->Err_0)),
            self@ is Ok ==> r@ == Ok::<T, E2>(self@->Ok_0),
    {
        match self.0 {
            Ok(t) => BoxResult(Ok(t)),
            Err(e) => BoxResult(Err(f(e))),
        }
    }

    /// The success value, if any; an error is dropped.
    pub fn ok(self) -> (r: Option<T>)
        ensures
            r == ok_part(self@),
    {
        match self.0 {
            Ok(t) => Some(t),
            Err(_) => None,
        }
    }

    /// The boxed error, if any; a success value is dropped.
    pub fn err(self) -> (r: Option<Box<E>>)
        ensures
            r is Some <==> err_part(self@) is Some,
            r is Some ==> *r->Some_0 == err_part(self@)->Some_0,
    {
        match self.0 {
            Ok(_) => None,
            Err(e) => Some(e),
        }
    }

    /// The result with its error moved out of the box.
    pub fn unbox(self) -> (r: Result<T, E>)
        ensures
            r == self@,
    {
        match self.0 {
            Ok(v) => Ok(v),
            Err(b) => Err(*b),
        }
    }
}

impl<T, E: std::fmt::Debug> BoxResult<T, E> {
    /// The success value; the caller guarantees that there is one.
    pub fn unwrap(self) -> (r: T)
        requires
            self@ is Ok,
        ensures
            r == self@->Ok_0,
    {
        self.0.unwrap()
    }
}

impl<T: std::fmt::Debug, E> BoxResult<T, E> {
    /// The boxed error; the caller guarantees that there is one.
    pub fn unwrap_err(self) -> (r: Box<E>)
        requires
            self@ is Err,
        ensures
            *r == self@->Err_0,
    {
        self.0.unwrap_err()
    }
}

impl<T, E> BoxResult<T, E> {
    /// Converts the boxed error through `Into`; a success value is kept.
    pub fn into_err<E2>(self) -> (r: BoxResult<T, E2>)
        where
            Box<E>: Into<Box<E2>>,
        ensures
            self@ is Ok ==> r@ == Ok::<T, E2>(self@->Ok_0),
            self@ is Err ==> r@ is Err,
            self@ is Err && <Box<E> as vstd::std_specs::convert::IntoSpec<Box<E2>>>::obeys_into_spec() ==> Box::new(r@->Err_0)
                == <Box<E> as vstd::std_specs::convert::IntoSpec<Box<E2>>>::into_spec(Box::new(self@->Err_0)),
    {
        match self.0 {
            Ok(t) => BoxResult(Ok(t)),
            Err(e) => BoxResult(Err(e.into())),
        }
    }
}

impl<T, E> From<Result<T, E>> for BoxResult<T, E> {
    /// Boxes the error of a plain result.
    fn from(r: Result<T, E>) -> (b: BoxResult<T, E>)
        ensures
            b@ == r,
    {
        match r {
            Ok(v) => BoxResult(Ok(v)),
            Err(v) => BoxResult(Err(Box::new(v))),
        }
    }
}

impl<T, E> vstd::std_specs::convert::FromSpecImpl<Result<T, E>> for BoxResult<T, E> {
    open spec fn obeys_from_spec() -> bool {
        true
    }

    closed spec fn from_spec(r: Result<T, E>) -> BoxResult<T, E> {
        BoxResult(
            match r {
                Ok(v) => Ok(v),
                Err(e) => Err(Box::new(e)),
            },
        )
    }
}

impl<T, E> From<Result<T, Box<E>>> for BoxResult<T, E> {
    /// Takes over a result whose error is boxed already.
    fn from(r: Result<T, Box<E>>) -> (b: BoxResult<T, E>)
        ensures
            b@ == match r {
                Ok(v) => Ok::<T, E>(v),
                Err(e) => Err::<T, E>(*e),
            },
    {
        BoxResult(r)
    }
}

impl<T, E> vstd::std_specs::convert::FromSpecImpl<Result<T, Box<E>>> for BoxResult<T, E> {
    open spec fn obeys_from_spec() -> bool {
        true
    }

    closed spec fn from_spec(r: Result<T, Box<E>>) -> BoxResult<T, E> {
        BoxResult(r)
    }
}

/// The success value of `r`, if it has one.
pub open spec fn ok_part<T, E>(r: Result<T, E>) -> Option<T> {
    match r {
        Ok(v) => Some(v),
        Err(_) => None,
    }
}

/// The error of `r`, if it has one.
pub open spec fn err_part<T, E>(r: Result<T, E>) -> Option<E> {
    match r {
        Ok(_) => None,
        Err(e) => Some(e),
    }
}

/// A success gives its value back through `ok`, and nothing through `err`.
pub proof fn lemma_success_parts<T, E>(v: T)
    ensures
        ok_part(Ok::<T, E>(v)) == Some(v),
        err_part(Ok::<T, E>(v)) is None,
{
}

/// A failure gives its error back through `err`, and nothing through `ok`.
pub proof fn lemma_failure_parts<T, E>(e: E)
    ensures
        err_part(Err::<T, E>(e)) == Some(e),
        ok_part(Err::<T, E>(e)) is None,
{
}

/// Boxing a plain result with `from` and unboxing it gives the same result.
pub proof fn lemma_from_unbox<T, E>(r: Result<T, E>)
    ensures
        <BoxResult<T, E> as vstd::std_specs::convert::FromSpec<Result<T, E>>>::obeys_from_spec(),
        <BoxResult<T, E> as vstd::std_specs::convert::FromSpec<Result<T, E>>>::from_spec(r)@ == r,
{
}

} // verus!
