//! Two-level results: an infrastructure failure on the outside, a business
//! outcome (success or domain error) on the inside, with mapping over each
//! inner arm.

use vstd::prelude::*;

verus! {

/// An infrastructure failure: the operation itself broke, as opposed to a
/// business outcome.
#[derive(Debug)]
pub struct InfraError {
    pub message: String,
}

/// Outer level: did the infrastructure work; inner level: the business
/// outcome, success or domain error.
pub type BizResult<T, E> = Result<Result<T, E>, InfraError>;

/// Mapping over the two inner arms of a `BizResult`, leaving the other
/// arm and any infrastructure failure untouched.
pub trait MapBizResult<T, E>: Sized {
    /// The two-level result that `self` stands for.
    spec fn as_biz(self) -> BizResult<T, E>;

    /// Maps the domain error, if that is what the result holds.
    fn map_biz_err<NE, F: FnOnce(E) -> NE>(self, f: F) -> (r: BizResult<T, NE>)
        requires
            self.as_biz() is Ok && self.as_biz()->Ok_0 is Err ==> f.requires((self.as_biz()->Ok_0->Err_0,)),
        ensures
            self.as_biz() is Ok && self.as_biz()->Ok_0 is Ok ==> r is Ok && r->Ok_0 is Ok && r->Ok_0->Ok_0 == self.as_biz()->Ok_0->Ok_0,
            self.as_biz() is Ok && self.as_biz()->Ok_0 is Err ==> r is Ok && r->Ok_0 is Err && f.ensures(
                (self.as_biz()->Ok_0->Err_0,),
                r->Ok_0->Err_0,
            ),
            self.as_biz() is Err ==> r is Err && r->Err_0 == self.as_biz()->Err_0,
    ;

    /// Maps the success value, if that is what the result holds.
    fn map_biz<NT, F: FnOnce(T) -> NT>(self, f: F) -> (r: BizResult<NT, E>)
        requires
            self.as_biz() is Ok && self.as_biz()->Ok_0 is Ok ==> f.requires((self.as_biz()->Ok_0->Ok_0,)),
        ensures
            self.as_biz() is Ok && self.as_biz()->Ok_0 is Ok ==> r is Ok && r->Ok_0 is Ok && f.ensures(
                (self.as_biz()->Ok_0->Ok_0,),
                r->Ok_0->Ok_0,
            ),
            self.as_biz() is Ok && self.as_biz()->Ok_0 is Err ==> r is Ok && r->Ok_0 is Err && r->Ok_0->Err_0 == self.as_biz()->Ok_0->Err_0,
            self.as_biz() is Err ==> r is Err && r->Err_0 == self.as_biz()->Err_0,
    ;
}

impl<T, E> MapBizResult<T, E> for BizResult<T, E> {
    open spec fn as_biz(self) -> BizResult<T, E> {
        self
    }

    fn map_biz_err<NE, F: FnOnce(E) -> NE>(self, f: F) -> (r: BizResult<T, NE>) {
        match self {
            Ok(Err(e)) => Ok(Err(f(e))),
            Ok(Ok(t)) => Ok(Ok(t)),
            Err(e) => Err(e),
        }
    }

    fn map_biz<NT, F: FnOnce(T) -> NT>(self, f: F) -> (r: BizResult<NT, E>) {
        match self {
            Ok(Ok(t)) => Ok(Ok(f(t))),
            Ok(Err(e)) => Ok(Err(e)),
            Err(e) => Err(e),
        }
    }
}

} // verus!
