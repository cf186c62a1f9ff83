//! Selection between concurrently pending operations, reduced to its
//! decision core: given the readiness of each raced operation, which one
//! wins.  An asynchronous driver evaluates the operations and feeds their
//! outcomes in; racing, suspension and wakeup stay outside this core.

use vstd::prelude::*;

verus! {

/// Result of racing two operations: whichever completed first.
pub enum Either<A, B> {
    Left(A),
    Right(B),
}

/// Result of racing three operations: whichever completed first.
pub enum Either3<R1, R2, R3> {
    R1(R1),
    R2(R2),
    R3(R3),
}

/// Resolves a race between two operations from their poll outcomes: the
/// race resolves as soon as either operation is ready, yielding that
/// operation's result and discarding the other; with neither ready, the
/// race stays pending.  When both are ready the first is chosen.
pub fn select<A, B>(first: Option<A>, second: Option<B>) -> (r: Option<Either<A, B>>)
    ensures
        first is Some ==> r == Some(Either::<A, B>::Left(first.unwrap())),
        first is None && second is Some ==> r == Some(Either::<A, B>::Right(second.unwrap())),
        first is None && second is None ==> r is None,
{
    match first {
        Some(a) => Some(Either::Left(a)),
        None => match second {
            Some(b) => Some(Either::Right(b)),
            None => None,
        },
    }
}

/// Resolves a race between three operations from their poll outcomes, as
/// `select` does for two: ready operations win in order of declaration,
/// and with none ready the race stays pending.
pub fn select3<F1, F2, F3>(first: Option<F1>, second: Option<F2>, third: Option<F3>) -> (r: Option<
    Either3<F1, F2, F3>,
>)
    ensures
        first is Some ==> r == Some(Either3::<F1, F2, F3>::R1(first.unwrap())),
        first is None && second is Some ==> r == Some(Either3::<F1, F2, F3>::R2(second.unwrap())),
        first is None && second is None && third is Some ==> r == Some(
            Either3::<F1, F2, F3>::R3(third.unwrap()),
        ),
        first is None && second is None && third is None ==> r is None,
{
    match first {
        Some(a) => Some(Either3::R1(a)),
        None => match second {
            Some(b) => Some(Either3::R2(b)),
            None => match third {
                Some(c) => Some(Either3::R3(c)),
                None => None,
            },
        },
    }
}

} // verus!
