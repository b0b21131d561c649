//! The error boundary: a body that works on a scope either completes, and the
//! handle travels on, or fails, and the scope is rolled back before the
//! failure reaches the caller.
use crate::subtxn::{DropPolicy, HostCall, ScopeView, SubTransaction, Tokens};
use vstd::prelude::*;

verus! {

/// What a body run behind the engine's failure boundary came to.
#[derive(Debug, PartialEq, Eq)]
pub enum Protected<V, C, E> {
    /// The body ran to its end.
    Success(V),
    /// The engine raised a failure while the body ran; this is what was
    /// captured of it.
    HostFailure(C),
    /// The body gave up with an error of its own.
    LocalError(E),
}

impl<V, C, E> Protected<V, C, E> {
    /// Whether the body did not run to its end.
    pub open spec fn failed(self) -> bool {
        !(self is Success)
    }
}

impl<Parent> SubTransaction<Parent> {
    /// A second reference to the same scope, kept by the boundary so that a
    /// rollback stays possible when the body loses its handle in a failure.
    ///
    /// The handle itself is disarmed: from now on discarding it issues
    /// nothing, and so does discarding the reference. Whoever resolves the
    /// scope does so explicitly.
    pub fn internal_clone(&mut self) -> (guard: SubTransaction<()>)
        ensures
            *final(self) == old(self).rearmed(false),
            final(self)@ == (ScopeView { armed: false, ..old(self)@ }),
            final(self).parent_spec() == old(self).parent_spec(),
            guard@ == guard_view(old(self)@.tokens),
            final(self)@.disposal().is_none(),
            guard@.disposal().is_none(),
    {
        self.should_release = false;
        SubTransaction {
            tokens: self.tokens,
            should_release: false,
            policy: DropPolicy::RollbackOnDrop,
            parent: (),
        }
    }
}

/// The view of the reference that the boundary keeps to a scope with the
/// given tokens: disarmed, and good for a rollback only.
pub open spec fn guard_view(tokens: Tokens) -> ScopeView {
    ScopeView { tokens, policy: DropPolicy::RollbackOnDrop, armed: false }
}

/// What the boundary hands to its caller once the body is over.
///
/// On success the pair of the body travels on, and the handle in it is armed
/// as the one that went in was; the engine is not called. On either failure
/// the failure travels on unchanged together with the rollback of the scope
/// whose tokens the boundary kept.
pub open spec fn settled<R, Parent, C, E>(
    armed: bool,
    tokens: Tokens,
    result: Protected<(R, SubTransaction<Parent>), C, E>,
) -> (Protected<(R, SubTransaction<Parent>), C, E>, Option<HostCall>) {
    match result {
        Protected::Success((value, handle)) => (
            Protected::Success((value, handle.rearmed(armed))),
            None,
        ),
        Protected::HostFailure(cause) => (
            Protected::HostFailure(cause),
            Some(HostCall::Rollback(tokens)),
        ),
        Protected::LocalError(error) => (
            Protected::LocalError(error),
            Some(HostCall::Rollback(tokens)),
        ),
    }
}

/// Ends a protected call. `armed` is the flag that the handle carried when it
/// went in, `guard` the reference taken before the body ran, `result` what
/// the body came to.
pub fn settle<R, Parent, C, E>(
    armed: bool,
    guard: SubTransaction<()>,
    result: Protected<(R, SubTransaction<Parent>), C, E>,
) -> (r: (Protected<(R, SubTransaction<Parent>), C, E>, Option<HostCall>))
    ensures
        r == settled(armed, guard@.tokens, result),
        result.failed() <==> r.1 == Some(HostCall::Rollback(guard@.tokens)),
        !result.failed() <==> r.1.is_none(),
        r.0.failed() == result.failed(),
{
    match result {
        Protected::Success((value, mut handle)) => {
            handle.should_release = armed;
            (Protected::Success((value, handle)), None)
        },
        Protected::HostFailure(cause) => {
            let (_, call) = guard.rollback();
            (Protected::HostFailure(cause), Some(call))
        },
        Protected::LocalError(error) => {
            let (_, call) = guard.rollback();
            (Protected::LocalError(error), Some(call))
        },
    }
}

/// Runs `try_func` on the scope behind the boundary.
///
/// The body receives the handle disarmed, so that a failure which discards
/// the handle on its way resolves nothing. When the body succeeds, its pair
/// comes back with the handle armed as `subtxn` was. When it fails, the
/// failure comes back with the rollback of the scope, to be performed before
/// anything else.
pub fn catch_error<Try, R, Parent, C, E>(subtxn: SubTransaction<Parent>, try_func: Try) -> (r: (
    Protected<(R, SubTransaction<Parent>), C, E>,
    Option<HostCall>,
)) where Try: FnOnce(SubTransaction<Parent>) -> Protected<(R, SubTransaction<Parent>), C, E>
    requires
        try_func.requires((subtxn.rearmed(false),)),
    ensures
        exists|result: Protected<(R, SubTransaction<Parent>), C, E>|
            #[trigger] try_func.ensures((subtxn.rearmed(false),), result) && r == settled(
                subtxn@.armed,
                subtxn@.tokens,
                result,
            ),
        r.0.failed() <==> r.1 == Some(HostCall::Rollback(subtxn@.tokens)),
        !r.0.failed() <==> r.1.is_none(),
        r.0 matches Protected::Success(pair) ==> pair.1@.armed == subtxn@.armed,
{
    let mut subtxn = subtxn;
    let armed = subtxn.is_armed();
    let guard = subtxn.internal_clone();
    let result = try_func(subtxn);
    settle(armed, guard, result)
}

} // verus!
