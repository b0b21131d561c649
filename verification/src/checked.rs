//! Checked commands: one command run inside a scope so that its failure can
//! never be committed.
//!
//! While the command runs the scope rolls back on disposal, whatever its
//! policy was, and the boundary holds a reference for the rollback. A command
//! that succeeds gives the handle back as it went in. A command that fails
//! gives back the error and the rollback of the scope; the handle is gone.
use crate::catch_error::{guard_view, Protected};
use crate::subtxn::{DropPolicy, HostCall, ScopeView, SubTransaction, Tokens};
use vstd::prelude::*;

verus! {

/// Why a checked command gave no result.
#[derive(Debug, PartialEq, Eq)]
pub enum CheckedError<C, E> {
    /// The engine raised a failure while it ran the command.
    CaughtError(C),
    /// The command layer refused the request or could not read the answer.
    SpiError(E),
}

/// Whether a command only reads or may change data.
#[derive(Clone, Copy, Debug, PartialEq, Eq, Structural)]
pub enum Access {
    Read,
    Write,
}

/// A command as it is handed to the engine: the text, an optional limit on
/// the rows and optional parameters, each a type identifier with an optional
/// value.
#[derive(Debug, PartialEq, Eq)]
pub struct Command<'a> {
    pub access: Access,
    pub query: &'a str,
    pub limit: Option<i64>,
    pub args: Option<Vec<(u32, Option<usize>)>>,
}

impl<'a> Command<'a> {
    /// The command with exactly these parts.
    pub open spec fn of(
        access: Access,
        query: &'a str,
        limit: Option<i64>,
        args: Option<Vec<(u32, Option<usize>)>>,
    ) -> Command<'a> {
        Command { access, query, limit, args }
    }
}

/// What a checked command on `handle` returns once the engine has answered
/// with `outcome`. `tokens` are those of the handle's scope and `parent` is
/// the parent inside the handle.
///
/// A command that succeeded gives its rows and the handle, and nothing is
/// asked of the engine. A command that failed gives the error, and beside it
/// what a rollback of the scope gives: the parent and the call to perform.
pub open spec fn checked<T, H, P, C, E>(
    handle: H,
    tokens: Tokens,
    parent: P,
    outcome: Protected<T, C, E>,
) -> (Result<(T, H), CheckedError<C, E>>, Option<(P, HostCall)>) {
    match outcome {
        Protected::Success(rows) => (Ok((rows, handle)), None),
        Protected::HostFailure(cause) => (
            Err(CheckedError::CaughtError(cause)),
            Some((parent, HostCall::Rollback(tokens))),
        ),
        Protected::LocalError(error) => (
            Err(CheckedError::SpiError(error)),
            Some((parent, HostCall::Rollback(tokens))),
        ),
    }
}

/// A scope prepared for one checked command: demoted to rollback on
/// disposal, disarmed, and with the boundary's reference beside it.
pub struct Guarded<Parent> {
    pub(crate) handle: SubTransaction<Parent>,
    pub(crate) guard: SubTransaction<()>,
    pub(crate) policy: DropPolicy,
    pub(crate) armed: bool,
}

impl<Parent> Guarded<Parent> {
    /// What holds of every prepared scope: the handle inside rolls back on
    /// disposal and is disarmed, and the reference beside it names the same
    /// scope.
    #[verifier::type_invariant]
    spec fn wf(self) -> bool {
        &&& self.handle@.policy == DropPolicy::RollbackOnDrop
        &&& !self.handle@.armed
        &&& self.guard@.tokens == self.handle@.tokens
        &&& !self.guard@.armed
    }

    /// The handle that was prepared.
    pub open(crate) spec fn origin(self) -> SubTransaction<Parent> {
        SubTransaction { should_release: self.armed, policy: self.policy, ..self.handle }
    }

    /// The view of the handle as it is while the command runs.
    pub open(crate) spec fn running(self) -> ScopeView {
        self.handle@
    }

    /// The parent of the prepared scope, borrowed.
    pub fn parent(&self) -> (p: &Parent)
        ensures
            *p == self.origin().parent_spec(),
    {
        self.handle.parent()
    }

    /// Ends the command with what the engine answered.
    pub fn finish<T, C, E>(self, outcome: Protected<T, C, E>) -> (r: (
        Result<(T, SubTransaction<Parent>), CheckedError<C, E>>,
        Option<(Parent, HostCall)>,
    ))
        ensures
            r == checked(
                self.origin(),
                self.origin()@.tokens,
                self.origin().parent_spec(),
                outcome,
            ),
            r.0 matches Ok(pair) ==> pair.1 == self.origin(),
            r.0 is Ok <==> outcome is Success,
            r.0 is Ok <==> r.1.is_none(),
    {
        proof {
            use_type_invariant(&self);
        }
        let Guarded { handle, guard, policy, armed } = self;
        match outcome {
            Protected::Success(rows) => {
                let mut handle = handle.retag_policy(policy);
                handle.should_release = armed;
                (Ok((rows, handle)), None)
            },
            Protected::HostFailure(cause) => {
                let (_, call) = guard.rollback();
                let (_, parent) = handle.dispose();
                (Err(CheckedError::CaughtError(cause)), Some((parent, call)))
            },
            Protected::LocalError(error) => {
                let (_, call) = guard.rollback();
                let (_, parent) = handle.dispose();
                (Err(CheckedError::SpiError(error)), Some((parent, call)))
            },
        }
    }
}

impl<Parent> SubTransaction<Parent> {
    /// Prepares the scope for one checked command. While the command runs
    /// the handle is disarmed and rolls back on disposal, so that nothing
    /// can commit the scope before the command has succeeded.
    pub fn guarded(self) -> (g: Guarded<Parent>)
        ensures
            g.origin() == self,
            g.running() == guard_view(self@.tokens),
            g.running().disposal().is_none(),
            g.running().policy_call() == HostCall::Rollback(self@.tokens),
    {
        let policy = self.policy();
        let mut handle = match policy {
            DropPolicy::RollbackOnDrop => self,
            DropPolicy::CommitOnDrop => self.rollback_on_drop(),
        };
        let armed = handle.is_armed();
        let guard = handle.internal_clone();
        Guarded { handle, guard, policy, armed }
    }
}

/// Read-only commands on a scope.
pub trait CheckedCommands: Sized {
    /// What the scope gives back when it is resolved; the engine is reached
    /// through it.
    type Parent;

    /// The tokens of the scope that the commands run in.
    spec fn scope_tokens(&self) -> Tokens;

    /// The parent that the scope gives back when it is resolved.
    spec fn scope_parent(&self) -> Self::Parent;

    /// Runs a read-only command through `execute`, which stands for the
    /// engine behind its failure boundary. `execute` receives the parent,
    /// borrowed, and the command with exactly the parts given here.
    fn checked_select<'a, T, C, E, F>(
        self,
        query: &'a str,
        limit: Option<i64>,
        args: Option<Vec<(u32, Option<usize>)>>,
        execute: F,
    ) -> (r: (Result<(T, Self), CheckedError<C, E>>, Option<(Self::Parent, HostCall)>)) where
        F: FnOnce(&Self::Parent, Command<'a>) -> Protected<T, C, E>,

        requires
            execute.requires((&self.scope_parent(), Command::of(Access::Read, query, limit, args))),
        ensures
            exists|outcome: Protected<T, C, E>|
                #[trigger] execute.ensures(
                    (&self.scope_parent(), Command::of(Access::Read, query, limit, args)),
                    outcome,
                ) && r == checked(self, self.scope_tokens(), self.scope_parent(), outcome),
    ;
}

/// Commands on a scope that may change data.
pub trait CheckedMutCommands: Sized {
    /// What the scope gives back when it is resolved; the engine is reached
    /// through it.
    type Parent;

    /// The tokens of the scope that the commands run in.
    spec fn scope_tokens_mut(&self) -> Tokens;

    /// The parent that the scope gives back when it is resolved.
    spec fn scope_parent_mut(&self) -> Self::Parent;

    /// The same scope around another parent.
    spec fn reparented(self, parent: Self::Parent) -> Self;

    /// Runs a command that may change data through `execute`, which stands
    /// for the engine behind its failure boundary. `execute` receives the
    /// parent and the command with exactly the parts given here, and gives
    /// the parent back as the command left it.
    fn checked_update<'a, T, C, E, F>(
        self,
        query: &'a str,
        limit: Option<i64>,
        args: Option<Vec<(u32, Option<usize>)>>,
        execute: F,
    ) -> (r: (Result<(T, Self), CheckedError<C, E>>, Option<(Self::Parent, HostCall)>)) where
        F: FnOnce(Self::Parent, Command<'a>) -> (Self::Parent, Protected<T, C, E>),

        requires
            execute.requires((self.scope_parent_mut(), Command::of(Access::Write, query, limit, args))),
        ensures
            exists|back: (Self::Parent, Protected<T, C, E>)|
                #[trigger] execute.ensures(
                    (self.scope_parent_mut(), Command::of(Access::Write, query, limit, args)),
                    back,
                ) && r == checked(
                    self.reparented(back.0),
                    self.scope_tokens_mut(),
                    back.0,
                    back.1,
                ),
    ;
}

impl<Parent> CheckedCommands for SubTransaction<Parent> {
    type Parent = Parent;

    open spec fn scope_tokens(&self) -> Tokens {
        self@.tokens
    }

    open spec fn scope_parent(&self) -> Parent {
        self.parent_spec()
    }

    fn checked_select<'a, T, C, E, F>(
        self,
        query: &'a str,
        limit: Option<i64>,
        args: Option<Vec<(u32, Option<usize>)>>,
        execute: F,
    ) -> (r: (Result<(T, Self), CheckedError<C, E>>, Option<(Parent, HostCall)>)) where
        F: FnOnce(&Parent, Command<'a>) -> Protected<T, C, E>,

        ensures
            r.0 matches Ok(pair) ==> pair.1 == self && pair.1@.policy == self@.policy,
            r.0 is Err <==> r.1 == Some((self.parent_spec(), HostCall::Rollback(self@.tokens))),
            r.0 is Ok <==> r.1.is_none(),
    {
        let prepared = self.guarded();
        let outcome = execute(
            prepared.parent(),
            Command { access: Access::Read, query, limit, args },
        );
        prepared.finish(outcome)
    }
}

impl<Parent> CheckedMutCommands for SubTransaction<Parent> {
    type Parent = Parent;

    open spec fn scope_tokens_mut(&self) -> Tokens {
        self@.tokens
    }

    open spec fn scope_parent_mut(&self) -> Parent {
        self.parent_spec()
    }

    open spec fn reparented(self, parent: Parent) -> Self {
        self.with_parent(parent)
    }

    fn checked_update<'a, T, C, E, F>(
        self,
        query: &'a str,
        limit: Option<i64>,
        args: Option<Vec<(u32, Option<usize>)>>,
        execute: F,
    ) -> (r: (Result<(T, Self), CheckedError<C, E>>, Option<(Parent, HostCall)>)) where
        F: FnOnce(Parent, Command<'a>) -> (Parent, Protected<T, C, E>),

        ensures
            r.0 matches Ok(pair) ==> pair.1@ == self@,
            r.0 is Err <==> (r.1 matches Some(rolled) && rolled.1 == HostCall::Rollback(
                self@.tokens,
            )),
            r.0 is Ok <==> r.1.is_none(),
    {
        let prepared = self.guarded();
        proof {
            use_type_invariant(&prepared);
        }
        let Guarded { handle, guard, policy, armed } = prepared;
        let SubTransaction { tokens, should_release, policy: demoted, parent } = handle;
        let (parent, outcome) = execute(
            parent,
            Command { access: Access::Write, query, limit, args },
        );
        let handle = SubTransaction { tokens, should_release, policy: demoted, parent };
        let prepared = Guarded { handle, guard, policy, armed };
        prepared.finish(outcome)
    }
}

} // verus!
