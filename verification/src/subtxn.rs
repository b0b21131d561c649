//! The scope handle: one open nested transaction level and its lifecycle.
use vstd::prelude::*;

verus! {

/// The two opaque engine tokens captured when a nested scope is entered: the
/// allocation context and the resource owner that were active just before.
/// Resolving the scope hands them back so that the engine makes them active
/// again.
#[derive(Clone, Copy, Debug, PartialEq, Eq, Structural)]
pub struct Tokens {
    pub memory_context: usize,
    pub resource_owner: usize,
}

/// What happens to a scope whose handle is discarded without an explicit
/// commit or rollback.
#[derive(Clone, Copy, Debug, PartialEq, Eq, Structural)]
pub enum DropPolicy {
    CommitOnDrop,
    RollbackOnDrop,
}

/// A request to the engine that resolves the innermost open scope. The
/// embedding performs it as soon as an operation of this crate hands it out.
#[derive(Clone, Copy, Debug, PartialEq, Eq, Structural)]
pub enum HostCall {
    /// Commit the scope and make the tokens active again.
    Commit(Tokens),
    /// Roll the scope back and make the tokens active again.
    Rollback(Tokens),
}

impl HostCall {
    /// The tokens that the call restores.
    pub open spec fn restored(self) -> Tokens {
        match self {
            HostCall::Commit(t) => t,
            HostCall::Rollback(t) => t,
        }
    }

    /// The tokens that the call restores.
    pub fn tokens(&self) -> (t: Tokens)
        ensures
            t == self.restored(),
    {
        match self {
            HostCall::Commit(t) => *t,
            HostCall::Rollback(t) => *t,
        }
    }

    /// Whether the call commits.
    pub fn is_commit(&self) -> (b: bool)
        ensures
            b == (*self is Commit),
    {
        match self {
            HostCall::Commit(_) => true,
            HostCall::Rollback(_) => false,
        }
    }
}

/// What the contracts say of a handle, whatever the type of its parent.
pub struct ScopeView {
    /// The tokens captured when the scope was entered.
    pub tokens: Tokens,
    /// The policy that disposal follows.
    pub policy: DropPolicy,
    /// Whether disposal resolves the scope at all.
    pub armed: bool,
}

impl ScopeView {
    /// The call that the policy asks for.
    pub open spec fn policy_call(self) -> HostCall {
        match self.policy {
            DropPolicy::CommitOnDrop => HostCall::Commit(self.tokens),
            DropPolicy::RollbackOnDrop => HostCall::Rollback(self.tokens),
        }
    }

    /// The call that discarding the handle issues: the policy's call while the
    /// handle is armed, none once it is disarmed.
    pub open spec fn disposal(self) -> Option<HostCall> {
        if self.armed {
            Some(self.policy_call())
        } else {
            None
        }
    }
}

/// The handle of one open nested scope.
///
/// A handle is neither `Clone` nor `Copy`, and every operation that resolves
/// the scope takes the handle by value and gives the parent back, so a
/// resolved handle cannot be used again.
#[derive(Debug, PartialEq, Eq)]
pub struct SubTransaction<Parent> {
    pub(crate) tokens: Tokens,
    pub(crate) should_release: bool,
    pub(crate) policy: DropPolicy,
    pub(crate) parent: Parent,
}

impl<Parent> View for SubTransaction<Parent> {
    type V = ScopeView;

    open(crate) spec fn view(&self) -> ScopeView {
        ScopeView { tokens: self.tokens, policy: self.policy, armed: self.should_release }
    }
}

impl<Parent> SubTransaction<Parent> {
    /// The parent that resolving the scope gives back.
    pub open(crate) spec fn parent_spec(self) -> Parent {
        self.parent
    }

    /// The handle of a scope that was just entered under `parent`: armed, and
    /// committing on disposal.
    pub open(crate) spec fn opened(parent: Parent, tokens: Tokens) -> Self {
        SubTransaction { tokens, should_release: true, policy: DropPolicy::CommitOnDrop, parent }
    }

    /// The same handle with its disposal armed or disarmed.
    pub open(crate) spec fn rearmed(self, armed: bool) -> Self {
        SubTransaction { should_release: armed, ..self }
    }

    /// The same scope around another parent.
    pub open(crate) spec fn with_parent(self, parent: Parent) -> Self {
        SubTransaction { parent, ..self }
    }

    /// The view and the parent of a handle around another parent.
    pub proof fn lemma_with_parent(self, parent: Parent)
        ensures
            self.with_parent(parent)@ == self@,
            self.with_parent(parent).parent_spec() == parent,
            parent == self.parent_spec() ==> self.with_parent(parent) == self,
    {
    }

    /// The view and the parent of a rearmed handle.
    pub proof fn lemma_rearmed(self, armed: bool)
        ensures
            self.rearmed(armed)@ == (ScopeView { armed, ..self@ }),
            self.rearmed(armed).parent_spec() == self.parent_spec(),
            armed == self@.armed ==> self.rearmed(armed) == self,
    {
    }

    /// A handle is determined by its view and its parent.
    pub proof fn lemma_determined(self, other: Self)
        requires
            self@ == other@,
            self.parent_spec() == other.parent_spec(),
        ensures
            self == other,
    {
    }

    /// The view and the parent of a freshly opened handle.
    pub proof fn lemma_opened(parent: Parent, tokens: Tokens)
        ensures
            Self::opened(parent, tokens)@ == (ScopeView {
                tokens,
                policy: DropPolicy::CommitOnDrop,
                armed: true,
            }),
            Self::opened(parent, tokens).parent_spec() == parent,
    {
    }

    /// Wraps a scope that the engine has just entered under `parent`.
    /// `tokens` are the ones the engine handed out on entry.
    pub fn new(parent: Parent, tokens: Tokens) -> (handle: Self)
        ensures
            handle == Self::opened(parent, tokens),
            handle@ == (ScopeView { tokens, policy: DropPolicy::CommitOnDrop, armed: true }),
            handle.parent_spec() == parent,
    {
        SubTransaction { tokens, should_release: true, policy: DropPolicy::CommitOnDrop, parent }
    }

    /// The tokens captured when the scope was entered.
    pub fn tokens(&self) -> (t: Tokens)
        ensures
            t == self@.tokens,
    {
        self.tokens
    }

    /// The policy that disposal follows.
    pub fn policy(&self) -> (p: DropPolicy)
        ensures
            p == self@.policy,
    {
        self.policy
    }

    /// Whether disposal resolves the scope.
    pub fn is_armed(&self) -> (b: bool)
        ensures
            b == self@.armed,
    {
        self.should_release
    }

    /// The parent handle, borrowed.
    pub fn parent(&self) -> (p: &Parent)
        ensures
            *p == self.parent_spec(),
    {
        &self.parent
    }

    /// The parent handle, borrowed for a change. The scope itself stays as
    /// it is.
    pub fn parent_mut(&mut self) -> (p: &mut Parent)
        ensures
            *p == old(self).parent_spec(),
            final(self)@ == old(self)@,
            final(self).parent_spec() == *final(p),
        no_unwind
    {
        &mut self.parent
    }

    /// Commits the scope: consumes the handle and gives back the parent with
    /// the call to perform.
    pub fn commit(self) -> (r: (Parent, HostCall))
        ensures
            r.0 == self.parent_spec(),
            r.1 == HostCall::Commit(self@.tokens),
    {
        let call = HostCall::Commit(self.tokens);
        (self.parent, call)
    }

    /// Rolls the scope back: consumes the handle and gives back the parent
    /// with the call to perform.
    pub fn rollback(self) -> (r: (Parent, HostCall))
        ensures
            r.0 == self.parent_spec(),
            r.1 == HostCall::Rollback(self@.tokens),
    {
        let call = HostCall::Rollback(self.tokens);
        (self.parent, call)
    }

    /// The same scope under another disposal policy. The engine is not
    /// involved.
    pub fn retag_policy(self, policy: DropPolicy) -> (handle: Self)
        ensures
            handle@ == (ScopeView { policy, ..self@ }),
            handle.parent_spec() == self.parent_spec(),
    {
        SubTransaction {
            tokens: self.tokens,
            should_release: self.should_release,
            policy,
            parent: self.parent,
        }
    }

    /// The same scope, committing on disposal.
    pub fn commit_on_drop(self) -> (handle: Self)
        ensures
            handle@ == (ScopeView { policy: DropPolicy::CommitOnDrop, ..self@ }),
            handle.parent_spec() == self.parent_spec(),
    {
        self.retag_policy(DropPolicy::CommitOnDrop)
    }

    /// The same scope, rolling back on disposal.
    pub fn rollback_on_drop(self) -> (handle: Self)
        ensures
            handle@ == (ScopeView { policy: DropPolicy::RollbackOnDrop, ..self@ }),
            handle.parent_spec() == self.parent_spec(),
    {
        self.retag_policy(DropPolicy::RollbackOnDrop)
    }

    /// Discards the handle without an explicit resolution. An armed handle
    /// resolves by its policy; a disarmed one issues nothing, because another
    /// reference to the scope has taken the resolution over. The parent comes
    /// back so that the caller can discard it in turn.
    pub fn dispose(self) -> (r: (Option<HostCall>, Parent))
        ensures
            r.0 == self@.disposal(),
            r.1 == self.parent_spec(),
    {
        let call = if self.should_release {
            match self.policy {
                DropPolicy::CommitOnDrop => Some(HostCall::Commit(self.tokens)),
                DropPolicy::RollbackOnDrop => Some(HostCall::Rollback(self.tokens)),
            }
        } else {
            None
        };
        (call, self.parent)
    }
}

/// Runs `body` on the handle of a scope that the engine has just entered under
/// `parent`, and returns what `body` returns. The parent travels inside the
/// handle; it comes back when the scope is resolved.
pub fn sub_transaction<Parent, R, F>(parent: Parent, tokens: Tokens, body: F) -> (r: R) where
    F: FnOnce(SubTransaction<Parent>) -> R,

    requires
        body.requires((SubTransaction::<Parent>::opened(parent, tokens),)),
    ensures
        body.ensures((SubTransaction::<Parent>::opened(parent, tokens),), r),
{
    body(SubTransaction::new(parent, tokens))
}

} // verus!
