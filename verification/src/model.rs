//! The engine's nesting discipline, as far as this crate relies on it, and
//! what the calls issued by this crate do to it.
//!
//! Nothing here runs: the engine is described by spec functions, and the
//! proof functions state what follows for the operations of the other
//! modules.
use crate::catch_error::Protected;
use crate::checked::{checked, CheckedError};
use crate::subtxn::{DropPolicy, HostCall, ScopeView, Tokens};
use vstd::prelude::*;

verus! {

/// One open nested scope inside the engine.
pub struct Level {
    /// The tokens that were active when the scope was entered.
    pub saved: Tokens,
    /// The rows written while this scope was the innermost one, together
    /// with those of the scopes committed into it.
    pub writes: Set<int>,
}

/// The engine as this crate sees it.
pub struct Engine {
    /// The tokens that are active now.
    pub active: Tokens,
    /// The rows outside every open scope.
    pub committed: Set<int>,
    /// The open scopes, the innermost last.
    pub levels: Seq<Level>,
}

impl Engine {
    /// Enters a nested scope. The tokens that were active are saved with the
    /// new level, and they are what the engine hands out for the scope;
    /// `inner` become the active ones.
    pub open spec fn begin(self, inner: Tokens) -> Engine {
        Engine {
            active: inner,
            committed: self.committed,
            levels: self.levels.push(Level { saved: self.active, writes: Set::empty() }),
        }
    }

    /// Adds rows where a write lands: in the innermost open scope, or
    /// outside every scope when none is open.
    pub open spec fn write_all(self, rows: Set<int>) -> Engine {
        if self.levels.len() == 0 {
            Engine { committed: self.committed.union(rows), ..self }
        } else {
            let top = self.levels.last();
            Engine {
                levels: self.levels.update(
                    self.levels.len() - 1,
                    Level { writes: top.writes.union(rows), ..top },
                ),
                ..self
            }
        }
    }

    /// Whether the engine takes the call: a scope is open, and the call
    /// restores the tokens saved with the innermost one.
    pub open spec fn accepts(self, call: HostCall) -> bool {
        self.levels.len() > 0 && self.levels.last().saved == call.restored()
    }

    /// The engine after the call. A commit moves the rows of the innermost
    /// scope to where a write lands outside it; a rollback forgets them.
    /// Either way the scope is closed and the saved tokens are active again.
    /// A call that the engine does not take changes nothing.
    pub open spec fn apply(self, call: HostCall) -> Engine {
        if !self.accepts(call) {
            self
        } else {
            let outside = Engine {
                active: call.restored(),
                committed: self.committed,
                levels: self.levels.drop_last(),
            };
            match call {
                HostCall::Commit(_) => outside.write_all(self.levels.last().writes),
                HostCall::Rollback(_) => outside,
            }
        }
    }

    /// The engine after a call that may be absent.
    pub open spec fn perform(self, call: Option<HostCall>) -> Engine {
        match call {
            Some(call) => self.apply(call),
            None => self,
        }
    }

    /// The rows that a read sees now: those outside every scope and those of
    /// every open scope.
    pub open spec fn visible(self) -> Set<int> {
        Set::new(
            |row: int|
                self.committed.contains(row) || exists|k: int|
                    0 <= k < self.levels.len() && #[trigger] self.levels[k].writes.contains(row),
        )
    }
}

/// How the handle of a scope leaves the program.
pub enum Ending {
    /// By an explicit commit.
    Commit,
    /// By an explicit rollback.
    Rollback,
    /// Discarded while armed, under the given policy.
    Discard(DropPolicy),
    /// Inside a failed protected call: the boundary rolls the scope back.
    Failure,
}

impl Ending {
    /// The call that the handle of a scope with these tokens issues when it
    /// leaves this way.
    pub open spec fn call(self, tokens: Tokens) -> HostCall {
        match self {
            Ending::Commit => HostCall::Commit(tokens),
            Ending::Rollback => HostCall::Rollback(tokens),
            Ending::Discard(policy) => (ScopeView { tokens, policy, armed: true }).policy_call(),
            Ending::Failure => HostCall::Rollback(tokens),
        }
    }

    /// Whether the scope is resolved by a commit.
    pub open spec fn commits(self) -> bool {
        self == Ending::Commit || self == Ending::Discard(DropPolicy::CommitOnDrop)
    }
}

/// One scope of a nest: what is active inside it, what is written in it
/// before and after the scopes nested in it, and how its handle leaves.
pub struct Scope {
    /// The tokens that are active inside the scope.
    pub inner: Tokens,
    /// The rows written before the next scope is entered.
    pub writes: Set<int>,
    /// The rows written after the scopes inside have been resolved.
    pub later: Set<int>,
    /// How the handle of the scope leaves.
    pub ending: Ending,
}

impl Scope {
    /// Whether the row is written in this scope itself.
    pub open spec fn wrote(self, row: int) -> bool {
        self.writes.contains(row) || self.later.contains(row)
    }
}

/// The engine after a whole nest of scopes. The scopes are entered one inside
/// the other, the outermost first, each with its writes; then they are
/// resolved in the opposite order, each by the call of its own handle, whose
/// tokens are the ones handed out on entry.
pub open spec fn unwound(base: Engine, scopes: Seq<Scope>) -> Engine
    decreases scopes.len(),
{
    if scopes.len() == 0 {
        base
    } else {
        let outer = scopes.first();
        let entered = base.begin(outer.inner).write_all(outer.writes);
        unwound(entered, scopes.drop_first()).write_all(outer.later).apply(
            outer.ending.call(base.active),
        )
    }
}

/// The rows of a nest that outlive it: those of each scope that is committed
/// together with every scope around it.
pub open spec fn kept(scopes: Seq<Scope>) -> Set<int>
    decreases scopes.len(),
{
    if scopes.len() == 0 {
        Set::empty()
    } else if scopes.first().ending.commits() {
        scopes.first().writes.union(kept(scopes.drop_first())).union(scopes.first().later)
    } else {
        Set::empty()
    }
}

/// Whether the first `upto` scopes of the nest are all committed.
pub open spec fn committed_through(scopes: Seq<Scope>, upto: int) -> bool {
    forall|j: int| 0 <= j < upto ==> (#[trigger] scopes[j]).ending.commits()
}

/// Writing nothing changes nothing.
pub proof fn lemma_write_nothing(engine: Engine)
    ensures
        engine.write_all(Set::empty()) == engine,
{
    let after = engine.write_all(Set::empty());
    if engine.levels.len() == 0 {
        assert(after.committed =~= engine.committed);
    } else {
        assert(engine.levels.last().writes.union(Set::<int>::empty())
            =~= engine.levels.last().writes);
        assert(after.levels =~= engine.levels);
    }
}

/// Two writes in a row are one write of all their rows.
pub proof fn lemma_write_twice(engine: Engine, first: Set<int>, second: Set<int>)
    ensures
        engine.write_all(first).write_all(second) == engine.write_all(first.union(second)),
{
    let twice = engine.write_all(first).write_all(second);
    let once = engine.write_all(first.union(second));
    if engine.levels.len() == 0 {
        assert(twice.committed =~= once.committed);
    } else {
        assert(engine.levels.last().writes.union(first).union(second)
            =~= engine.levels.last().writes.union(first.union(second)));
        assert(twice.levels =~= once.levels);
    }
}

/// A scope that is entered, written to and resolved acts on the engine
/// outside it as one write of its rows when it is committed, and not at all
/// when it is rolled back. The engine takes the call of the scope's handle.
pub proof fn lemma_resolve(base: Engine, inner: Tokens, rows: Set<int>, ending: Ending)
    ensures
        base.begin(inner).write_all(rows).accepts(ending.call(base.active)),
        ending.commits() ==> base.begin(inner).write_all(rows).apply(ending.call(base.active))
            == base.write_all(rows),
        !ending.commits() ==> base.begin(inner).write_all(rows).apply(ending.call(base.active))
            == base,
{
    let filled = base.begin(inner).write_all(rows);
    let call = ending.call(base.active);
    assert(call.restored() == base.active);
    assert(filled.levels.len() == base.levels.len() + 1);
    assert(filled.levels.last().saved == base.active);
    assert(filled.levels.drop_last() =~= base.levels);
    assert(filled.levels.last().writes =~= rows);
    let outside = Engine {
        active: base.active,
        committed: base.committed,
        levels: filled.levels.drop_last(),
    };
    assert(outside == base);
}

/// Last in, first out: a nest of scopes, entered one inside the other and
/// resolved innermost first by the calls of their own handles, acts on the
/// engine as one write of the rows that the nest keeps. Every level that was
/// opened is closed again, and the tokens that were active before the nest
/// are active after it.
pub proof fn lemma_unwound(base: Engine, scopes: Seq<Scope>)
    ensures
        unwound(base, scopes) == base.write_all(kept(scopes)),
        unwound(base, scopes).levels.len() == base.levels.len(),
        unwound(base, scopes).active == base.active,
    decreases scopes.len(),
{
    if scopes.len() == 0 {
        lemma_write_nothing(base);
    } else {
        let outer = scopes.first();
        let rest = scopes.drop_first();
        let opened = base.begin(outer.inner);
        let entered = opened.write_all(outer.writes);
        lemma_unwound(entered, rest);
        lemma_write_twice(opened, outer.writes, kept(rest));
        lemma_write_twice(opened, outer.writes.union(kept(rest)), outer.later);
        lemma_resolve(
            base,
            outer.inner,
            outer.writes.union(kept(rest)).union(outer.later),
            outer.ending,
        );
        if !outer.ending.commits() {
            lemma_write_nothing(base);
        }
    }
}

/// Which rows a nest keeps: a row is kept exactly if some scope wrote it and
/// that scope and every scope around it are committed.
pub proof fn lemma_kept(scopes: Seq<Scope>, row: int)
    ensures
        kept(scopes).contains(row) <==> exists|k: int|
            0 <= k < scopes.len() && (#[trigger] scopes[k]).wrote(row) && committed_through(
                scopes,
                k + 1,
            ),
    decreases scopes.len(),
{
    if scopes.len() == 0 {
    } else {
        let rest = scopes.drop_first();
        lemma_kept(rest, row);
        assert(forall|j: int| 0 <= j < rest.len() ==> rest[j] == scopes[j + 1]);
        if kept(scopes).contains(row) {
            assert(scopes[0].ending.commits());
            if scopes[0].wrote(row) {
                assert(committed_through(scopes, 1));
            } else {
                let k = choose|k: int|
                    0 <= k < rest.len() && (#[trigger] rest[k]).wrote(row) && committed_through(
                        rest,
                        k + 1,
                    );
                assert(scopes[k + 1].wrote(row));
                assert forall|j: int| 0 <= j < k + 2 implies (#[trigger] scopes[j]).ending.commits() by {
                    if j > 0 {
                        assert(rest[j - 1].ending.commits());
                    }
                }
                assert(committed_through(scopes, k + 1 + 1));
            }
        }
        if exists|k: int|
            0 <= k < scopes.len() && (#[trigger] scopes[k]).wrote(row) && committed_through(
                scopes,
                k + 1,
            ) {
            let k = choose|k: int|
                0 <= k < scopes.len() && (#[trigger] scopes[k]).wrote(row) && committed_through(
                    scopes,
                    k + 1,
                );
            assert(scopes[0].ending.commits());
            if k > 0 {
                assert(rest[k - 1].wrote(row));
                assert forall|j: int| 0 <= j < k implies (#[trigger] rest[j]).ending.commits() by {
                    assert(scopes[j + 1].ending.commits());
                }
                assert(committed_through(rest, (k - 1) + 1));
                assert(kept(rest).contains(row));
            }
        }
    }
}

/// After a nest that starts and ends outside every scope, the rows outside
/// every scope are those that were there before and those written in a scope
/// that is committed together with every scope around it. Rows written in a
/// scope that is rolled back, explicitly, on disposal or by the boundary, or
/// inside such a scope, are not among them.
pub proof fn lemma_visible_after_unwind(base: Engine, scopes: Seq<Scope>, row: int)
    requires
        base.levels.len() == 0,
    ensures
        unwound(base, scopes).levels.len() == 0,
        unwound(base, scopes).active == base.active,
        unwound(base, scopes).visible().contains(row) <==> base.committed.contains(row) || exists|
            k: int,
        |
            0 <= k < scopes.len() && (#[trigger] scopes[k]).wrote(row) && committed_through(
                scopes,
                k + 1,
            ),
{
    lemma_unwound(base, scopes);
    lemma_kept(scopes, row);
}

/// A row written in a scope that is committed, as is every scope around it,
/// is visible after the nest.
pub proof fn lemma_committed_rows_are_visible(base: Engine, scopes: Seq<Scope>, k: int, row: int)
    requires
        base.levels.len() == 0,
        0 <= k < scopes.len(),
        scopes[k].wrote(row),
        committed_through(scopes, k + 1),
    ensures
        unwound(base, scopes).visible().contains(row),
{
    lemma_visible_after_unwind(base, scopes, row);
}

/// A row that was not there before and is written only in scopes at or
/// inside one that is rolled back is not visible after the nest.
pub proof fn lemma_rolled_back_rows_are_lost(base: Engine, scopes: Seq<Scope>, k: int, row: int)
    requires
        base.levels.len() == 0,
        0 <= k < scopes.len(),
        !scopes[k].ending.commits(),
        !base.committed.contains(row),
        forall|j: int| 0 <= j < k ==> !(#[trigger] scopes[j]).wrote(row),
    ensures
        !unwound(base, scopes).visible().contains(row),
{
    lemma_visible_after_unwind(base, scopes, row);
    if unwound(base, scopes).visible().contains(row) {
        let w = choose|w: int|
            0 <= w < scopes.len() && (#[trigger] scopes[w]).wrote(row) && committed_through(
                scopes,
                w + 1,
            );
        assert(w >= k);
        assert(scopes[k].ending.commits());
    }
}

/// The calls by which a handle leaves are the calls of its endings: an
/// explicit commit or rollback issues just that, an armed handle that is
/// discarded issues the call of its policy, and a failed command issues a
/// rollback whatever the policy was.
pub proof fn lemma_ending_calls<T, H, P, C, E>(
    view: ScopeView,
    handle: H,
    parent: P,
    outcome: Protected<T, C, E>,
)
    ensures
        Ending::Commit.call(view.tokens) == HostCall::Commit(view.tokens),
        Ending::Rollback.call(view.tokens) == HostCall::Rollback(view.tokens),
        view.armed ==> view.disposal() == Some(Ending::Discard(view.policy).call(view.tokens)),
        !view.armed ==> view.disposal().is_none(),
        outcome.failed() ==> checked(handle, view.tokens, parent, outcome).1 == Some(
            (parent, Ending::Failure.call(view.tokens)),
        ),
        !outcome.failed() ==> checked(handle, view.tokens, parent, outcome).1.is_none(),
{
}

/// The call that a checked command asks for, if any.
pub open spec fn forced<P>(rollback: Option<(P, HostCall)>) -> Option<HostCall> {
    match rollback {
        Some((_, call)) => Some(call),
        None => None,
    }
}

/// A checked command that fails is never committed. Whatever the policy of
/// its handle was, the command returns an error and no handle, and the call
/// it issues closes the scope without moving any of its rows: the rows
/// outside every scope and those of the scopes around stay as they were, and
/// the tokens of the scope are active again.
pub proof fn lemma_failed_command_rolls_back<T, H, P, C, E>(
    engine: Engine,
    handle: H,
    tokens: Tokens,
    parent: P,
    outcome: Protected<T, C, E>,
)
    requires
        outcome.failed(),
        engine.accepts(HostCall::Rollback(tokens)),
    ensures
        checked(handle, tokens, parent, outcome).0 is Err,
        checked(handle, tokens, parent, outcome).1 == Some((parent, HostCall::Rollback(tokens))),
        engine.perform(forced(checked(handle, tokens, parent, outcome).1)) == (Engine {
            active: tokens,
            committed: engine.committed,
            levels: engine.levels.drop_last(),
        }),
{
}

/// A checked command that succeeds leaves the engine to the command: it
/// issues no call, and the handle comes back as it went in.
pub proof fn lemma_successful_command_keeps_scope<T, H, P, C, E>(
    engine: Engine,
    handle: H,
    tokens: Tokens,
    parent: P,
    rows: T,
)
    ensures
        checked(handle, tokens, parent, Protected::<T, C, E>::Success(rows)).0 == Ok::<
            (T, H),
            CheckedError<C, E>,
        >((rows, handle)),
        engine.perform(
            forced(checked(handle, tokens, parent, Protected::<T, C, E>::Success(rows)).1),
        ) == engine,
{
}

} // verus!
