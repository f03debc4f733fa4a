//! Texture-ready reactor.
//!
//! Asset loading is asynchronous: the scene initializer issues non-blocking
//! load requests, and completion is observed later through a queue of
//! lifecycle notifications.  Once per tick the reactor drains that queue, in
//! order, and applies a fixed sampling configuration (linear filtering) to
//! each texture whose load just finished.

use vstd::prelude::*;
use crate::textures::Texture;
use crate::textures::TextureAssets;
use crate::textures::with_linear_sampling;

verus! {

/// A lifecycle notification for an asynchronously loaded texture, keyed by
/// its handle.
#[derive(Clone, Copy, Debug, PartialEq, Eq, Structural)]
pub enum AssetEvent {
    /// The texture finished loading and is now in the texture table.
    Created { handle: u64 },
    /// The texture resource was re-uploaded or otherwise changed.
    Modified { handle: u64 },
    /// The texture resource was removed.
    Removed { handle: u64 },
}

/// What the reactor does in response to one notification.
#[derive(Clone, Copy, Debug, PartialEq, Eq, Structural)]
pub enum Reaction {
    /// Set both sampling filters of the texture to linear; fatal if no
    /// texture is registered under the handle.
    ApplyLinearFiltering { handle: u64 },
    /// Observe and log only; no state is mutated.
    LogOnly { handle: u64 },
    /// Ignore entirely.
    Ignore,
}

/// The reactor's decision for one notification: linear filtering on load
/// completion, logging on modification, nothing on removal.
pub open spec fn spec_reaction(ev: AssetEvent) -> Reaction {
    match ev {
        AssetEvent::Created { handle } => Reaction::ApplyLinearFiltering { handle },
        AssetEvent::Modified { handle } => Reaction::LogOnly { handle },
        AssetEvent::Removed { handle: _ } => Reaction::Ignore,
    }
}

/// Decides, from one notification, what is to be done to the texture table.
/// The caller that owns the real resources performs the returned reaction.
pub fn reaction(ev: &AssetEvent) -> (r: Reaction)
    ensures
        r == spec_reaction(*ev),
{
    match ev {
        AssetEvent::Created { handle } => Reaction::ApplyLinearFiltering { handle: *handle },
        AssetEvent::Modified { handle } => Reaction::LogOnly { handle: *handle },
        AssetEvent::Removed { handle: _ } => Reaction::Ignore,
    }
}

/// Internal-invariant violation: a `Created` notification arrived for a
/// handle with no texture in the table.  A `Created` notification is always
/// preceded by the texture's registration, so this indicates a
/// scheduling-order bug between subsystems; the tick is aborted loudly.
#[derive(Clone, Copy, Debug, PartialEq, Eq, Structural)]
pub enum ReactorError {
    MissingTexture { handle: u64 },
}

/// Runs the notifications `evs`, in order, against the abstract texture
/// table `m`.  Returns the table reached, and `Some(handle)` if a `Created`
/// notification named an unregistered `handle`; processing stops at the
/// first such violation.
pub open spec fn run_events(m: Map<u64, Texture>, evs: Seq<AssetEvent>) -> (Map<u64, Texture>, Option<
    u64,
>)
    decreases evs.len(),
{
    if evs.len() == 0 {
        (m, None)
    } else {
        match evs[0] {
            AssetEvent::Created { handle } => {
                if m.dom().contains(handle) {
                    run_events(m.insert(handle, with_linear_sampling(m[handle])), evs.drop_first())
                } else {
                    (m, Some(handle))
                }
            },
            _ => run_events(m, evs.drop_first()),
        }
    }
}

/// Drains the notification queue and reacts to each notification in the
/// order delivered, with no reordering and no deduplication: a finished load
/// gets linear sampling filters, a modification is observed only, a removal
/// is ignored.
///
/// The queue is empty afterwards: every queued notification was consumed,
/// each exactly once.  A `Created` notification for an unregistered handle
/// aborts the tick with `ReactorError::MissingTexture`; the violating
/// notification and the rest of the queue are discarded unprocessed with the
/// aborted tick.
pub fn texture_update_sys(ev_asset: &mut Vec<AssetEvent>, textures: &mut TextureAssets) -> (r:
    Result<(), ReactorError>)
    requires
        old(textures).wf(),
    ensures
        final(textures).wf(),
        final(ev_asset)@ == Seq::<AssetEvent>::empty(),
        final(textures)@ == run_events(old(textures)@, old(ev_asset)@).0,
        (match r {
            Ok(()) => run_events(old(textures)@, old(ev_asset)@).1 is None,
            Err(ReactorError::MissingTexture { handle }) => run_events(
                old(textures)@,
                old(ev_asset)@,
            ).1 == Some(handle),
        }),
{
    let ghost m0 = textures@;
    let ghost evs0 = ev_asset@;
    let mut result: Result<(), ReactorError> = Ok(());
    let mut failed: bool = false;
    let mut i: usize = 0;
    proof {
        assert(evs0.skip(0) =~= evs0);
    }
    while i < ev_asset.len() && !failed
        invariant
            old(textures).wf(),
            textures.wf(),
            i <= ev_asset@.len(),
            ev_asset@ == evs0,
            m0 == old(textures)@,
            !failed ==> result == Ok::<(), ReactorError>(()) && run_events(m0, evs0) == run_events(
                textures@,
                evs0.skip(i as int),
            ),
            failed ==> (match result {
                Err(ReactorError::MissingTexture { handle }) => run_events(m0, evs0) == (
                    textures@,
                    Some(handle),
                ),
                Ok(()) => false,
            }),
        decreases ev_asset@.len() - i,
    {
        let ev = ev_asset[i];
        proof {
            assert(evs0.skip(i as int)[0] == evs0[i as int]);
            assert(evs0.skip(i as int).drop_first() =~= evs0.skip(i as int + 1));
        }
        match reaction(&ev) {
            Reaction::ApplyLinearFiltering { handle } => {
                if textures.contains_handle(handle) {
                    textures.set_linear(handle);
                } else {
                    result = Err(ReactorError::MissingTexture { handle });
                    failed = true;
                }
            },
            Reaction::LogOnly { handle: _ } => {},
            Reaction::Ignore => {},
        }
        i = i + 1;
    }
    proof {
        if !failed {
            assert(evs0.skip(i as int) =~= Seq::<AssetEvent>::empty());
        }
    }
    ev_asset.clear();
    result
}

/// Draining in batches loses nothing and repeats nothing: reacting to one
/// batch of notifications and then, from the table so reached, to a second
/// batch is the same as reacting to both batches queued together — so a tick
/// that drains the queue leaves exactly the notifications enqueued afterwards
/// for the next tick, each still to be processed exactly once.  A fatal
/// violation in the first batch ends processing there either way.
pub proof fn lemma_run_events_batched(
    m: Map<u64, Texture>,
    first: Seq<AssetEvent>,
    second: Seq<AssetEvent>,
)
    ensures
        run_events(m, first + second) == (if run_events(m, first).1 is None {
            run_events(run_events(m, first).0, second)
        } else {
            run_events(m, first)
        }),
    decreases first.len(),
{
    if first.len() == 0 {
        assert(first + second =~= second);
    } else {
        assert((first + second)[0] == first[0]);
        assert((first + second).drop_first() =~= first.drop_first() + second);
        match first[0] {
            AssetEvent::Created { handle } => {
                if m.dom().contains(handle) {
                    lemma_run_events_batched(
                        m.insert(handle, with_linear_sampling(m[handle])),
                        first.drop_first(),
                        second,
                    );
                }
            },
            _ => {
                lemma_run_events_batched(m, first.drop_first(), second);
            },
        }
    }
}

/// Fatal path: running a `Created` notification for a handle that the
/// texture table has never registered reports that handle as an
/// internal-invariant violation and leaves the table unchanged; it never
/// silently proceeds.
pub proof fn lemma_created_unregistered_is_fatal(
    m: Map<u64, Texture>,
    handle: u64,
    rest: Seq<AssetEvent>,
)
    requires
        !m.dom().contains(handle),
    ensures
        run_events(m, seq![AssetEvent::Created { handle }].add(rest)) == (m, Some(handle)),
{
    let evs = seq![AssetEvent::Created { handle }].add(rest);
    assert(evs[0] == AssetEvent::Created { handle });
}

/// One notification, one reaction: running a single notification against
/// any table does exactly what the decision function says — a finished load
/// rewrites that texture's sampling to linear (fatally reporting an
/// unregistered handle), and the other notifications leave the table as it
/// was.
pub proof fn lemma_reaction_agrees(m: Map<u64, Texture>, ev: AssetEvent)
    ensures
        (match spec_reaction(ev) {
            Reaction::ApplyLinearFiltering { handle } => run_events(m, seq![ev]) == (
                if m.dom().contains(handle) {
                    m.insert(handle, with_linear_sampling(m[handle]))
                } else {
                    m
                },
                if m.dom().contains(handle) {
                    None
                } else {
                    Some(handle)
                },
            ),
            Reaction::LogOnly { handle: _ } => run_events(m, seq![ev]) == (m, None::<u64>),
            Reaction::Ignore => run_events(m, seq![ev]) == (m, None::<u64>),
        }),
{
    reveal_with_fuel(run_events, 2);
    assert(seq![ev].drop_first() =~= Seq::<AssetEvent>::empty());
}

} // verus!
