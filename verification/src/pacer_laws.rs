//! Properties of frame pacing that span several operations.
use vstd::prelude::*;
use crate::pacer::{FrameView, PacerView};

verus! {

/// A fresh pacer presents the first frame at once, unchanged, and sets the next
/// deadline one interval later.
pub proof fn lemma_first_frame_presents_at_once<C>(
    interval: u64,
    frame: FrameView<C>,
    now: u64,
    scope: Option<u64>,
)
    requires
        now + interval <= u64::MAX,
    ensures
        PacerView::<C>::initial(interval).submit(frame, now, scope).1 == Some(frame),
        PacerView::<C>::initial(interval).submit(frame, now, scope).0.deadline() is None,
        PacerView::<C>::initial(interval).submit(frame, now, scope).0.next_present_at == Some(
            (now + interval) as u64,
        ),
{
    let s = PacerView::<C>::initial(interval);
    assert(s.journal() + frame.graphics =~= frame.graphics);
}

/// A presented frame carries every waiting graphics side effect, oldest first, in front
/// of its own; nothing stays behind.
pub proof fn lemma_presented_frame_carries_journal<C>(
    s: PacerView<C>,
    frame: FrameView<C>,
    now: u64,
    scope: Option<u64>,
)
    requires
        s.wf(),
        !s.scope_mismatch(scope),
        s.due(now),
    ensures
        s.submit(frame, now, scope).1 == Some(
            FrameView { cells: frame.cells, graphics: s.journal() + frame.graphics },
        ),
        s.submit(frame, now, scope).0.journal() == Seq::<u8>::empty(),
{
}

/// No frame is presented before the deadline that the last presentation set: a submit
/// is held back and a poll for a due frame gives nothing.
pub proof fn lemma_no_presentation_before_deadline<C>(
    s: PacerView<C>,
    frame: FrameView<C>,
    presented_at: u64,
    later: FrameView<C>,
    now: u64,
    scope: Option<u64>,
)
    requires
        s.wf(),
        !s.scope_mismatch(scope),
        s.due(presented_at),
        presented_at + s.interval <= u64::MAX,
        now < presented_at + s.interval,
    ensures
        s.submit(frame, presented_at, scope).0.submit(later, now, scope).1 is None,
        s.submit(frame, presented_at, scope).0.present_due(now, scope).1 is None,
{
}

/// Frames submitted before the deadline are coalesced: once the deadline passes, only the
/// latest frame is presented, carrying the graphics of all of them in submission order.
pub proof fn lemma_coalesced_frames_keep_graphics_in_order<C>(
    s: PacerView<C>,
    first: FrameView<C>,
    t1: u64,
    second: FrameView<C>,
    t2: u64,
    t3: u64,
    scope: Option<u64>,
)
    requires
        s.wf(),
        !s.scope_mismatch(scope),
        !s.due(t1),
        !s.due(t2),
        s.due(t3),
        t3 + s.interval <= u64::MAX,
    ensures
        ({
            let a = s.submit(first, t1, scope);
            let b = a.0.submit(second, t2, scope);
            let c = b.0.present_due(t3, scope);
            &&& a.1 is None
            &&& b.1 is None
            &&& c.1 == Some(
                FrameView {
                    cells: second.cells,
                    graphics: s.journal() + first.graphics + second.graphics,
                },
            )
            &&& c.0.journal() == Seq::<u8>::empty()
            &&& c.0.deadline() is None
        }),
{
    let a = s.submit(first, t1, scope);
    let b = a.0.submit(second, t2, scope);
    assert(!a.0.scope_mismatch(scope));
    assert(a.0.journal() =~= s.journal() + first.graphics);
    assert(!b.0.scope_mismatch(scope));
    assert(b.0.journal() =~= s.journal() + first.graphics + second.graphics);
}

/// Entering another scope drops the old scope's frame and graphics: the next frame is
/// presented at once with only its own graphics.
pub proof fn lemma_scope_change_drops_old_graphics<C>(
    s: PacerView<C>,
    frame: FrameView<C>,
    now: u64,
    scope: Option<u64>,
)
    requires
        s.scope_mismatch(scope),
        now + s.interval <= u64::MAX,
    ensures
        s.submit(frame, now, scope).1 == Some(frame),
{
    assert(s.scope_checked(scope).journal() + frame.graphics =~= frame.graphics);
}

/// Old-scope graphics are handed out before they are dropped: what the mismatch check
/// returns is exactly the waiting journal, and afterwards nothing of the old scope remains.
pub proof fn lemma_mismatch_graphics_are_handed_out<C>(s: PacerView<C>, scope: Option<u64>)
    requires
        s.scope_mismatch(scope),
        s.journal().len() > 0,
    ensures
        s.take_mismatch(scope).1 == Some(s.journal()),
        s.take_mismatch(scope).0 == PacerView::<C>::initial(s.interval),
        !s.take_mismatch(scope).0.scope_mismatch(scope),
{
}

/// Ending the epoch keeps the graphics side effects: the next frame is presented at once
/// and carries them in front of its own.
pub proof fn lemma_clear_keeps_graphics_for_next_frame<C>(
    s: PacerView<C>,
    frame: FrameView<C>,
    now: u64,
    scope: Option<u64>,
)
    requires
        s.wf(),
        !s.scope_mismatch(scope),
        now + s.interval <= u64::MAX,
    ensures
        s.cleared().journal() == s.journal(),
        s.cleared().submit(frame, now, scope).1 == Some(
            FrameView { cells: frame.cells, graphics: s.journal() + frame.graphics },
        ),
{
    assert(s.cleared().journal() =~= s.journal());
}

/// Changing the interval keeps the latest coalesced frame and all graphics, and moves the
/// deadline to one new interval after the last presentation.
pub proof fn lemma_update_interval_keeps_pending_frame<C>(s: PacerView<C>, interval: u64)
    requires
        s.wf(),
        s.last_present_at matches Some(l) ==> l + interval <= u64::MAX,
    ensures
        s.with_interval(interval).pending_frame == s.pending_frame,
        s.with_interval(interval).journal() == s.journal(),
        s.with_interval(interval).wf(),
        s.pending_frame is Some ==> s.with_interval(interval).deadline() == Some(
            (s.last_present_at->0 + interval) as u64,
        ),
{
}

/// A handoff flush hands out the whole journal and keeps the pending frame's cells.
pub proof fn lemma_handoff_flush_keeps_frame_cells<C>(s: PacerView<C>)
    requires
        s.journal().len() > 0,
    ensures
        s.take_graphics().1 == Some(s.journal()),
        s.take_graphics().0.journal() == Seq::<u8>::empty(),
        s.take_graphics().0.pending_frame is Some <==> s.pending_frame is Some,
        s.pending_frame matches Some(f) ==> s.take_graphics().0.pending_frame->0.cells == f.cells,
{
}

/// Direct graphics are queued, behind everything already waiting, exactly when they are not
/// empty and a frame or graphics wait or the queueing is forced.
pub proof fn lemma_queued_graphics_follow_the_journal<C>(
    s: PacerView<C>,
    graphics: Seq<u8>,
    scope: Option<u64>,
    force: bool,
)
    requires
        !s.scope_mismatch(scope),
    ensures
        s.queue(graphics, scope, force).1 <==> graphics.len() > 0 && (force || s.journal().len()
            > 0 || s.pending_frame is Some),
        s.queue(graphics, scope, force).1 ==> s.queue(graphics, scope, force).0.journal()
            == s.journal() + graphics,
        !s.queue(graphics, scope, force).1 ==> s.queue(graphics, scope, force).0 == s,
{
    if graphics.len() > 0 && (force || s.journal().len() > 0 || s.pending_frame is Some) {
        assert(s.queue(graphics, scope, force).0.journal() =~= s.journal() + graphics);
    }
}

/// A frame waits exactly when a deadline is reported.
pub proof fn lemma_deadline_iff_frame_waits<C>(s: PacerView<C>)
    requires
        s.wf(),
    ensures
        s.deadline() is Some <==> s.pending_frame is Some,
{
}

/// A poll that presents the held-back frame starts a new interval at `now`: the frame
/// carries the pending graphics in front of its own, the last presentation is `now`, the
/// next deadline is `now` plus the interval, and until then every submit is held back and
/// every poll gives nothing.
pub proof fn lemma_due_poll_starts_new_interval<C>(
    s: PacerView<C>,
    now: u64,
    scope: Option<u64>,
    later: FrameView<C>,
    t: u64,
)
    requires
        s.wf(),
        s.pending_scope is None || s.pending_scope == scope,
        s.present_due(now, scope).1 is Some,
        now + s.interval <= u64::MAX,
        now <= t < now + s.interval,
    ensures
        s.pending_frame is Some,
        s.present_due(now, scope).1 == Some(
            FrameView {
                cells: s.pending_frame->0.cells,
                graphics: s.pending_graphics + s.pending_frame->0.graphics,
            },
        ),
        s.present_due(now, scope).0.last_present_at == Some(now),
        s.present_due(now, scope).0.next_present_at == Some((now + s.interval) as u64),
        s.present_due(now, scope).0.pending_frame is None,
        s.present_due(now, scope).0.pending_graphics.len() == 0,
        s.present_due(now, scope).0.submit(later, t, scope).1 is None,
        s.present_due(now, scope).0.present_due(t, scope).1 is None,
{
}

/// Graphics queued in scope `p` are tied to `p`: after a successful queue the pending
/// scope is `p`, so a frame submitted in any other scope is presented at once with only
/// its own graphics, and a poll in another scope finds no frame.
pub proof fn lemma_queued_graphics_stay_in_their_scope<C>(
    s: PacerView<C>,
    graphics: Seq<u8>,
    p: u64,
    force: bool,
    frame: FrameView<C>,
    now: u64,
    other: Option<u64>,
)
    requires
        s.pending_scope is None || s.pending_scope == Some(p),
        s.queue(graphics, Some(p), force).1,
        other != Some(p),
        now + s.interval <= u64::MAX,
    ensures
        s.queue(graphics, Some(p), force).0.pending_scope == Some(p),
        s.queue(graphics, Some(p), force).0.submit(frame, now, other).1 == Some(frame),
        s.queue(graphics, Some(p), force).0.present_due(now, other).1 is None,
{
    let q = s.queue(graphics, Some(p), force).0;
    assert(q.scope_checked(other).journal() + frame.graphics =~= frame.graphics);
}

/// Taking old-scope graphics is a no-op unless the pending graphics have a scope other than
/// `scope`; then the whole journal is handed out (if any) and everything is dropped.
pub proof fn lemma_take_mismatch_only_on_other_scope<C>(s: PacerView<C>, scope: Option<u64>)
    ensures
        s.pending_scope is None || s.pending_scope == scope ==> s.take_mismatch(scope) == (
            s,
            None::<Seq<u8>>,
        ),
        s.pending_scope is None || s.pending_scope == scope ==> s.scope_checked(scope) == s,
        s.pending_scope matches Some(p) && scope != Some(p) ==> s.take_mismatch(scope).0
            == PacerView::<C>::initial(s.interval),
        s.pending_scope matches Some(p) && scope != Some(p) ==> s.scope_checked(scope)
            == PacerView::<C>::initial(s.interval),
        s.pending_scope matches Some(p) && scope != Some(p) ==> s.take_mismatch(scope).1 == ({
            let j = match s.pending_frame {
                Some(f) => s.pending_graphics + f.graphics,
                None => s.pending_graphics,
            };
            if j.len() > 0 {
                Some(j)
            } else {
                None
            }
        }),
{
}

/// A submit that presents starts a new interval at `now`.
pub proof fn lemma_presenting_submit_starts_new_interval<C>(
    s: PacerView<C>,
    frame: FrameView<C>,
    now: u64,
    scope: Option<u64>,
)
    requires
        s.wf(),
        s.submit(frame, now, scope).1 is Some,
        now + s.interval <= u64::MAX,
    ensures
        s.submit(frame, now, scope).0.last_present_at == Some(now),
        s.submit(frame, now, scope).0.next_present_at == Some((now + s.interval) as u64),
        s.submit(frame, now, scope).0.pending_frame is None,
        s.submit(frame, now, scope).0.pending_graphics.len() == 0,
{
}

/// A submit before the deadline holds the frame back: it becomes the pending frame, its
/// graphics join the end of the waiting graphics, and the epoch is unchanged. The pending
/// scope becomes `scope` when the frame brings graphics and no scope was recorded.
pub proof fn lemma_early_submit_is_held_back<C>(
    s: PacerView<C>,
    frame: FrameView<C>,
    now: u64,
    scope: Option<u64>,
    deadline: u64,
)
    requires
        s.wf(),
        s.pending_scope is None || s.pending_scope == scope,
        s.next_present_at == Some(deadline),
        now < deadline,
    ensures
        s.submit(frame, now, scope).1 is None,
        s.submit(frame, now, scope).0.pending_frame matches Some(f) && f.cells == frame.cells,
        s.submit(frame, now, scope).0.pending_graphics + s.submit(frame, now, scope).0.pending_frame->0.graphics
            == (match s.pending_frame {
            Some(f) => s.pending_graphics + f.graphics,
            None => s.pending_graphics,
        }) + frame.graphics,
        s.submit(frame, now, scope).0.last_present_at == s.last_present_at,
        s.submit(frame, now, scope).0.next_present_at == s.next_present_at,
        s.submit(frame, now, scope).0.interval == s.interval,
        s.submit(frame, now, scope).0.pending_scope == if s.pending_scope is None
            && frame.graphics.len() > 0 {
            scope
        } else {
            s.pending_scope
        },
{
    let r = s.submit(frame, now, scope).0;
    match s.pending_frame {
        Some(f) => {
            assert(r.pending_graphics + r.pending_frame->0.graphics =~= s.pending_graphics
                + f.graphics + frame.graphics);
        },
        None => {},
    }
}

/// A submit at or after the deadline (or with no deadline) presents the frame at once,
/// with all waiting graphics in front of its own.
pub proof fn lemma_due_submit_presents_with_waiting_graphics<C>(
    s: PacerView<C>,
    frame: FrameView<C>,
    now: u64,
    scope: Option<u64>,
)
    requires
        s.wf(),
        s.pending_scope is None || s.pending_scope == scope,
        s.next_present_at matches Some(d) ==> now >= d,
    ensures
        s.submit(frame, now, scope).1 == Some(
            FrameView {
                cells: frame.cells,
                graphics: (match s.pending_frame {
                    Some(f) => s.pending_graphics + f.graphics,
                    None => s.pending_graphics,
                }) + frame.graphics,
            },
        ),
{
}

/// A poll before the deadline, or with no frame waiting, changes nothing and gives nothing.
pub proof fn lemma_early_poll_changes_nothing<C>(s: PacerView<C>, now: u64, scope: Option<u64>)
    requires
        s.wf(),
        s.pending_scope is None || s.pending_scope == scope,
        s.pending_frame is None || (s.next_present_at matches Some(d) && now < d),
    ensures
        s.present_due(now, scope) == (s, None::<FrameView<C>>),
{
}

/// The reported deadline is the next presentation instant while a frame waits, and
/// nothing otherwise.
pub proof fn lemma_deadline_is_next_presentation<C>(s: PacerView<C>)
    requires
        s.wf(),
    ensures
        s.pending_frame is None ==> s.deadline() is None,
        s.pending_frame is Some ==> s.deadline() == Some(
            (s.last_present_at->0 + s.interval) as u64,
        ),
{
}

/// A handoff flush hands out every waiting graphics byte, oldest first, empties the
/// journal and keeps the epoch and the pending frame's cells.
pub proof fn lemma_flush_hands_out_everything<C>(s: PacerView<C>)
    ensures
        ({
            let j = match s.pending_frame {
                Some(f) => s.pending_graphics + f.graphics,
                None => s.pending_graphics,
            };
            let r = s.take_graphics();
            &&& r.1 == if j.len() > 0 {
                Some(j)
            } else {
                None
            }
            &&& r.0.pending_graphics.len() == 0
            &&& (r.0.pending_frame matches Some(f) ==> f.graphics.len() == 0)
            &&& r.0.pending_frame is Some <==> s.pending_frame is Some
            &&& (s.pending_frame matches Some(f) ==> r.0.pending_frame->0.cells == f.cells)
            &&& r.0.last_present_at == s.last_present_at
            &&& r.0.next_present_at == s.next_present_at
            &&& r.0.interval == s.interval
            &&& r.0.pending_scope == if j.len() > 0 {
                None
            } else {
                s.pending_scope
            }
        }),
{
}

/// Ending the epoch forgets the presentation times and the pending frame but keeps every
/// waiting graphics byte, in order, and the scope.
pub proof fn lemma_clear_forgets_epoch_only<C>(s: PacerView<C>)
    ensures
        s.cleared().last_present_at is None,
        s.cleared().next_present_at is None,
        s.cleared().pending_frame is None,
        s.cleared().pending_graphics == (match s.pending_frame {
            Some(f) => s.pending_graphics + f.graphics,
            None => s.pending_graphics,
        }),
        s.cleared().pending_scope == s.pending_scope,
        s.cleared().interval == s.interval,
{
}

/// Changing the interval changes only the interval and the deadline, which becomes the
/// last presentation plus the new interval.
pub proof fn lemma_new_interval_moves_only_the_deadline<C>(s: PacerView<C>, interval: u64)
    requires
        s.wf(),
        s.last_present_at matches Some(l) ==> l + interval <= u64::MAX,
    ensures
        s.with_interval(interval).interval == interval,
        s.with_interval(interval).last_present_at == s.last_present_at,
        s.with_interval(interval).next_present_at == match s.last_present_at {
            Some(l) => Some((l + interval) as u64),
            None => None,
        },
        s.with_interval(interval).pending_frame == s.pending_frame,
        s.with_interval(interval).pending_graphics == s.pending_graphics,
        s.with_interval(interval).pending_scope == s.pending_scope,
{
}

/// Queueing in the pending scope accepts non-empty graphics when forced, or when a frame or
/// graphics wait; accepted graphics join the end of the journal and the epoch is kept.
/// Refused graphics leave the pacer as it was.
pub proof fn lemma_queue_appends_or_changes_nothing<C>(
    s: PacerView<C>,
    graphics: Seq<u8>,
    scope: Option<u64>,
    force: bool,
)
    requires
        s.pending_scope is None || s.pending_scope == scope,
    ensures
        s.queue(graphics, scope, force).1 == (graphics.len() > 0 && (force || s.pending_frame is Some
            || s.pending_graphics.len() > 0)),
        !s.queue(graphics, scope, force).1 ==> s.queue(graphics, scope, force).0 == s,
        s.queue(graphics, scope, force).1 ==> ({
            let r = s.queue(graphics, scope, force).0;
            &&& r.pending_graphics == (match s.pending_frame {
                Some(f) => s.pending_graphics + f.graphics,
                None => s.pending_graphics,
            }) + graphics
            &&& (r.pending_frame matches Some(f) ==> f.graphics.len() == 0)
            &&& r.pending_frame is Some <==> s.pending_frame is Some
            &&& r.last_present_at == s.last_present_at
            &&& r.next_present_at == s.next_present_at
            &&& r.pending_scope == if s.pending_scope is None {
                scope
            } else {
                s.pending_scope
            }
        }),
{
}

} // verus!
