//! Semantic frame pacing for the client shell.
//!
//! Instants and durations are plain nanosecond counts: an instant is the number of
//! nanoseconds since an origin the caller fixes once, an interval is a length in
//! nanoseconds.
use vstd::prelude::*;

verus! {

/// A frame produced by the shell: its cell content, opaque to the pacer, and the
/// graphics side effects (terminal escape bytes) that must reach the host in order.
pub struct FrameData<C> {
    pub cells: C,
    pub graphics: Vec<u8>,
}

/// The mathematical value of a frame.
#[verifier::ext_equal]
pub struct FrameView<C> {
    pub cells: C,
    pub graphics: Seq<u8>,
}

impl<C> View for FrameData<C> {
    type V = FrameView<C>;

    open spec fn view(&self) -> FrameView<C> {
        FrameView { cells: self.cells, graphics: self.graphics@ }
    }
}

/// The view of an optional frame.
pub open spec fn frame_opt_view<C>(f: Option<FrameData<C>>) -> Option<FrameView<C>> {
    match f {
        Some(f) => Some(f@),
        None => None,
    }
}

/// The view of an optional byte vector.
pub open spec fn bytes_opt_view(v: Option<Vec<u8>>) -> Option<Seq<u8>> {
    match v {
        Some(v) => Some(v@),
        None => None,
    }
}

/// The state of a pacer.
#[verifier::ext_equal]
pub struct PacerView<C> {
    /// The minimum distance between two presentations.
    pub interval: u64,
    /// When the last frame was presented in the current epoch.
    pub last_present_at: Option<u64>,
    /// The earliest instant at which the next frame may be presented.
    pub next_present_at: Option<u64>,
    /// The latest frame held back by the deadline.
    pub pending_frame: Option<FrameView<C>>,
    /// Graphics side effects of frames that were coalesced away, or queued directly.
    pub pending_graphics: Seq<u8>,
    /// The scope the pending graphics belong to.
    pub pending_scope: Option<u64>,
}

impl<C> PacerView<C> {
    /// A pacer with nothing presented and nothing pending.
    pub open spec fn initial(interval: u64) -> Self {
        PacerView {
            interval,
            last_present_at: None,
            next_present_at: None,
            pending_frame: None,
            pending_graphics: Seq::empty(),
            pending_scope: None,
        }
    }

    /// All graphics side effects waiting for the host, oldest first.
    pub open spec fn journal(self) -> Seq<u8> {
        match self.pending_frame {
            Some(f) => self.pending_graphics + f.graphics,
            None => self.pending_graphics,
        }
    }

    /// The deadline is derived from the last presentation, and a frame only waits
    /// behind a deadline.
    pub open spec fn wf(self) -> bool {
        &&& match self.last_present_at {
            None => self.next_present_at is None,
            Some(l) => l + self.interval <= u64::MAX && self.next_present_at == Some(
                (l + self.interval) as u64,
            ),
        }
        &&& self.pending_frame is Some ==> self.last_present_at is Some
    }

    /// The pending frame's graphics moved behind the pending graphics; the journal is unchanged.
    pub open spec fn moved(self) -> Self {
        match self.pending_frame {
            Some(f) => PacerView {
                pending_graphics: self.pending_graphics + f.graphics,
                pending_frame: Some(FrameView { cells: f.cells, graphics: Seq::empty() }),
                ..self
            },
            None => self,
        }
    }

    /// Everything dropped: no epoch, no frame, no graphics, no scope.
    pub open spec fn discarded(self) -> Self {
        PacerView::initial(self.interval)
    }

    /// Whether `scope` differs from the scope of the pending graphics.
    pub open spec fn scope_mismatch(self, scope: Option<u64>) -> bool {
        match self.pending_scope {
            Some(p) => scope != Some(p),
            None => false,
        }
    }

    /// The state after dropping graphics of another scope.
    pub open spec fn scope_checked(self, scope: Option<u64>) -> Self {
        if self.scope_mismatch(scope) {
            self.discarded()
        } else {
            self
        }
    }

    /// The pending scope, set to `scope` where none is set yet.
    pub open spec fn remembered(self, scope: Option<u64>) -> Self {
        if self.pending_scope is None {
            PacerView { pending_scope: scope, ..self }
        } else {
            self
        }
    }

    /// Whether a frame submitted at `now` is presented at once.
    pub open spec fn due(self, now: u64) -> bool {
        match self.next_present_at {
            None => true,
            Some(deadline) => now >= deadline,
        }
    }

    /// The state after a presentation at `now` that delivered the whole journal. The
    /// pending scope is forgotten only when graphics were waiting in the journal.
    pub open spec fn presented_at(self, now: u64) -> Self {
        PacerView {
            interval: self.interval,
            last_present_at: Some(now),
            next_present_at: Some((now + self.interval) as u64),
            pending_frame: None,
            pending_graphics: Seq::empty(),
            pending_scope: if self.journal().len() > 0 {
                None
            } else {
                self.pending_scope
            },
        }
    }

    /// State and frame after putting the journal in front of `frame`'s graphics.
    pub open spec fn prepend(self, frame: FrameView<C>) -> (Self, FrameView<C>) {
        let m = self.moved();
        if m.pending_graphics.len() == 0 {
            (m, frame)
        } else {
            (
                PacerView { pending_graphics: Seq::empty(), pending_scope: None, ..m },
                FrameView { cells: frame.cells, graphics: m.pending_graphics + frame.graphics },
            )
        }
    }

    /// State and result of submitting `frame` at `now` in `scope`.
    pub open spec fn submit(self, frame: FrameView<C>, now: u64, scope: Option<u64>) -> (
        Self,
        Option<FrameView<C>>,
    ) {
        let s = self.scope_checked(scope);
        if s.due(now) {
            (
                s.presented_at(now),
                Some(FrameView { cells: frame.cells, graphics: s.journal() + frame.graphics }),
            )
        } else {
            let m = s.moved();
            (
                PacerView {
                    pending_frame: Some(frame),
                    pending_scope: if frame.graphics.len() > 0 && m.pending_scope is None {
                        scope
                    } else {
                        m.pending_scope
                    },
                    ..m
                },
                None,
            )
        }
    }

    /// When the pending frame is due, if one waits.
    pub open spec fn deadline(self) -> Option<u64> {
        if self.pending_frame is Some {
            self.next_present_at
        } else {
            None
        }
    }

    /// State and result of asking at `now`, in `scope`, for a frame whose deadline passed.
    pub open spec fn present_due(self, now: u64, scope: Option<u64>) -> (
        Self,
        Option<FrameView<C>>,
    ) {
        let s = self.scope_checked(scope);
        match s.deadline() {
            Some(d) => if now < d {
                (s, None)
            } else {
                (
                    PacerView { pending_frame: None, ..s }.presented_at(now),
                    Some(
                        FrameView {
                            cells: s.pending_frame->0.cells,
                            graphics: s.journal(),
                        },
                    ),
                )
            },
            None => (s, None),
        }
    }

    /// State and result of queueing direct `graphics` in `scope`.
    pub open spec fn queue(self, graphics: Seq<u8>, scope: Option<u64>, force: bool) -> (
        Self,
        bool,
    ) {
        if graphics.len() == 0 {
            (self, false)
        } else {
            let s = self.scope_checked(scope);
            if !force && s.pending_frame is None && s.pending_graphics.len() == 0 {
                (s, false)
            } else {
                let m = s.moved().remembered(scope);
                (PacerView { pending_graphics: m.pending_graphics + graphics, ..m }, true)
            }
        }
    }

    /// State and result of taking the journal out for a handoff flush.
    pub open spec fn take_graphics(self) -> (Self, Option<Seq<u8>>) {
        let m = self.moved();
        if m.pending_graphics.len() == 0 {
            (m, None)
        } else {
            (PacerView { pending_graphics: Seq::empty(), pending_scope: None, ..m }, Some(m.pending_graphics))
        }
    }

    /// State and result of taking out the graphics of a scope other than `scope`.
    pub open spec fn take_mismatch(self, scope: Option<u64>) -> (Self, Option<Seq<u8>>) {
        if !self.scope_mismatch(scope) {
            (self, None)
        } else {
            (self.discarded(), if self.journal().len() > 0 { Some(self.journal()) } else { None })
        }
    }

    /// The state after ending the presentation epoch; the journal stays.
    pub open spec fn cleared(self) -> Self {
        PacerView {
            last_present_at: None,
            next_present_at: None,
            pending_frame: None,
            ..self.moved()
        }
    }

    /// The state after changing the interval.
    pub open spec fn with_interval(self, interval: u64) -> Self {
        PacerView {
            interval,
            next_present_at: match self.last_present_at {
                Some(l) => Some((l + interval) as u64),
                None => self.next_present_at,
            },
            ..self
        }
    }
}

/// Coalesces shell frames while a presentation deadline is outstanding, retaining
/// graphics side effects in order for the eventual latest frame.
pub struct SemanticFramePacer<C> {
    interval: u64,
    last_present_at: Option<u64>,
    next_present_at: Option<u64>,
    pending_frame: Option<FrameData<C>>,
    pending_graphics: Vec<u8>,
    pending_scope: Option<u64>,
}

impl<C> View for SemanticFramePacer<C> {
    type V = PacerView<C>;

    closed spec fn view(&self) -> PacerView<C> {
        PacerView {
            interval: self.interval,
            last_present_at: self.last_present_at,
            next_present_at: self.next_present_at,
            pending_frame: frame_opt_view(self.pending_frame),
            pending_graphics: self.pending_graphics@,
            pending_scope: self.pending_scope,
        }
    }
}

impl<C> SemanticFramePacer<C> {
    /// A pacer that presents the first frame at once.
    pub fn new(interval: u64) -> (p: Self)
        ensures
            p@ == PacerView::<C>::initial(interval),
            p@.wf(),
    {
        SemanticFramePacer {
            interval,
            last_present_at: None,
            next_present_at: None,
            pending_frame: None,
            pending_graphics: Vec::new(),
            pending_scope: None,
        }
    }

    /// Update the cap without discarding the latest coalesced frame.
    pub fn update_interval(&mut self, interval: u64)
        requires
            old(self)@.wf(),
            old(self)@.last_present_at matches Some(l) ==> l + interval <= u64::MAX,
        ensures
            final(self)@ == old(self)@.with_interval(interval),
            final(self)@.wf(),
    {
        self.interval = interval;
        if let Some(last_present_at) = self.last_present_at {
            self.next_present_at = Some(last_present_at + interval);
        }
    }

    /// Submit a frame outside any graphics scope.
    pub fn submit(&mut self, frame: FrameData<C>, now: u64) -> (r: Option<FrameData<C>>)
        requires
            old(self)@.wf(),
            old(self)@.scope_checked(None).due(now) ==> now + old(self)@.interval <= u64::MAX,
        ensures
            (final(self)@, frame_opt_view(r)) == old(self)@.submit(frame@, now, None),
            final(self)@.wf(),
    {
        self.submit_scoped(frame, now, None)
    }

    /// Submit a frame while retaining graphics side effects from frames coalesced before its
    /// deadline. A scope change drops the old graphics journal before it can reach the host.
    pub fn submit_scoped(&mut self, frame: FrameData<C>, now: u64, scope: Option<u64>) -> (r:
        Option<FrameData<C>>)
        requires
            old(self)@.wf(),
            old(self)@.scope_checked(scope).due(now) ==> now + old(self)@.interval <= u64::MAX,
        ensures
            (final(self)@, frame_opt_view(r)) == old(self)@.submit(frame@, now, scope),
            final(self)@.wf(),
    {
        let mut frame = frame;
        self.discard_if_scope_changed(scope);
        let due = match self.next_present_at {
            None => true,
            Some(deadline) => now >= deadline,
        };
        if due {
            self.prepend_pending_graphics(&mut frame);
            self.last_present_at = Some(now);
            self.next_present_at = Some(now + self.interval);
            self.pending_frame = None;
            Some(frame)
        } else {
            self.move_pending_graphics();
            if frame.graphics.len() > 0 {
                self.remember_pending_scope(scope);
            }
            self.pending_frame = Some(frame);
            None
        }
    }

    /// When the held-back frame may be presented, if one is held back.
    pub fn presentation_deadline(&self) -> (r: Option<u64>)
        ensures
            r == self@.deadline(),
    {
        if self.pending_frame.is_some() {
            self.next_present_at
        } else {
            None
        }
    }

    /// Present the held-back frame outside any graphics scope once its deadline passed.
    pub fn present_due(&mut self, now: u64) -> (r: Option<FrameData<C>>)
        requires
            old(self)@.wf(),
            old(self)@.scope_checked(None).deadline() matches Some(d) && now >= d ==> now
                + old(self)@.interval <= u64::MAX,
        ensures
            (final(self)@, frame_opt_view(r)) == old(self)@.present_due(now, None),
            final(self)@.wf(),
    {
        self.present_due_scoped(now, None)
    }

    /// Present the held-back frame, with all pending graphics in front, once its deadline passed.
    pub fn present_due_scoped(&mut self, now: u64, scope: Option<u64>) -> (r: Option<FrameData<C>>)
        requires
            old(self)@.wf(),
            old(self)@.scope_checked(scope).deadline() matches Some(d) && now >= d ==> now
                + old(self)@.interval <= u64::MAX,
        ensures
            (final(self)@, frame_opt_view(r)) == old(self)@.present_due(now, scope),
            final(self)@.wf(),
    {
        self.discard_if_scope_changed(scope);
        let deadline = match self.presentation_deadline() {
            Some(deadline) => deadline,
            None => return None,
        };
        if now < deadline {
            return None;
        }
        let mut frame = match self.pending_frame.take() {
            Some(frame) => frame,
            None => return None,
        };
        self.prepend_pending_graphics(&mut frame);
        self.last_present_at = Some(now);
        self.next_present_at = Some(now + self.interval);
        Some(frame)
    }

    /// Queue direct graphics behind the pending paced frame, or while frozen when forced.
    pub fn queue_graphics(&mut self, graphics: &[u8], scope: Option<u64>, force: bool) -> (r: bool)
        requires
            old(self)@.wf(),
        ensures
            (final(self)@, r) == old(self)@.queue(graphics@, scope, force),
            final(self)@.wf(),
    {
        if graphics.len() == 0 {
            return false;
        }
        self.discard_if_scope_changed(scope);
        if !force && self.pending_frame.is_none() && self.pending_graphics.len() == 0 {
            return false;
        }
        self.move_pending_graphics();
        self.remember_pending_scope(scope);
        let ghost mid = self@;
        let mut i: usize = 0;
        while i < graphics.len()
            invariant
                i <= graphics@.len(),
                self@ == (PacerView {
                    pending_graphics: mid.pending_graphics + graphics@.subrange(0, i as int),
                    ..mid
                }),
            decreases graphics@.len() - i,
        {
            self.pending_graphics.push(graphics[i]);
            i = i + 1;
        }
        true
    }

    /// Take queued graphics for a handoff flush while preserving any pending frame cells.
    pub fn take_pending_graphics(&mut self) -> (r: Option<Vec<u8>>)
        requires
            old(self)@.wf(),
        ensures
            (final(self)@, bytes_opt_view(r)) == old(self)@.take_graphics(),
            final(self)@.wf(),
    {
        self.move_pending_graphics();
        if self.pending_graphics.len() == 0 {
            return None;
        }
        self.pending_scope = None;
        let mut graphics = Vec::new();
        std::mem::swap(&mut graphics, &mut self.pending_graphics);
        Some(graphics)
    }

    /// Extract old-scope graphics before dropping them, so they can be written before the new
    /// scope's frame and its cleanup commands.
    pub fn take_scope_mismatch_graphics(&mut self, scope: Option<u64>) -> (r: Option<Vec<u8>>)
        requires
            old(self)@.wf(),
        ensures
            (final(self)@, bytes_opt_view(r)) == old(self)@.take_mismatch(scope),
            final(self)@.wf(),
    {
        let mismatch = match self.pending_scope {
            Some(pending_scope) => match scope {
                Some(s) => s != pending_scope,
                None => true,
            },
            None => false,
        };
        if !mismatch {
            return None;
        }
        self.move_pending_graphics();
        let mut graphics = Vec::new();
        std::mem::swap(&mut graphics, &mut self.pending_graphics);
        self.discard();
        if graphics.len() > 0 {
            Some(graphics)
        } else {
            None
        }
    }

    /// End the current presentation epoch while retaining side effects for the next frame.
    pub fn clear(&mut self)
        requires
            old(self)@.wf(),
        ensures
            final(self)@ == old(self)@.cleared(),
            final(self)@.wf(),
    {
        self.move_pending_graphics();
        self.last_present_at = None;
        self.next_present_at = None;
        self.pending_frame = None;
    }

    /// Move the pending frame's graphics behind the pending graphics.
    pub fn move_pending_graphics(&mut self)
        ensures
            final(self)@ =~= old(self)@.moved(),
            final(self)@.journal() =~= old(self)@.journal(),
            old(self)@.wf() ==> final(self)@.wf(),
    {
        if let Some(mut pending) = self.pending_frame.take() {
            if pending.graphics.len() > 0 {
                let mut graphics = Vec::new();
                std::mem::swap(&mut graphics, &mut pending.graphics);
                if self.pending_graphics.len() == 0 {
                    self.pending_graphics = graphics;
                } else {
                    self.pending_graphics.append(&mut graphics);
                }
            }
            self.pending_frame = Some(pending);
        }
    }

    /// Drop the current frame and all graphics side effects when entering a different scope.
    pub fn discard(&mut self)
        ensures
            final(self)@ =~= old(self)@.discarded(),
            final(self)@.wf(),
    {
        self.last_present_at = None;
        self.next_present_at = None;
        self.pending_frame = None;
        self.pending_graphics.clear();
        self.pending_scope = None;
    }

    /// Drop everything pending when `scope` is not the scope of the pending graphics.
    pub fn discard_if_scope_changed(&mut self, scope: Option<u64>)
        ensures
            final(self)@ =~= old(self)@.scope_checked(scope),
            old(self)@.wf() ==> final(self)@.wf(),
    {
        let mismatch = match self.pending_scope {
            Some(pending_scope) => match scope {
                Some(s) => s != pending_scope,
                None => true,
            },
            None => false,
        };
        if mismatch {
            self.discard();
        }
    }

    /// Record `scope` as the scope of the pending graphics unless one is recorded.
    pub fn remember_pending_scope(&mut self, scope: Option<u64>)
        ensures
            final(self)@ == old(self)@.remembered(scope),
    {
        if self.pending_scope.is_none() {
            self.pending_scope = scope;
        }
    }

    /// Put all pending graphics in front of `frame`'s own graphics.
    pub fn prepend_pending_graphics(&mut self, frame: &mut FrameData<C>)
        ensures
            (final(self)@, final(frame)@) =~= old(self)@.prepend(old(frame)@),
            old(self)@.wf() ==> final(self)@.wf(),
    {
        self.move_pending_graphics();
        if self.pending_graphics.len() == 0 {
            return;
        }
        let mut graphics = Vec::new();
        std::mem::swap(&mut graphics, &mut self.pending_graphics);
        let mut own = Vec::new();
        std::mem::swap(&mut own, &mut frame.graphics);
        graphics.append(&mut own);
        frame.graphics = graphics;
        self.pending_scope = None;
    }
}

} // verus!
