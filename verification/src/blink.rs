use std::time::Duration;
use vstd::prelude::*;

verus! {

/// Which callback a scheduled timer runs once its delay has passed.
#[derive(Clone, Copy, Debug, PartialEq, Eq, Structural)]
pub enum BlinkTimerKind {
    /// Call `BlinkManager::resume_cursor_blinking` with the timer's epoch.
    Resume,
    /// Call `BlinkManager::blink_cursors` with the timer's epoch.
    Blink,
}

/// The abstract state of a blink manager: everything but the interval.
pub struct BlinkState {
    pub epoch: int,
    pub paused: bool,
    pub visible: bool,
    pub enabled: bool,
}

/// A timer as the model sees it: what it runs, and with which epoch.
pub struct TimerRequest {
    pub kind: BlinkTimerKind,
    pub epoch: int,
}

/// What one step asks of its host: repaint, and at most one new timer.
pub struct BlinkOutput {
    pub notify: bool,
    pub timer: Option<TimerRequest>,
}

pub open spec fn quiet() -> BlinkOutput {
    BlinkOutput { notify: false, timer: None }
}

pub open spec fn initial_state() -> BlinkState {
    BlinkState { epoch: 0, paused: false, visible: true, enabled: false }
}

pub open spec fn show_cursor_step(s: BlinkState) -> (BlinkState, BlinkOutput) {
    if !s.visible {
        (BlinkState { visible: true, ..s }, BlinkOutput { notify: true, timer: None })
    } else {
        (s, quiet())
    }
}

pub open spec fn blink_step(s: BlinkState, epoch: int, cursor_blink: bool) -> (BlinkState, BlinkOutput) {
    if cursor_blink {
        if epoch == s.epoch && s.enabled && !s.paused {
            let next = s.epoch + 1;
            (
                BlinkState { visible: !s.visible, epoch: next, ..s },
                BlinkOutput {
                    notify: true,
                    timer: Some(TimerRequest { kind: BlinkTimerKind::Blink, epoch: next }),
                },
            )
        } else {
            (s, quiet())
        }
    } else {
        show_cursor_step(s)
    }
}

pub open spec fn resume_step(s: BlinkState, epoch: int, cursor_blink: bool) -> (BlinkState, BlinkOutput) {
    if epoch == s.epoch {
        blink_step(BlinkState { paused: false, ..s }, epoch, cursor_blink)
    } else {
        (s, quiet())
    }
}

pub open spec fn pause_step(s: BlinkState) -> (BlinkState, BlinkOutput) {
    let shown = show_cursor_step(s);
    let next = shown.0.epoch + 1;
    (
        BlinkState { epoch: next, ..shown.0 },
        BlinkOutput {
            notify: shown.1.notify,
            timer: Some(TimerRequest { kind: BlinkTimerKind::Resume, epoch: next }),
        },
    )
}

pub open spec fn enable_step(s: BlinkState, cursor_blink: bool) -> (BlinkState, BlinkOutput) {
    if s.enabled {
        (s, quiet())
    } else {
        blink_step(BlinkState { enabled: true, visible: false, ..s }, s.epoch, cursor_blink)
    }
}

pub open spec fn disable_step(s: BlinkState) -> BlinkState {
    BlinkState { visible: false, enabled: false, ..s }
}

/// A timer that the host must start: after `delay`, run `kind` with `epoch`.
pub struct BlinkTimer {
    pub kind: BlinkTimerKind,
    pub epoch: usize,
    pub delay: Duration,
}

/// What a call on a `BlinkManager` asks its host to do.
pub struct BlinkEffects {
    /// Repaint the view that owns the manager.
    pub notify: bool,
    /// Start this timer.
    pub timer: Option<BlinkTimer>,
}

impl View for BlinkEffects {
    type V = BlinkOutput;

    open spec fn view(&self) -> BlinkOutput {
        BlinkOutput {
            notify: self.notify,
            timer: match self.timer {
                Some(t) => Some(TimerRequest { kind: t.kind, epoch: t.epoch as int }),
                None => None,
            },
        }
    }
}

impl BlinkEffects {
    fn none() -> (fx: Self)
        ensures
            fx@ == quiet(),
    {
        BlinkEffects { notify: false, timer: None }
    }
}

/// Decides when the text cursor is drawn and when it should blink.
pub struct BlinkManager {
    blink_interval: Duration,
    blink_epoch: usize,
    blinking_paused: bool,
    visible: bool,
    enabled: bool,
}

impl View for BlinkManager {
    type V = BlinkState;

    closed spec fn view(&self) -> BlinkState {
        BlinkState {
            epoch: self.blink_epoch as int,
            paused: self.blinking_paused,
            visible: self.visible,
            enabled: self.enabled,
        }
    }
}

/// The epoch of a manager is a `usize`: callers can meet the overflow bounds
/// of its methods from what they know of its view.
pub proof fn lemma_epoch_fits(m: &BlinkManager)
    ensures
        0 <= m@.epoch <= usize::MAX,
{
}

impl BlinkManager {
    /// The delay between two blinks, fixed when the manager is made.
    pub closed spec fn interval(&self) -> Duration {
        self.blink_interval
    }

    /// A timer in `fx` is delayed by this manager's interval.
    pub open spec fn timer_uses_interval(&self, fx: BlinkEffects) -> bool {
        fx.timer matches Some(t) ==> t.delay == self.interval()
    }

    pub fn new(blink_interval: Duration) -> (m: Self)
        ensures
            m@ == initial_state(),
            m.interval() == blink_interval,
    {
        BlinkManager {
            blink_interval,
            blink_epoch: 0,
            blinking_paused: false,
            visible: true,
            enabled: false,
        }
    }

    fn next_blink_epoch(&mut self) -> (epoch: usize)
        requires
            old(self)@.epoch < usize::MAX,
        ensures
            final(self)@ == (BlinkState { epoch: old(self)@.epoch + 1, ..old(self)@ }),
            epoch == final(self)@.epoch,
            final(self).interval() == old(self).interval(),
    {
        self.blink_epoch += 1;
        self.blink_epoch
    }

    pub fn pause_blinking(&mut self) -> (fx: BlinkEffects)
        requires
            pause_step(old(self)@).0.epoch <= usize::MAX,
        ensures
            (final(self)@, fx@) == pause_step(old(self)@),
            final(self).interval() == old(self).interval(),
            old(self).timer_uses_interval(fx),
    {
        let shown = self.show_cursor();
        let epoch = self.next_blink_epoch();
        let interval = self.blink_interval;
        BlinkEffects {
            notify: shown.notify,
            timer: Some(BlinkTimer { kind: BlinkTimerKind::Resume, epoch, delay: interval }),
        }
    }

    pub fn resume_cursor_blinking(&mut self, epoch: usize, cursor_blink: bool) -> (fx: BlinkEffects)
        requires
            resume_step(old(self)@, epoch as int, cursor_blink).0.epoch <= usize::MAX,
        ensures
            (final(self)@, fx@) == resume_step(old(self)@, epoch as int, cursor_blink),
            final(self).interval() == old(self).interval(),
            old(self).timer_uses_interval(fx),
    {
        if epoch == self.blink_epoch {
            self.blinking_paused = false;
            self.blink_cursors(epoch, cursor_blink)
        } else {
            BlinkEffects::none()
        }
    }

    pub fn blink_cursors(&mut self, epoch: usize, cursor_blink: bool) -> (fx: BlinkEffects)
        requires
            blink_step(old(self)@, epoch as int, cursor_blink).0.epoch <= usize::MAX,
        ensures
            (final(self)@, fx@) == blink_step(old(self)@, epoch as int, cursor_blink),
            final(self).interval() == old(self).interval(),
            old(self).timer_uses_interval(fx),
    {
        if cursor_blink {
            if epoch == self.blink_epoch && self.enabled && !self.blinking_paused {
                self.visible = !self.visible;
                let epoch = self.next_blink_epoch();
                let interval = self.blink_interval;
                BlinkEffects {
                    notify: true,
                    timer: Some(BlinkTimer { kind: BlinkTimerKind::Blink, epoch, delay: interval }),
                }
            } else {
                BlinkEffects::none()
            }
        } else {
            self.show_cursor()
        }
    }

    pub fn show_cursor(&mut self) -> (fx: BlinkEffects)
        ensures
            (final(self)@, fx@) == show_cursor_step(old(self)@),
            final(self).interval() == old(self).interval(),
            fx.timer is None,
    {
        if !self.visible {
            self.visible = true;
            BlinkEffects { notify: true, timer: None }
        } else {
            BlinkEffects::none()
        }
    }

    pub fn enable(&mut self, cursor_blink: bool) -> (fx: BlinkEffects)
        requires
            enable_step(old(self)@, cursor_blink).0.epoch <= usize::MAX,
        ensures
            (final(self)@, fx@) == enable_step(old(self)@, cursor_blink),
            final(self).interval() == old(self).interval(),
            old(self).timer_uses_interval(fx),
    {
        if self.enabled {
            return BlinkEffects::none();
        }
        self.enabled = true;
        self.visible = false;
        let epoch = self.blink_epoch;
        self.blink_cursors(epoch, cursor_blink)
    }

    pub fn disable(&mut self)
        ensures
            final(self)@ == disable_step(old(self)@),
            final(self).interval() == old(self).interval(),
    {
        self.visible = false;
        self.enabled = false;
    }

    pub fn visible(&self) -> (visible: bool)
        ensures
            visible == self@.visible,
    {
        self.visible
    }

    pub fn blink_epoch(&self) -> (epoch: usize)
        ensures
            epoch == self@.epoch,
    {
        self.blink_epoch
    }
}

/// A timer whose epoch is not the current one changes nothing when it fires:
/// resuming never does, and blinking does not while the setting is on.
pub proof fn law_stale_timer_is_ignored(s: BlinkState, epoch: int, cursor_blink: bool)
    requires
        epoch != s.epoch,
    ensures
        resume_step(s, epoch, cursor_blink) == (s, quiet()),
        cursor_blink ==> blink_step(s, epoch, cursor_blink) == (s, quiet()),
{
}

/// No step lowers the epoch, and a step that starts a timer starts it with
/// the new epoch, which is above every epoch handed out before.
pub proof fn law_timers_carry_a_fresh_epoch(s: BlinkState, epoch: int, cursor_blink: bool)
    ensures
        show_cursor_step(s).0.epoch == s.epoch,
        disable_step(s).epoch == s.epoch,
        blink_step(s, epoch, cursor_blink).0.epoch >= s.epoch,
        resume_step(s, epoch, cursor_blink).0.epoch >= s.epoch,
        enable_step(s, cursor_blink).0.epoch >= s.epoch,
        pause_step(s).0.epoch > s.epoch,
        blink_step(s, epoch, cursor_blink).1.timer matches Some(t)
            ==> t.epoch == blink_step(s, epoch, cursor_blink).0.epoch && t.epoch > s.epoch,
        resume_step(s, epoch, cursor_blink).1.timer matches Some(t)
            ==> t.epoch == resume_step(s, epoch, cursor_blink).0.epoch && t.epoch > s.epoch,
        enable_step(s, cursor_blink).1.timer matches Some(t)
            ==> t.epoch == enable_step(s, cursor_blink).0.epoch && t.epoch > s.epoch,
        pause_step(s).1.timer matches Some(t) ==> t.epoch == pause_step(s).0.epoch,
{
}

/// A live blink of an enabled, unpaused cursor flips its visibility, asks for
/// a repaint and schedules the next blink.
pub proof fn law_blink_toggles_visibility(s: BlinkState)
    requires
        s.enabled,
        !s.paused,
    ensures
        blink_step(s, s.epoch, true).0 == (BlinkState { visible: !s.visible, epoch: s.epoch + 1, ..s }),
        blink_step(s, s.epoch, true).1 == (BlinkOutput {
            notify: true,
            timer: Some(TimerRequest { kind: BlinkTimerKind::Blink, epoch: s.epoch + 1 }),
        }),
{
}

/// With the blink setting off, a blink shows the cursor and stops blinking.
pub proof fn law_setting_off_shows_cursor(s: BlinkState, epoch: int)
    ensures
        blink_step(s, epoch, false).0.visible,
        blink_step(s, epoch, false).1.timer is None,
        blink_step(s, epoch, false).0.epoch == s.epoch,
{
}

/// Pausing shows the cursor at once, and every timer started before the pause
/// is ignored afterwards; only the resume timer it starts is live.
pub proof fn law_pause_defers_blinking(s: BlinkState, earlier: int, cursor_blink: bool)
    requires
        earlier <= s.epoch,
    ensures
        pause_step(s).0.visible,
        pause_step(s).1.timer == Some(TimerRequest { kind: BlinkTimerKind::Resume, epoch: s.epoch + 1 }),
        resume_step(pause_step(s).0, earlier, cursor_blink) == (pause_step(s).0, quiet()),
        cursor_blink ==> blink_step(pause_step(s).0, earlier, cursor_blink) == (pause_step(s).0, quiet()),
{
}

/// Enabling an enabled manager does nothing.
pub proof fn law_enable_is_idempotent(s: BlinkState, cursor_blink: bool)
    requires
        s.enabled,
    ensures
        enable_step(s, cursor_blink) == (s, quiet()),
{
}

/// Enabling a disabled manager leaves the cursor visible for the next render.
pub proof fn law_enable_shows_cursor(s: BlinkState, cursor_blink: bool)
    requires
        !s.enabled,
        !s.paused,
    ensures
        enable_step(s, cursor_blink).0.visible,
        enable_step(s, cursor_blink).0.enabled,
{
}

/// A disabled manager hides the cursor, and no timer makes it blink again.
pub proof fn law_disabled_cursor_stays_hidden(s: BlinkState, epoch: int)
    ensures
        !disable_step(s).visible,
        !disable_step(s).enabled,
        blink_step(disable_step(s), epoch, true) == (disable_step(s), quiet()),
        resume_step(disable_step(s), epoch, true).0.visible == disable_step(s).visible,
        resume_step(disable_step(s), epoch, true).1 == quiet(),
{
}

/// Nothing ever pauses blinking: a manager starts unpaused and every step
/// keeps it so.
pub proof fn law_never_paused(s: BlinkState, epoch: int, cursor_blink: bool)
    requires
        !s.paused,
    ensures
        !initial_state().paused,
        !show_cursor_step(s).0.paused,
        !blink_step(s, epoch, cursor_blink).0.paused,
        !resume_step(s, epoch, cursor_blink).0.paused,
        !pause_step(s).0.paused,
        !enable_step(s, cursor_blink).0.paused,
        !disable_step(s).paused,
{
}


/// Resuming with the epoch a pause handed out restarts blinking: the cursor,
/// shown by the pause, is hidden again and the next blink is scheduled.
pub proof fn law_resume_after_pause(s: BlinkState)
    requires
        s.enabled,
    ensures
        ({
            let p = pause_step(s).0;
            &&& resume_step(p, p.epoch, true).0 == (BlinkState {
                paused: false,
                visible: false,
                epoch: p.epoch + 1,
                ..p
            })
            &&& resume_step(p, p.epoch, true).1 == (BlinkOutput {
                notify: true,
                timer: Some(TimerRequest { kind: BlinkTimerKind::Blink, epoch: p.epoch + 1 }),
            })
        }),
{
}

/// Two live blinks in a row bring the cursor back to how it was, two epochs
/// on, each with a repaint.
pub proof fn law_two_blinks_restore_visibility(s: BlinkState)
    requires
        s.enabled,
        !s.paused,
    ensures
        ({
            let first = blink_step(s, s.epoch, true);
            let second = blink_step(first.0, first.0.epoch, true);
            &&& second.0.visible == s.visible
            &&& second.0.epoch == s.epoch + 2
            &&& first.1.notify && second.1.notify
            &&& first.1.timer == Some(TimerRequest { kind: BlinkTimerKind::Blink, epoch: s.epoch + 1 })
            &&& second.1.timer == Some(TimerRequest { kind: BlinkTimerKind::Blink, epoch: s.epoch + 2 })
        }),
{
}

/// One call on a manager, or one timer firing, as the model sees it.
pub enum BlinkEvent {
    ShowCursor,
    BlinkTimer { epoch: int, cursor_blink: bool },
    ResumeTimer { epoch: int, cursor_blink: bool },
    Pause,
    Enable { cursor_blink: bool },
    Disable,
}

pub open spec fn apply_event(s: BlinkState, event: BlinkEvent) -> (BlinkState, BlinkOutput) {
    match event {
        BlinkEvent::ShowCursor => show_cursor_step(s),
        BlinkEvent::BlinkTimer { epoch, cursor_blink } => blink_step(s, epoch, cursor_blink),
        BlinkEvent::ResumeTimer { epoch, cursor_blink } => resume_step(s, epoch, cursor_blink),
        BlinkEvent::Pause => pause_step(s),
        BlinkEvent::Enable { cursor_blink } => enable_step(s, cursor_blink),
        BlinkEvent::Disable => (disable_step(s), quiet()),
    }
}

/// The state after a run of events.
pub open spec fn run_events(s: BlinkState, events: Seq<BlinkEvent>) -> BlinkState
    decreases events.len(),
{
    if events.len() == 0 {
        s
    } else {
        apply_event(run_events(s, events.drop_last()), events.last()).0
    }
}

/// The epochs of the timers started during a run of events, in order.
pub open spec fn issued_epochs(s: BlinkState, events: Seq<BlinkEvent>) -> Seq<int>
    decreases events.len(),
{
    if events.len() == 0 {
        Seq::empty()
    } else {
        let earlier = issued_epochs(s, events.drop_last());
        match apply_event(run_events(s, events.drop_last()), events.last()).1.timer {
            Some(t) => earlier.push(t.epoch),
            None => earlier,
        }
    }
}

/// One step raises the epoch by one exactly when it starts a timer, and that
/// timer carries the new epoch.
pub proof fn lemma_event_epoch(s: BlinkState, event: BlinkEvent)
    ensures
        apply_event(s, event).1.timer is None ==> apply_event(s, event).0.epoch == s.epoch,
        apply_event(s, event).1.timer matches Some(t) ==> t.epoch == s.epoch + 1
            && apply_event(s, event).0.epoch == s.epoch + 1,
{
}

/// Over any run of calls and timer callbacks, the timers get the epochs
/// following the starting one, one by one, and the epoch ends on the last of
/// them: it never goes down, each timer's epoch is above every earlier one,
/// and every timer but the latest carries an epoch below the current one, so
/// it is ignored when it fires.
pub proof fn law_epochs_fresh_over_runs(s: BlinkState, events: Seq<BlinkEvent>)
    ensures
        run_events(s, events).epoch == s.epoch + issued_epochs(s, events).len(),
        run_events(s, events).epoch >= s.epoch,
        forall|i: int| 0 <= i < issued_epochs(s, events).len()
            ==> #[trigger] issued_epochs(s, events)[i] == s.epoch + i + 1,
        forall|i: int, j: int| 0 <= i < j < issued_epochs(s, events).len()
            ==> issued_epochs(s, events)[i] < issued_epochs(s, events)[j],
        forall|i: int| 0 <= i < issued_epochs(s, events).len() - 1
            ==> #[trigger] issued_epochs(s, events)[i] < run_events(s, events).epoch,
    decreases events.len(),
{
    if events.len() > 0 {
        let prefix = events.drop_last();
        law_epochs_fresh_over_runs(s, prefix);
        lemma_event_epoch(run_events(s, prefix), events.last());
    }
}


/// With the blink setting off, timers never make the cursor blink: a resume
/// or blink that fires starts no timer and keeps the epoch, a live one shows
/// the cursor, and enabling starts no timer and shows the cursor.
pub proof fn law_setting_off_never_blinks(s: BlinkState, epoch: int)
    ensures
        resume_step(s, epoch, false).1.timer is None,
        resume_step(s, epoch, false).0.epoch == s.epoch,
        epoch == s.epoch ==> resume_step(s, epoch, false).0.visible,
        epoch == s.epoch ==> !resume_step(s, epoch, false).0.paused,
        epoch != s.epoch ==> resume_step(s, epoch, false).0.visible == s.visible,
        resume_step(s, epoch, false).1.notify ==> !s.visible,
        blink_step(s, epoch, false).1.timer is None,
        blink_step(s, epoch, false).0.visible,
        enable_step(s, false).1.timer is None,
        !s.enabled ==> enable_step(s, false).0.visible,
        enable_step(s, false).0.epoch == s.epoch,
{
}

} // verus!
