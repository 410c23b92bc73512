use vstd::prelude::*;
use crate::clock::{elapsed_between, FrameClock};

verus! {

/// The result of a user callback or of the whole run; the error says what failed.
pub type Gc2dResult<T> = Result<T, String>;

/// Where the framework is in its life.
#[derive(PartialEq, Eq, Structural, Clone, Copy, Debug)]
pub enum Phase {
    Uninitialized,
    Loading,
    Running,
    Terminating,
    Stopped,
}

/// The next thing the host must do. The host performs it and reports an
/// [`Outcome`] back to [`FrameLoop::advance`].
#[derive(PartialEq, Eq, Structural, Clone, Copy, Debug)]
pub enum Action {
    /// Open the window, canvas, audio device and font context.
    AcquireSubsystems,
    /// Run the user's `load` callback.
    RunLoad,
    /// Fulfil the resource requests made during the previous frame.
    DrainRequests,
    /// Clear the drawing surface to the background colour.
    BeginDraw,
    /// Refresh the input trackers from the raw device state.
    RefreshInput,
    /// Poll the native event stream for a request to quit.
    PollEvents,
    /// Call the user's pressed / released callbacks for this frame's edges.
    DispatchControls,
    /// Read the frame clock and run the user's `update` callback.
    Update,
    /// Run the user's `draw` callback.
    Draw,
    /// Present the surface.
    EndDraw,
    /// Sleep for what is left of the frame budget.
    Pace,
    /// Release the subsystems, in reverse order of acquisition.
    ReleaseSubsystems,
    /// Leave the run with its exit value.
    Exit,
}

/// What came of the last action.
pub enum Outcome {
    Done,
    QuitRequested,
    Failed(String),
}

/// The action that follows `a` within a running frame when it went well.
pub open spec fn next_in_frame(a: Action) -> Action {
    match a {
        Action::DrainRequests => Action::BeginDraw,
        Action::BeginDraw => Action::RefreshInput,
        Action::RefreshInput => Action::PollEvents,
        Action::PollEvents => Action::DispatchControls,
        Action::DispatchControls => Action::Update,
        Action::Update => Action::Draw,
        Action::Draw => Action::EndDraw,
        Action::EndDraw => Action::Pace,
        _ => Action::DrainRequests,
    }
}

/// Whether an action belongs to the running loop.
pub open spec fn in_frame(a: Action) -> bool {
    match a {
        Action::DrainRequests | Action::BeginDraw | Action::RefreshInput | Action::PollEvents
        | Action::DispatchControls | Action::Update | Action::Draw | Action::EndDraw
        | Action::Pace => true,
        _ => false,
    }
}

/// The phase and next action after `action`, taken in `phase`, came to `outcome`.
pub open spec fn transition(phase: Phase, action: Action, outcome: Outcome) -> (Phase, Action) {
    match phase {
        Phase::Uninitialized => match outcome {
            Outcome::Failed(_) => (Phase::Terminating, Action::ReleaseSubsystems),
            _ => (Phase::Loading, Action::RunLoad),
        },
        Phase::Loading => match outcome {
            Outcome::Failed(_) => (Phase::Terminating, Action::ReleaseSubsystems),
            _ => (Phase::Running, Action::DrainRequests),
        },
        Phase::Running => match outcome {
            Outcome::Failed(_) => (Phase::Terminating, Action::ReleaseSubsystems),
            Outcome::QuitRequested => if action == Action::PollEvents {
                (Phase::Terminating, Action::ReleaseSubsystems)
            } else {
                (Phase::Running, next_in_frame(action))
            },
            Outcome::Done => (Phase::Running, next_in_frame(action)),
        },
        Phase::Terminating => (Phase::Stopped, Action::Exit),
        Phase::Stopped => (Phase::Stopped, Action::Exit),
    }
}

/// Whether `next` is an action that can be due in `phase`.
pub open spec fn consistent(phase: Phase, next: Action) -> bool {
    match phase {
        Phase::Uninitialized => next == Action::AcquireSubsystems,
        Phase::Loading => next == Action::RunLoad,
        Phase::Running => in_frame(next),
        Phase::Terminating => next == Action::ReleaseSubsystems,
        Phase::Stopped => next == Action::Exit,
    }
}

/// The action `n` successful steps after `a` in a running loop.
pub open spec fn steps_from(a: Action, n: nat) -> Action
    decreases n,
{
    if n == 0 {
        a
    } else {
        next_in_frame(steps_from(a, (n - 1) as nat))
    }
}

/// The error the run ends with: the first failure reported, if any.
pub open spec fn error_after(error: Option<String>, phase: Phase, outcome: Outcome) -> Option<String> {
    match (error, outcome) {
        (None, Outcome::Failed(e)) => if phase == Phase::Terminating || phase == Phase::Stopped {
            None
        } else {
            Some(e)
        },
        _ => error,
    }
}

/// The frame nanoseconds for a frame rate, or 0 when the rate is unlimited.
pub open spec fn frame_budget(max_fps: u32) -> nat {
    if max_fps == 0 {
        0
    } else {
        (1_000_000_000int / (max_fps as int)) as nat
    }
}

/// The decisions of the main loop: which step comes next, when the run ends,
/// and with what exit value. The host performs the steps.
pub struct FrameLoop {
    phase: Phase,
    next: Action,
    error: Option<String>,
    max_fps: u32,
    clock: FrameClock,
}

impl FrameLoop {
    pub closed spec fn phase_spec(&self) -> Phase {
        self.phase
    }

    pub closed spec fn next_spec(&self) -> Action {
        self.next
    }

    pub closed spec fn error_spec(&self) -> Option<String> {
        self.error
    }

    pub closed spec fn max_fps_spec(&self) -> u32 {
        self.max_fps
    }

    pub closed spec fn last_tick_spec(&self) -> u64 {
        self.clock.last_tick
    }

    pub open spec fn wf(&self) -> bool {
        consistent(self.phase_spec(), self.next_spec())
    }

    /// A loop that has acquired nothing yet, paced at 60 frames per second.
    pub fn new() -> (r: FrameLoop)
        ensures
            r.wf(),
            r.phase_spec() == Phase::Uninitialized,
            r.next_spec() == Action::AcquireSubsystems,
            r.error_spec() == None::<String>,
            r.max_fps_spec() == 60,
            r.last_tick_spec() == 0,
    {
        FrameLoop {
            phase: Phase::Uninitialized,
            next: Action::AcquireSubsystems,
            error: None,
            max_fps: 60,
            clock: FrameClock::new(0),
        }
    }

    /// Sets the frame-rate cap; 0 means no pacing.
    pub fn set_max_fps(&mut self, fps: u32)
        ensures
            final(self).max_fps_spec() == fps,
            final(self).phase_spec() == old(self).phase_spec(),
            final(self).next_spec() == old(self).next_spec(),
            final(self).error_spec() == old(self).error_spec(),
            final(self).last_tick_spec() == old(self).last_tick_spec(),
    {
        self.max_fps = fps;
    }

    pub fn max_fps(&self) -> (r: u32)
        ensures
            r == self.max_fps_spec(),
    {
        self.max_fps
    }

    pub fn phase(&self) -> (r: Phase)
        ensures
            r == self.phase_spec(),
    {
        self.phase
    }

    /// The action the host must perform now.
    pub fn next_action(&self) -> (r: Action)
        ensures
            r == self.next_spec(),
    {
        self.next
    }

    /// Records how the current action went and returns the next one.
    pub fn advance(&mut self, outcome: Outcome) -> (r: Action)
        requires
            old(self).wf(),
        ensures
            final(self).wf(),
            (final(self).phase_spec(), final(self).next_spec()) == transition(
                old(self).phase_spec(),
                old(self).next_spec(),
                outcome,
            ),
            final(self).error_spec() == error_after(old(self).error_spec(), old(self).phase_spec(), outcome),
            r == final(self).next_spec(),
            final(self).max_fps_spec() == old(self).max_fps_spec(),
            final(self).last_tick_spec() == old(self).last_tick_spec(),
    {
        let failed = match &outcome {
            Outcome::Failed(_) => true,
            _ => false,
        };
        let quit = match &outcome {
            Outcome::QuitRequested => true,
            _ => false,
        };
        match self.phase {
            Phase::Uninitialized | Phase::Loading | Phase::Running => {
                if failed || (quit && self.next == Action::PollEvents && self.phase == Phase::Running) {
                    self.phase = Phase::Terminating;
                    self.next = Action::ReleaseSubsystems;
                } else if self.phase == Phase::Uninitialized {
                    self.phase = Phase::Loading;
                    self.next = Action::RunLoad;
                } else if self.phase == Phase::Loading {
                    self.phase = Phase::Running;
                    self.next = Action::DrainRequests;
                } else {
                    self.next = next_step(self.next);
                }
                if self.error.is_none() {
                    match outcome {
                        Outcome::Failed(e) => {
                            self.error = Some(e);
                        },
                        _ => {},
                    }
                }
            },
            Phase::Terminating | Phase::Stopped => {
                self.phase = Phase::Stopped;
                self.next = Action::Exit;
            },
        }
        self.next
    }

    /// The exit value of the run: success after a clean quit, else the first failure.
    pub fn exit_value(&self) -> (r: Gc2dResult<()>)
        ensures
            match self.error_spec() {
                None => r == Ok::<(), String>(()),
                Some(e) => r == Err::<(), String>(e),
            },
    {
        match &self.error {
            None => Ok(()),
            Some(e) => Err(e.clone()),
        }
    }

    /// Starts the frame clock, at the time the loop is entered.
    pub fn start_clock(&mut self, now: u64)
        ensures
            final(self).last_tick_spec() == now,
            final(self).phase_spec() == old(self).phase_spec(),
            final(self).next_spec() == old(self).next_spec(),
            final(self).error_spec() == old(self).error_spec(),
            final(self).max_fps_spec() == old(self).max_fps_spec(),
    {
        self.clock = FrameClock::new(now);
    }

    /// The time since the previous frame's update, in nanoseconds; the clock
    /// moves on to `now`, so the callbacks that follow count toward the next one.
    pub fn frame_dt(&mut self, now: u64) -> (dt: u64)
        ensures
            dt == elapsed_between(old(self).last_tick_spec(), now),
            final(self).last_tick_spec() == if now >= old(self).last_tick_spec() {
                now
            } else {
                old(self).last_tick_spec()
            },
            final(self).phase_spec() == old(self).phase_spec(),
            final(self).next_spec() == old(self).next_spec(),
            final(self).error_spec() == old(self).error_spec(),
            final(self).max_fps_spec() == old(self).max_fps_spec(),
    {
        self.clock.tick(now)
    }

    /// How long to sleep after a frame that took `frame_elapsed` nanoseconds:
    /// what is left of the frame budget, and nothing when pacing is off.
    pub fn pacing_delay(&self, frame_elapsed: u64) -> (r: u64)
        ensures
            r == if frame_elapsed >= frame_budget(self.max_fps_spec()) {
                0
            } else {
                frame_budget(self.max_fps_spec()) - frame_elapsed
            },
    {
        if self.max_fps == 0 {
            return 0;
        }
        let budget: u64 = 1_000_000_000u64 / (self.max_fps as u64);
        if frame_elapsed >= budget {
            0
        } else {
            budget - frame_elapsed
        }
    }
}

/// Deferred one-frame latency. Only `DrainRequests` changes the resource
/// caches, and requests are recorded during `Update` and `Draw`. From either
/// of those, the steps before the next drain are the rest of the same frame
/// (so a request is not visible to lookups in its own frame), and the next
/// `Update` always comes after that drain (so it is visible in the next frame).
pub proof fn lemma_deferred_one_frame(a: Action, n: nat)
    requires
        a == Action::Update || a == Action::Draw,
        1 <= n,
    ensures
        (forall|m: nat| 1 <= m < n ==> #[trigger] steps_from(a, m) != Action::DrainRequests) ==> (
        steps_from(a, n) == Action::DrainRequests || steps_from(a, n) == Action::Draw || steps_from(
            a,
            n,
        ) == Action::EndDraw || steps_from(a, n) == Action::Pace),
        steps_from(a, n) == Action::Update ==> exists|m: nat|
            1 <= m < n && #[trigger] steps_from(a, m) == Action::DrainRequests,
{
    reveal_with_fuel(steps_from, 5);
    let d: nat = if a == Action::Update {
        4
    } else {
        3
    };
    assert(steps_from(a, d) == Action::DrainRequests);
    if n <= d {
        assert(steps_from(a, n) != Action::Update);
    }
}

/// A failure ends the run. A failure reported in a live phase (for instance by
/// the user's `load`) leads to releasing the subsystems and then to the exit,
/// with no `Update` or `Draw` in between, and the run's error is the first failure.
pub proof fn lemma_failure_terminates(phase: Phase, action: Action, error: Option<String>, e: String, later: Outcome)
    requires
        consistent(phase, action),
        phase == Phase::Uninitialized || phase == Phase::Loading || phase == Phase::Running,
    ensures
        transition(phase, action, Outcome::Failed(e)) == (Phase::Terminating, Action::ReleaseSubsystems),
        transition(Phase::Terminating, Action::ReleaseSubsystems, later) == (Phase::Stopped, Action::Exit),
        transition(Phase::Stopped, Action::Exit, later) == (Phase::Stopped, Action::Exit),
        error_after(error, phase, Outcome::Failed(e)) == match error {
            None => Some(e),
            Some(first) => Some(first),
        },
        error_after(error_after(error, phase, Outcome::Failed(e)), Phase::Terminating, later)
            == error_after(error, phase, Outcome::Failed(e)),
        error_after(error_after(error, phase, Outcome::Failed(e)), Phase::Stopped, later)
            == error_after(error, phase, Outcome::Failed(e)),
{
}

fn next_step(a: Action) -> (r: Action)
    ensures
        r == next_in_frame(a),
{
    match a {
        Action::DrainRequests => Action::BeginDraw,
        Action::BeginDraw => Action::RefreshInput,
        Action::RefreshInput => Action::PollEvents,
        Action::PollEvents => Action::DispatchControls,
        Action::DispatchControls => Action::Update,
        Action::Update => Action::Draw,
        Action::Draw => Action::EndDraw,
        Action::EndDraw => Action::Pace,
        _ => Action::DrainRequests,
    }
}

} // verus!
