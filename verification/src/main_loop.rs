//! The frame pacer: which action an input event asks for, and how long an
//! iteration of the render loop has to sleep to hold the target frame rate.

use vstd::prelude::*;

verus! {

/// Left Ctrl alone, as the windowing layer reports modifier bits.
pub const LCTRLMOD: u16 = 0x0040;

/// Right Ctrl alone.
pub const RCTRLMOD: u16 = 0x0080;

/// Left GUI (Cmd, Super) alone.
pub const LGUIMOD: u16 = 0x0400;

/// Right GUI (Cmd, Super) alone.
pub const RGUIMOD: u16 = 0x0800;

/// Milliseconds in a second; frame budgets are whole milliseconds.
pub const MILLIS_PER_SECOND: u32 = 1000;

/// The keys the loop reacts to; every other key is `Other`.
#[derive(Clone, Copy, Debug, PartialEq, Eq, Structural)]
pub enum Keycode {
    Escape,
    N,
    P,
    R,
    F,
    I,
    Left,
    Right,
    Other,
}

/// One input event, reduced to what the loop reads of it.
#[derive(Clone, Copy, Debug, PartialEq, Eq, Structural)]
pub enum InputEvent {
    /// The window was closed.
    Quit,
    /// A key went down.
    KeyDown { keycode: Keycode },
    /// A key came up, with the modifier bits held at that moment.
    KeyUp { keycode: Keycode, keymod: u16 },
    /// Anything else the windowing layer reports.
    Other,
}

/// What the loop does in answer to one event.
#[derive(Clone, Copy, Debug, PartialEq, Eq, Structural)]
pub enum Action {
    /// Leave the loop.
    Quit,
    NextPreset,
    PreviousPreset,
    RandomPreset,
    ToggleFullscreen,
    /// Move capture to the next audio input device.
    NextAudioDevice,
    /// The event asks for nothing.
    Nothing,
}

/// The modifier states that, with `I`, ask for the next capture device:
/// exactly one Ctrl or GUI key and no other modifier bit.
pub open spec fn is_switch_modifier(keymod: u16) -> bool {
    keymod == LCTRLMOD || keymod == RCTRLMOD || keymod == LGUIMOD || keymod == RGUIMOD
}

/// The action bound to a released key.
pub open spec fn key_up_action(keycode: Keycode, keymod: u16) -> Action {
    match keycode {
        Keycode::N | Keycode::Right => Action::NextPreset,
        Keycode::P | Keycode::Left => Action::PreviousPreset,
        Keycode::R => Action::RandomPreset,
        Keycode::F => Action::ToggleFullscreen,
        Keycode::I => if is_switch_modifier(keymod) {
            Action::NextAudioDevice
        } else {
            Action::Nothing
        },
        Keycode::Escape | Keycode::Other => Action::Nothing,
    }
}

/// The hotkey table: the action an event asks for.
pub open spec fn action_for(event: InputEvent) -> Action {
    match event {
        InputEvent::Quit => Action::Quit,
        InputEvent::KeyDown { keycode } => if keycode == Keycode::Escape {
            Action::Quit
        } else {
            Action::Nothing
        },
        InputEvent::KeyUp { keycode, keymod } => key_up_action(keycode, keymod),
        InputEvent::Other => Action::Nothing,
    }
}

/// Whole milliseconds one frame may take at `target_fps`; a rate of zero
/// stands for an unbounded rate and has no budget.
pub open spec fn frame_interval_ms(target_fps: u32) -> int {
    if target_fps == 0 {
        0
    } else {
        1000int / (target_fps as int)
    }
}

/// Ticks between the start of a frame and `now`; a clock that ran backwards
/// counts as no time passed.
pub open spec fn elapsed_ticks(frame_start_tick: u64, now: u64) -> int {
    if now >= frame_start_tick {
        now - frame_start_tick
    } else {
        0
    }
}

/// Milliseconds left to sleep after `elapsed` milliseconds of work: the rest
/// of the budget, never negative, and nothing is carried over from a frame
/// that overran.
pub open spec fn sleep_needed(target_fps: u32, elapsed: int) -> int {
    if elapsed < frame_interval_ms(target_fps) {
        frame_interval_ms(target_fps) - elapsed
    } else {
        0
    }
}

/// The loop ends on a closed window or on Escape going down, and on nothing
/// else.
pub proof fn lemma_only_quit_events_terminate(event: InputEvent)
    ensures
        action_for(event) == Action::Quit <==> (event == InputEvent::Quit || event == (
            InputEvent::KeyDown { keycode: Keycode::Escape }
        )),
{
}

/// The sleep is never negative and never longer than the frame budget. A
/// frame that took less than its budget sleeps the rest of it; one that
/// overran sleeps nothing, and no later frame makes up for it, since the
/// sleep depends on the frame's own time alone.
pub proof fn lemma_sleep_within_budget(target_fps: u32, elapsed: int)
    requires
        elapsed >= 0,
    ensures
        0 <= sleep_needed(target_fps, elapsed) <= frame_interval_ms(target_fps) <= 1000,
        elapsed < frame_interval_ms(target_fps) ==> elapsed + sleep_needed(target_fps, elapsed)
            == frame_interval_ms(target_fps),
        elapsed >= frame_interval_ms(target_fps) ==> sleep_needed(target_fps, elapsed) == 0,
        target_fps == 0 ==> sleep_needed(target_fps, elapsed) == 0,
{
    if target_fps > 0 {
        let fps = target_fps as int;
        assert(0 <= 1000int / fps <= 1000) by (nonlinear_arith)
            requires
                fps > 0,
        ;
    }
}

/// The time account of one iteration.
#[derive(Clone, Copy, Debug, PartialEq, Eq, Structural)]
pub struct FrameBudget {
    /// Frames per second to hold; zero means unbounded.
    pub target_fps: u32,
    /// Tick at which the iteration began.
    pub frame_start_tick: u64,
    /// Ticks the iteration took up to its last measurement.
    pub elapsed_tick: u64,
}

impl FrameBudget {
    /// Opens the account of an iteration that starts at `now`.
    pub fn start(target_fps: u32, now: u64) -> (budget: FrameBudget)
        ensures
            budget.target_fps == target_fps,
            budget.frame_start_tick == now,
            budget.elapsed_tick == 0,
    {
        FrameBudget { target_fps, frame_start_tick: now, elapsed_tick: 0 }
    }

    /// Records how long the iteration has taken at `now`.
    pub fn measure(&mut self, now: u64)
        ensures
            final(self).target_fps == old(self).target_fps,
            final(self).frame_start_tick == old(self).frame_start_tick,
            final(self).elapsed_tick == elapsed_ticks(old(self).frame_start_tick, now),
    {
        self.elapsed_tick = if now >= self.frame_start_tick {
            now - self.frame_start_tick
        } else {
            0
        };
    }

    /// Milliseconds to sleep before the next iteration.
    pub fn delay_needed(&self) -> (delay: u32)
        ensures
            delay == sleep_needed(self.target_fps, self.elapsed_tick as int),
            delay <= MILLIS_PER_SECOND,
    {
        if self.target_fps == 0 {
            return 0;
        }
        let interval: u32 = MILLIS_PER_SECOND / self.target_fps;
        assert(interval <= 1000) by (nonlinear_arith)
            requires
                interval == 1000int / (self.target_fps as int),
                self.target_fps > 0,
        ;
        if self.elapsed_tick < interval as u64 {
            interval - self.elapsed_tick as u32
        } else {
            0
        }
    }
}

/// The render loop's pacing state: the target rate, whether a quit was seen,
/// and the account of the iteration under way.
#[derive(Clone, Copy, Debug, PartialEq, Eq, Structural)]
pub struct FramePacer {
    running: bool,
    budget: FrameBudget,
}

impl FramePacer {
    /// Whether no quit has been seen yet.
    pub closed spec fn running(&self) -> bool {
        self.running
    }

    /// The account of the iteration under way.
    pub closed spec fn budget(&self) -> FrameBudget {
        self.budget
    }

    /// A pacer for `target_fps` frames per second (zero: unbounded) that has
    /// not begun an iteration yet.
    pub fn new(target_fps: u32) -> (pacer: FramePacer)
        ensures
            pacer.running(),
            pacer.budget() == (FrameBudget { target_fps, frame_start_tick: 0, elapsed_tick: 0 }),
    {
        FramePacer { running: true, budget: FrameBudget::start(target_fps, 0) }
    }

    /// Whether the loop goes on.
    pub fn is_running(&self) -> (running: bool)
        ensures
            running == self.running(),
    {
        self.running
    }

    /// The frame rate the pacer holds.
    pub fn target_fps(&self) -> (fps: u32)
        ensures
            fps == self.budget().target_fps,
    {
        self.budget.target_fps
    }

    /// Starts an iteration at tick `now`.
    pub fn begin_frame(&mut self, now: u64)
        ensures
            final(self).running() == old(self).running(),
            final(self).budget() == (FrameBudget {
                target_fps: old(self).budget().target_fps,
                frame_start_tick: now,
                elapsed_tick: 0,
            }),
    {
        self.budget = FrameBudget::start(self.budget.target_fps, now);
    }

    /// Answers one polled event with its action. A quit stops the pacer, and
    /// a stopped pacer answers every later event with `Quit`.
    pub fn handle_event(&mut self, event: InputEvent) -> (action: Action)
        ensures
            action == if old(self).running() {
                action_for(event)
            } else {
                Action::Quit
            },
            final(self).running() == (action != Action::Quit),
            final(self).budget() == old(self).budget(),
    {
        if !self.running {
            return Action::Quit;
        }
        let action = dispatch(event);
        if action == Action::Quit {
            self.running = false;
        }
        action
    }

    /// Ends the iteration at tick `now` and says how many milliseconds to
    /// sleep before the next one.
    pub fn end_frame(&mut self, now: u64) -> (delay: u32)
        ensures
            final(self).running() == old(self).running(),
            final(self).budget() == (FrameBudget {
                elapsed_tick: elapsed_ticks(old(self).budget().frame_start_tick, now) as u64,
                ..old(self).budget()
            }),
            delay == sleep_needed(
                old(self).budget().target_fps,
                elapsed_ticks(old(self).budget().frame_start_tick, now),
            ),
    {
        self.budget.measure(now);
        self.budget.delay_needed()
    }
}

/// The action an event asks for, by the hotkey table.
pub fn dispatch(event: InputEvent) -> (action: Action)
    ensures
        action == action_for(event),
{
    match event {
        InputEvent::Quit => Action::Quit,
        InputEvent::KeyDown { keycode } => match keycode {
            Keycode::Escape => Action::Quit,
            _ => Action::Nothing,
        },
        InputEvent::KeyUp { keycode, keymod } => match keycode {
            Keycode::N | Keycode::Right => Action::NextPreset,
            Keycode::P | Keycode::Left => Action::PreviousPreset,
            Keycode::R => Action::RandomPreset,
            Keycode::F => Action::ToggleFullscreen,
            Keycode::I => {
                if keymod == LCTRLMOD || keymod == RCTRLMOD || keymod == LGUIMOD || keymod
                    == RGUIMOD {
                    Action::NextAudioDevice
                } else {
                    Action::Nothing
                }
            },
            _ => Action::Nothing,
        },
        InputEvent::Other => Action::Nothing,
    }
}

} // verus!
