use vstd::prelude::*;

use crate::scramble::Scramble;

verus! {

/// How long inspection may last, in milliseconds.
pub const INSPECT_MILLIS: u64 = 15_000;

/// Below this many milliseconds of inspection left, the display warns.
pub const WARN_MILLIS: u64 = 3_000;

/// Where a session stands. Clock readings and durations are milliseconds of
/// a monotonic clock.
#[derive(Clone, Copy, Debug, PartialEq, Eq)]
pub enum State {
    /// Showing a scramble, waiting for the solver to begin.
    Idle(Scramble),
    /// Inspection began at this clock reading.
    Inspecting(u64),
    /// The solve began at this clock reading.
    Solving(u64),
    /// The solve took this long.
    Done(u64),
}

/// The time from `start` to `now`; zero where the clock reads earlier than `start`.
pub open spec fn elapsed(start: u64, now: u64) -> u64 {
    if now >= start {
        (now - start) as u64
    } else {
        0
    }
}

/// The state that the "begin" action leads to from `s` at clock reading `now`:
/// Idle starts inspection, inspection starts the solve, the solve ends with
/// its time, and Done goes back to Idle with the scramble `fresh`.
pub open spec fn begin_step(s: State, now: u64, fresh: Scramble) -> State {
    match s {
        State::Done(_) => State::Idle(fresh),
        _ => timing_step(s, now),
    }
}

/// The part of "begin" that reads only the clock: every state but Done,
/// which this leaves as it is.
pub open spec fn timing_step(s: State, now: u64) -> State {
    match s {
        State::Idle(_) => State::Inspecting(now),
        State::Inspecting(_) => State::Solving(now),
        State::Solving(start) => State::Done(elapsed(start, now)),
        State::Done(_) => s,
    }
}

/// The state after a time check at `now`: inspection ends once its time is up.
pub open spec fn tick_step(s: State, now: u64) -> State {
    match s {
        State::Inspecting(start) => if elapsed(start, now) >= INSPECT_MILLIS {
            State::Solving(now)
        } else {
            s
        },
        _ => s,
    }
}

fn since(start: u64, now: u64) -> (r: u64)
    ensures
        r == elapsed(start, now),
{
    if now >= start {
        now - start
    } else {
        0
    }
}

impl State {
    /// Whether the session is waiting with a scramble.
    pub fn is_idle(&self) -> (r: bool)
        ensures
            r == (*self is Idle),
    {
        match self {
            State::Idle(_) => true,
            _ => false,
        }
    }

    fn advance(&mut self, now: u64)
        ensures
            *final(self) == timing_step(*old(self), now),
    {
        match *self {
            State::Idle(_) => {
                *self = State::Inspecting(now);
            },
            State::Inspecting(_) => {
                *self = State::Solving(now);
            },
            State::Solving(start) => {
                *self = State::Done(since(start, now));
            },
            State::Done(_) => {},
        }
    }

    /// The "begin" action at clock reading `now`, with `fresh` as the
    /// scramble to show should the session go back to Idle.
    pub fn next_with(&mut self, now: u64, fresh: Scramble)
        ensures
            *final(self) == begin_step(*old(self), now, fresh),
    {
        if let State::Done(_) = *self {
            *self = State::Idle(fresh);
        } else {
            self.advance(now);
        }
    }

    /// The "begin" action at clock reading `now`; from Done it draws a new
    /// scramble to show.
    pub fn next(&mut self, now: u64)
        ensures
            !(*old(self) is Done) ==> *final(self) == timing_step(*old(self), now),
            *old(self) is Done ==> *final(self) is Idle,
    {
        if let State::Done(_) = *self {
            self.next_with(now, Scramble::random());
        } else {
            self.advance(now);
        }
    }

    /// Shows `fresh` in place of the current scramble while Idle; does
    /// nothing otherwise.
    pub fn reshuffle_with(&mut self, fresh: Scramble)
        ensures
            *old(self) is Idle ==> *final(self) == State::Idle(fresh),
            !(*old(self) is Idle) ==> *final(self) == *old(self),
    {
        if self.is_idle() {
            *self = State::Idle(fresh);
        }
    }

    /// Draws a new scramble to show while Idle; does nothing otherwise.
    pub fn reshuffle(&mut self)
        ensures
            *old(self) is Idle ==> *final(self) is Idle,
            !(*old(self) is Idle) ==> *final(self) == *old(self),
    {
        if self.is_idle() {
            self.reshuffle_with(Scramble::random());
        }
    }

    /// The time check at clock reading `now`: inspection turns into the solve,
    /// starting now, once `INSPECT_MILLIS` have passed since it began.
    pub fn tick(&mut self, now: u64)
        ensures
            *final(self) == tick_step(*old(self), now),
    {
        if let State::Inspecting(start) = *self {
            if since(start, now) >= INSPECT_MILLIS {
                *self = State::Solving(now);
            }
        }
    }
}

impl Default for State {
    fn default() -> (r: State)
        ensures
            r is Idle,
    {
        State::Idle(Scramble::random())
    }
}

/// How a state is shown; inspection with little time left has a tone of its own.
#[derive(Clone, Copy, Debug, PartialEq, Eq, Structural)]
pub enum Tone {
    Waiting,
    Inspecting,
    InspectingLate,
    Solving,
    Done,
}

/// What the display shows of a state: its tone, and the milliseconds to
/// show (inspection time left, solve time so far, or the final time), if any.
#[derive(Clone, Copy, Debug, PartialEq, Eq, Structural)]
pub struct Screen {
    pub tone: Tone,
    pub millis: Option<u64>,
}

/// Inspection time left at `now`, for an inspection that began at `start`.
pub open spec fn remaining(start: u64, now: u64) -> u64 {
    if elapsed(start, now) >= INSPECT_MILLIS {
        0
    } else {
        (INSPECT_MILLIS - elapsed(start, now)) as u64
    }
}

/// What the display shows of state `s` at clock reading `now`.
pub open spec fn screen_of(s: State, now: u64) -> Screen {
    match s {
        State::Idle(_) => Screen { tone: Tone::Waiting, millis: None },
        State::Inspecting(start) => Screen {
            tone: if remaining(start, now) < WARN_MILLIS {
                Tone::InspectingLate
            } else {
                Tone::Inspecting
            },
            millis: Some(remaining(start, now)),
        },
        State::Solving(start) => Screen { tone: Tone::Solving, millis: Some(elapsed(start, now)) },
        State::Done(d) => Screen { tone: Tone::Done, millis: Some(d) },
    }
}

/// The status line shown in each tone.
pub open spec fn label_text(t: Tone) -> Seq<char> {
    match t {
        Tone::Waiting => "Press space to start"@,
        Tone::Inspecting | Tone::InspectingLate => "Inspecting"@,
        Tone::Solving => "Solving"@,
        Tone::Done => "Done"@,
    }
}

impl Tone {
    /// The status line shown in this tone.
    pub fn label(&self) -> (r: &'static str)
        ensures
            r@ == label_text(*self),
    {
        match self {
            Tone::Waiting => "Press space to start",
            Tone::Inspecting | Tone::InspectingLate => "Inspecting",
            Tone::Solving => "Solving",
            Tone::Done => "Done",
        }
    }
}

impl State {
    /// What the display shows of this state at clock reading `now`.
    pub fn screen(&self, now: u64) -> (r: Screen)
        ensures
            r == screen_of(*self, now),
    {
        match *self {
            State::Idle(_) => Screen { tone: Tone::Waiting, millis: None },
            State::Inspecting(start) => {
                let left = INSPECT_MILLIS.saturating_sub(since(start, now));
                let tone = if left < WARN_MILLIS {
                    Tone::InspectingLate
                } else {
                    Tone::Inspecting
                };
                Screen { tone, millis: Some(left) }
            },
            State::Solving(start) => Screen { tone: Tone::Solving, millis: Some(since(start, now)) },
            State::Done(d) => Screen { tone: Tone::Done, millis: Some(d) },
        }
    }
}

/// A session together with the display preference.
#[derive(Clone, Copy, Debug)]
pub struct App {
    /// Whether the background carries the state's colour.
    pub color_bg: bool,
    pub state: State,
}

impl Default for App {
    fn default() -> (r: App)
        ensures
            !r.color_bg,
            r.state is Idle,
    {
        App { color_bg: false, state: State::default() }
    }
}

impl App {
    /// Acts on a key press at clock reading `now`: `q` asks to quit, `c`
    /// toggles the background colour, `r` reshuffles while Idle, and space is
    /// the "begin" action. Returns whether the session goes on.
    pub fn handle_key(&mut self, key: char, now: u64) -> (keep_running: bool)
        ensures
            keep_running == (key != 'q'),
            key == 'c' ==> final(self).state == old(self).state && final(self).color_bg
                == !old(self).color_bg,
            key == 'r' ==> final(self).color_bg == old(self).color_bg,
            key == 'r' && old(self).state is Idle ==> final(self).state is Idle,
            key == 'r' && !(old(self).state is Idle) ==> final(self).state == old(self).state,
            key == ' ' ==> final(self).color_bg == old(self).color_bg,
            key == ' ' && !(old(self).state is Done) ==> final(self).state == timing_step(
                old(self).state,
                now,
            ),
            key == ' ' && old(self).state is Done ==> final(self).state is Idle,
            key != 'c' && key != 'r' && key != ' ' ==> *final(self) == *old(self),
    {
        if key == 'q' {
            return false;
        }
        if key == 'c' {
            self.color_bg = !self.color_bg;
        } else if key == 'r' {
            self.state.reshuffle();
        } else if key == ' ' {
            self.state.next(now);
        }
        true
    }
}

/// The time check of each round of the session loop, at clock reading `now`.
pub fn update(app: &mut App, now: u64)
    ensures
        final(app).color_bg == old(app).color_bg,
        final(app).state == tick_step(old(app).state, now),
{
    app.state.tick(now);
}

/// A full round of the session: "begin" at `t0` starts inspection; a time
/// check at `t1`, once inspection's time is up, starts the solve at `t1`;
/// "begin" at `t2` ends it with the time since the solve began, not since
/// inspection began; "begin" once more goes back to Idle with the new scramble.
pub proof fn lemma_full_round(
    shown: Scramble,
    fresh: Scramble,
    t0: u64,
    t1: u64,
    t2: u64,
    t3: u64,
    s1: State,
    s2: State,
    s3: State,
    s4: State,
)
    requires
        t0 <= t1 <= t2,
        t1 - t0 >= INSPECT_MILLIS,
        s1 == begin_step(State::Idle(shown), t0, fresh),
        s2 == tick_step(s1, t1),
        s3 == begin_step(s2, t2, fresh),
        s4 == begin_step(s3, t3, fresh),
    ensures
        s1 == State::Inspecting(t0),
        s2 == State::Solving(t1),
        s3 == State::Done((t2 - t1) as u64),
        s4 == State::Idle(fresh),
{
}

} // verus!
