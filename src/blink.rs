//! The decisions of a blink loop: which pin action comes next, given whether
//! the loop has been asked to keep going. The loop that performs the actions,
//! sleeps and reads the cancellation flag lives outside this module.
use vstd::prelude::*;

verus! {

/// Where a blink loop stands within one on/off cycle.
#[derive(Clone, Copy, Debug, PartialEq, Eq, Structural)]
pub enum BlinkPhase {
    /// At the top of a cycle, where the count and the flag are checked.
    Check,
    /// The device was just turned on; the on-time is to be waited.
    Lit,
    /// The on-time has passed; the device is to be turned off.
    Dim,
    /// The device was just turned off; the off-time is to be waited.
    Dark,
    /// The loop has ended.
    Done,
}

/// What the loop has to do next.
#[derive(Clone, Copy, Debug, PartialEq, Eq, Structural)]
pub enum BlinkAction {
    /// Turn the device on.
    TurnOn,
    /// Turn the device off.
    TurnOff,
    /// Sleep this many milliseconds.
    Sleep(u64),
    /// The loop was cancelled: turn the device off and end.
    Stop,
    /// End the loop without touching the device.
    Exit,
}

/// The state of one blink loop.
#[derive(Clone, Copy, Debug, PartialEq, Eq, Structural)]
pub struct BlinkTask {
    /// Milliseconds the device stays on in each cycle.
    pub on_ms: u64,
    /// Milliseconds the device stays off in each cycle.
    pub off_ms: u64,
    /// Cycles still to start, or `None` to blink until cancelled.
    pub remaining: Option<u32>,
    pub phase: BlinkPhase,
}

/// The number of cycles that a requested count stands for: a count below
/// one starts none.
pub open spec fn cycles_for(n: Option<i32>) -> Option<u32> {
    match n {
        Some(end) => Some(if end < 0 { 0u32 } else { end as u32 }),
        None => None,
    }
}

/// A loop that has not started yet.
pub open spec fn initial(on_ms: u64, off_ms: u64, n: Option<i32>) -> BlinkTask {
    BlinkTask { on_ms, off_ms, remaining: cycles_for(n), phase: BlinkPhase::Check }
}

/// One step of the loop: the next state and the action to perform, given
/// whether the cancellation flag still asks the loop to run.
pub open spec fn step(t: BlinkTask, blinking: bool) -> (BlinkTask, BlinkAction) {
    match t.phase {
        BlinkPhase::Check => {
            if t.remaining == Some(0u32) {
                (BlinkTask { phase: BlinkPhase::Done, ..t }, BlinkAction::Exit)
            } else if !blinking {
                (BlinkTask { phase: BlinkPhase::Done, ..t }, BlinkAction::Stop)
            } else {
                let remaining = match t.remaining {
                    Some(k) => Some((k - 1) as u32),
                    None => None,
                };
                (BlinkTask { phase: BlinkPhase::Lit, remaining, ..t }, BlinkAction::TurnOn)
            }
        },
        BlinkPhase::Lit => (BlinkTask { phase: BlinkPhase::Dim, ..t }, BlinkAction::Sleep(t.on_ms)),
        BlinkPhase::Dim => (BlinkTask { phase: BlinkPhase::Dark, ..t }, BlinkAction::TurnOff),
        BlinkPhase::Dark => (
            BlinkTask { phase: BlinkPhase::Check, ..t },
            BlinkAction::Sleep(t.off_ms),
        ),
        BlinkPhase::Done => (t, BlinkAction::Exit),
    }
}

/// `k` steps of the loop with the flag held at `blinking`: the state reached
/// and the actions, in order.
pub open spec fn run(t: BlinkTask, blinking: bool, k: nat) -> (BlinkTask, Seq<BlinkAction>)
    decreases k,
{
    if k == 0 {
        (t, Seq::empty())
    } else {
        let (next, action) = step(t, blinking);
        let (last, rest) = run(next, blinking, (k - 1) as nat);
        (last, seq![action] + rest)
    }
}

/// The actions of `k` full on/off cycles.
pub open spec fn cycles(on_ms: u64, off_ms: u64, k: nat) -> Seq<BlinkAction>
    decreases k,
{
    if k == 0 {
        Seq::empty()
    } else {
        seq![
            BlinkAction::TurnOn,
            BlinkAction::Sleep(on_ms),
            BlinkAction::TurnOff,
            BlinkAction::Sleep(off_ms),
        ] + cycles(on_ms, off_ms, (k - 1) as nat)
    }
}

/// Milliseconds slept over a sequence of actions.
pub open spec fn slept(actions: Seq<BlinkAction>) -> int
    decreases actions.len(),
{
    if actions.len() == 0 {
        0
    } else {
        let rest = slept(actions.drop_first());
        match actions[0] {
            BlinkAction::Sleep(ms) => ms + rest,
            _ => rest,
        }
    }
}

impl BlinkTask {
    /// A loop that turns the device on for `on_ms` and off for `off_ms`
    /// milliseconds, `n` times, or until cancelled when `n` is `None`.
    pub fn new(on_ms: u64, off_ms: u64, n: Option<i32>) -> (r: BlinkTask)
        ensures
            r == initial(on_ms, off_ms, n),
    {
        let remaining = match n {
            Some(end) => Some(if end < 0 { 0u32 } else { end as u32 }),
            None => None,
        };
        BlinkTask { on_ms, off_ms, remaining, phase: BlinkPhase::Check }
    }

    /// Advances the loop by one step and says what to do, given whether the
    /// cancellation flag still asks it to run.
    pub fn next(&mut self, blinking: bool) -> (r: BlinkAction)
        ensures
            (*final(self), r) == step(*old(self), blinking),
    {
        match self.phase {
            BlinkPhase::Check => {
                let exhausted = match self.remaining {
                    Some(k) => k == 0,
                    None => false,
                };
                if exhausted {
                    self.phase = BlinkPhase::Done;
                    BlinkAction::Exit
                } else if !blinking {
                    self.phase = BlinkPhase::Done;
                    BlinkAction::Stop
                } else {
                    self.remaining = match self.remaining {
                        Some(k) => Some(k - 1),
                        None => None,
                    };
                    self.phase = BlinkPhase::Lit;
                    BlinkAction::TurnOn
                }
            },
            BlinkPhase::Lit => {
                self.phase = BlinkPhase::Dim;
                BlinkAction::Sleep(self.on_ms)
            },
            BlinkPhase::Dim => {
                self.phase = BlinkPhase::Dark;
                BlinkAction::TurnOff
            },
            BlinkPhase::Dark => {
                self.phase = BlinkPhase::Check;
                BlinkAction::Sleep(self.off_ms)
            },
            BlinkPhase::Done => BlinkAction::Exit,
        }
    }

    /// Whether the loop has ended.
    pub fn is_done(&self) -> (r: bool)
        ensures
            r == (self.phase == BlinkPhase::Done),
    {
        match self.phase {
            BlinkPhase::Done => true,
            _ => false,
        }
    }
}

/// A loop started at the top of a cycle with `k` cycles left, and never
/// cancelled, performs exactly those `k` cycles and then exits.
proof fn lemma_cycles_then_exit(t: BlinkTask, k: nat)
    requires
        t.phase == BlinkPhase::Check,
        t.remaining == Some(k as u32),
        k <= u32::MAX,
    ensures
        run(t, true, 4 * k + 1) == (
            BlinkTask { phase: BlinkPhase::Done, remaining: Some(0u32), ..t },
            cycles(t.on_ms, t.off_ms, k).push(BlinkAction::Exit),
        ),
    decreases k,
{
    reveal_with_fuel(run, 5);
    if k > 0 {
        let t4 = BlinkTask { remaining: Some((k - 1) as u32), ..t };
        lemma_cycles_then_exit(t4, (k - 1) as nat);
        assert(4 * k + 1 == 4 * ((k - 1) as nat) + 1 + 4);
        let head = seq![
            BlinkAction::TurnOn,
            BlinkAction::Sleep(t.on_ms),
            BlinkAction::TurnOff,
            BlinkAction::Sleep(t.off_ms),
        ];
        let tail = cycles(t.on_ms, t.off_ms, (k - 1) as nat).push(BlinkAction::Exit);
        assert(run(t, true, 4 * k + 1).1 =~= head + tail);
        assert(cycles(t.on_ms, t.off_ms, k).push(BlinkAction::Exit) =~= head + tail);
    }
}

/// A loop asked for `n` cycles, with `n` not negative and never cancelled,
/// turns the device on exactly `n` times, each time followed by the on-time,
/// a turn-off and the off-time, and then exits without touching the device.
pub proof fn lemma_bounded_blink(on_ms: u64, off_ms: u64, n: i32)
    requires
        n >= 0,
    ensures
        run(initial(on_ms, off_ms, Some(n)), true, 4 * (n as nat) + 1).1 == cycles(
            on_ms,
            off_ms,
            n as nat,
        ).push(BlinkAction::Exit),
        run(initial(on_ms, off_ms, Some(n)), true, 4 * (n as nat) + 1).0.phase == BlinkPhase::Done,
{
    lemma_cycles_then_exit(initial(on_ms, off_ms, Some(n)), n as nat);
}

/// Once the flag is cleared, wherever the loop stands, it never turns the
/// device on again, and within four steps it has ended, having slept no
/// more than one on-time and one off-time; the last of those steps stops or
/// exits.
pub proof fn lemma_stop_within_one_cycle(t: BlinkTask)
    ensures
        run(t, false, 4).0.phase == BlinkPhase::Done,
        !run(t, false, 4).1.contains(BlinkAction::TurnOn),
        slept(run(t, false, 4).1) <= t.on_ms + t.off_ms,
        run(t, false, 4).1.last() == BlinkAction::Stop || run(t, false, 4).1.last()
            == BlinkAction::Exit,
{
    reveal_with_fuel(run, 5);
    reveal_with_fuel(slept, 5);
    let acts = run(t, false, 4).1;
    assert(acts.len() == 4);
    assert(acts.drop_first().drop_first().drop_first().drop_first().len() == 0);
    assert(forall|i: int| 0 <= i < 4 ==> acts[i] != BlinkAction::TurnOn);
}

/// A loop started without a count and never cancelled never stops on its own.
pub proof fn lemma_unbounded_blink(on_ms: u64, off_ms: u64, k: nat)
    ensures
        !run(initial(on_ms, off_ms, None), true, k).1.contains(BlinkAction::Exit),
        !run(initial(on_ms, off_ms, None), true, k).1.contains(BlinkAction::Stop),
{
    lemma_unbounded_from(initial(on_ms, off_ms, None), k);
}

proof fn lemma_unbounded_from(t: BlinkTask, k: nat)
    requires
        t.remaining is None,
        t.phase != BlinkPhase::Done,
    ensures
        run(t, true, k).1.len() == k,
        forall|i: int|
            0 <= i < k ==> run(t, true, k).1[i] != BlinkAction::Exit && run(t, true, k).1[i]
                != BlinkAction::Stop,
    decreases k,
{
    if k > 0 {
        let (next, action) = step(t, true);
        lemma_unbounded_from(next, (k - 1) as nat);
        let rest = run(next, true, (k - 1) as nat).1;
        assert(run(t, true, k).1 == seq![action] + rest);
        assert forall|i: int| 0 <= i < k implies run(t, true, k).1[i] != BlinkAction::Exit
            && run(t, true, k).1[i] != BlinkAction::Stop by {
            if i > 0 {
                assert(run(t, true, k).1[i] == rest[i - 1]);
            }
        }
    }
}

} // verus!
