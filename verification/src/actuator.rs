//! The timed sequences that drive the door's motor.
//!
//! The motor hangs on two digital outputs: one selects the direction of spin,
//! the other gates its power. A limit switch on a digital input reports that
//! the door has reached its fully open stop; the closed end has no switch. A
//! sequence is a list of [`Step`]s for the program to perform in order. The
//! functions here build the two sequences and say what they do to the
//! outputs, whatever state these were in before.

use vstd::prelude::*;

verus! {

/// Pin of the limit switch input, pulled up.
pub const LIMIT_PIN: u8 = 24;

/// Pin of the output that selects the motor's direction.
pub const MOTOR_FLIP_FLOP_PIN: u8 = 5;

/// Pin of the output that gates the motor's power.
pub const MOTOR_ENABLE_PIN: u8 = 6;

/// Seconds for which the motor runs to close the door.
pub const DOOR_CLOSE_SECS: u64 = 5;

/// Milliseconds to wait after cutting the motor's power before its direction
/// may change, so that it is not switched while still coasting.
pub const MFF_SAFETY_MSECS: u64 = 250;

/// Seconds to wait for the limit switch while opening.
pub const OPEN_TIMEOUT_SECS: u64 = 6;

/// Milliseconds for which a limit switch edge must hold to count.
pub const LIMIT_DEBOUNCE_MSECS: u64 = 10;

/// Milliseconds for which the motor runs to close the door.
pub const DOOR_CLOSE_MSECS: u64 = DOOR_CLOSE_SECS * 1000;

/// Milliseconds to wait for the limit switch while opening.
pub const OPEN_TIMEOUT_MSECS: u64 = OPEN_TIMEOUT_SECS * 1000;

/// A direction of travel of the door.
#[derive(Clone, Copy, Debug, PartialEq, Eq, Structural)]
pub enum Direction {
    Opening,
    Closing,
}

impl Direction {
    /// The level of the direction output for this direction: high to close,
    /// low to open.
    pub open spec fn level(self) -> bool {
        self is Closing
    }

    /// The level to put on the direction output.
    pub fn output_level(&self) -> (high: bool)
        ensures
            high == self.level(),
    {
        match self {
            Direction::Closing => true,
            Direction::Opening => false,
        }
    }
}

/// One action of a sequence.
#[derive(Clone, Copy, Debug, PartialEq, Eq, Structural)]
pub enum Step {
    /// Put the enable output high (`true`, motor powered) or low.
    SetEnable(bool),
    /// Put the direction output at the level of the given direction.
    SetDirection(Direction),
    /// Arm the limit switch input for edges in both directions that hold for
    /// the given time.
    ArmLimitSwitch { debounce_ms: u64 },
    /// Do nothing for the given time.
    Wait { millis: u64 },
    /// Wait until the limit switch reports an edge, at most the given time.
    AwaitLimitSwitch { timeout_ms: u64 },
    /// Put both outputs low.
    Release,
}

/// The levels of the two outputs: `true` is high.
#[derive(Clone, Copy, Debug, PartialEq, Eq, Structural)]
pub struct Outputs {
    pub enable: bool,
    pub direction: bool,
}

impl Outputs {
    /// Both outputs low: the motor has no power.
    pub open spec fn released() -> Outputs {
        Outputs { enable: false, direction: false }
    }

    /// The outputs after one step.
    pub open spec fn after(self, step: Step) -> Outputs {
        match step {
            Step::SetEnable(on) => Outputs { enable: on, direction: self.direction },
            Step::SetDirection(towards) => Outputs {
                enable: self.enable,
                direction: towards.level(),
            },
            Step::Release => Outputs::released(),
            _ => self,
        }
    }

    /// Performs one step on simulated outputs.
    pub fn apply(&self, step: &Step) -> (next: Outputs)
        ensures
            next == self.after(*step),
    {
        match step {
            Step::SetEnable(on) => Outputs { enable: *on, direction: self.direction },
            Step::SetDirection(towards) => Outputs {
                enable: self.enable,
                direction: towards.output_level(),
            },
            Step::Release => Outputs { enable: false, direction: false },
            _ => *self,
        }
    }
}

/// The outputs after the first `n` steps of `steps`, begun at `start`.
pub open spec fn outputs_after(start: Outputs, steps: Seq<Step>, n: nat) -> Outputs
    recommends
        n <= steps.len(),
    decreases n,
{
    if n == 0 {
        start
    } else {
        outputs_after(start, steps, (n - 1) as nat).after(steps[n - 1])
    }
}

/// The time, in milliseconds, for which the motor is known to have been
/// without power when the first `n` steps of `steps` are done.
///
/// Only waiting counts, and only from the step that cut the power: nothing
/// is known of the time before the sequence, nor of how soon the limit
/// switch answers.
pub open spec fn rested_ms(start: Outputs, steps: Seq<Step>, n: nat) -> nat
    recommends
        n <= steps.len(),
    decreases n,
{
    if n == 0 {
        0
    } else {
        let before = (n - 1) as nat;
        match steps[n - 1] {
            Step::Wait { millis } => if outputs_after(start, steps, before).enable {
                0
            } else {
                rested_ms(start, steps, before) + millis as nat
            },
            Step::SetEnable(_) | Step::Release => 0,
            _ => rested_ms(start, steps, before),
        }
    }
}

/// The longest time, in milliseconds, that the first `n` steps of `steps`
/// can take: every wait in full, and every wait for the limit switch up to
/// its timeout.
pub open spec fn longest_duration_ms(steps: Seq<Step>, n: nat) -> nat
    recommends
        n <= steps.len(),
    decreases n,
{
    if n == 0 {
        0
    } else {
        let step_ms: nat = match steps[n - 1] {
            Step::Wait { millis } => millis as nat,
            Step::AwaitLimitSwitch { timeout_ms } => timeout_ms as nat,
            _ => 0,
        };
        longest_duration_ms(steps, (n - 1) as nat) + step_ms
    }
}

/// True when step `i` of `steps`, begun at `start`, is no change of
/// direction under power: if it sets the direction, it finds the motor
/// without power, and rested for the safety delay at least.
pub open spec fn rests_before(start: Outputs, steps: Seq<Step>, i: int) -> bool
    recommends
        0 <= i < steps.len(),
{
    steps[i] is SetDirection ==> {
        &&& !outputs_after(start, steps, i as nat).enable
        &&& rested_ms(start, steps, i as nat) >= MFF_SAFETY_MSECS
    }
}

/// True when every step of `steps` that sets the direction finds the motor
/// without power, and rested for the safety delay at least, whatever the
/// outputs were before the sequence.
pub open spec fn sets_direction_at_rest(steps: Seq<Step>) -> bool {
    forall|start: Outputs, i: int|
        0 <= i < steps.len() ==> #[trigger] rests_before(start, steps, i)
}

/// True when the motor has power only while the direction output is at the
/// level for `towards`: from the first step on, whatever the outputs were
/// before the sequence.
pub open spec fn powered_only_towards(steps: Seq<Step>, towards: Direction) -> bool {
    forall|start: Outputs, n: nat|
        1 <= n <= steps.len() && (#[trigger] outputs_after(start, steps, n)).enable
            ==> outputs_after(start, steps, n).direction == towards.level()
}

/// The sequence that closes the door.
///
/// Power is cut and the safety delay waited out before the direction is set
/// to closing. The motor then runs for the fixed closing time, since nothing
/// senses the closed end, and both outputs are put low.
pub open spec fn close_steps() -> Seq<Step> {
    seq![
        Step::SetEnable(false),
        Step::Wait { millis: MFF_SAFETY_MSECS },
        Step::SetDirection(Direction::Closing),
        Step::SetEnable(true),
        Step::Wait { millis: DOOR_CLOSE_MSECS },
        Step::Release,
    ]
}

/// The sequence that opens the door.
///
/// Power is cut, the limit switch armed and the safety delay waited out
/// before the direction is set to opening. The motor then runs until the
/// limit switch reports an edge or the timeout passes, and both outputs are
/// put low in either case.
pub open spec fn open_steps() -> Seq<Step> {
    seq![
        Step::SetEnable(false),
        Step::ArmLimitSwitch { debounce_ms: LIMIT_DEBOUNCE_MSECS },
        Step::Wait { millis: MFF_SAFETY_MSECS },
        Step::SetDirection(Direction::Opening),
        Step::SetEnable(true),
        Step::AwaitLimitSwitch { timeout_ms: OPEN_TIMEOUT_MSECS },
        Step::Release,
    ]
}

/// The sequence for travel in `towards`.
pub open spec fn steps_for(towards: Direction) -> Seq<Step> {
    match towards {
        Direction::Closing => close_steps(),
        Direction::Opening => open_steps(),
    }
}

/// Builds the sequence that closes the door.
pub fn close_sequence() -> (steps: Vec<Step>)
    ensures
        steps@ == close_steps(),
{
    vec![
        Step::SetEnable(false),
        Step::Wait { millis: MFF_SAFETY_MSECS },
        Step::SetDirection(Direction::Closing),
        Step::SetEnable(true),
        Step::Wait { millis: DOOR_CLOSE_MSECS },
        Step::Release,
    ]
}

/// Builds the sequence that opens the door.
pub fn open_sequence() -> (steps: Vec<Step>)
    ensures
        steps@ == open_steps(),
{
    vec![
        Step::SetEnable(false),
        Step::ArmLimitSwitch { debounce_ms: LIMIT_DEBOUNCE_MSECS },
        Step::Wait { millis: MFF_SAFETY_MSECS },
        Step::SetDirection(Direction::Opening),
        Step::SetEnable(true),
        Step::AwaitLimitSwitch { timeout_ms: OPEN_TIMEOUT_MSECS },
        Step::Release,
    ]
}

/// Builds the sequence for travel in `towards`.
pub fn sequence_for(towards: Direction) -> (steps: Vec<Step>)
    ensures
        steps@ == steps_for(towards),
{
    match towards {
        Direction::Closing => close_sequence(),
        Direction::Opening => open_sequence(),
    }
}

/// Performs a sequence on simulated outputs and returns their levels at its
/// end.
pub fn simulate(start: Outputs, steps: &Vec<Step>) -> (end: Outputs)
    ensures
        end == outputs_after(start, steps@, steps@.len()),
{
    let mut outputs = start;
    let mut done: usize = 0;
    while done < steps.len()
        invariant
            done <= steps@.len(),
            outputs == outputs_after(start, steps@, done as nat),
        decreases steps@.len() - done,
    {
        outputs = outputs.apply(&steps[done]);
        done = done + 1;
    }
    outputs
}

/// The closing sequence powers the motor in the closing direction and in no
/// other, and leaves both outputs low, whatever they were before. It sets
/// the direction only with the motor at rest, and takes the safety delay and
/// the closing time together.
pub proof fn lemma_close_sequence(start: Outputs)
    ensures
        outputs_after(start, close_steps(), 4) == (Outputs { enable: true, direction: true }),
        outputs_after(start, close_steps(), close_steps().len()) == Outputs::released(),
        powered_only_towards(close_steps(), Direction::Closing),
        sets_direction_at_rest(close_steps()),
        longest_duration_ms(close_steps(), close_steps().len()) == MFF_SAFETY_MSECS
            + DOOR_CLOSE_MSECS,
{
    reveal_with_fuel(outputs_after, 8);
    reveal_with_fuel(rested_ms, 8);
    reveal_with_fuel(longest_duration_ms, 8);
}

/// The opening sequence powers the motor in the opening direction and in no
/// other, and leaves both outputs low, whatever they were before and however
/// the wait for the limit switch ends. It sets the direction only with the
/// motor at rest, and takes at most the safety delay and the timeout
/// together.
pub proof fn lemma_open_sequence(start: Outputs)
    ensures
        outputs_after(start, open_steps(), 5) == (Outputs { enable: true, direction: false }),
        outputs_after(start, open_steps(), open_steps().len()) == Outputs::released(),
        powered_only_towards(open_steps(), Direction::Opening),
        sets_direction_at_rest(open_steps()),
        longest_duration_ms(open_steps(), open_steps().len()) == MFF_SAFETY_MSECS
            + OPEN_TIMEOUT_MSECS,
{
    reveal_with_fuel(outputs_after, 8);
    reveal_with_fuel(rested_ms, 8);
    reveal_with_fuel(longest_duration_ms, 8);
}

/// Whichever way the door is sent, its sequence powers the motor in that
/// direction only, sets the direction only with the motor at rest, and
/// leaves both outputs low.
pub proof fn lemma_every_sequence_is_safe(towards: Direction, start: Outputs)
    ensures
        outputs_after(start, steps_for(towards), steps_for(towards).len())
            == Outputs::released(),
        powered_only_towards(steps_for(towards), towards),
        sets_direction_at_rest(steps_for(towards)),
{
    lemma_close_sequence(start);
    lemma_open_sequence(start);
}

} // verus!
