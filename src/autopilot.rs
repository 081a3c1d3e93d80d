//! The strafe autopilot's state machine.
//!
//! Each tick the caller measures the player's kinematic state and hands the
//! outcome of each comparison to [`StrafeBot::step`] as a [`BotSense`]. A step
//! either moves the machine to another state (the caller then measures again
//! against that state and steps once more), or settles the tick: it returns
//! the keys to press and the kind of turn to make.

use vstd::prelude::*;

use crate::input::KeyState;

verus! {

/// The key state with exactly the four movement keys given.
pub open spec fn movement_keys(w: bool, a: bool, s: bool, d: bool) -> KeyState {
    KeyState { key_w: w, key_a: a, key_s: s, key_d: d, key_f: false, space: false }
}

fn make_keys(w: bool, a: bool, s: bool, d: bool) -> (r: KeyState)
    ensures
        r == movement_keys(w, a, s, d),
{
    KeyState { key_w: w, key_a: a, key_s: s, key_d: d, key_f: false, space: false }
}

/// The keys the autopilot holds while it strafes clockwise and counter-clockwise.
/// Where a pair is absent the player's own keys are used.
#[derive(Copy, Clone, Debug, PartialEq, Eq, Structural)]
pub struct StrafeConfig {
    pub keys_cw: Option<KeyState>,
    pub keys_ccw: Option<KeyState>,
}

impl StrafeConfig {
    /// The keys held while strafing in the given direction.
    pub open spec fn strafe_keys(self, clockwise: bool, player: KeyState) -> KeyState {
        let keys = if clockwise {
            self.keys_cw
        } else {
            self.keys_ccw
        };
        match keys {
            Some(k) => k,
            None => player,
        }
    }

    /// The keys held while strafing in the given direction.
    pub fn keys_for(&self, clockwise: bool, player: KeyState) -> (r: KeyState)
        ensures
            r == self.strafe_keys(clockwise, player),
    {
        let keys = if clockwise {
            self.keys_cw
        } else {
            self.keys_ccw
        };
        match keys {
            Some(k) => k,
            None => player,
        }
    }

    /// The player's own keys in both directions.
    pub fn player_keys() -> (r: StrafeConfig)
        ensures
            r.keys_cw is None,
            r.keys_ccw is None,
    {
        StrafeConfig { keys_cw: None, keys_ccw: None }
    }

    /// Forward and right clockwise, forward and left counter-clockwise.
    pub fn standard() -> (r: StrafeConfig)
        ensures
            r.keys_cw == Some(movement_keys(true, false, false, true)),
            r.keys_ccw == Some(movement_keys(true, true, false, false)),
    {
        StrafeConfig {
            keys_cw: Some(make_keys(true, false, false, true)),
            keys_ccw: Some(make_keys(true, true, false, false)),
        }
    }

    /// Back and left clockwise, back and right counter-clockwise.
    pub fn reverse() -> (r: StrafeConfig)
        ensures
            r.keys_cw == Some(movement_keys(false, true, true, false)),
            r.keys_ccw == Some(movement_keys(false, false, true, true)),
    {
        StrafeConfig {
            keys_cw: Some(make_keys(false, true, true, false)),
            keys_ccw: Some(make_keys(false, false, true, true)),
        }
    }

    /// Right alone clockwise, forward and left counter-clockwise.
    pub fn half_beat_left() -> (r: StrafeConfig)
        ensures
            r.keys_cw == Some(movement_keys(false, false, false, true)),
            r.keys_ccw == Some(movement_keys(true, true, false, false)),
    {
        StrafeConfig {
            keys_cw: Some(make_keys(false, false, false, true)),
            keys_ccw: Some(make_keys(true, true, false, false)),
        }
    }

    /// Forward and right clockwise, left alone counter-clockwise.
    pub fn half_beat_right() -> (r: StrafeConfig)
        ensures
            r.keys_cw == Some(movement_keys(true, false, false, true)),
            r.keys_ccw == Some(movement_keys(false, true, false, false)),
    {
        StrafeConfig {
            keys_cw: Some(make_keys(true, false, false, true)),
            keys_ccw: Some(make_keys(false, true, false, false)),
        }
    }

    /// Right alone clockwise, left alone counter-clockwise.
    pub fn high_speed() -> (r: StrafeConfig)
        ensures
            r.keys_cw == Some(movement_keys(false, false, false, true)),
            r.keys_ccw == Some(movement_keys(false, true, false, false)),
    {
        StrafeConfig {
            keys_cw: Some(make_keys(false, false, false, true)),
            keys_ccw: Some(make_keys(false, true, false, false)),
        }
    }

    /// Forward and left clockwise, back and left counter-clockwise.
    pub fn sideways_left() -> (r: StrafeConfig)
        ensures
            r.keys_cw == Some(movement_keys(true, true, false, false)),
            r.keys_ccw == Some(movement_keys(false, true, true, false)),
    {
        StrafeConfig {
            keys_cw: Some(make_keys(true, true, false, false)),
            keys_ccw: Some(make_keys(false, true, true, false)),
        }
    }

    /// Back and right clockwise, forward and right counter-clockwise.
    pub fn sideways_right() -> (r: StrafeConfig)
        ensures
            r.keys_cw == Some(movement_keys(false, false, true, true)),
            r.keys_ccw == Some(movement_keys(true, false, false, true)),
    {
        StrafeConfig {
            keys_cw: Some(make_keys(false, false, true, true)),
            keys_ccw: Some(make_keys(true, false, false, true)),
        }
    }
}

impl Default for StrafeConfig {
    /// The player's own keys in both directions.
    fn default() -> (r: StrafeConfig)
        ensures
            r.keys_cw is None,
            r.keys_ccw is None,
    {
        StrafeConfig::player_keys()
    }
}

/// Where a measured quantity lies against a band symmetric about zero.
#[derive(Copy, Clone, Debug, PartialEq, Eq, Structural)]
pub enum Zone {
    /// Below the band's lower edge.
    Below,
    /// Within the band.
    Inside,
    /// Above the band's upper edge.
    Above,
}

/// The autopilot's state.
#[derive(Copy, Clone, Debug, PartialEq, Eq, Structural)]
pub enum StrafeBotState {
    /// Moving to the staging position and waiting there to settle.
    Setup,
    /// The grounded circle-jump turn that builds the first speed.
    Takeoff,
    /// Strafe jumping: `jumped` is set on the ground once this cycle's jump
    /// is made, and cleared in the air; `clockwise` is the turn direction.
    Flight { jumped: bool, clockwise: bool },
}

/// What the caller measured, for one step of the autopilot.
#[derive(Copy, Clone, Debug, PartialEq, Eq, Structural)]
pub struct BotSense {
    /// Near the staging position and nearly at rest.
    pub at_lineup: bool,
    /// The settle timer, advanced by this tick, has passed the settle duration.
    pub settled: bool,
    /// The circle-jump turn has reached its target angle, or the speed has
    /// passed the hard cap.
    pub takeoff_done: bool,
    /// Fast enough for the circle-jump strafe key to go down.
    pub takeoff_speed: bool,
    /// Too slow to keep strafe jumping.
    pub lost_speed: bool,
    /// On the ground.
    pub grounded: bool,
    /// The lateral position against the turn-around boundary.
    pub lateral_position: Zone,
    /// The lateral velocity against the direction hysteresis band.
    pub lateral_velocity: Zone,
    /// The way to the staging position, along the look direction.
    pub lineup_forward: Zone,
    /// The way to the staging position, along the look direction's right.
    pub lineup_right: Zone,
    /// The keys the player holds.
    pub player_keys: KeyState,
}

/// The turn the autopilot asks for in a tick.
#[derive(Copy, Clone, Debug, PartialEq, Eq, Structural)]
pub enum BotTurn {
    /// No turn; the settle timer advances.
    Hold,
    /// Turn toward the lineup heading; the settle timer restarts.
    FaceLineup,
    /// Fast counter-clockwise strafe turning; the turn accumulates toward
    /// the takeoff angle.
    CircleJump,
    /// Steady strafe turning in the given direction.
    Strafe { clockwise: bool },
}

/// The outcome of one step.
#[derive(Copy, Clone, Debug, PartialEq, Eq, Structural)]
pub enum BotStep {
    /// The state changed: measure against the new state and step again.
    Changed,
    /// The tick is settled: press `keys` and make `turn`.
    Act { keys: KeyState, turn: BotTurn },
}

/// The keys that walk toward the staging position: each of the four
/// directions whose axis points clearly that way.
pub open spec fn lineup_keys(forward: Zone, right: Zone) -> KeyState {
    movement_keys(forward == Zone::Above, right == Zone::Below, forward == Zone::Below, right == Zone::Above)
}

/// The turn direction chosen at the start of a ground contact: turn back
/// toward the middle past the boundary, else follow the lateral velocity
/// outside the hysteresis band, else keep the current direction.
pub open spec fn pick_clockwise(position: Zone, velocity: Zone, current: bool) -> bool {
    match position {
        Zone::Below => true,
        Zone::Above => false,
        Zone::Inside => match velocity {
            Zone::Below => true,
            Zone::Above => false,
            Zone::Inside => current,
        },
    }
}

/// The keys held during the takeoff: forward, and left once fast enough.
pub open spec fn takeoff_keys(strafing: bool) -> KeyState {
    movement_keys(true, strafing, false, false)
}

/// The state after one step.
pub open spec fn next_state(state: StrafeBotState, sense: BotSense) -> StrafeBotState {
    match state {
        StrafeBotState::Setup => if sense.at_lineup && sense.settled {
            StrafeBotState::Takeoff
        } else {
            StrafeBotState::Setup
        },
        StrafeBotState::Takeoff => if sense.takeoff_done {
            StrafeBotState::Flight { jumped: false, clockwise: false }
        } else {
            StrafeBotState::Takeoff
        },
        StrafeBotState::Flight { jumped, clockwise } => if sense.lost_speed {
            StrafeBotState::Setup
        } else if sense.grounded {
            StrafeBotState::Flight {
                jumped: true,
                clockwise: if jumped {
                    clockwise
                } else {
                    pick_clockwise(sense.lateral_position, sense.lateral_velocity, clockwise)
                },
            }
        } else {
            StrafeBotState::Flight { jumped: false, clockwise }
        },
    }
}

/// The keys held while strafe jumping: jump while grounded, together with
/// the configured keys for the direction.
pub open spec fn flight_keys(config: StrafeConfig, clockwise: bool, sense: BotSense) -> KeyState {
    let k = config.strafe_keys(clockwise, sense.player_keys);
    KeyState { space: sense.grounded || k.space, ..k }
}

/// The outcome of one step.
pub open spec fn step_outcome(state: StrafeBotState, config: StrafeConfig, sense: BotSense) -> BotStep {
    match state {
        StrafeBotState::Setup => if sense.at_lineup && sense.settled {
            BotStep::Changed
        } else if sense.at_lineup {
            BotStep::Act { keys: movement_keys(false, false, false, false), turn: BotTurn::Hold }
        } else {
            BotStep::Act {
                keys: lineup_keys(sense.lineup_forward, sense.lineup_right),
                turn: BotTurn::FaceLineup,
            }
        },
        StrafeBotState::Takeoff => if sense.takeoff_done {
            BotStep::Changed
        } else {
            BotStep::Act { keys: takeoff_keys(sense.takeoff_speed), turn: BotTurn::CircleJump }
        },
        StrafeBotState::Flight { .. } => if sense.lost_speed {
            BotStep::Changed
        } else {
            let cw = next_state(state, sense)->clockwise;
            BotStep::Act { keys: flight_keys(config, cw, sense), turn: BotTurn::Strafe { clockwise: cw } }
        },
    }
}

/// The strafe autopilot: its state and its key configuration.
pub struct StrafeBot {
    state: StrafeBotState,
    pub config: StrafeConfig,
}

impl StrafeBot {
    /// The autopilot's state.
    pub closed spec fn phase(&self) -> StrafeBotState {
        self.state
    }

    /// The autopilot's key configuration.
    pub closed spec fn configuration(&self) -> StrafeConfig {
        self.config
    }

    /// A new autopilot, in `Setup`.
    pub fn new(config: StrafeConfig) -> (r: StrafeBot)
        ensures
            r.phase() == StrafeBotState::Setup,
            r.configuration() == config,
    {
        StrafeBot { state: StrafeBotState::Setup, config }
    }

    /// The autopilot's state.
    pub fn state(&self) -> (r: StrafeBotState)
        ensures
            r == self.phase(),
    {
        self.state
    }

    /// Whether the autopilot is in `Setup`.
    pub fn is_setting_up(&self) -> (r: bool)
        ensures
            r == (self.phase() is Setup),
    {
        if let StrafeBotState::Setup = self.state {
            true
        } else {
            false
        }
    }

    /// Whether the autopilot drives an input channel: where the user asked
    /// for it, and always while it is setting up.
    pub fn overrides(&self, requested: bool) -> (r: bool)
        ensures
            r == (requested || self.phase() is Setup),
    {
        requested || self.is_setting_up()
    }

    /// One step of the state machine on what the caller measured.
    pub fn step(&mut self, sense: &BotSense) -> (r: BotStep)
        ensures
            final(self).phase() == next_state(old(self).phase(), *sense),
            final(self).configuration() == old(self).configuration(),
            r == step_outcome(old(self).phase(), old(self).configuration(), *sense),
    {
        match self.state {
            StrafeBotState::Setup => {
                if sense.at_lineup {
                    if sense.settled {
                        self.state = StrafeBotState::Takeoff;
                        BotStep::Changed
                    } else {
                        BotStep::Act { keys: make_keys(false, false, false, false), turn: BotTurn::Hold }
                    }
                } else {
                    let keys = make_keys(
                        sense.lineup_forward == Zone::Above,
                        sense.lineup_right == Zone::Below,
                        sense.lineup_forward == Zone::Below,
                        sense.lineup_right == Zone::Above,
                    );
                    BotStep::Act { keys, turn: BotTurn::FaceLineup }
                }
            },
            StrafeBotState::Takeoff => {
                if sense.takeoff_done {
                    self.state = StrafeBotState::Flight { jumped: false, clockwise: false };
                    BotStep::Changed
                } else {
                    BotStep::Act {
                        keys: make_keys(true, sense.takeoff_speed, false, false),
                        turn: BotTurn::CircleJump,
                    }
                }
            },
            StrafeBotState::Flight { jumped, clockwise } => {
                if sense.lost_speed {
                    self.state = StrafeBotState::Setup;
                    return BotStep::Changed;
                }
                let mut jumped = jumped;
                let mut clockwise = clockwise;
                if sense.grounded {
                    if !jumped {
                        jumped = true;
                        clockwise = choose_clockwise(sense.lateral_position, sense.lateral_velocity, clockwise);
                    }
                } else {
                    jumped = false;
                }
                self.state = StrafeBotState::Flight { jumped, clockwise };
                let jump = KeyState {
                    key_w: false,
                    key_a: false,
                    key_s: false,
                    key_d: false,
                    key_f: false,
                    space: sense.grounded,
                };
                let keys = core::ops::BitOr::bitor(jump, self.config.keys_for(clockwise, sense.player_keys));
                BotStep::Act { keys, turn: BotTurn::Strafe { clockwise } }
            },
        }
    }
}

fn choose_clockwise(position: Zone, velocity: Zone, current: bool) -> (r: bool)
    ensures
        r == pick_clockwise(position, velocity, current),
{
    match position {
        Zone::Below => true,
        Zone::Above => false,
        Zone::Inside => match velocity {
            Zone::Below => true,
            Zone::Above => false,
            Zone::Inside => current,
        },
    }
}

/// The states visited by successive steps from `start`, one step for each
/// measurement in `senses`.
pub open spec fn run(start: StrafeBotState, senses: Seq<BotSense>) -> Seq<StrafeBotState>
    decreases senses.len(),
{
    if senses.len() == 0 {
        seq![start]
    } else {
        seq![start] + run(next_state(start, senses[0]), senses.drop_first())
    }
}

/// A step from `Setup` stays in `Setup` or enters `Takeoff`.
pub proof fn lemma_setup_steps_to_setup_or_takeoff(sense: BotSense)
    ensures
        next_state(StrafeBotState::Setup, sense) is Setup || next_state(
            StrafeBotState::Setup,
            sense,
        ) is Takeoff,
{
}

/// A step that enters `Flight` comes from `Takeoff`.
pub proof fn lemma_flight_entered_only_from_takeoff(state: StrafeBotState, sense: BotSense)
    requires
        !(state is Flight),
        next_state(state, sense) is Flight,
    ensures
        state is Takeoff,
{
}

/// A step that enters `Takeoff` comes from `Setup`.
pub proof fn lemma_takeoff_entered_only_from_setup(state: StrafeBotState, sense: BotSense)
    requires
        !(state is Takeoff),
        next_state(state, sense) is Takeoff,
    ensures
        state is Setup,
{
}

/// Losing speed in `Flight` returns to `Setup`, whatever else was measured,
/// and the step reports the change.
pub proof fn lemma_lost_speed_returns_to_setup(
    jumped: bool,
    clockwise: bool,
    config: StrafeConfig,
    sense: BotSense,
)
    requires
        sense.lost_speed,
    ensures
        next_state(StrafeBotState::Flight { jumped, clockwise }, sense) == StrafeBotState::Setup,
        step_outcome(StrafeBotState::Flight { jumped, clockwise }, config, sense) == BotStep::Changed,
{
}

/// In every run that starts in `Setup`, each state of `Flight` is preceded
/// by a state of `Takeoff`.
pub proof fn lemma_flight_only_after_takeoff(senses: Seq<BotSense>, i: int)
    requires
        0 <= i < run(StrafeBotState::Setup, senses).len(),
        run(StrafeBotState::Setup, senses)[i] is Flight,
    ensures
        exists|j: int| 0 < j < i && (#[trigger] run(StrafeBotState::Setup, senses)[j]) is Takeoff,
    decreases senses.len(),
{
    let trace = run(StrafeBotState::Setup, senses);
    if senses.len() == 0 {
        assert(trace == seq![StrafeBotState::Setup]);
    } else {
        let next = next_state(StrafeBotState::Setup, senses[0]);
        let rest = run(next, senses.drop_first());
        assert(trace == seq![StrafeBotState::Setup] + rest);
        assert(i > 0);
        assert(trace[i] == rest[i - 1]);
        if next is Takeoff {
            lemma_run_starts_at(next, senses.drop_first());
            assert(trace[1] == next);
        } else {
            assert(next == StrafeBotState::Setup);
            lemma_flight_only_after_takeoff(senses.drop_first(), i - 1);
            let j = choose|j: int| 0 < j < i - 1 && (#[trigger] rest[j]) is Takeoff;
            assert(trace[j + 1] == rest[j]);
        }
    }
}

proof fn lemma_run_starts_at(start: StrafeBotState, senses: Seq<BotSense>)
    ensures
        run(start, senses).len() == senses.len() + 1,
        run(start, senses)[0] == start,
    decreases senses.len(),
{
    if senses.len() > 0 {
        lemma_run_starts_at(next_state(start, senses[0]), senses.drop_first());
    }
}

} // verus!
