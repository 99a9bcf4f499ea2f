use vstd::prelude::*;

use crate::animation::{next_index, TrajectoryAnimation};
use crate::constants::{RESOLVE_PAUSE_MS, TURN_PAUSE_MS};
use crate::types::PlayerId;

verus! {

/// The phase of the game, without the data each phase carries.
#[derive(Debug, Clone, Copy, PartialEq, Eq, Structural)]
pub enum PhaseKind {
    /// Player is adjusting angle/power/ammo.
    Aiming,
    /// Projectile is in flight (animated).
    Firing,
    /// Damage is being applied, terrain deformed.
    Resolving,
    /// Brief pause before next player's turn.
    TurnTransition,
    /// Game is over.
    GameOver,
}

/// The keys the game reads in one frame: `*_pressed` for a key pressed in this
/// frame, `*_down` for a key held down.
#[derive(Debug, Clone, Copy, PartialEq, Eq, Structural)]
pub struct Keys {
    pub q_pressed: bool,
    pub escape_pressed: bool,
    pub space_pressed: bool,
    pub enter_pressed: bool,
    pub tab_pressed: bool,
    pub left_down: bool,
    pub h_down: bool,
    pub right_down: bool,
    pub l_down: bool,
    pub up_down: bool,
    pub k_down: bool,
    pub down_down: bool,
    pub j_down: bool,
    pub a_down: bool,
    pub d_down: bool,
}

/// What one frame of input asks of the game, to be carried out in this order:
/// quit, angle, power, movement left then right, ammo switch, fire.
#[derive(Debug, Clone, Copy, PartialEq, Eq, Structural)]
pub struct Commands {
    pub quit: bool,
    pub raise_angle: bool,
    pub lower_angle: bool,
    pub raise_power: bool,
    pub lower_power: bool,
    pub move_left: bool,
    pub move_right: bool,
    pub switch_ammo: bool,
    pub fire: bool,
}

/// Whether the aiming controls answer: only while a human player aims, and not
/// in a frame where Escape quits the game.
pub open spec fn controls_active(phase: PhaseKind, current_is_ai: bool, keys: Keys) -> bool {
    phase == PhaseKind::Aiming && !current_is_ai && !keys.escape_pressed
}

/// What one frame of input asks of the game. Escape quits at any time; Q quits
/// once the game is over, as do Space and Enter; the aiming controls answer only
/// while a human player aims: arrows or h/l for the angle, arrows or k/j for the
/// power, a/d to move, Tab to switch ammunition, Space or Enter to fire.
pub open spec fn input_commands(phase: PhaseKind, current_is_ai: bool, keys: Keys) -> Commands {
    let active = controls_active(phase, current_is_ai, keys);
    Commands {
        quit: keys.escape_pressed || phase == PhaseKind::GameOver && (keys.q_pressed
            || keys.space_pressed || keys.enter_pressed),
        raise_angle: active && (keys.left_down || keys.h_down),
        lower_angle: active && (keys.right_down || keys.l_down),
        raise_power: active && (keys.up_down || keys.k_down),
        lower_power: active && (keys.down_down || keys.j_down),
        move_left: active && keys.a_down,
        move_right: active && keys.d_down,
        switch_ammo: active && keys.tab_pressed,
        fire: active && (keys.space_pressed || keys.enter_pressed),
    }
}

/// Decide what one frame of input does, as `input_commands` states.
pub fn decide_input(phase: PhaseKind, current_is_ai: bool, keys: Keys) -> (cmds: Commands)
    ensures
        cmds == input_commands(phase, current_is_ai, keys),
{
    let mut cmds = Commands {
        quit: false,
        raise_angle: false,
        lower_angle: false,
        raise_power: false,
        lower_power: false,
        move_left: false,
        move_right: false,
        switch_ammo: false,
        fire: false,
    };
    let game_over = match phase {
        PhaseKind::GameOver => true,
        _ => false,
    };
    if (keys.q_pressed || keys.escape_pressed) && (game_over || keys.escape_pressed) {
        cmds.quit = true;
        return cmds;
    }
    if game_over {
        if keys.space_pressed || keys.enter_pressed {
            cmds.quit = true;
        }
        return cmds;
    }
    let aiming = match phase {
        PhaseKind::Aiming => true,
        _ => false,
    };
    if !aiming || current_is_ai {
        return cmds;
    }
    cmds.raise_angle = keys.left_down || keys.h_down;
    cmds.lower_angle = keys.right_down || keys.l_down;
    cmds.raise_power = keys.up_down || keys.k_down;
    cmds.lower_power = keys.down_down || keys.j_down;
    cmds.move_left = keys.a_down;
    cmds.move_right = keys.d_down;
    cmds.switch_ammo = keys.tab_pressed;
    cmds.fire = keys.space_pressed || keys.enter_pressed;
    cmds
}

/// Input is only processed while a human player aims: in any other phase, on the
/// computer's turn, or when Escape quits, a frame of input can do nothing but quit.
pub proof fn law_input_only_while_aiming(phase: PhaseKind, current_is_ai: bool, keys: Keys)
    requires
        phase != PhaseKind::Aiming || current_is_ai || keys.escape_pressed,
    ensures
        input_commands(phase, current_is_ai, keys) == (Commands {
            quit: input_commands(phase, current_is_ai, keys).quit,
            raise_angle: false,
            lower_angle: false,
            raise_power: false,
            lower_power: false,
            move_left: false,
            move_right: false,
            switch_ammo: false,
            fire: false,
        }),
{
}

/// Escape always quits the game; until the game is over, nothing else does.
pub proof fn law_quit_keys(phase: PhaseKind, current_is_ai: bool, keys: Keys)
    ensures
        keys.escape_pressed ==> input_commands(phase, current_is_ai, keys).quit,
        phase != PhaseKind::GameOver ==> (input_commands(phase, current_is_ai, keys).quit
            <==> keys.escape_pressed),
{
}

/// The work one frame of the game loop does after input.
#[derive(Debug, Clone, Copy, PartialEq, Eq, Structural)]
pub enum UpdateAction {
    /// Nothing to do in this frame.
    Idle,
    /// The computer player takes its shot.
    AiTurn,
    /// The projectile has landed: apply craters and damage.
    ResolveImpact,
    /// The pause after an impact is over: end the turn.
    FinishTurn,
    /// The pause before the next player's turn is over: start that turn.
    StartTurn,
}

/// Decide the work of one frame from the phase and from `pause_ms`, the
/// milliseconds spent in it so far: the computer aims and fires on its turn; a
/// flight advances its playback by one frame and is resolved once playback had
/// already ended; an impact ends the turn once it has been shown for
/// `RESOLVE_PAUSE_MS`; the pause between turns starts the next one after
/// `TURN_PAUSE_MS`; a finished game does nothing more.
pub fn decide_update(
    phase: PhaseKind,
    current_is_ai: bool,
    animation: &mut Option<TrajectoryAnimation>,
    pause_ms: u64,
) -> (action: UpdateAction)
    requires
        phase == PhaseKind::Firing ==> match *old(animation) {
            Some(anim) => anim.positions_seq().len() > 0,
            None => true,
        },
    ensures
        phase == PhaseKind::Aiming ==> action == if current_is_ai {
            UpdateAction::AiTurn
        } else {
            UpdateAction::Idle
        },
        phase == PhaseKind::Firing ==> match *old(animation) {
            Some(anim) => {
                &&& action == if anim.complete() {
                    UpdateAction::ResolveImpact
                } else {
                    UpdateAction::Idle
                }
                &&& final(animation).is_some()
                &&& final(animation).unwrap().positions_seq() == anim.positions_seq()
                &&& final(animation).unwrap().current() == next_index(
                    anim.current(),
                    anim.positions_seq().len(),
                )
            },
            None => action == UpdateAction::Idle && final(animation).is_none(),
        },
        phase != PhaseKind::Firing ==> *final(animation) == *old(animation),
        phase == PhaseKind::Resolving ==> action == if pause_ms > RESOLVE_PAUSE_MS {
            UpdateAction::FinishTurn
        } else {
            UpdateAction::Idle
        },
        phase == PhaseKind::TurnTransition ==> action == if pause_ms > TURN_PAUSE_MS {
            UpdateAction::StartTurn
        } else {
            UpdateAction::Idle
        },
        phase == PhaseKind::GameOver ==> action == UpdateAction::Idle,
{
    match phase {
        PhaseKind::Aiming => {
            if current_is_ai {
                UpdateAction::AiTurn
            } else {
                UpdateAction::Idle
            }
        },
        PhaseKind::Firing => {
            match animation {
                Some(anim) => {
                    if !anim.advance() {
                        UpdateAction::ResolveImpact
                    } else {
                        UpdateAction::Idle
                    }
                },
                None => UpdateAction::Idle,
            }
        },
        PhaseKind::Resolving => {
            if pause_ms > RESOLVE_PAUSE_MS {
                UpdateAction::FinishTurn
            } else {
                UpdateAction::Idle
            }
        },
        PhaseKind::TurnTransition => {
            if pause_ms > TURN_PAUSE_MS {
                UpdateAction::StartTurn
            } else {
                UpdateAction::Idle
            }
        },
        PhaseKind::GameOver => UpdateAction::Idle,
    }
}

/// What ends a phase of the game.
#[derive(Debug, Clone, Copy, PartialEq, Eq, Structural)]
pub enum PhaseEvent {
    /// A shot was fired.
    ShotFired,
    /// The projectile landed and its impact was resolved.
    ImpactResolved,
    /// The pause after the impact is over; `winner` is the verdict of the
    /// game-over rule.
    TurnFinished { winner: Option<PlayerId> },
    /// The pause before the next player's turn is over.
    PauseEnded,
}

/// The phase state machine: Aiming, then Firing once a shot is fired, Resolving
/// once it has landed, then GameOver when the game-over rule names a winner, or
/// else TurnTransition, a brief pause that gives way to Aiming for the next
/// turn. Any other event leaves the phase as it is.
pub open spec fn phase_after(phase: PhaseKind, event: PhaseEvent) -> PhaseKind {
    match (phase, event) {
        (PhaseKind::Aiming, PhaseEvent::ShotFired) => PhaseKind::Firing,
        (PhaseKind::Firing, PhaseEvent::ImpactResolved) => PhaseKind::Resolving,
        (PhaseKind::Resolving, PhaseEvent::TurnFinished { winner }) => if winner is Some {
            PhaseKind::GameOver
        } else {
            PhaseKind::TurnTransition
        },
        (PhaseKind::TurnTransition, PhaseEvent::PauseEnded) => PhaseKind::Aiming,
        _ => phase,
    }
}

/// The phase that follows `phase` on `event`, as `phase_after` states.
pub fn next_phase(phase: PhaseKind, event: PhaseEvent) -> (next: PhaseKind)
    ensures
        next == phase_after(phase, event),
{
    match (phase, event) {
        (PhaseKind::Aiming, PhaseEvent::ShotFired) => PhaseKind::Firing,
        (PhaseKind::Firing, PhaseEvent::ImpactResolved) => PhaseKind::Resolving,
        (PhaseKind::Resolving, PhaseEvent::TurnFinished { winner }) => {
            if winner.is_some() {
                PhaseKind::GameOver
            } else {
                PhaseKind::TurnTransition
            }
        },
        (PhaseKind::TurnTransition, PhaseEvent::PauseEnded) => PhaseKind::Aiming,
        _ => phase,
    }
}

/// A turn runs Aiming, Firing, Resolving, and then either ends the game when
/// there is a winner, or pauses in TurnTransition before Aiming for the next turn.
pub proof fn law_turn_cycle(winner: Option<PlayerId>)
    ensures
        phase_after(
            phase_after(
                phase_after(PhaseKind::Aiming, PhaseEvent::ShotFired),
                PhaseEvent::ImpactResolved,
            ),
            PhaseEvent::TurnFinished { winner },
        ) == if winner is Some {
            PhaseKind::GameOver
        } else {
            PhaseKind::TurnTransition
        },
        winner is None ==> phase_after(
            phase_after(
                phase_after(
                    phase_after(PhaseKind::Aiming, PhaseEvent::ShotFired),
                    PhaseEvent::ImpactResolved,
                ),
                PhaseEvent::TurnFinished { winner },
            ),
            PhaseEvent::PauseEnded,
        ) == PhaseKind::Aiming,
{
}

/// Every phase but a finished game is eventually left: each has an event, or
/// (while aiming) a shot, that moves it on; and a pause always ends in Aiming.
pub proof fn law_every_phase_moves_on()
    ensures
        phase_after(PhaseKind::Aiming, PhaseEvent::ShotFired) == PhaseKind::Firing,
        phase_after(PhaseKind::Firing, PhaseEvent::ImpactResolved) == PhaseKind::Resolving,
        forall|w: Option<PlayerId>|
            #[trigger] phase_after(PhaseKind::Resolving, PhaseEvent::TurnFinished { winner: w })
                != PhaseKind::Resolving,
        phase_after(PhaseKind::TurnTransition, PhaseEvent::PauseEnded) == PhaseKind::Aiming,
{
}

/// A finished game stays finished, whatever happens.
pub proof fn law_game_over_is_final(event: PhaseEvent)
    ensures
        phase_after(PhaseKind::GameOver, event) == PhaseKind::GameOver,
{
}

/// Only a fired shot ends the aiming phase.
pub proof fn law_only_a_shot_ends_aiming(event: PhaseEvent)
    ensures
        phase_after(PhaseKind::Aiming, event) != PhaseKind::Aiming <==> event
            == PhaseEvent::ShotFired,
{
}

/// What the status line tells the players.
#[derive(Debug, Clone, Copy, PartialEq, Eq, Structural)]
pub enum Status {
    /// A human player is aiming: show the shot parameters.
    Aiming,
    /// The computer is aiming.
    AiThinking,
    /// A projectile is in flight.
    Firing,
    /// The shot hit nobody.
    Miss,
    /// The shot damaged at least one tank: show the damage.
    Hits,
    /// The pause before the next player's turn.
    NextTurn,
    /// The game is over and this player won.
    Winner(PlayerId),
}

/// The status to show: by phase, and while resolving by whether any tank was
/// damaged; `winner` is the winner recorded in a finished game.
pub open spec fn status_of(phase: PhaseKind, ai_is_aiming: bool, no_damage: bool, winner: PlayerId) -> Status {
    match phase {
        PhaseKind::Aiming => if ai_is_aiming {
            Status::AiThinking
        } else {
            Status::Aiming
        },
        PhaseKind::Firing => Status::Firing,
        PhaseKind::Resolving => if no_damage {
            Status::Miss
        } else {
            Status::Hits
        },
        PhaseKind::TurnTransition => Status::NextTurn,
        PhaseKind::GameOver => Status::Winner(winner),
    }
}

/// Decide the status to show, as `status_of` states.
pub fn status(phase: PhaseKind, ai_is_aiming: bool, no_damage: bool, winner: PlayerId) -> (s: Status)
    ensures
        s == status_of(phase, ai_is_aiming, no_damage, winner),
{
    match phase {
        PhaseKind::Aiming => {
            if ai_is_aiming {
                Status::AiThinking
            } else {
                Status::Aiming
            }
        },
        PhaseKind::Firing => Status::Firing,
        PhaseKind::Resolving => {
            if no_damage {
                Status::Miss
            } else {
                Status::Hits
            }
        },
        PhaseKind::TurnTransition => Status::NextTurn,
        PhaseKind::GameOver => Status::Winner(winner),
    }
}

} // verus!

verus! {

/// While a human player aims and Escape is not pressed, each key does its job
/// and nothing else: Left or h raises the angle, Right or l lowers it, Up or k
/// raises the power, Down or j lowers it, a moves left, d moves right, Tab
/// switches ammunition, Space or Enter fires, and nothing quits.
pub proof fn law_aiming_keys(current_is_ai: bool, keys: Keys)
    requires
        !current_is_ai,
        !keys.escape_pressed,
    ensures
        !input_commands(PhaseKind::Aiming, current_is_ai, keys).quit,
        input_commands(PhaseKind::Aiming, current_is_ai, keys).raise_angle <==> keys.left_down
            || keys.h_down,
        input_commands(PhaseKind::Aiming, current_is_ai, keys).lower_angle <==> keys.right_down
            || keys.l_down,
        input_commands(PhaseKind::Aiming, current_is_ai, keys).raise_power <==> keys.up_down
            || keys.k_down,
        input_commands(PhaseKind::Aiming, current_is_ai, keys).lower_power <==> keys.down_down
            || keys.j_down,
        input_commands(PhaseKind::Aiming, current_is_ai, keys).move_left <==> keys.a_down,
        input_commands(PhaseKind::Aiming, current_is_ai, keys).move_right <==> keys.d_down,
        input_commands(PhaseKind::Aiming, current_is_ai, keys).switch_ammo <==> keys.tab_pressed,
        input_commands(PhaseKind::Aiming, current_is_ai, keys).fire <==> keys.space_pressed
            || keys.enter_pressed,
{
}

/// Once the game is over, Q, Escape, Space and Enter each leave it, and no other
/// key does.
pub proof fn law_leaving_a_finished_game(current_is_ai: bool, keys: Keys)
    ensures
        input_commands(PhaseKind::GameOver, current_is_ai, keys).quit <==> keys.q_pressed
            || keys.escape_pressed || keys.space_pressed || keys.enter_pressed,
{
}

/// The status line follows the phase: a human's aiming shows the shot, the
/// computer's aiming shows it thinking, a flight shows firing, a resolved shot
/// shows a miss exactly when nobody was damaged, the pause shows the next turn,
/// and a finished game names exactly the recorded winner. Only a finished game
/// depends on the winner, and only the resolving phase on the damage.
pub proof fn law_status(ai_is_aiming: bool, no_damage: bool, winner: PlayerId, other: PlayerId)
    ensures
        status_of(PhaseKind::Aiming, ai_is_aiming, no_damage, winner) == if ai_is_aiming {
            Status::AiThinking
        } else {
            Status::Aiming
        },
        status_of(PhaseKind::Firing, ai_is_aiming, no_damage, winner) == Status::Firing,
        status_of(PhaseKind::Resolving, ai_is_aiming, no_damage, winner) == if no_damage {
            Status::Miss
        } else {
            Status::Hits
        },
        status_of(PhaseKind::TurnTransition, ai_is_aiming, no_damage, winner) == Status::NextTurn,
        status_of(PhaseKind::GameOver, ai_is_aiming, no_damage, winner) == Status::Winner(winner),
        status_of(PhaseKind::GameOver, ai_is_aiming, no_damage, winner) != status_of(
            PhaseKind::GameOver,
            ai_is_aiming,
            no_damage,
            other,
        ) <==> winner != other,
{
}

/// Only the four moves of the turn cycle change the phase; every other pairing
/// of phase and event leaves it as it is.
pub proof fn law_phase_changes(phase: PhaseKind, event: PhaseEvent)
    ensures
        phase_after(phase, event) != phase <==> (phase == PhaseKind::Aiming && event
            == PhaseEvent::ShotFired) || (phase == PhaseKind::Firing && event
            == PhaseEvent::ImpactResolved) || (phase == PhaseKind::Resolving
            && event is TurnFinished) || (phase == PhaseKind::TurnTransition && event
            == PhaseEvent::PauseEnded),
{
}

} // verus!
