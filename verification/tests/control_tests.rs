use glam::Vec2;
use lobber::animation::TrajectoryAnimation;
use lobber::control::{
    decide_input, decide_update, next_phase, status, Commands, Keys, PhaseEvent, PhaseKind, Status,
    UpdateAction,
};

fn no_keys() -> Keys {
    Keys {
        q_pressed: false,
        escape_pressed: false,
        space_pressed: false,
        enter_pressed: false,
        tab_pressed: false,
        left_down: false,
        h_down: false,
        right_down: false,
        l_down: false,
        up_down: false,
        k_down: false,
        down_down: false,
        j_down: false,
        a_down: false,
        d_down: false,
    }
}

fn nothing() -> Commands {
    Commands {
        quit: false,
        raise_angle: false,
        lower_angle: false,
        raise_power: false,
        lower_power: false,
        move_left: false,
        move_right: false,
        switch_ammo: false,
        fire: false,
    }
}

#[test]
fn escape_quits_in_every_phase() {
    let keys = Keys { escape_pressed: true, left_down: true, space_pressed: true, ..no_keys() };
    for phase in [
        PhaseKind::Aiming,
        PhaseKind::Firing,
        PhaseKind::Resolving,
        PhaseKind::TurnTransition,
        PhaseKind::GameOver,
    ] {
        assert_eq!(decide_input(phase, false, keys), Commands { quit: true, ..nothing() });
    }
}

#[test]
fn q_quits_only_when_game_is_over() {
    let keys = Keys { q_pressed: true, ..no_keys() };
    assert_eq!(decide_input(PhaseKind::Aiming, false, keys), nothing());
    assert_eq!(decide_input(PhaseKind::GameOver, false, keys).quit, true);
}

#[test]
fn space_or_enter_leaves_finished_game() {
    let space = Keys { space_pressed: true, ..no_keys() };
    let enter = Keys { enter_pressed: true, ..no_keys() };
    assert_eq!(decide_input(PhaseKind::GameOver, true, space), Commands { quit: true, ..nothing() });
    assert_eq!(decide_input(PhaseKind::GameOver, false, enter), Commands { quit: true, ..nothing() });
    assert_eq!(decide_input(PhaseKind::GameOver, false, no_keys()), nothing());
}

#[test]
fn aiming_controls_map_keys_to_commands() {
    let keys = Keys {
        h_down: true,
        right_down: true,
        k_down: true,
        j_down: true,
        a_down: true,
        tab_pressed: true,
        enter_pressed: true,
        ..no_keys()
    };
    let cmds = decide_input(PhaseKind::Aiming, false, keys);
    assert_eq!(
        cmds,
        Commands {
            quit: false,
            raise_angle: true,
            lower_angle: true,
            raise_power: true,
            lower_power: true,
            move_left: true,
            move_right: false,
            switch_ammo: true,
            fire: true,
        }
    );
    let arrows = Keys { left_down: true, up_down: true, down_down: true, d_down: true, ..no_keys() };
    let cmds = decide_input(PhaseKind::Aiming, false, arrows);
    assert!(cmds.raise_angle && cmds.raise_power && cmds.lower_power && cmds.move_right);
    assert!(!cmds.lower_angle && !cmds.fire && !cmds.switch_ammo && !cmds.move_left);
}

#[test]
fn controls_ignored_outside_human_aiming() {
    let keys = Keys { left_down: true, space_pressed: true, tab_pressed: true, ..no_keys() };
    assert_eq!(decide_input(PhaseKind::Aiming, true, keys), nothing());
    assert_eq!(decide_input(PhaseKind::Firing, false, keys), nothing());
    assert_eq!(decide_input(PhaseKind::Resolving, false, keys), nothing());
    assert_eq!(decide_input(PhaseKind::TurnTransition, false, keys), nothing());
}

#[test]
fn ai_fires_on_its_aiming_turn() {
    let mut none = None;
    assert_eq!(decide_update(PhaseKind::Aiming, true, &mut none, 0), UpdateAction::AiTurn);
    assert_eq!(decide_update(PhaseKind::Aiming, false, &mut none, 5000), UpdateAction::Idle);
}

#[test]
fn flight_advances_then_resolves() {
    let positions: Vec<Vec2> = (0..5).map(|i| Vec2::new(i as f32, 0.0)).collect();
    let mut anim = Some(TrajectoryAnimation::new(positions));
    assert_eq!(decide_update(PhaseKind::Firing, false, &mut anim, 0), UpdateAction::Idle);
    assert_eq!(anim.as_ref().unwrap().current_position().x, 3.0);
    assert_eq!(decide_update(PhaseKind::Firing, false, &mut anim, 0), UpdateAction::Idle);
    assert_eq!(anim.as_ref().unwrap().current_position().x, 4.0);
    assert_eq!(
        decide_update(PhaseKind::Firing, false, &mut anim, 0),
        UpdateAction::ResolveImpact
    );
    let mut none = None;
    assert_eq!(decide_update(PhaseKind::Firing, true, &mut none, 5000), UpdateAction::Idle);
    assert!(none.is_none());
}

#[test]
fn resolve_waits_for_pause() {
    let mut none = None;
    assert_eq!(decide_update(PhaseKind::Resolving, false, &mut none, 1500), UpdateAction::Idle);
    assert_eq!(
        decide_update(PhaseKind::Resolving, true, &mut none, 1501),
        UpdateAction::FinishTurn
    );
    assert_eq!(decide_update(PhaseKind::GameOver, true, &mut none, 99999), UpdateAction::Idle);
}

#[test]
fn pause_between_turns_ends_after_its_time() {
    let mut none = None;
    assert_eq!(decide_update(PhaseKind::TurnTransition, true, &mut none, 0), UpdateAction::Idle);
    assert_eq!(decide_update(PhaseKind::TurnTransition, false, &mut none, 500), UpdateAction::Idle);
    assert_eq!(
        decide_update(PhaseKind::TurnTransition, false, &mut none, 501),
        UpdateAction::StartTurn
    );
}

#[test]
fn escape_while_aiming_does_nothing_but_quit() {
    let keys = Keys {
        escape_pressed: true,
        left_down: true,
        up_down: true,
        a_down: true,
        tab_pressed: true,
        space_pressed: true,
        ..no_keys()
    };
    assert_eq!(decide_input(PhaseKind::Aiming, false, keys), Commands { quit: true, ..nothing() });
    let no_escape = Keys { escape_pressed: false, ..keys };
    assert!(!decide_input(PhaseKind::Aiming, false, no_escape).quit);
}

#[test]
fn phases_run_aiming_firing_resolving() {
    let firing = next_phase(PhaseKind::Aiming, PhaseEvent::ShotFired);
    assert_eq!(firing, PhaseKind::Firing);
    let resolving = next_phase(firing, PhaseEvent::ImpactResolved);
    assert_eq!(resolving, PhaseKind::Resolving);
    assert_eq!(
        next_phase(resolving, PhaseEvent::TurnFinished { winner: None }),
        PhaseKind::TurnTransition
    );
    assert_eq!(next_phase(PhaseKind::TurnTransition, PhaseEvent::PauseEnded), PhaseKind::Aiming);
    assert_eq!(
        next_phase(resolving, PhaseEvent::TurnFinished { winner: Some(1) }),
        PhaseKind::GameOver
    );
}

#[test]
fn out_of_order_events_change_nothing() {
    assert_eq!(next_phase(PhaseKind::Aiming, PhaseEvent::ImpactResolved), PhaseKind::Aiming);
    assert_eq!(next_phase(PhaseKind::Firing, PhaseEvent::ShotFired), PhaseKind::Firing);
    assert_eq!(
        next_phase(PhaseKind::Firing, PhaseEvent::TurnFinished { winner: Some(0) }),
        PhaseKind::Firing
    );
    assert_eq!(next_phase(PhaseKind::GameOver, PhaseEvent::ShotFired), PhaseKind::GameOver);
    assert_eq!(
        next_phase(PhaseKind::TurnTransition, PhaseEvent::ImpactResolved),
        PhaseKind::TurnTransition
    );
    assert_eq!(next_phase(PhaseKind::Aiming, PhaseEvent::PauseEnded), PhaseKind::Aiming);
    assert_eq!(next_phase(PhaseKind::GameOver, PhaseEvent::PauseEnded), PhaseKind::GameOver);
}

#[test]
fn status_follows_phase() {
    assert_eq!(status(PhaseKind::Aiming, false, true, 0), Status::Aiming);
    assert_eq!(status(PhaseKind::Aiming, true, true, 0), Status::AiThinking);
    assert_eq!(status(PhaseKind::Firing, true, false, 0), Status::Firing);
    assert_eq!(status(PhaseKind::Resolving, false, true, 0), Status::Miss);
    assert_eq!(status(PhaseKind::Resolving, false, false, 0), Status::Hits);
    assert_eq!(status(PhaseKind::TurnTransition, false, true, 0), Status::NextTurn);
    assert_eq!(status(PhaseKind::GameOver, false, true, 1), Status::Winner(1));
}
