use glam::Vec2;
use lobber::animation::TrajectoryAnimation;
use lobber::constants::TRAIL_LENGTH;

fn path(n: usize) -> Vec<Vec2> {
    (0..n).map(|i| Vec2::new(i as f32, 2.0 * i as f32)).collect()
}

#[test]
fn playback_visits_every_third_position_then_the_last() {
    let mut anim = TrajectoryAnimation::new(path(10));
    assert_eq!(anim.current_position(), Vec2::new(0.0, 0.0));
    let mut seen = vec![0.0];
    while anim.advance() {
        seen.push(anim.current_position().x);
    }
    assert_eq!(seen, vec![0.0, 3.0, 6.0, 9.0]);
    assert!(anim.is_complete());
    assert!(!anim.advance());
    assert_eq!(anim.current_position(), Vec2::new(9.0, 18.0));
}

#[test]
fn playback_stops_on_last_position_when_step_overshoots() {
    let mut anim = TrajectoryAnimation::new(path(5));
    assert!(anim.advance());
    assert_eq!(anim.current_position().x, 3.0);
    assert!(anim.advance());
    assert_eq!(anim.current_position().x, 4.0);
    assert!(anim.is_complete());
    assert!(!anim.advance());
}

#[test]
fn playback_completes_after_ceil_of_a_third_of_the_flight() {
    for n in 1..40usize {
        let mut anim = TrajectoryAnimation::new(path(n));
        let mut frames: usize = 0;
        while anim.advance() {
            frames += 1;
        }
        assert_eq!(frames, (n - 1 + 2) / 3);
    }
}

#[test]
fn single_position_is_complete_at_once() {
    let mut anim = TrajectoryAnimation::new(path(1));
    assert!(anim.is_complete());
    assert!(!anim.advance());
    assert_eq!(anim.path_so_far().len(), 1);
}

#[test]
fn trail_is_short_tail_of_path() {
    let mut anim = TrajectoryAnimation::new(path(60));
    for _ in 0..10 {
        anim.advance();
    }
    // index 30
    let trail = anim.trail();
    let path_so_far = anim.path_so_far();
    assert_eq!(path_so_far.len(), 31);
    assert_eq!(trail.len(), TRAIL_LENGTH + 1);
    assert_eq!(trail[0], Vec2::new(15.0, 30.0));
    assert_eq!(*trail.last().unwrap(), anim.current_position());
    assert_eq!(trail, &path_so_far[path_so_far.len() - trail.len()..]);
}

#[test]
fn early_trail_starts_at_launch() {
    let mut anim = TrajectoryAnimation::new(path(60));
    anim.advance();
    anim.advance();
    let trail = anim.trail();
    assert_eq!(trail.len(), 7);
    assert_eq!(trail[0], Vec2::new(0.0, 0.0));
    assert_eq!(trail, anim.path_so_far());
}
