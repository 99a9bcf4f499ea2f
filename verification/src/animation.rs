use vstd::prelude::*;

use glam::Vec2;

use crate::constants::{PLAYBACK_SPEED, TRAIL_LENGTH};

verus! {

/// glam's `Vec2`, a point of the world, declared so that a trajectory can hold
/// it. Verus sees nothing inside such a value: the library only stores, copies
/// and hands back the points it is given, and states nothing of their coordinates.
#[verifier::external_type_specification]
#[verifier::external_body]
pub struct ExVec2(Vec2);

/// Manages the animated playback of a projectile trajectory.
pub struct TrajectoryAnimation {
    /// All positions in the trajectory.
    positions: Vec<Vec2>,
    /// Current playback index.
    current_index: usize,
    /// Playback speed: how many positions to advance per frame.
    speed: usize,
}

/// The index that one frame of playback moves to from `current`,
/// on a trajectory of `len` positions.
pub open spec fn next_index(current: nat, len: nat) -> nat {
    if current >= len - 1 {
        current
    } else if current + PLAYBACK_SPEED >= len - 1 {
        (len - 1) as nat
    } else {
        (current + PLAYBACK_SPEED) as nat
    }
}

/// The index reached after `frames` frames of playback from the start.
pub open spec fn index_after(frames: nat, len: nat) -> nat
    decreases frames,
{
    if frames == 0 {
        0
    } else {
        next_index(index_after((frames - 1) as nat, len), len)
    }
}

/// The first index of the trail shown behind the projectile at `current`.
pub open spec fn trail_start(current: nat) -> nat {
    if current >= TRAIL_LENGTH {
        (current - TRAIL_LENGTH) as nat
    } else {
        0
    }
}

impl TrajectoryAnimation {
    /// The playback index stays on the trajectory, and playback runs at its fixed speed.
    #[verifier::type_invariant]
    spec fn well_formed(self) -> bool {
        &&& self.speed == PLAYBACK_SPEED
        &&& self.current_index == 0 || self.current_index < self.positions@.len()
    }

    /// The positions of the trajectory, in flight order.
    pub closed spec fn positions_seq(self) -> Seq<Vec2> {
        self.positions@
    }

    /// The index of the position currently shown.
    pub closed spec fn current(self) -> nat {
        self.current_index as nat
    }

    /// Whether playback has reached the last position.
    pub open spec fn complete(self) -> bool {
        self.current() >= self.positions_seq().len() - 1
    }

    pub fn new(positions: Vec<Vec2>) -> (anim: Self)
        ensures
            anim.positions_seq() == positions@,
            anim.current() == 0,
    {
        TrajectoryAnimation { positions, current_index: 0, speed: PLAYBACK_SPEED }
    }

    /// Advance the animation by one frame. Returns true if still playing.
    pub fn advance(&mut self) -> (playing: bool)
        requires
            old(self).positions_seq().len() > 0,
        ensures
            final(self).positions_seq() == old(self).positions_seq(),
            playing == !old(self).complete(),
            final(self).current() == next_index(old(self).current(), old(self).positions_seq().len()),
            final(self).current() < final(self).positions_seq().len(),
    {
        proof {
            use_type_invariant(&*self);
        }
        if self.is_complete() {
            return false;
        }
        let last = self.positions.len() - 1;
        if last - self.current_index <= self.speed {
            self.current_index = last;
        } else {
            self.current_index = self.current_index + self.speed;
        }
        true
    }

    pub fn is_complete(&self) -> (done: bool)
        requires
            self.positions_seq().len() > 0,
        ensures
            done == self.complete(),
            self.current() < self.positions_seq().len(),
    {
        proof {
            use_type_invariant(self);
        }
        self.current_index >= self.positions.len() - 1
    }

    /// Get the current projectile position.
    pub fn current_position(&self) -> (pos: Vec2)
        requires
            self.positions_seq().len() > 0,
        ensures
            self.current() < self.positions_seq().len(),
            pos == self.positions_seq()[self.current() as int],
    {
        proof {
            use_type_invariant(self);
        }
        self.positions[self.current_index]
    }

    /// Get the trail (recent positions) for rendering.
    pub fn trail(&self) -> (trail: &[Vec2])
        requires
            self.positions_seq().len() > 0,
        ensures
            trail@ == self.positions_seq().subrange(
                trail_start(self.current()) as int,
                self.current() + 1 as int,
            ),
    {
        let len = self.positions.len();
        proof {
            use_type_invariant(self);
            assert(self.current_index < len);
        }
        let start = self.current_index.saturating_sub(TRAIL_LENGTH);
        vstd::slice::slice_subrange(self.positions.as_slice(), start, self.current_index + 1)
    }

    /// Get all positions up to current for the full trail line.
    pub fn path_so_far(&self) -> (path: &[Vec2])
        requires
            self.positions_seq().len() > 0,
        ensures
            path@ == self.positions_seq().subrange(0, self.current() + 1 as int),
    {
        let len = self.positions.len();
        proof {
            use_type_invariant(self);
            assert(self.current_index < len);
        }
        vstd::slice::slice_subrange(self.positions.as_slice(), 0, self.current_index + 1)
    }
}

} // verus!

verus! {

/// Playing a trajectory of `len` positions from its start shows, after `frames`
/// frames, the position at index min(3 * frames, len - 1): every third position,
/// then the last one, where it stays.
pub proof fn law_playback_index(frames: nat, len: nat)
    requires
        len > 0,
    ensures
        index_after(frames, len) == if PLAYBACK_SPEED * frames < len - 1 {
            PLAYBACK_SPEED * frames
        } else {
            len - 1
        },
    decreases frames,
{
    if frames > 0 {
        law_playback_index((frames - 1) as nat, len);
    }
}

/// Playback ends: a trajectory of `len` positions is complete after exactly
/// ceil((len - 1) / 3) frames, and not before.
pub proof fn law_playback_completes(frames: nat, len: nat)
    requires
        len > 0,
    ensures
        index_after(frames, len) >= len - 1 <==> PLAYBACK_SPEED * frames >= len - 1,
{
    law_playback_index(frames, len);
}

/// One frame of playback never moves backwards, and moves forwards exactly
/// while the last position has not been reached.
pub proof fn law_advance_progress(current: nat, len: nat)
    requires
        len > 0,
        current < len,
    ensures
        current <= next_index(current, len) < len,
        next_index(current, len) > current <==> current < len - 1,
{
}

/// The trail is the tail of the path flown so far: it ends at the projectile's
/// current position and holds at most `TRAIL_LENGTH + 1` positions.
pub proof fn law_trail_is_tail_of_path(positions: Seq<Vec2>, current: nat)
    requires
        current < positions.len(),
    ensures
        positions.subrange(trail_start(current) as int, current + 1 as int) =~= positions.subrange(
            0,
            current + 1 as int,
        ).subrange(trail_start(current) as int, current + 1 as int),
        positions.subrange(trail_start(current) as int, current + 1 as int).len() <= TRAIL_LENGTH
            + 1,
        positions.subrange(trail_start(current) as int, current + 1 as int).last()
            == positions[current as int],
{
}

} // verus!

verus! {

/// One frame of playback moves three positions on, but never past the last one.
pub proof fn law_next_index(current: nat, len: nat)
    requires
        current < len,
    ensures
        next_index(current, len) == if current + PLAYBACK_SPEED < len - 1 {
            current + PLAYBACK_SPEED
        } else {
            len - 1
        },
{
}

/// The trail shows the current position and the `TRAIL_LENGTH` positions before
/// it, or all positions from the launch when fewer have been flown: it holds
/// exactly min(current, TRAIL_LENGTH) + 1 positions and ends at the current one.
pub proof fn law_trail_length(positions: Seq<Vec2>, current: nat)
    requires
        current < positions.len(),
    ensures
        trail_start(current) + TRAIL_LENGTH >= current,
        current >= TRAIL_LENGTH ==> trail_start(current) == current - TRAIL_LENGTH,
        current < TRAIL_LENGTH ==> trail_start(current) == 0,
        positions.subrange(trail_start(current) as int, current + 1 as int).len() == if current
            >= TRAIL_LENGTH {
            TRAIL_LENGTH + 1
        } else {
            current + 1int
        },
        positions.subrange(trail_start(current) as int, current + 1 as int)[0] == positions[current
            - if current >= TRAIL_LENGTH {
            TRAIL_LENGTH as int
        } else {
            current as int
        }],
{
}

/// Playback of a trajectory is complete exactly when its last position is shown,
/// whatever the trajectory's length; so a playback from the start is complete
/// after exactly ceil((len - 1) / 3) frames.
pub proof fn law_complete_at_last_position(anim: TrajectoryAnimation, frames: nat)
    requires
        anim.current() < anim.positions_seq().len(),
    ensures
        anim.complete() <==> anim.current() == anim.positions_seq().len() - 1,
        anim.current() == index_after(frames, anim.positions_seq().len()) ==> (anim.complete()
            <==> PLAYBACK_SPEED * frames >= anim.positions_seq().len() - 1),
{
    law_playback_index(frames, anim.positions_seq().len());
}

} // verus!
