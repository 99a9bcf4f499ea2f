use vstd::prelude::*;

use crate::types::PlayerId;

verus! {

/// What the turn rules read of a tank: who it is and whether it still stands.
#[derive(Debug, Clone, Copy, PartialEq, Eq, Structural)]
pub struct TankStatus {
    pub id: PlayerId,
    pub alive: bool,
}

/// The tanks of a roster that still stand, in roster order.
pub open spec fn survivors(tanks: Seq<TankStatus>) -> Seq<TankStatus> {
    tanks.filter(|t: TankStatus| t.alive)
}

/// The outcome of the game-over rule: the last tank standing wins; when no tank
/// stands, the last shooter wins (as in Scorched Earth); otherwise play goes on.
pub open spec fn game_over_winner(tanks: Seq<TankStatus>, current_player: PlayerId) -> Option<
    PlayerId,
> {
    let alive = survivors(tanks);
    if alive.len() == 1 {
        Some(alive[0].id)
    } else if alive.len() == 0 {
        Some(current_player)
    } else {
        None
    }
}

/// The player who moves after `player` in a two-player game.
pub open spec fn next_player(player: PlayerId) -> PlayerId {
    (1 - player) as PlayerId
}

/// The player whose turn follows `player`'s, the roster being indexed by player:
/// the next living player, which is the other player when their tank still
/// stands and otherwise `player` again.
pub open spec fn next_living_player(tanks: Seq<TankStatus>, player: PlayerId) -> PlayerId {
    let other = next_player(player);
    if other < tanks.len() && tanks[other as int].alive {
        other
    } else {
        player
    }
}

/// Whose turn it is, and the number of the turn being played.
#[derive(Debug, Clone, Copy, PartialEq, Eq, Structural)]
pub struct Turn {
    pub current_player: PlayerId,
    pub turn_number: u32,
}

impl Turn {
    /// The first turn of a game, played by player 0.
    pub fn first() -> (turn: Turn)
        ensures
            turn.current_player == 0,
            turn.turn_number == 1,
    {
        Turn { current_player: 0, turn_number: 1 }
    }

    /// The index of the opponent of the current player.
    pub fn opponent(&self) -> (id: PlayerId)
        requires
            self.current_player <= 1,
        ensures
            id == next_player(self.current_player),
    {
        1 - self.current_player
    }

    /// Advance to the next living player's turn; `tanks` is the roster,
    /// indexed by player.
    pub fn advance(&mut self, tanks: &Vec<TankStatus>)
        requires
            old(self).current_player <= 1,
            old(self).turn_number < u32::MAX,
        ensures
            final(self).current_player == next_living_player(tanks@, old(self).current_player),
            final(self).turn_number == old(self).turn_number + 1,
    {
        let other = 1 - self.current_player;
        if other < tanks.len() && tanks[other].alive {
            self.current_player = other;
        }
        self.turn_number = self.turn_number + 1;
    }

    /// Check if the game is over (at most one tank alive), and who won.
    pub fn check_game_over(&self, tanks: &Vec<TankStatus>) -> (winner: Option<PlayerId>)
        ensures
            winner == game_over_winner(tanks@, self.current_player),
    {
        let ghost pred = |t: TankStatus| t.alive;
        let mut count: usize = 0;
        let mut first: Option<PlayerId> = None;
        let mut i: usize = 0;
        while i < tanks.len()
            invariant
                pred == (|t: TankStatus| t.alive),
                i <= tanks@.len(),
                count == tanks@.take(i as int).filter(pred).len(),
                first == if count > 0 {
                    Some(tanks@.take(i as int).filter(pred)[0].id)
                } else {
                    None::<PlayerId>
                },
            decreases tanks@.len() - i,
        {
            let ghost before = tanks@.take(i as int);
            let ghost after = tanks@.take(i + 1);
            proof {
                reveal_with_fuel(Seq::<_>::filter, 1);
                assert(after.drop_last() =~= before);
                assert(after.last() == tanks@[i as int]);
                before.lemma_filter_len(pred);
                assert(after.filter(pred) == if pred(tanks@[i as int]) {
                    before.filter(pred).push(tanks@[i as int])
                } else {
                    before.filter(pred)
                });
            }
            if tanks[i].alive {
                if count == 0 {
                    first = Some(tanks[i].id);
                }
                count = count + 1;
            }
            i = i + 1;
        }
        assert(tanks@.take(tanks@.len() as int) =~= tanks@);
        if count == 1 {
            first
        } else if count == 0 {
            Some(self.current_player)
        } else {
            None
        }
    }

    /// End a resolved turn: when the game is over, report the winner and leave the
    /// turn as it is; otherwise pass the turn to the next living player.
    pub fn finish(&mut self, tanks: &Vec<TankStatus>) -> (winner: Option<PlayerId>)
        requires
            game_over_winner(tanks@, old(self).current_player) is None ==> old(
                self,
            ).current_player <= 1 && old(self).turn_number < u32::MAX,
        ensures
            winner == game_over_winner(tanks@, old(self).current_player),
            winner is Some ==> *final(self) == *old(self),
            winner is None ==> final(self).current_player == next_living_player(
                tanks@,
                old(self).current_player,
            ) && final(self).turn_number == old(self).turn_number + 1,
    {
        let winner = self.check_game_over(tanks);
        if winner.is_none() {
            self.advance(tanks);
        }
        winner
    }
}

} // verus!

verus! {

/// Turns alternate between the two players: the next player is the other one,
/// and two turns later play is back with the first.
pub proof fn law_turns_alternate(player: PlayerId)
    requires
        player <= 1,
    ensures
        next_player(player) <= 1,
        next_player(player) != player,
        next_player(next_player(player)) == player,
{
}

/// The turn passes to the other player while their tank stands, and stays with
/// the current player when it has been destroyed; while both tanks of a two-tank
/// roster stand, two turns later play is back with the first player.
pub proof fn law_next_living_player(tanks: Seq<TankStatus>, player: PlayerId)
    requires
        player <= 1,
    ensures
        next_living_player(tanks, player) <= 1,
        next_player(player) < tanks.len() && tanks[next_player(player) as int].alive
            ==> next_living_player(tanks, player) == next_player(player),
        !(next_player(player) < tanks.len() && tanks[next_player(player) as int].alive)
            ==> next_living_player(tanks, player) == player,
        tanks.len() == 2 && tanks[0].alive && tanks[1].alive ==> next_living_player(
            tanks,
            next_living_player(tanks, player),
        ) == player,
{
}

/// The game is over exactly when fewer than two tanks stand. With one tank left,
/// that tank wins; with none left, the player who fired last wins.
pub proof fn law_game_over(tanks: Seq<TankStatus>, current_player: PlayerId)
    ensures
        game_over_winner(tanks, current_player) is None <==> survivors(tanks).len() >= 2,
        survivors(tanks).len() == 0 ==> game_over_winner(tanks, current_player) == Some(
            current_player,
        ),
        survivors(tanks).len() == 1 ==> exists|i: int|
            0 <= i < tanks.len() && #[trigger] tanks[i].alive && game_over_winner(
                tanks,
                current_player,
            ) == Some(tanks[i].id),
{
    let pred = |t: TankStatus| t.alive;
    if survivors(tanks).len() == 1 {
        let winner = survivors(tanks)[0];
        broadcast use vstd::seq_lib::group_filter_ensures;

        assert(pred(winner));
        assert(survivors(tanks).contains(winner));
        tanks.lemma_filter_contains_rev(pred, winner);
        let i = choose|i: int| 0 <= i < tanks.len() && tanks[i] == winner;
        assert(tanks[i].alive);
    }
}

} // verus!
