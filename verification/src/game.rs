use vstd::prelude::*;
use crate::errors::GameError;
use crate::ledger::Ledger;
use crate::ledger::ledger_updated;

verus! {

/// Seconds a game stays open for settlement after it starts.
pub const GAME_EXPIRY_SECS: u64 = 600;

/// One wagering round. Each participant's bet is debited from the ledger
/// the moment they enter (the creator at start, the opponent at join); the
/// funds are held in the game until settlement.
pub struct Game {
    pub creator: String,
    pub bet_amount: u64,
    pub opponent: Option<String>,
    pub creator_card: Option<u8>,
    pub opponent_card: Option<u8>,
    pub is_settled: bool,
    pub start_time: u64,
    /// Snapshot of the ledger at creation time; informational only, never
    /// read by any transition.
    pub stakes: Ledger,
}

/// The session manager: the balance ledger, at most one game at a time,
/// and the payout markers of the reentrancy guard.
pub struct GameState {
    /// The single game slot: at most one game exists at a time.
    pub current_game: Option<Game>,
    /// The shared balance ledger.
    pub stakes: Ledger,
    /// Identities whose payout is currently marked as running — the
    /// reentrancy guard around the funds transfer. Empty between calls.
    pub do_not_use: Vec<String>,
}

/// Whether the payout marker for `id` is set.
pub open spec fn locks_contain(locks: Seq<String>, id: Seq<char>) -> bool {
    exists|i: int| 0 <= i < locks.len() && locks[i]@ == id
}

impl Game {
    /// A game with no opponent has no opponent-drawn value, a joined
    /// opponent differs from the creator, every drawn card is a
    /// playing-card rank, and only a two-sided game can have settled.
    pub open spec fn wf(self) -> bool {
        &&& (self.opponent is Some <==> self.opponent_card is Some)
        &&& (self.is_settled ==> self.opponent is Some)
        &&& (self.opponent matches Some(o) ==> o@ != self.creator@)
        &&& (self.opponent_card matches Some(c) ==> 1 <= c <= 13)
        &&& (self.creator_card matches Some(c) ==> 1 <= c <= 13)
    }
}

impl GameState {
    pub open spec fn wf(self) -> bool {
        &&& self.stakes.wf()
        &&& (self.current_game matches Some(g) ==> g.wf())
    }

    /// Funds debited into the game slot and not yet paid back out: one bet
    /// while the creator waits, two once an opponent has joined, none after
    /// settlement.
    pub open spec fn held_in_game(self) -> int {
        match self.current_game {
            None => 0,
            Some(g) => if g.is_settled {
                0
            } else if g.opponent is Some {
                2 * (g.bet_amount as int)
            } else {
                g.bet_amount as int
            },
        }
    }

    /// Every balance in the ledger plus whatever an active, unsettled game
    /// holds. Deposits raise it by the amount, withdrawals lower it by the
    /// amount, and every game transition preserves it.
    pub open spec fn wealth(self) -> int {
        self.stakes.spec_total() + self.held_in_game()
    }

    /// An unsettled game must have the opponent's card drawn before the
    /// creator's card can be compared against it.
    pub open spec fn reveal_ready(self) -> bool {
        match self.current_game {
            None => true,
            Some(g) => !g.is_settled ==> g.opponent_card is Some,
        }
    }

    /// As `reveal_ready`, but only inside the settlement window that `now`
    /// determines: an expired game is rejected before any card is needed.
    pub open spec fn reveal_ready_at(self, now: u64) -> bool {
        match self.current_game {
            None => true,
            Some(g) => (!g.is_settled && now <= g.start_time + GAME_EXPIRY_SECS)
                ==> g.opponent_card is Some,
        }
    }
}

/// Effect of a deposit of `amount` for `user`.
pub open spec fn deposit_spec(
    pre: GameState,
    post: GameState,
    user: Seq<char>,
    amount: u64,
    result: Result<(), GameError>,
) -> bool {
    if pre.stakes.spec_bal(user) + amount <= u64::MAX {
        &&& result == Ok::<(), GameError>(())
        &&& ledger_updated(
            pre.stakes,
            post.stakes,
            user,
            (pre.stakes.spec_bal(user) + amount) as u64,
        )
        &&& post.current_game == pre.current_game
        &&& post.do_not_use == pre.do_not_use
    } else {
        result == Err::<(), GameError>(GameError::Overflow) && post == pre
    }
}

/// Effect of a withdrawal of `amount` for `user`.
pub open spec fn withdraw_spec(
    pre: GameState,
    post: GameState,
    user: Seq<char>,
    amount: u64,
    result: Result<(), GameError>,
) -> bool {
    if !pre.stakes.spec_contains(user) {
        result == Err::<(), GameError>(GameError::UnknownIdentity) && post == pre
    } else if pre.stakes.spec_bal(user) < amount {
        result == Err::<(), GameError>(GameError::InsufficientFunds) && post == pre
    } else {
        &&& result == Ok::<(), GameError>(())
        &&& ledger_updated(
            pre.stakes,
            post.stakes,
            user,
            (pre.stakes.spec_bal(user) - amount) as u64,
        )
        &&& post.current_game == pre.current_game
        &&& post.do_not_use == pre.do_not_use
    }
}

/// Effect of starting a game: fails while the slot is occupied or the
/// creator cannot cover the bet; otherwise debits the bet and fills the
/// slot with a fresh, unsettled game. The start time is read from the host
/// clock and is not constrained here.
pub open spec fn start_spec(
    pre: GameState,
    post: GameState,
    creator: Seq<char>,
    bet: u64,
    result: Result<(), GameError>,
) -> bool {
    if pre.current_game is Some {
        result == Err::<(), GameError>(GameError::GameInProgress) && post == pre
    } else if pre.stakes.spec_bal(creator) < bet {
        result == Err::<(), GameError>(GameError::InsufficientStake) && post == pre
    } else {
        &&& result == Ok::<(), GameError>(())
        &&& ledger_updated(
            pre.stakes,
            post.stakes,
            creator,
            (pre.stakes.spec_bal(creator) - bet) as u64,
        )
        &&& post.do_not_use == pre.do_not_use
        &&& post.current_game matches Some(g) && {
            &&& g.creator@ == creator
            &&& g.bet_amount == bet
            &&& g.opponent is None
            &&& g.creator_card is None
            &&& g.opponent_card is None
            &&& !g.is_settled
            &&& g.stakes.entries@ == post.stakes.entries@
        }
    }
}

/// Effect of joining the current game: fails without a game, after a prior
/// join, for the creator themselves, or without the stake; otherwise debits
/// the bet, records the opponent and immediately draws the opponent's card
/// (before the creator's — a documented asymmetry).
pub open spec fn join_spec(
    pre: GameState,
    post: GameState,
    opponent: Seq<char>,
    result: Result<(), GameError>,
) -> bool {
    match pre.current_game {
        None => result == Err::<(), GameError>(GameError::NoActiveGame) && post == pre,
        Some(g) => if g.opponent is Some {
            result == Err::<(), GameError>(GameError::AlreadyJoined) && post == pre
        } else if g.creator@ == opponent {
            result == Err::<(), GameError>(GameError::SelfJoin) && post == pre
        } else if pre.stakes.spec_bal(opponent) < g.bet_amount {
            result == Err::<(), GameError>(GameError::InsufficientStake) && post == pre
        } else {
            &&& result == Ok::<(), GameError>(())
            &&& ledger_updated(
                pre.stakes,
                post.stakes,
                opponent,
                (pre.stakes.spec_bal(opponent) - g.bet_amount) as u64,
            )
            &&& post.do_not_use == pre.do_not_use
            &&& post.current_game matches Some(joined) && {
                &&& joined.creator == g.creator
                &&& joined.bet_amount == g.bet_amount
                &&& joined.opponent matches Some(o) && o@ == opponent
                &&& joined.creator_card == g.creator_card
                &&& joined.opponent_card matches Some(c) && 1 <= c <= 13
                &&& joined.is_settled == g.is_settled
                &&& joined.start_time == g.start_time
                &&& joined.stakes == g.stakes
            }
        },
    }
}

/// The game record once settlement completes: the creator's card is
/// recorded, the settlement flag is set, everything else is kept.
pub open spec fn game_settled_with(g: Game, settled: Game, card: u8) -> bool {
    &&& settled.creator == g.creator
    &&& settled.bet_amount == g.bet_amount
    &&& settled.opponent == g.opponent
    &&& settled.creator_card == Some(card)
    &&& settled.opponent_card == g.opponent_card
    &&& settled.is_settled
    &&& settled.start_time == g.start_time
    &&& settled.stakes == g.stakes
}

/// The game record when the payout step fails after the creator's card was
/// already drawn: the card stays recorded, nothing else moves, and the game
/// is not settled. This is the observable face of the effect-before-flag
/// ordering that the payout guard protects.
pub open spec fn game_card_drawn(g: Game, drawn: Game, card: u8) -> bool {
    &&& drawn.creator == g.creator
    &&& drawn.bet_amount == g.bet_amount
    &&& drawn.opponent == g.opponent
    &&& drawn.creator_card == Some(card)
    &&& drawn.opponent_card == g.opponent_card
    &&& drawn.is_settled == g.is_settled
    &&& drawn.start_time == g.start_time
    &&& drawn.stakes == g.stakes
}

/// A settlement attempt that failed after drawing the creator's card: the
/// ledger and the markers are untouched; only the card is recorded.
pub open spec fn post_card_only(pre: GameState, post: GameState, card: u8) -> bool {
    &&& post.stakes == pre.stakes
    &&& post.do_not_use == pre.do_not_use
    &&& pre.current_game matches Some(g) && post.current_game matches Some(drawn)
        && game_card_drawn(g, drawn, card)
}

/// Settlement with a sole winner: the whole pot of twice the bet is
/// credited to the winner in one guarded transfer, and the settlement flag
/// is committed after the transfer.
pub open spec fn settle_win(
    pre: GameState,
    post: GameState,
    g: Game,
    winner: Seq<char>,
    card: u8,
    result: Result<(), GameError>,
) -> bool {
    let pot = 2 * (g.bet_amount as int);
    if pot > u64::MAX {
        result == Err::<(), GameError>(GameError::Overflow) && post_card_only(pre, post, card)
    } else if locks_contain(pre.do_not_use@, winner) {
        result == Err::<(), GameError>(GameError::ReentrancyDetected) && post_card_only(
            pre,
            post,
            card,
        )
    } else if pre.stakes.spec_bal(winner) + pot > u64::MAX {
        result == Err::<(), GameError>(GameError::Overflow) && post_card_only(pre, post, card)
    } else {
        &&& result == Ok::<(), GameError>(())
        &&& ledger_updated(
            pre.stakes,
            post.stakes,
            winner,
            (pre.stakes.spec_bal(winner) + pot) as u64,
        )
        &&& post.do_not_use@ == pre.do_not_use@
        &&& post.current_game matches Some(settled) && game_settled_with(g, settled, card)
    }
}

/// Settlement on a tie: each participant gets exactly their bet back.
pub open spec fn settle_draw(
    pre: GameState,
    post: GameState,
    g: Game,
    opponent: Seq<char>,
    card: u8,
    result: Result<(), GameError>,
) -> bool {
    let creator_bal = pre.stakes.spec_bal(g.creator@) as int;
    let opponent_bal = pre.stakes.spec_bal(opponent) as int;
    let bet = g.bet_amount as int;
    if creator_bal + bet > u64::MAX || opponent_bal + bet > u64::MAX {
        result == Err::<(), GameError>(GameError::Overflow) && post_card_only(pre, post, card)
    } else {
        &&& result == Ok::<(), GameError>(())
        &&& post.stakes.wf()
        &&& post.stakes.spec_bal(g.creator@) == creator_bal + bet
        &&& post.stakes.spec_bal(opponent) == opponent_bal + bet
        &&& post.stakes.spec_contains(g.creator@)
        &&& post.stakes.spec_contains(opponent)
        &&& forall|other: Seq<char>|
            other != g.creator@ && other != opponent ==> post.stakes.spec_bal(other)
                == pre.stakes.spec_bal(other)
        &&& forall|other: Seq<char>|
            other != g.creator@ && other != opponent ==> post.stakes.spec_contains(other)
                == pre.stakes.spec_contains(other)
        &&& post.stakes.spec_total() == pre.stakes.spec_total() + 2 * bet
        &&& post.do_not_use == pre.do_not_use
        &&& post.current_game matches Some(settled) && game_settled_with(g, settled, card)
    }
}

/// Effect of a settlement attempt at time `now` with freshly drawn creator
/// card `card`: rejected once settled or past the expiry window (an expired
/// game keeps both debits — a documented defect); otherwise the higher card
/// takes the pot and an equal draw refunds both stakes.
pub open spec fn reveal_at_spec(
    pre: GameState,
    now: u64,
    card: u8,
    post: GameState,
    result: Result<(), GameError>,
) -> bool {
    match pre.current_game {
        None => result == Err::<(), GameError>(GameError::NoActiveGame) && post == pre,
        Some(g) => if g.is_settled {
            result == Err::<(), GameError>(GameError::AlreadySettled) && post == pre
        } else if now > g.start_time + GAME_EXPIRY_SECS {
            result == Err::<(), GameError>(GameError::Expired) && post == pre
        } else {
            match (g.opponent, g.opponent_card) {
                (Some(opp), Some(opponent_card)) => if card > opponent_card {
                    settle_win(pre, post, g, g.creator@, card, result)
                } else if opponent_card > card {
                    settle_win(pre, post, g, opp@, card, result)
                } else {
                    settle_draw(pre, post, g, opp@, card, result)
                },
                _ => true,
            }
        },
    }
}

impl GameState {
    /// An empty session: no game, an empty ledger, no payout marker.
    pub fn new() -> (state: GameState)
        ensures
            state.wf(),
            state.current_game is None,
            state.stakes.entries@ == Seq::<(String, u64)>::empty(),
            state.do_not_use@ == Seq::<String>::empty(),
    {
        GameState { current_game: None, stakes: Ledger::new(), do_not_use: Vec::new() }
    }

    /// Unconditionally frees the game slot and clears the payout markers;
    /// ledger balances persist across games. Callable by anyone in any
    /// state — a documented defect: dropping an active game forfeits the
    /// stakes already held in it.
    pub fn initialize(&mut self)
        ensures
            final(self).current_game is None,
            final(self).stakes == old(self).stakes,
            final(self).do_not_use@ == Seq::<String>::empty(),
            old(self).wf() ==> final(self).wf(),
            final(self).wealth() == old(self).wealth() - old(self).held_in_game(),
    {
        self.current_game = None;
        self.do_not_use = Vec::new();
    }

    /// Deposit: adds `amount` to `user`'s balance. Zero is a legal amount
    /// and succeeds. Fails with `Overflow`, changing nothing, exactly when
    /// the sum would leave the unsigned 64-bit range.
    pub fn stake_tokens(&mut self, user: String, amount: u64) -> (result: Result<(), GameError>)
        requires
            old(self).wf(),
        ensures
            final(self).wf(),
            deposit_spec(*old(self), *final(self), user@, amount, result),
    {
        let current = self.stakes.balance_of(&user);
        match current.checked_add(amount) {
            Some(new_stake) => {
                self.stakes.set_balance(&user, new_stake);
                Ok(())
            },
            None => Err(GameError::Overflow),
        }
    }

    /// Withdrawal: subtracts `amount` from `user`'s balance. Fails with
    /// `UnknownIdentity` when `user` never deposited and with
    /// `InsufficientFunds` when the balance is short; zero succeeds and
    /// changes nothing. No error changes any state.
    pub fn withdraw_stake(&mut self, user: String, amount: u64) -> (result: Result<(), GameError>)
        requires
            old(self).wf(),
        ensures
            final(self).wf(),
            withdraw_spec(*old(self), *final(self), user@, amount, result),
    {
        if !self.stakes.contains(&user) {
            return Err(GameError::UnknownIdentity);
        }
        let current = self.stakes.balance_of(&user);
        if current < amount {
            return Err(GameError::InsufficientFunds);
        }
        self.stakes.set_balance(&user, current - amount);
        Ok(())
    }

    /// Start a game: occupies the slot, debits the bet from the creator and
    /// stamps the game with the host clock's current time.
    pub fn start_game(&mut self, creator: String, bet: u64) -> (result: Result<(), GameError>)
        requires
            old(self).wf(),
        ensures
            final(self).wf(),
            start_spec(*old(self), *final(self), creator@, bet, result),
    {
        if self.current_game.is_some() {
            return Err(GameError::GameInProgress);
        }
        let user_stake = self.stakes.balance_of(&creator);
        if user_stake < bet {
            return Err(GameError::InsufficientStake);
        }
        self.stakes.set_balance(&creator, user_stake - bet);
        let snapshot = self.stakes.duplicate();
        self.current_game = Some(
            Game {
                creator,
                bet_amount: bet,
                opponent: None,
                creator_card: None,
                opponent_card: None,
                is_settled: false,
                start_time: crate::host::get_current_timestamp(),
                stakes: snapshot,
            },
        );
        Ok(())
    }

    /// Join the current game: debits the bet from the opponent, records
    /// them, and immediately draws their card — before the creator's, a
    /// documented asymmetry. Settlement stays a separate step.
    pub fn join_game(&mut self, opponent: String) -> (result: Result<(), GameError>)
        requires
            old(self).wf(),
        ensures
            final(self).wf(),
            join_spec(*old(self), *final(self), opponent@, result),
    {
        let bet: u64;
        match &self.current_game {
            None => {
                return Err(GameError::NoActiveGame);
            },
            Some(game) => {
                if game.opponent.is_some() {
                    return Err(GameError::AlreadyJoined);
                }
                if game.creator == opponent {
                    return Err(GameError::SelfJoin);
                }
                bet = game.bet_amount;
            },
        }
        let user_stake = self.stakes.balance_of(&opponent);
        if user_stake < bet {
            return Err(GameError::InsufficientStake);
        }
        self.stakes.set_balance(&opponent, user_stake - bet);
        let card = crate::host::draw_card();
        match &mut self.current_game {
            Some(game) => {
                game.opponent = Some(opponent);
                game.opponent_card = Some(card);
            },
            None => {
                proof {
                    assert(false);
                }
            },
        }
        Ok(())
    }

    /// Settle at time `now` with the creator's card already drawn: the
    /// deterministic core of `reveal_cards`, verified for every clock value
    /// and every card.
    pub fn reveal_cards_at(&mut self, now: u64, creator_card: u8) -> (result: Result<
        (),
        GameError,
    >)
        requires
            old(self).wf(),
            old(self).reveal_ready_at(now),
            1 <= creator_card <= 13,
        ensures
            final(self).wf(),
            reveal_at_spec(*old(self), now, creator_card, *final(self), result),
    {
        let bet: u64;
        let creator: String;
        let opponent: String;
        let opponent_card: u8;
        match &self.current_game {
            None => {
                return Err(GameError::NoActiveGame);
            },
            Some(game) => {
                if game.is_settled {
                    return Err(GameError::AlreadySettled);
                }
                if now > game.start_time && now - game.start_time > GAME_EXPIRY_SECS {
                    return Err(GameError::Expired);
                }
                bet = game.bet_amount;
                creator = game.creator.clone();
                match (&game.opponent, &game.opponent_card) {
                    (Some(joined), Some(drawn)) => {
                        opponent = joined.clone();
                        opponent_card = *drawn;
                    },
                    _ => {
                        proof {
                            assert(false);
                        }
                        return Err(GameError::NoActiveGame);
                    },
                }
            },
        }
        match &mut self.current_game {
            Some(game) => {
                game.creator_card = Some(creator_card);
            },
            None => {
                proof {
                    assert(false);
                }
            },
        }
        if creator_card > opponent_card || opponent_card > creator_card {
            let winner = if creator_card > opponent_card {
                creator
            } else {
                opponent
            };
            let pot = match bet.checked_mul(2) {
                Some(pot) => pot,
                None => {
                    return Err(GameError::Overflow);
                },
            };
            match self.reentrant_transfer(&winner, pot) {
                Ok(()) => {},
                Err(e) => {
                    return Err(e);
                },
            }
            match &mut self.current_game {
                Some(game) => {
                    game.is_settled = true;
                },
                None => {
                    proof {
                        assert(false);
                    }
                },
            }
            Ok(())
        } else {
            let creator_bal = self.stakes.balance_of(&creator);
            let opponent_bal = self.stakes.balance_of(&opponent);
            let new_creator_bal = match creator_bal.checked_add(bet) {
                Some(v) => v,
                None => {
                    return Err(GameError::Overflow);
                },
            };
            let new_opponent_bal = match opponent_bal.checked_add(bet) {
                Some(v) => v,
                None => {
                    return Err(GameError::Overflow);
                },
            };
            self.stakes.set_balance(&creator, new_creator_bal);
            self.stakes.set_balance(&opponent, new_opponent_bal);
            match &mut self.current_game {
                Some(game) => {
                    game.is_settled = true;
                },
                None => {
                    proof {
                        assert(false);
                    }
                },
            }
            Ok(())
        }
    }

    /// Settle the current game against the host clock, drawing the
    /// creator's card now: compares it to the opponent's already-drawn card
    /// and pays the pot to the winner, or refunds both on a tie. Which
    /// clock value and card the host hands back is unknown, so the effect
    /// is stated for some such pair; `reveal_cards_at` carries the exact
    /// per-value contract.
    pub fn reveal_cards(&mut self) -> (result: Result<(), GameError>)
        requires
            old(self).wf(),
            old(self).reveal_ready(),
        ensures
            final(self).wf(),
            exists|now: u64, card: u8|
                1 <= card <= 13 && reveal_at_spec(*old(self), now, card, *final(self), result),
    {
        let now = crate::host::get_current_timestamp();
        let card = crate::host::draw_card();
        let result = self.reveal_cards_at(now, card);
        proof {
            assert(reveal_at_spec(*old(self), now, card, *self, result));
        }
        result
    }

    /// The guarded payout: sets the marker for `winner`, credits `amount`,
    /// and clears the marker — failing fast with `ReentrancyDetected` when
    /// the marker is already set, instead of paying the same identity
    /// twice. An error changes nothing.
    fn reentrant_transfer(&mut self, winner: &String, amount: u64) -> (result: Result<
        (),
        GameError,
    >)
        requires
            old(self).wf(),
        ensures
            final(self).current_game == old(self).current_game,
            final(self).stakes.wf(),
            match result {
                Ok(()) => {
                    &&& !locks_contain(old(self).do_not_use@, winner@)
                    &&& old(self).stakes.spec_bal(winner@) + amount <= u64::MAX
                    &&& ledger_updated(
                        old(self).stakes,
                        final(self).stakes,
                        winner@,
                        (old(self).stakes.spec_bal(winner@) + amount) as u64,
                    )
                    &&& final(self).do_not_use@ == old(self).do_not_use@
                },
                Err(e) => {
                    &&& final(self).stakes == old(self).stakes
                    &&& final(self).do_not_use == old(self).do_not_use
                    &&& if locks_contain(old(self).do_not_use@, winner@) {
                        e == GameError::ReentrancyDetected
                    } else {
                        e == GameError::Overflow && old(self).stakes.spec_bal(winner@) + amount
                            > u64::MAX
                    }
                },
            },
    {
        if self.lock_contains(winner) {
            return Err(GameError::ReentrancyDetected);
        }
        let current = self.stakes.balance_of(winner);
        let new_balance = match current.checked_add(amount) {
            Some(v) => v,
            None => {
                return Err(GameError::Overflow);
            },
        };
        self.do_not_use.push(winner.clone());
        self.stakes.set_balance(winner, new_balance);
        let _ = self.do_not_use.pop();
        proof {
            assert(self.do_not_use@ =~= old(self).do_not_use@);
        }
        Ok(())
    }

    /// Whether the payout marker for `id` is set.
    fn lock_contains(&self, id: &String) -> (found: bool)
        ensures
            found == locks_contain(self.do_not_use@, id@),
    {
        let mut i: usize = 0;
        while i < self.do_not_use.len()
            invariant
                i <= self.do_not_use@.len(),
                forall|j: int| 0 <= j < i ==> self.do_not_use@[j]@ != id@,
            decreases self.do_not_use@.len() - i,
        {
            let entry = &self.do_not_use[i];
            if *entry == *id {
                return true;
            }
            i = i + 1;
        }
        false
    }
}

} // verus!
