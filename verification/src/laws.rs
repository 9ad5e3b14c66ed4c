use vstd::prelude::*;
use crate::errors::GameError;
use crate::game::GameState;
use crate::game::deposit_spec;
use crate::game::withdraw_spec;
use crate::game::start_spec;
use crate::game::join_spec;
use crate::game::reveal_at_spec;
use crate::game::GAME_EXPIRY_SECS;

verus! {

/// Conservation under deposits: a successful deposit raises the wealth —
/// every balance plus whatever an unsettled game holds — by exactly the
/// amount, and a failed one leaves it untouched.
pub proof fn lemma_conservation_deposit(
    pre: GameState,
    post: GameState,
    user: Seq<char>,
    amount: u64,
    result: Result<(), GameError>,
)
    requires
        deposit_spec(pre, post, user, amount, result),
    ensures
        result is Ok ==> post.wealth() == pre.wealth() + amount,
        result is Err ==> post.wealth() == pre.wealth(),
{
}

/// Conservation under withdrawals: a successful withdrawal lowers the
/// wealth by exactly the amount, and a failed one leaves it untouched.
pub proof fn lemma_conservation_withdraw(
    pre: GameState,
    post: GameState,
    user: Seq<char>,
    amount: u64,
    result: Result<(), GameError>,
)
    requires
        withdraw_spec(pre, post, user, amount, result),
    ensures
        result is Ok ==> post.wealth() == pre.wealth() - amount,
        result is Err ==> post.wealth() == pre.wealth(),
{
}

/// Conservation under `start_game`: the bet leaves the creator's balance
/// and is held in the game, so the wealth never moves.
pub proof fn lemma_conservation_start(
    pre: GameState,
    post: GameState,
    creator: Seq<char>,
    bet: u64,
    result: Result<(), GameError>,
)
    requires
        start_spec(pre, post, creator, bet, result),
    ensures
        post.wealth() == pre.wealth(),
{
}

/// Conservation under `join_game`: the opponent's bet moves from their
/// balance into the game, so the wealth never moves.
pub proof fn lemma_conservation_join(
    pre: GameState,
    post: GameState,
    opponent: Seq<char>,
    result: Result<(), GameError>,
)
    requires
        pre.wf(),
        join_spec(pre, post, opponent, result),
    ensures
        post.wealth() == pre.wealth(),
{
}

/// Conservation under settlement: a win pays the whole pot back out, a tie
/// refunds both stakes, and every failure leaves the ledger alone — the
/// wealth never moves, whatever the clock and the cards.
pub proof fn lemma_conservation_reveal(
    pre: GameState,
    post: GameState,
    now: u64,
    card: u8,
    result: Result<(), GameError>,
)
    requires
        pre.wf(),
        pre.reveal_ready_at(now),
        reveal_at_spec(pre, now, card, post, result),
    ensures
        post.wealth() == pre.wealth(),
{
}

/// One step of a run: the operation that relates a state to its successor,
/// with the inputs it was given. Settlement steps carry the clock value
/// and the creator's drawn card.
pub enum Action {
    Deposit { user: Seq<char>, amount: u64 },
    Withdraw { user: Seq<char>, amount: u64 },
    Start { creator: Seq<char>, bet: u64 },
    Join { opponent: Seq<char> },
    Reveal { now: u64, card: u8 },
}

/// Whether `action` takes `pre` to `post` with `result`.
pub open spec fn action_step(
    pre: GameState,
    post: GameState,
    action: Action,
    result: Result<(), GameError>,
) -> bool {
    match action {
        Action::Deposit { user, amount } => deposit_spec(pre, post, user, amount, result),
        Action::Withdraw { user, amount } => withdraw_spec(pre, post, user, amount, result),
        Action::Start { creator, bet } => start_spec(pre, post, creator, bet, result),
        Action::Join { opponent } => join_spec(pre, post, opponent, result),
        Action::Reveal { now, card } => pre.reveal_ready_at(now) && reveal_at_spec(
            pre,
            now,
            card,
            post,
            result,
        ),
    }
}

/// What one step contributes to the wealth: the amount of a successful
/// deposit, the negated amount of a successful withdrawal, and nothing for
/// any game transition or any failure.
pub open spec fn action_delta(action: Action, result: Result<(), GameError>) -> int {
    match action {
        Action::Deposit { amount, .. } => if result is Ok {
            amount as int
        } else {
            0
        },
        Action::Withdraw { amount, .. } => if result is Ok {
            -(amount as int)
        } else {
            0
        },
        _ => 0,
    }
}

/// A run: `states` strung together step by step by `actions` with
/// `results`, every visited state well-formed.
pub open spec fn run(
    states: Seq<GameState>,
    actions: Seq<Action>,
    results: Seq<Result<(), GameError>>,
) -> bool {
    &&& states.len() == actions.len() + 1
    &&& results.len() == actions.len()
    &&& forall|i: int|
        0 <= i < actions.len() ==> states[i].wf() && action_step(
            states[i],
            states[i + 1],
            actions[i],
            results[i],
        )
}

/// Everything deposited minus everything withdrawn over a run.
pub open spec fn net_flow(actions: Seq<Action>, results: Seq<Result<(), GameError>>) -> int
    decreases actions.len(),
{
    if actions.len() == 0 {
        0
    } else {
        net_flow(actions.drop_last(), results.drop_last()) + action_delta(
            actions.last(),
            results.last(),
        )
    }
}

/// Conservation: over any sequence of deposits, withdrawals and game
/// transitions — every operation but `initialize`, whose forfeit of the
/// held stakes is stated on `initialize` itself — the final wealth equals
/// the initial wealth plus all deposits minus all withdrawals, whatever
/// each step returned.
pub proof fn lemma_conservation_run(
    states: Seq<GameState>,
    actions: Seq<Action>,
    results: Seq<Result<(), GameError>>,
)
    requires
        run(states, actions, results),
    ensures
        states.last().wealth() == states.first().wealth() + net_flow(actions, results),
{
    lemma_conservation_run_to(states, actions, results, actions.len() as int);
    assert(actions.subrange(0, actions.len() as int) =~= actions);
    assert(results.subrange(0, results.len() as int) =~= results);
}

/// Conservation up to step `k` of a run, by induction on `k`.
proof fn lemma_conservation_run_to(
    states: Seq<GameState>,
    actions: Seq<Action>,
    results: Seq<Result<(), GameError>>,
    k: int,
)
    requires
        run(states, actions, results),
        0 <= k <= actions.len(),
    ensures
        states[k].wealth() == states[0].wealth() + net_flow(
            actions.subrange(0, k),
            results.subrange(0, k),
        ),
    decreases k,
{
    if k > 0 {
        lemma_conservation_run_to(states, actions, results, k - 1);
        assert(actions.subrange(0, k).drop_last() =~= actions.subrange(0, k - 1));
        assert(results.subrange(0, k).drop_last() =~= results.subrange(0, k - 1));
        assert(actions.subrange(0, k).last() == actions[k - 1]);
        assert(results.subrange(0, k).last() == results[k - 1]);
        let pre = states[k - 1];
        let post = states[k];
        assert(pre.wf() && action_step(pre, post, actions[k - 1], results[k - 1]));
        match actions[k - 1] {
            Action::Deposit { user, amount } => lemma_conservation_deposit(
                pre,
                post,
                user,
                amount,
                results[k - 1],
            ),
            Action::Withdraw { user, amount } => lemma_conservation_withdraw(
                pre,
                post,
                user,
                amount,
                results[k - 1],
            ),
            Action::Start { creator, bet } => lemma_conservation_start(
                pre,
                post,
                creator,
                bet,
                results[k - 1],
            ),
            Action::Join { opponent } => lemma_conservation_join(
                pre,
                post,
                opponent,
                results[k - 1],
            ),
            Action::Reveal { now, card } => lemma_conservation_reveal(
                pre,
                post,
                now,
                card,
                results[k - 1],
            ),
        }
    }
}

/// A settled game is terminal: no operation but `initialize` ever changes
/// the game record again.
pub proof fn lemma_settled_is_terminal(
    pre: GameState,
    post: GameState,
    action: Action,
    result: Result<(), GameError>,
)
    requires
        pre.wf(),
        pre.current_game matches Some(g) && g.is_settled,
        action_step(pre, post, action, result),
    ensures
        post.current_game == pre.current_game,
{
}

/// Exclusivity: while the game slot is occupied — settled or not — any
/// further `start_game` fails with `GameInProgress` and changes nothing.
/// No operation but `initialize` ever frees the slot (see
/// `lemma_game_slot_persists`), so this holds for every start attempted
/// after a successful one with no `initialize` in between.
pub proof fn lemma_exclusivity(
    pre: GameState,
    post: GameState,
    creator: Seq<char>,
    bet: u64,
    result: Result<(), GameError>,
)
    requires
        pre.current_game is Some,
        start_spec(pre, post, creator, bet, result),
    ensures
        result == Err::<(), GameError>(GameError::GameInProgress),
        post == pre,
{
}

/// The game slot survives every operation except `initialize`: deposits,
/// withdrawals, joins and settlement attempts never empty it.
pub proof fn lemma_game_slot_persists(
    pre: GameState,
    post: GameState,
    id: Seq<char>,
    amount: u64,
    now: u64,
    card: u8,
    result: Result<(), GameError>,
)
    requires
        pre.current_game is Some,
        deposit_spec(pre, post, id, amount, result) || withdraw_spec(
            pre,
            post,
            id,
            amount,
            result,
        ) || join_spec(pre, post, id, result) || (pre.wf() && pre.reveal_ready_at(now)
            && reveal_at_spec(pre, now, card, post, result)),
    ensures
        post.current_game is Some,
{
}

/// No self-play: when the joining identity equals the creator of the open
/// game, `join_game` fails with `SelfJoin` and changes nothing.
pub proof fn lemma_no_self_play(
    pre: GameState,
    post: GameState,
    opponent: Seq<char>,
    result: Result<(), GameError>,
)
    requires
        join_spec(pre, post, opponent, result),
        pre.current_game matches Some(g) && g.opponent is None && g.creator@ == opponent,
    ensures
        result == Err::<(), GameError>(GameError::SelfJoin),
        post == pre,
{
}

/// Idempotent settlement: after one settlement succeeds, every further
/// attempt — at any clock value, with any card — fails with
/// `AlreadySettled` and produces no change at all, ledger included.
pub proof fn lemma_idempotent_settlement(
    pre: GameState,
    mid: GameState,
    post: GameState,
    now1: u64,
    card1: u8,
    now2: u64,
    card2: u8,
    result: Result<(), GameError>,
)
    requires
        pre.wf(),
        pre.reveal_ready_at(now1),
        reveal_at_spec(pre, now1, card1, mid, Ok(())),
        reveal_at_spec(mid, now2, card2, post, result),
    ensures
        result == Err::<(), GameError>(GameError::AlreadySettled),
        post == mid,
{
}

/// Draw refund: when a started and joined game settles on equal cards,
/// both participants end with exactly their pre-game balances.
pub proof fn lemma_draw_refund(
    s0: GameState,
    s1: GameState,
    s2: GameState,
    s3: GameState,
    creator: Seq<char>,
    opponent: Seq<char>,
    bet: u64,
    now: u64,
    card: u8,
)
    requires
        start_spec(s0, s1, creator, bet, Ok(())),
        join_spec(s1, s2, opponent, Ok(())),
        s2.current_game matches Some(g) && g.opponent_card == Some(card),
        reveal_at_spec(s2, now, card, s3, Ok(())),
    ensures
        s3.stakes.spec_bal(creator) == s0.stakes.spec_bal(creator),
        s3.stakes.spec_bal(opponent) == s0.stakes.spec_bal(opponent),
{
}

/// Expiry loss: settling a started and joined game after the expiry window
/// fails with `Expired` and changes nothing, so both bets stay debited —
/// each participant is left exactly one bet below their pre-game balance
/// (a documented defect: no refund accompanies expiry).
pub proof fn lemma_expiry_loss(
    s0: GameState,
    s1: GameState,
    s2: GameState,
    s3: GameState,
    creator: Seq<char>,
    opponent: Seq<char>,
    bet: u64,
    now: u64,
    card: u8,
    result: Result<(), GameError>,
)
    requires
        start_spec(s0, s1, creator, bet, Ok(())),
        join_spec(s1, s2, opponent, Ok(())),
        s2.current_game matches Some(g) && now > g.start_time + GAME_EXPIRY_SECS,
        reveal_at_spec(s2, now, card, s3, result),
    ensures
        result == Err::<(), GameError>(GameError::Expired),
        s3 == s2,
        s3.stakes.spec_bal(creator) == s0.stakes.spec_bal(creator) - bet,
        s3.stakes.spec_bal(opponent) == s0.stakes.spec_bal(opponent) - bet,
{
}

/// Withdrawal bound: a withdrawal above the recorded balance fails with
/// `InsufficientFunds` and changes nothing; a zero withdrawal from a known
/// identity succeeds and leaves every balance as it was.
pub proof fn lemma_withdrawal_bound(
    pre: GameState,
    post: GameState,
    user: Seq<char>,
    amount: u64,
    result: Result<(), GameError>,
)
    requires
        withdraw_spec(pre, post, user, amount, result),
        pre.stakes.spec_contains(user),
    ensures
        amount > pre.stakes.spec_bal(user) ==> result == Err::<(), GameError>(
            GameError::InsufficientFunds,
        ) && post == pre,
        amount == 0 ==> result == Ok::<(), GameError>(()) && post.stakes.spec_bal(user)
            == pre.stakes.spec_bal(user) && post.stakes.spec_total() == pre.stakes.spec_total()
            && (forall|other: Seq<char>|
            other != user ==> post.stakes.spec_bal(other) == pre.stakes.spec_bal(other)),
{
}

} // verus!
