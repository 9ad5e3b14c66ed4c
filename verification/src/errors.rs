use vstd::prelude::*;

verus! {

/// Everything that can go wrong in the ledger or in a game transition.
/// Every operation reports failure through one of these; none aborts.
#[derive(Clone, Copy, Debug, PartialEq, Eq, Structural)]
pub enum GameError {
    /// `start_game` while the game slot is occupied.
    GameInProgress,
    /// `join_game` or `reveal_cards` while the game slot is empty.
    NoActiveGame,
    /// `join_game` after an opponent has already joined.
    AlreadyJoined,
    /// `join_game` by the game's own creator.
    SelfJoin,
    /// `reveal_cards` after the game has been settled.
    AlreadySettled,
    /// `reveal_cards` more than ten minutes after the game started.
    Expired,
    /// A participant's balance does not cover the bet.
    InsufficientStake,
    /// A withdrawal larger than the available balance.
    InsufficientFunds,
    /// A withdrawal for an identity that never deposited.
    UnknownIdentity,
    /// Checked arithmetic on a balance would leave the unsigned 64-bit range.
    Overflow,
    /// A payout was attempted while a payout to the same identity was
    /// already marked as running.
    ReentrancyDetected,
}

} // verus!
