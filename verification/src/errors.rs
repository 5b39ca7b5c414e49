use vstd::prelude::*;

verus! {

/// Typed failure of a raffle operation. Every failure is reported
/// synchronously to the caller and leaves the record unchanged.
#[derive(Clone, Copy, PartialEq, Eq, Structural, Debug)]
pub enum LotteryError {
    /// The lottery has already ended.
    LotteryClosed,
    /// The lottery has not ended yet.
    LotteryNotEnded,
    /// A winner has already been selected.
    WinnerAlreadySelected,
    /// The caller is not the winner.
    NotWinner,
    /// Arithmetic overflow occurred.
    Overflow,
    /// No participants in the lottery.
    NoParticipants,
    /// Maximum participants reached.
    MaxParticipantsReached,
    /// No winner selected.
    NoWinnerSelected,
    /// Randomness data is unavailable.
    RandomnessUnavailable,
    /// Randomness not resolved.
    RandomnessNotResolved,
    /// Invalid winner index.
    InvalidWinnerIndex,
    /// Invalid lottery id.
    InvalidLotteryId,
    /// The lottery creator cannot participate in their own lottery.
    CreatorCannotParticipate,
    /// Invalid lottery state for this operation.
    InvalidLotteryState,
    /// The caller is not authorized for this operation.
    Unauthorized,
}

/// The human-readable text of each failure.
pub open spec fn spec_message(e: LotteryError) -> Seq<char> {
    match e {
        LotteryError::LotteryClosed => "The lottery has already ended."@,
        LotteryError::LotteryNotEnded => "The lottery has not ended yet."@,
        LotteryError::WinnerAlreadySelected => "A winner has already been selected."@,
        LotteryError::NotWinner => "You are not the winner."@,
        LotteryError::Overflow => "Arithmetic overflow occurred."@,
        LotteryError::NoParticipants => "No participants in the lottery."@,
        LotteryError::MaxParticipantsReached => "Maximum participants reached."@,
        LotteryError::NoWinnerSelected => "No winner selected."@,
        LotteryError::RandomnessUnavailable => "Randomness data is unavailable."@,
        LotteryError::RandomnessNotResolved => "Randomness not resolved."@,
        LotteryError::InvalidWinnerIndex => "Invalid winner index."@,
        LotteryError::InvalidLotteryId => "Invalid lottery ID"@,
        LotteryError::CreatorCannotParticipate => "Lottery creator cannot participate in their own lottery"@,
        LotteryError::InvalidLotteryState => "Invalid lottery state for this operation"@,
        LotteryError::Unauthorized => "The caller is not authorized for this operation"@,
    }
}

impl LotteryError {
    /// What a caller may show for this failure.
    pub fn message(&self) -> (m: String)
        ensures
            m@ == spec_message(*self),
    {
        match self {
            LotteryError::LotteryClosed => "The lottery has already ended.".to_owned(),
            LotteryError::LotteryNotEnded => "The lottery has not ended yet.".to_owned(),
            LotteryError::WinnerAlreadySelected => "A winner has already been selected.".to_owned(),
            LotteryError::NotWinner => "You are not the winner.".to_owned(),
            LotteryError::Overflow => "Arithmetic overflow occurred.".to_owned(),
            LotteryError::NoParticipants => "No participants in the lottery.".to_owned(),
            LotteryError::MaxParticipantsReached => "Maximum participants reached.".to_owned(),
            LotteryError::NoWinnerSelected => "No winner selected.".to_owned(),
            LotteryError::RandomnessUnavailable => "Randomness data is unavailable.".to_owned(),
            LotteryError::RandomnessNotResolved => "Randomness not resolved.".to_owned(),
            LotteryError::InvalidWinnerIndex => "Invalid winner index.".to_owned(),
            LotteryError::InvalidLotteryId => "Invalid lottery ID".to_owned(),
            LotteryError::CreatorCannotParticipate => "Lottery creator cannot participate in their own lottery".to_owned(),
            LotteryError::InvalidLotteryState => "Invalid lottery state for this operation".to_owned(),
            LotteryError::Unauthorized => "The caller is not authorized for this operation".to_owned(),
        }
    }
}

} // verus!
