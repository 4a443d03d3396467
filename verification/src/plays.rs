//! Plays of a game: the reasons runners move, the credits of fielders, replay reviews, and the
//! indices a play-by-play response uses to pick scoring plays and the plays of each inning.

use vstd::prelude::*;
use crate::ids::{PersonId, PositionCode, ReviewReasonId, TeamId};
use crate::types::Copyright;
use crate::game::Base;

verus! {

/// The plays of a game, with the indices of its scoring plays and of the plays of each inning.
/// `P` is the type of a play.
#[derive(Debug, Clone)]
pub struct Plays<P> {
    pub copyright: Copyright,
    pub plays: Vec<P>,
    /// The current play, apart from the list of plays.
    pub current_play: Option<P>,
    pub scoring_play_indices: Vec<usize>,
    pub play_indices_by_inning: Vec<InningPlaysIndices>,
}

/// The indices of the plays of one inning: all of them, from `start` to `end`, and those of
/// each half.
#[derive(Debug, Clone)]
pub struct InningPlaysIndices {
    pub start: usize,
    pub end: usize,
    pub top_indices: Vec<usize>,
    pub bottom_indices: Vec<usize>,
}

/// The plays at the given indices, in the order of the indices, leaving out the indices past
/// the end of the list.
pub open spec fn picked<P>(plays: Seq<P>, indices: Seq<usize>) -> Seq<P>
    decreases indices.len(),
{
    if indices.len() == 0 {
        Seq::empty()
    } else {
        let rest = picked(plays, indices.drop_last());
        if indices.last() < plays.len() {
            rest.push(plays[indices.last() as int])
        } else {
            rest
        }
    }
}

/// The plays from index `start` to index `end`, both included, that are in the list.
pub open spec fn plays_between<P>(plays: Seq<P>, start: int, end: int) -> Seq<P> {
    let hi = if end + 1 < plays.len() {
        end + 1
    } else {
        plays.len() as int
    };
    if start < hi {
        plays.subrange(start, hi)
    } else {
        Seq::empty()
    }
}

/// The values behind a list of references.
pub open spec fn derefs<P>(refs: Seq<&P>) -> Seq<P> {
    refs.map_values(|r: &P| *r)
}

impl<P> Plays<P> {
    /// The plays at the given indices, in their order, leaving out the indices past the end.
    pub fn plays_at<'a>(&'a self, indices: &Vec<usize>) -> (res: Vec<&'a P>)
        ensures
            derefs(res@) == picked(self.plays@, indices@),
    {
        let mut res: Vec<&'a P> = Vec::new();
        let n = indices.len();
        for i in 0..n
            invariant
                n == indices.len(),
                derefs(res@) == picked(self.plays@, indices@.take(i as int)),
        {
            assert(indices@.take(i + 1).drop_last() =~= indices@.take(i as int));
            let idx = indices[i];
            if idx < self.plays.len() {
                res.push(&self.plays[idx]);
            }
            assert(derefs(res@) =~= picked(self.plays@, indices@.take(i + 1)));
        }
        assert(indices@.take(n as int) =~= indices@);
        res
    }

    /// The scoring plays, in the order the response lists them.
    pub fn scoring_plays(&self) -> (res: Vec<&P>)
        ensures
            derefs(res@) == picked(self.plays@, self.scoring_play_indices@),
    {
        self.plays_at(&self.scoring_play_indices)
    }

    /// The plays of each inning: those from the inning's first index to its last, both
    /// included, that are in the list.
    pub fn by_inning(&self) -> (res: Vec<Vec<&P>>)
        ensures
            res@.len() == self.play_indices_by_inning@.len(),
            forall|k: int|
                0 <= k < res@.len() ==> derefs(#[trigger] res@[k]@) == plays_between(
                    self.plays@,
                    self.play_indices_by_inning@[k].start as int,
                    self.play_indices_by_inning@[k].end as int,
                ),
    {
        let mut res: Vec<Vec<&P>> = Vec::new();
        let n = self.play_indices_by_inning.len();
        for k in 0..n
            invariant
                n == self.play_indices_by_inning@.len(),
                res@.len() == k,
                forall|j: int|
                    0 <= j < k ==> derefs(#[trigger] res@[j]@) == plays_between(
                        self.plays@,
                        self.play_indices_by_inning@[j].start as int,
                        self.play_indices_by_inning@[j].end as int,
                    ),
        {
            let inning = &self.play_indices_by_inning[k];
            let len = self.plays.len();
            let hi = if inning.end < len {
                inning.end + 1
            } else {
                len
            };
            let mut these: Vec<&P> = Vec::new();
            if inning.start < hi {
                let mut i = inning.start;
                assert(derefs(these@) =~= self.plays@.subrange(inning.start as int, i as int));
                while i < hi
                    invariant
                        inning.start <= i <= hi,
                        hi <= len,
                        len == self.plays@.len(),
                        derefs(these@) == self.plays@.subrange(inning.start as int, i as int),
                    decreases hi - i,
                {
                    let ghost before = these@;
                    these.push(&self.plays[i]);
                    assert(derefs(these@) =~= derefs(before).push(self.plays@[i as int]));
                    i = i + 1;
                    assert(derefs(these@) =~= self.plays@.subrange(inning.start as int, i as int));
                }
            }
            assert(derefs(these@) =~= plays_between(self.plays@, inning.start as int, inning.end as int));
            res.push(these);
        }
        res
    }

    /// The plays of each half of each inning: the top half, then the bottom half.
    pub fn by_inning_halves(&self) -> (res: Vec<(Vec<&P>, Vec<&P>)>)
        ensures
            res@.len() == self.play_indices_by_inning@.len(),
            forall|k: int|
                0 <= k < res@.len() ==> derefs((#[trigger] res@[k]).0@) == picked(
                    self.plays@,
                    self.play_indices_by_inning@[k].top_indices@,
                ) && derefs(res@[k].1@) == picked(self.plays@, self.play_indices_by_inning@[k].bottom_indices@),
    {
        let mut res: Vec<(Vec<&P>, Vec<&P>)> = Vec::new();
        let n = self.play_indices_by_inning.len();
        for k in 0..n
            invariant
                n == self.play_indices_by_inning@.len(),
                res@.len() == k,
                forall|j: int|
                    0 <= j < k ==> derefs((#[trigger] res@[j]).0@) == picked(
                        self.plays@,
                        self.play_indices_by_inning@[j].top_indices@,
                    ) && derefs(res@[j].1@) == picked(self.plays@, self.play_indices_by_inning@[j].bottom_indices@),
        {
            let inning = &self.play_indices_by_inning[k];
            let top = self.plays_at(&inning.top_indices);
            let bottom = self.plays_at(&inning.bottom_indices);
            res.push((top, bottom));
        }
        res
    }

    /// The list of plays.
    pub fn into_plays(self) -> (res: Vec<P>)
        ensures
            res@ == self.plays@,
    {
        self.plays
    }
}

/// Why a runner moved.
#[derive(Debug, PartialEq, Eq, Structural, Copy, Clone)]
pub enum MovementReason {
    AdvancementUnforced,
    AdancementForced,
    AdvancementThrow,
    DoubledOff,
    ThrownOut,
    CalledOutReturning,
    ForceOut,
    RunnerCalledOut,
    DefensiveIndifference,
    Rundown,
    OutStretching,
    StolenBase2B,
    StolenBase3B,
    StolenBaseHome,
    CaughtStealing2B,
    CaughtStealing3B,
    CaughtStealingHome,
    Pickoff1B,
    Pickoff2B,
    Pickoff3B,
    PickoffError1B,
    PickoffError2B,
    PickoffError3B,
    PickoffCaughtStealing2B,
    PickoffCaughtStealing3B,
    PickoffCaughtStealingHome,
    Interference,
    HitByBall,
}

/// Whether a movement is a pickoff.
pub open spec fn is_pickoff_spec(m: MovementReason) -> bool {
    match m {
        MovementReason::Pickoff1B | MovementReason::Pickoff2B | MovementReason::Pickoff3B
        | MovementReason::PickoffError1B | MovementReason::PickoffError2B | MovementReason::PickoffError3B
        | MovementReason::PickoffCaughtStealing2B | MovementReason::PickoffCaughtStealing3B
        | MovementReason::PickoffCaughtStealingHome => true,
        _ => false,
    }
}

/// Whether a movement is an attempt to steal a base.
pub open spec fn is_stolen_base_attempt_spec(m: MovementReason) -> bool {
    match m {
        MovementReason::StolenBase2B | MovementReason::StolenBase3B | MovementReason::StolenBaseHome
        | MovementReason::CaughtStealing2B | MovementReason::CaughtStealing3B
        | MovementReason::CaughtStealingHome | MovementReason::PickoffCaughtStealing2B
        | MovementReason::PickoffCaughtStealing3B | MovementReason::PickoffCaughtStealingHome => true,
        _ => false,
    }
}

/// Whether a movement is a stolen base.
pub open spec fn is_stolen_base_spec(m: MovementReason) -> bool {
    match m {
        MovementReason::StolenBase2B | MovementReason::StolenBase3B | MovementReason::StolenBaseHome => true,
        _ => false,
    }
}

impl MovementReason {
    /// Whether the movement is a pickoff: a successful one, one with an error, or one that
    /// catches the runner stealing.
    pub fn is_pickoff(self) -> (res: bool)
        ensures
            res == is_pickoff_spec(self),
    {
        match self {
            MovementReason::Pickoff1B | MovementReason::Pickoff2B | MovementReason::Pickoff3B
            | MovementReason::PickoffError1B | MovementReason::PickoffError2B | MovementReason::PickoffError3B
            | MovementReason::PickoffCaughtStealing2B | MovementReason::PickoffCaughtStealing3B
            | MovementReason::PickoffCaughtStealingHome => true,
            _ => false,
        }
    }

    /// Whether the movement is an attempt to steal a base: a stolen base, or a runner caught
    /// stealing, picked off or not.
    pub fn is_stolen_base_attempt(self) -> (res: bool)
        ensures
            res == is_stolen_base_attempt_spec(self),
    {
        match self {
            MovementReason::StolenBase2B | MovementReason::StolenBase3B | MovementReason::StolenBaseHome
            | MovementReason::CaughtStealing2B | MovementReason::CaughtStealing3B
            | MovementReason::CaughtStealingHome | MovementReason::PickoffCaughtStealing2B
            | MovementReason::PickoffCaughtStealing3B | MovementReason::PickoffCaughtStealingHome => true,
            _ => false,
        }
    }

    /// Whether the movement is a stolen base.
    pub fn is_stolen_base(self) -> (res: bool)
        ensures
            res == is_stolen_base_spec(self),
    {
        match self {
            MovementReason::StolenBase2B | MovementReason::StolenBase3B | MovementReason::StolenBaseHome => true,
            _ => false,
        }
    }
}

/// A stolen base is an attempt to steal, and no pickoff; a movement that is both a pickoff
/// and an attempt to steal is a pickoff that caught the runner stealing.
pub proof fn lemma_movement_kinds(m: MovementReason)
    ensures
        is_stolen_base_spec(m) ==> is_stolen_base_attempt_spec(m),
        is_stolen_base_spec(m) ==> !is_pickoff_spec(m),
        is_pickoff_spec(m) && is_stolen_base_attempt_spec(m) <==> (m == MovementReason::PickoffCaughtStealing2B
            || m == MovementReason::PickoffCaughtStealing3B || m == MovementReason::PickoffCaughtStealingHome),
{
}

/// What a fielder is credited with on a play.
#[derive(Debug, PartialEq, Eq, Structural, Copy, Clone)]
pub enum CreditKind {
    Putout,
    Assist,
    OutfieldAssist,
    /// The fielder fielded the ball, with no out.
    FieldedBall,
    FieldingError,
    ThrowingError,
    Deflection,
    /// The fielder touched the ball, without deflecting it.
    Touch,
    DroppedBallError,
    DefensiveShiftViolation,
    Interference,
    CatchersInterference,
}

/// How a movement reason is displayed.
pub open spec fn movement_reason_text(m: MovementReason) -> Seq<char> {
    match m {
        MovementReason::AdvancementUnforced => "Unforced Base Advancement"@,
        MovementReason::AdancementForced => "Forced Base Advancement"@,
        MovementReason::AdvancementThrow => "Advancement from Throw"@,
        MovementReason::DoubledOff => "Doubled Off"@,
        MovementReason::ThrownOut => "Thrown Out"@,
        MovementReason::CalledOutReturning => "Called Out Returning"@,
        MovementReason::ForceOut => "Forced Out"@,
        MovementReason::RunnerCalledOut => "Runner Called Out"@,
        MovementReason::DefensiveIndifference => "Defensive Indifference"@,
        MovementReason::Rundown => "Rundown"@,
        MovementReason::OutStretching => "Out Stretching"@,
        MovementReason::StolenBase2B => "Stolen Base (2B)"@,
        MovementReason::StolenBase3B => "Stolen Base (3B)"@,
        MovementReason::StolenBaseHome => "Stolen Base (HP)"@,
        MovementReason::CaughtStealing2B => "Caught Stealing (2B)"@,
        MovementReason::CaughtStealing3B => "Caught Stealing (3B)"@,
        MovementReason::CaughtStealingHome => "Caught Stealing (HP)"@,
        MovementReason::Pickoff1B => "Pickoff (1B)"@,
        MovementReason::Pickoff2B => "Pickoff (2B)"@,
        MovementReason::Pickoff3B => "Pickoff (3B)"@,
        MovementReason::PickoffError1B => "Pickoff (Error) (1B)"@,
        MovementReason::PickoffError2B => "Pickoff (Error) (2B)"@,
        MovementReason::PickoffError3B => "Pickoff (Error) (3B)"@,
        MovementReason::PickoffCaughtStealing2B => "Pickoff (Caught Stealing) (2B)"@,
        MovementReason::PickoffCaughtStealing3B => "Pickoff (Caught Stealing) (3B)"@,
        MovementReason::PickoffCaughtStealingHome => "Pickoff (Caught Stealing) (HP)"@,
        MovementReason::Interference => "Interference"@,
        MovementReason::HitByBall => "Hit By Ball"@,
    }
}

impl MovementReason {
    /// How the movement reason is displayed, such as `Forced Base Advancement`.
    pub fn to_string(&self) -> (res: &'static str)
        ensures
            res@ == movement_reason_text(*self),
    {
        match self {
            MovementReason::AdvancementUnforced => "Unforced Base Advancement",
            MovementReason::AdancementForced => "Forced Base Advancement",
            MovementReason::AdvancementThrow => "Advancement from Throw",
            MovementReason::DoubledOff => "Doubled Off",
            MovementReason::ThrownOut => "Thrown Out",
            MovementReason::CalledOutReturning => "Called Out Returning",
            MovementReason::ForceOut => "Forced Out",
            MovementReason::RunnerCalledOut => "Runner Called Out",
            MovementReason::DefensiveIndifference => "Defensive Indifference",
            MovementReason::Rundown => "Rundown",
            MovementReason::OutStretching => "Out Stretching",
            MovementReason::StolenBase2B => "Stolen Base (2B)",
            MovementReason::StolenBase3B => "Stolen Base (3B)",
            MovementReason::StolenBaseHome => "Stolen Base (HP)",
            MovementReason::CaughtStealing2B => "Caught Stealing (2B)",
            MovementReason::CaughtStealing3B => "Caught Stealing (3B)",
            MovementReason::CaughtStealingHome => "Caught Stealing (HP)",
            MovementReason::Pickoff1B => "Pickoff (1B)",
            MovementReason::Pickoff2B => "Pickoff (2B)",
            MovementReason::Pickoff3B => "Pickoff (3B)",
            MovementReason::PickoffError1B => "Pickoff (Error) (1B)",
            MovementReason::PickoffError2B => "Pickoff (Error) (2B)",
            MovementReason::PickoffError3B => "Pickoff (Error) (3B)",
            MovementReason::PickoffCaughtStealing2B => "Pickoff (Caught Stealing) (2B)",
            MovementReason::PickoffCaughtStealing3B => "Pickoff (Caught Stealing) (3B)",
            MovementReason::PickoffCaughtStealingHome => "Pickoff (Caught Stealing) (HP)",
            MovementReason::Interference => "Interference",
            MovementReason::HitByBall => "Hit By Ball",
        }
    }
}

/// How a credit is displayed.
pub open spec fn credit_kind_text(m: CreditKind) -> Seq<char> {
    match m {
        CreditKind::Putout => "Putout"@,
        CreditKind::Assist => "Assist"@,
        CreditKind::OutfieldAssist => "Outfield Assist"@,
        CreditKind::FieldedBall => "Fielded Ball"@,
        CreditKind::FieldingError => "Fielding Error"@,
        CreditKind::ThrowingError => "Throwing Error"@,
        CreditKind::Deflection => "Deflection"@,
        CreditKind::Touch => "Touch"@,
        CreditKind::DroppedBallError => "Dropped Ball Error"@,
        CreditKind::DefensiveShiftViolation => "Defensive Shift Violation"@,
        CreditKind::Interference => "Interference"@,
        CreditKind::CatchersInterference => "Catcher's Interference"@,
    }
}

impl CreditKind {
    /// How the credit is displayed, such as `Assist`.
    pub fn to_string(&self) -> (res: &'static str)
        ensures
            res@ == credit_kind_text(*self),
    {
        match self {
            CreditKind::Putout => "Putout",
            CreditKind::Assist => "Assist",
            CreditKind::OutfieldAssist => "Outfield Assist",
            CreditKind::FieldedBall => "Fielded Ball",
            CreditKind::FieldingError => "Fielding Error",
            CreditKind::ThrowingError => "Throwing Error",
            CreditKind::Deflection => "Deflection",
            CreditKind::Touch => "Touch",
            CreditKind::DroppedBallError => "Dropped Ball Error",
            CreditKind::DefensiveShiftViolation => "Defensive Shift Violation",
            CreditKind::Interference => "Interference",
            CreditKind::CatchersInterference => "Catcher's Interference",
        }
    }
}

/// A credit of a fielder on a runner's movement.
#[derive(Debug, Clone)]
pub struct RunnerCredit {
    pub player: PersonId,
    pub position: PositionCode,
    pub credit: CreditKind,
}

/// The bases of a runner's movement on a play.
#[derive(Debug, PartialEq, Eq, Structural, Copy, Clone)]
pub struct RunnerMovement {
    /// Where the runner was at the start of the play; `None` if not on base.
    pub origin_base: Option<Base>,
    pub start_base: Option<Base>,
    /// The last base the runner is safe at; `None` if never safe.
    pub end_base: Option<Base>,
    /// The base the runner is out at; `None` if never out.
    pub out_base: Option<Base>,
    pub is_out: bool,
    /// The ordinal of the out in the game, 1 to 3, where the runner is out.
    pub out_number: Option<usize>,
}

/// What a completed play was.
#[derive(Debug, Clone)]
pub struct CompletedPlayDetails {
    pub event: String,
    pub description: String,
    pub rbi: usize,
    pub is_out: bool,
}

/// The batter, pitcher and men-on-base splits of a matchup.
#[derive(Debug, Clone)]
pub struct ApplicablePlayMatchupSplits {
    pub batter: String,
    pub pitcher: String,
    pub men_on_base: String,
}

/// A replay review of a play or a play event.
#[derive(Debug, Clone)]
pub struct ReviewData {
    pub is_overturned: bool,
    pub is_in_progress: bool,
    pub review_type: ReviewReasonId,
    /// `None` for a crew chief review.
    pub challenging_team: Option<TeamId>,
    /// The player who challenged, for ABS challenges.
    pub player: Option<PersonId>,
}

/// The reviews of a play: the first review, then the additional ones in their order.
pub fn merge_review_data(base: ReviewData, additional_reviews: Vec<ReviewData>) -> (res: Vec<ReviewData>)
    ensures
        res@ == seq![base] + additional_reviews@,
{
    let mut additional_reviews = additional_reviews;
    additional_reviews.insert(0, base);
    additional_reviews
}

} // verus!
