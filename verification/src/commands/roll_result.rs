use core::cmp::Ordering;
use vstd::prelude::*;

verus! {

/// The outcome of one side of an opposed roll, with the characteristic it was rolled against.
#[derive(PartialEq, Eq, Structural, Clone, Copy, Debug)]
pub enum RollResult {
    ExtremeSuccess(i32),
    HardSuccess(i32),
    Success(i32),
    Failure(i32),
}

impl RollResult {
    /// How good the outcome is: extreme 3, hard 2, regular 1, failure 0.
    pub open spec fn rank(self) -> int {
        match self {
            RollResult::ExtremeSuccess(_) => 3,
            RollResult::HardSuccess(_) => 2,
            RollResult::Success(_) => 1,
            RollResult::Failure(_) => 0,
        }
    }

    /// The characteristic the roll was made against.
    pub open spec fn status(self) -> i32 {
        match self {
            RollResult::ExtremeSuccess(s) => s,
            RollResult::HardSuccess(s) => s,
            RollResult::Success(s) => s,
            RollResult::Failure(s) => s,
        }
    }

    /// The name of the outcome, as the bot writes it.
    pub open spec fn name(self) -> Seq<char> {
        match self {
            RollResult::ExtremeSuccess(_) => "극단적 성공"@,
            RollResult::HardSuccess(_) => "어려운 성공"@,
            RollResult::Success(_) => "보통 성공"@,
            RollResult::Failure(_) => "실패"@,
        }
    }

    /// The name of the outcome.
    pub fn to_string(&self) -> (s: String)
        ensures
            s@ == self.name(),
    {
        match self {
            RollResult::ExtremeSuccess(_) => String::from_str("극단적 성공"),
            RollResult::HardSuccess(_) => String::from_str("어려운 성공"),
            RollResult::Success(_) => String::from_str("보통 성공"),
            RollResult::Failure(_) => String::from_str("실패"),
        }
    }
}

/// How two outcomes compare: the better grade wins, and between equal grades the higher
/// characteristic wins.
pub open spec fn result_order(a: RollResult, b: RollResult) -> Ordering {
    if a.rank() < b.rank() {
        Ordering::Less
    } else if a.rank() > b.rank() {
        Ordering::Greater
    } else if a.status() < b.status() {
        Ordering::Less
    } else if a.status() > b.status() {
        Ordering::Greater
    } else {
        Ordering::Equal
    }
}

/// Whether outcome `a` beats outcome `b`.
pub open spec fn beats(a: RollResult, b: RollResult) -> bool {
    result_order(a, b) == Ordering::Greater
}

fn rank_of(r: &RollResult) -> (k: u8)
    ensures
        k == r.rank(),
{
    match r {
        RollResult::ExtremeSuccess(_) => 3,
        RollResult::HardSuccess(_) => 2,
        RollResult::Success(_) => 1,
        RollResult::Failure(_) => 0,
    }
}

fn status_of(r: &RollResult) -> (s: i32)
    ensures
        s == r.status(),
{
    match r {
        RollResult::ExtremeSuccess(s) => *s,
        RollResult::HardSuccess(s) => *s,
        RollResult::Success(s) => *s,
        RollResult::Failure(s) => *s,
    }
}

impl PartialOrd for RollResult {
    fn partial_cmp(&self, other: &Self) -> (r: Option<Ordering>)
        ensures
            r == Some(result_order(*self, *other)),
    {
        let (a, b) = (rank_of(self), rank_of(other));
        if a < b {
            Some(Ordering::Less)
        } else if a > b {
            Some(Ordering::Greater)
        } else {
            let (x, y) = (status_of(self), status_of(other));
            if x < y {
                Some(Ordering::Less)
            } else if x > y {
                Some(Ordering::Greater)
            } else {
                Some(Ordering::Equal)
            }
        }
    }
}

impl vstd::std_specs::cmp::PartialOrdSpecImpl for RollResult {
    open spec fn obeys_partial_cmp_spec() -> bool {
        true
    }

    open spec fn partial_cmp_spec(&self, other: &Self) -> Option<Ordering> {
        Some(result_order(*self, *other))
    }
}

/// Two outcomes compare as equal exactly when they are the same outcome.
pub proof fn result_order_equal_iff_same(a: RollResult, b: RollResult)
    ensures
        (result_order(a, b) == Ordering::Equal) <==> a == b,
{
}

/// Comparing the other way round gives the opposite answer.
pub proof fn result_order_antisymmetric(a: RollResult, b: RollResult)
    ensures
        result_order(a, b) == Ordering::Less <==> result_order(b, a) == Ordering::Greater,
        result_order(a, b) == Ordering::Equal <==> result_order(b, a) == Ordering::Equal,
{
}

/// If `a` beats `b` and `b` beats `c`, then `a` beats `c`.
pub proof fn result_order_transitive(a: RollResult, b: RollResult, c: RollResult)
    requires
        beats(a, b),
        beats(b, c),
    ensures
        beats(a, c),
{
}

/// Of two different outcomes, exactly one beats the other.
pub proof fn beats_exactly_one_way(a: RollResult, b: RollResult)
    requires
        a != b,
    ensures
        beats(a, b) != beats(b, a),
{
}

/// The grades rank extreme over hard over regular success over failure, whatever the
/// characteristics; between two outcomes of the same grade the higher characteristic wins.
pub proof fn outcome_order_by_grade(a: i32, b: i32)
    ensures
        beats(RollResult::ExtremeSuccess(a), RollResult::HardSuccess(b)),
        beats(RollResult::HardSuccess(a), RollResult::Success(b)),
        beats(RollResult::Success(a), RollResult::Failure(b)),
        beats(RollResult::ExtremeSuccess(a), RollResult::ExtremeSuccess(b)) <==> a > b,
        beats(RollResult::HardSuccess(a), RollResult::HardSuccess(b)) <==> a > b,
        beats(RollResult::Success(a), RollResult::Success(b)) <==> a > b,
        beats(RollResult::Failure(a), RollResult::Failure(b)) <==> a > b,
{
}

/// A better grade beats a worse one whatever the characteristics.
pub proof fn better_grade_wins(a: RollResult, b: RollResult)
    requires
        a.rank() > b.rank(),
    ensures
        beats(a, b),
{
}

} // verus!
