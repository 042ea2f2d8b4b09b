use vstd::prelude::*;

verus! {

/// A rotation of the preview by a whole number of clockwise quarter turns.
#[derive(Debug, Clone, Copy, PartialEq, Eq, Structural)]
pub enum QuarterTurn {
    Zero,
    Clockwise90,
    Clockwise180,
    Clockwise270,
}

/// The number of clockwise quarter turns, 0 to 3.
pub open spec fn quarter_count(turn: QuarterTurn) -> int {
    match turn {
        QuarterTurn::Zero => 0,
        QuarterTurn::Clockwise90 => 1,
        QuarterTurn::Clockwise180 => 2,
        QuarterTurn::Clockwise270 => 3,
    }
}

impl QuarterTurn {
    /// No rotation.
    pub fn zero() -> (turn: QuarterTurn)
        ensures
            turn == QuarterTurn::Zero,
    {
        QuarterTurn::Zero
    }

    /// One more clockwise quarter turn.
    pub fn clockwise(self) -> (next: QuarterTurn)
        ensures
            quarter_count(next) == (quarter_count(self) + 1) % 4,
    {
        match self {
            QuarterTurn::Zero => QuarterTurn::Clockwise90,
            QuarterTurn::Clockwise90 => QuarterTurn::Clockwise180,
            QuarterTurn::Clockwise180 => QuarterTurn::Clockwise270,
            QuarterTurn::Clockwise270 => QuarterTurn::Zero,
        }
    }

    /// Whether the rotation exchanges width and height.
    pub fn swaps_axes(self) -> (swaps: bool)
        ensures
            swaps == (quarter_count(self) % 2 == 1),
    {
        match self {
            QuarterTurn::Clockwise90 | QuarterTurn::Clockwise270 => true,
            _ => false,
        }
    }
}

/// A quarter turn determines its rotation.
pub proof fn lemma_quarter_count_injective(a: QuarterTurn, b: QuarterTurn)
    ensures
        quarter_count(a) == quarter_count(b) ==> a == b,
        0 <= quarter_count(a) < 4,
{
}

/// Four clockwise quarter turns come back to the start.
pub proof fn lemma_four_turns_are_identity(turn: QuarterTurn, a: QuarterTurn, b: QuarterTurn, c: QuarterTurn, d: QuarterTurn)
    requires
        quarter_count(a) == (quarter_count(turn) + 1) % 4,
        quarter_count(b) == (quarter_count(a) + 1) % 4,
        quarter_count(c) == (quarter_count(b) + 1) % 4,
        quarter_count(d) == (quarter_count(c) + 1) % 4,
    ensures
        d == turn,
{
    lemma_quarter_count_injective(d, turn);
}

/// Each clockwise quarter turn exchanges the exported width and height once more: the turn
/// after one that swaps the axes does not, and the other way round.
pub proof fn lemma_each_turn_exchanges_the_axes(turn: QuarterTurn, next: QuarterTurn)
    requires
        quarter_count(next) == (quarter_count(turn) + 1) % 4,
    ensures
        (quarter_count(next) % 2 == 1) == !(quarter_count(turn) % 2 == 1),
{
}

/// Whether pointer input on the preview edits the document or pans the view.
#[derive(Debug, Clone, Copy, PartialEq, Eq, Structural)]
pub enum PreviewMode {
    Edit,
    Pan,
}

} // verus!
