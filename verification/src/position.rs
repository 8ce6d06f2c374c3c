use vstd::prelude::*;

use crate::addr::Addr;

verus! {

/// The side of a trader's exposure relative to the AMM pool: a long position
/// adds to the pool, a short position removes from it.
#[derive(Clone, Copy, Debug, PartialEq, Eq, Structural)]
pub enum Direction {
    AddToAmm,
    RemoveFromAmm,
}

/// One trader's exposure on one vamm.
///
/// All amounts are unsigned fixed-point values scaled by the configured
/// `decimals`; this layer stores them without interpreting the scale.
#[derive(Debug)]
pub struct Position {
    pub vamm: Addr,
    pub trader: Addr,
    pub direction: Direction,
    pub size: u128,
    pub margin: u128,
    pub notional: u128,
    pub premium_fraction: u128,
    pub liquidity_history_index: u128,
    pub timestamp: u64,
}

/// Mathematical image of a `Position`: addresses as character sequences,
/// amounts as the integers they hold.
#[verifier::ext_equal]
pub ghost struct PositionView {
    pub vamm: Seq<char>,
    pub trader: Seq<char>,
    pub direction: Direction,
    pub size: u128,
    pub margin: u128,
    pub notional: u128,
    pub premium_fraction: u128,
    pub liquidity_history_index: u128,
    pub timestamp: u64,
}

impl View for Position {
    type V = PositionView;

    open spec fn view(&self) -> PositionView {
        PositionView {
            vamm: self.vamm@,
            trader: self.trader@,
            direction: self.direction,
            size: self.size,
            margin: self.margin,
            notional: self.notional,
            premium_fraction: self.premium_fraction,
            liquidity_history_index: self.liquidity_history_index,
            timestamp: self.timestamp,
        }
    }
}

/// The canonical "no position exists" value: empty addresses, a long
/// direction, all amounts zero, the epoch timestamp.  Callers that need a
/// concrete zero value rather than an optional use this sentinel.
pub open spec fn default_position() -> PositionView {
    PositionView {
        vamm: Seq::<char>::empty(),
        trader: Seq::<char>::empty(),
        direction: Direction::AddToAmm,
        size: 0,
        margin: 0,
        notional: 0,
        premium_fraction: 0,
        liquidity_history_index: 0,
        timestamp: 0,
    }
}

impl Default for Position {
    fn default() -> (res: Position)
        ensures
            res@ == default_position(),
    {
        let res = Position {
            vamm: Addr::unchecked(""),
            trader: Addr::unchecked(""),
            direction: Direction::AddToAmm,
            size: 0,
            margin: 0,
            notional: 0,
            premium_fraction: 0,
            liquidity_history_index: 0,
            timestamp: 0,
        };
        proof {
            reveal_strlit("");
            assert(""@ =~= Seq::<char>::empty());
            assert(res@ =~= default_position());
        }
        res
    }
}

impl Clone for Position {
    fn clone(&self) -> (res: Position)
        ensures
            res == *self,
    {
        Position {
            vamm: self.vamm.clone(),
            trader: self.trader.clone(),
            direction: self.direction,
            size: self.size,
            margin: self.margin,
            notional: self.notional,
            premium_fraction: self.premium_fraction,
            liquidity_history_index: self.liquidity_history_index,
            timestamp: self.timestamp,
        }
    }
}

} // verus!
