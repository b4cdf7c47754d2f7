//! The registered strategies and the choice among their results.
use crate::strategy::StrategyEnum;
use vstd::prelude::*;

verus! {

/// What a successful strategy hands over: its net profit (raw quote units
/// scaled by `PRICE_SCALE`) and the transactions to submit together, in
/// submission order.
pub struct StrategyResult<T> {
    pub profit: i128,
    pub txs: Vec<T>,
}

/// The strategies run on every snapshot, in order.
pub struct TradingEngine {
    strategies: Vec<StrategyEnum>,
}

impl View for TradingEngine {
    type V = Seq<StrategyEnum>;

    closed spec fn view(&self) -> Seq<StrategyEnum> {
        self.strategies@
    }
}

impl TradingEngine {
    /// An engine with no strategies.
    pub fn new() -> (r: Self)
        ensures
            r@ == Seq::<StrategyEnum>::empty(),
    {
        TradingEngine { strategies: Vec::new() }
    }

    /// Registers `strategy` after the others; returns the engine for chaining.
    pub fn add_strategy(&mut self, strategy: StrategyEnum) -> (r: &mut Self)
        ensures
            r@ == old(self)@.push(strategy),
            *final(self) == *final(r),
    {
        self.strategies.push(strategy);
        self
    }

    /// The registered strategies, in order.
    pub fn strategies(&self) -> (r: &Vec<StrategyEnum>)
        ensures
            r@ == self@,
    {
        &self.strategies
    }
}

/// The profit of result `i`, where it succeeded.
pub open spec fn ok_profit<T, E>(results: Seq<Result<StrategyResult<T>, E>>, i: int) -> Option<
    i128,
> {
    match results[i] {
        Ok(s) => Some(s.profit),
        Err(_) => None,
    }
}

/// The index of the successful result with the strictly highest profit (the
/// first of equals), or `None` where every strategy failed. Failed strategies
/// take no part in the comparison.
pub fn select_best<T, E>(results: &Vec<Result<StrategyResult<T>, E>>) -> (r: Option<usize>)
    ensures
        r is None <==> forall|j: int| 0 <= j < results@.len() ==> ok_profit(results@, j) is None,
        r matches Some(i) ==> {
            &&& i < results@.len()
            &&& ok_profit(results@, i as int) is Some
            &&& forall|j: int|
                0 <= j < results@.len() && ok_profit(results@, j) is Some ==> ok_profit(
                    results@,
                    j,
                )->0 <= ok_profit(results@, i as int)->0
            &&& forall|j: int|
                0 <= j < i && ok_profit(results@, j) is Some ==> ok_profit(results@, j)->0
                    < ok_profit(results@, i as int)->0
        },
{
    let mut best: Option<usize> = None;
    let mut best_profit: i128 = 0;
    let mut k: usize = 0;
    while k < results.len()
        invariant
            k <= results@.len(),
            best is None <==> forall|j: int| 0 <= j < k ==> ok_profit(results@, j) is None,
            best matches Some(i) ==> {
                &&& i < k
                &&& ok_profit(results@, i as int) == Some(best_profit)
                &&& forall|j: int|
                    0 <= j < k && ok_profit(results@, j) is Some ==> ok_profit(results@, j)->0
                        <= best_profit
                &&& forall|j: int|
                    0 <= j < i && ok_profit(results@, j) is Some ==> ok_profit(results@, j)->0
                        < best_profit
            },
        decreases results@.len() - k,
    {
        match &results[k] {
            Ok(s) => {
                let better = match best {
                    None => true,
                    Some(_) => s.profit > best_profit,
                };
                if better {
                    best = Some(k);
                    best_profit = s.profit;
                }
            },
            Err(_) => {},
        }
        k = k + 1;
    }
    best
}

} // verus!
