//! Bundle assembly and the reading of the tip side-channel's landing status.
use vstd::prelude::*;

verus! {

/// A strategy's transactions in submission order: the oracle refresh where
/// one is needed, then the router leg, then the issuer leg, which reads the
/// refreshed oracle.
pub open spec fn strategy_order<T>(oracle: Option<T>, router_leg: T, issuer_leg: T) -> Seq<T> {
    match oracle {
        Some(o) => seq![o, router_leg, issuer_leg],
        None => seq![router_leg, issuer_leg],
    }
}

/// Orders a strategy's transactions for submission: oracle refresh (if any),
/// router leg, issuer leg.
pub fn strategy_transactions<T>(oracle: Option<T>, router_leg: T, issuer_leg: T) -> (r: Vec<T>)
    ensures
        r@ == strategy_order(oracle, router_leg, issuer_leg),
{
    let ghost oracle_in = oracle;
    let ghost router_in = router_leg;
    let ghost issuer_in = issuer_leg;
    let mut txs: Vec<T> = Vec::new();
    match oracle {
        Some(o) => txs.push(o),
        None => {},
    }
    txs.push(router_leg);
    txs.push(issuer_leg);
    proof {
        match oracle_in {
            Some(o) => assert(txs@ =~= seq![o, router_in, issuer_in]),
            None => assert(txs@ =~= seq![router_in, issuer_in]),
        }
    }
    txs
}

/// The bundle to submit: the transactions in order, then the tip payment last.
pub fn bundle_transactions<T>(txs: Vec<T>, tip: T) -> (r: Vec<T>)
    ensures
        r@ == txs@.push(tip),
{
    let mut bundle = txs;
    bundle.push(tip);
    bundle
}

/// Landing status of a submitted bundle.
#[derive(Debug, Clone, Copy, PartialEq, Eq, Structural)]
pub enum BundleStatusEnum {
    Landed,
    Failed,
    Pending,
    Invalid,
    Unknown,
    Timeout,
}

/// What the side-channel's status word means.
pub open spec fn status_of(word: Seq<char>) -> BundleStatusEnum {
    if word == "Landed"@ {
        BundleStatusEnum::Landed
    } else if word == "Failed"@ {
        BundleStatusEnum::Failed
    } else if word == "Pending"@ {
        BundleStatusEnum::Pending
    } else if word == "Invalid"@ {
        BundleStatusEnum::Invalid
    } else {
        BundleStatusEnum::Unknown
    }
}

/// Reads the side-channel's status word; any word it does not define is
/// `Unknown`.
pub fn parse_bundle_status(word: &String) -> (r: BundleStatusEnum)
    ensures
        r == status_of(word@),
{
    if *word == "Landed".to_owned() {
        BundleStatusEnum::Landed
    } else if *word == "Failed".to_owned() {
        BundleStatusEnum::Failed
    } else if *word == "Pending".to_owned() {
        BundleStatusEnum::Pending
    } else if *word == "Invalid".to_owned() {
        BundleStatusEnum::Invalid
    } else {
        BundleStatusEnum::Unknown
    }
}

/// What to do after one status poll.
#[derive(Debug, Clone, Copy, PartialEq, Eq, Structural)]
pub enum PollStep {
    /// Stop polling: this is the bundle's outcome.
    Done(BundleStatusEnum),
    /// Poll again after this many milliseconds.
    Wait(u64),
}

/// Status polling on a fixed interval up to a fixed timeout.
#[derive(Debug, Clone, Copy, PartialEq, Eq, Structural)]
pub struct BundlePoll {
    pub interval_ms: u64,
    pub timeout_ms: u64,
}

pub open spec fn poll_step(poll: BundlePoll, reported: Option<BundleStatusEnum>, elapsed_ms: u64) -> PollStep {
    match reported {
        Some(BundleStatusEnum::Landed) => PollStep::Done(BundleStatusEnum::Landed),
        Some(BundleStatusEnum::Failed) => PollStep::Done(BundleStatusEnum::Failed),
        Some(BundleStatusEnum::Unknown) => PollStep::Done(BundleStatusEnum::Unknown),
        Some(BundleStatusEnum::Timeout) => PollStep::Done(BundleStatusEnum::Timeout),
        _ => if elapsed_ms >= poll.timeout_ms {
            PollStep::Done(BundleStatusEnum::Timeout)
        } else {
            PollStep::Wait(poll.interval_ms)
        },
    }
}

impl BundlePoll {
    /// Decides after a poll that reported `reported` (`None`: no status yet)
    /// when `elapsed_ms` have passed since submission. A final status ends the
    /// polling at once; `Pending`, `Invalid` or no status wait one interval,
    /// until the timeout, which ends it as `Timeout`.
    pub fn decide(&self, reported: Option<BundleStatusEnum>, elapsed_ms: u64) -> (r: PollStep)
        ensures
            r == poll_step(*self, reported, elapsed_ms),
    {
        match reported {
            Some(BundleStatusEnum::Landed) => PollStep::Done(BundleStatusEnum::Landed),
            Some(BundleStatusEnum::Failed) => PollStep::Done(BundleStatusEnum::Failed),
            Some(BundleStatusEnum::Unknown) => PollStep::Done(BundleStatusEnum::Unknown),
            Some(BundleStatusEnum::Timeout) => PollStep::Done(BundleStatusEnum::Timeout),
            _ => {
                if elapsed_ms >= self.timeout_ms {
                    PollStep::Done(BundleStatusEnum::Timeout)
                } else {
                    PollStep::Wait(self.interval_ms)
                }
            },
        }
    }
}

} // verus!
