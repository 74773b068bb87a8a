//! Asking the valuation services in turn for a fund's intraday estimate: a service that cannot
//! be reached, or whose reply cannot be read or holds no estimate, is passed over for the next.
//! The caller asks each service and reports how it went.

use vstd::prelude::*;
use crate::providers::fund_source::{
    ValuationReply, ValuationSnapshot, select_valuation, valuation_selected,
};

verus! {

/// What the caller reports after asking a service.
#[derive(Debug, Clone)]
pub enum ValuationEvent {
    /// The service could not be reached, or its reply could not be read.
    NoReply,
    /// The service replied.
    Replied(ValuationReply),
}

/// What the caller does next.
#[derive(Debug, Clone)]
pub enum ValuationAction {
    /// Ask the service at this position.
    Ask(usize),
    /// This is the estimate.
    Found(ValuationSnapshot),
    /// No service gave an estimate.
    NotFound,
}

/// Whether the event is a reply that holds an estimate.
pub open spec fn holds_estimate(event: ValuationEvent) -> bool {
    match event {
        ValuationEvent::Replied(reply) => !valuation_selected(reply, None),
        ValuationEvent::NoReply => false,
    }
}

/// The first step of asking `services` services: the first one, or none found when there is
/// none.
pub fn valuation_search_start(services: usize) -> (res: ValuationAction)
    ensures
        services > 0 ==> res == ValuationAction::Ask(0),
        services == 0 ==> res is NotFound,
{
    if services > 0 {
        ValuationAction::Ask(0)
    } else {
        ValuationAction::NotFound
    }
}

/// The next step after service `at` of `services` answered with `event`: a reply that holds an
/// estimate gives it; otherwise the next service is asked, and after the last none is found.
pub fn valuation_search_step(services: usize, at: usize, event: ValuationEvent) -> (res: ValuationAction)
    requires
        at < services,
    ensures
        holds_estimate(event) ==> (res matches ValuationAction::Found(v) && valuation_selected(
            event->Replied_0,
            Some(v),
        )),
        !holds_estimate(event) && at + 1 < services ==> res == ValuationAction::Ask((at + 1) as usize),
        !holds_estimate(event) && at + 1 >= services ==> res is NotFound,
{
    let selected = match event {
        ValuationEvent::Replied(reply) => select_valuation(reply),
        ValuationEvent::NoReply => None,
    };
    match selected {
        Some(v) => ValuationAction::Found(v),
        None => if at + 1 < services {
            ValuationAction::Ask(at + 1)
        } else {
            ValuationAction::NotFound
        },
    }
}

} // verus!
