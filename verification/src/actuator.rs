//! An actuator that records every call made to it, in order.
//!
//! The control loop's downstream collaborator offers two capabilities:
//! `ingest`, which accepts a raw signal payload, and `mutate`, which performs
//! an environment mutation named by a style token and a target label. This
//! actuator remembers each call it receives, so a caller's contract can say
//! exactly which calls were made and in what order.

use vstd::prelude::*;

verus! {

/// The mathematical image of one recorded actuator call.
pub enum CallView {
    /// A raw signal payload was handed over for downstream consumption.
    Ingest(u64),
    /// An environment mutation was requested, named by a style token and a
    /// target label.
    Mutate(Seq<char>, Seq<char>),
}

/// One call made to an actuator, as it stands in the log.
#[derive(Debug, Clone, PartialEq, Eq)]
pub enum ActuatorCall {
    /// `ingest(payload)`.
    Ingest(u64),
    /// `mutate(style, target)`.
    Mutate(String, String),
}

impl View for ActuatorCall {
    type V = CallView;

    open spec fn view(&self) -> CallView {
        match self {
            ActuatorCall::Ingest(payload) => CallView::Ingest(*payload),
            ActuatorCall::Mutate(style, target) => CallView::Mutate(style@, target@),
        }
    }
}

/// The mathematical image of a whole log: each recorded call in order.
pub open spec fn log_view(log: Seq<ActuatorCall>) -> Seq<CallView> {
    log.map(|i: int, call: ActuatorCall| call@)
}

/// An actuator that remembers every `ingest` and `mutate` call, oldest first.
///
/// The view of an actuator is the sequence of calls made to it so far.
pub struct Actuator {
    log: Vec<ActuatorCall>,
}

impl View for Actuator {
    type V = Seq<CallView>;

    closed spec fn view(&self) -> Seq<CallView> {
        log_view(self.log@)
    }
}

impl Actuator {
    /// A fresh actuator whose call log is empty.
    pub fn new() -> (actuator: Actuator)
        ensures
            actuator@ == Seq::<CallView>::empty(),
    {
        let actuator = Actuator { log: Vec::new() };
        proof {
            assert(actuator@ =~= Seq::<CallView>::empty());
        }
        actuator
    }

    /// Accepts a raw signal payload for downstream consumption and records
    /// the call.
    pub fn ingest(&mut self, payload: u64)
        ensures
            final(self)@ == old(self)@.push(CallView::Ingest(payload)),
    {
        self.log.push(ActuatorCall::Ingest(payload));
        proof {
            assert(self@ =~= old(self)@.push(CallView::Ingest(payload)));
        }
    }

    /// Performs an environment mutation named by a style token and a target
    /// label and records the call.
    pub fn mutate(&mut self, style: String, target: String)
        ensures
            final(self)@ == old(self)@.push(CallView::Mutate(style@, target@)),
    {
        let call = ActuatorCall::Mutate(style, target);
        let ghost recorded = call@;
        self.log.push(call);
        proof {
            assert(self@ =~= old(self)@.push(recorded));
        }
    }

    /// The calls made so far, oldest first.
    pub fn calls(&self) -> (calls: &Vec<ActuatorCall>)
        ensures
            log_view(calls@) == self@,
    {
        &self.log
    }
}

} // verus!
