//! The registry as a mathematical value.
//!
//! A [`Registry`] is a pair of maps keyed by account. The three operations are
//! plain functions on it, a [`Call`] is one state-changing operation written
//! down as data, and `run` replays a history of calls. The contracts of the
//! executable [`Oracle`](crate::oracle::Oracle) are stated over these
//! functions.

use near_sdk::AccountId;
use vstd::prelude::*;

verus! {

/// The state of the registry: at most one request and at most one response
/// per account, each present or absent independently of the other.
pub struct Registry {
    /// The latest `(input, model)` pair filed by each account.
    pub requests: Map<AccountId, (Seq<char>, Seq<char>)>,
    /// The latest response attached to each account.
    pub responses: Map<AccountId, Seq<char>>,
}

/// One state-changing operation on the registry.
pub enum Call {
    /// `caller` files the request `(input, model)`.
    Submit { caller: AccountId, input: Seq<char>, model: Seq<char> },
    /// Somebody attaches `response` to `target`.
    Respond { target: AccountId, response: Seq<char> },
}

impl Call {
    /// Whether this call attaches a response to `target`.
    pub open spec fn answers(self, target: AccountId) -> bool {
        match self {
            Call::Submit { .. } => false,
            Call::Respond { target: t, .. } => t == target,
        }
    }
}

impl Registry {
    /// The registry that holds nothing.
    pub open spec fn empty() -> Registry {
        Registry { requests: Map::empty(), responses: Map::empty() }
    }

    /// Files `(input, model)` under `caller`, replacing what `caller` had filed.
    pub open spec fn submit(self, caller: AccountId, input: Seq<char>, model: Seq<char>) -> Registry {
        Registry { requests: self.requests.insert(caller, (input, model)), responses: self.responses }
    }

    /// Attaches `response` to `target`, replacing what was attached to it.
    pub open spec fn respond(self, target: AccountId, response: Seq<char>) -> Registry {
        Registry { requests: self.requests, responses: self.responses.insert(target, response) }
    }

    /// The response attached to `target`, if any. An empty response is a
    /// response: it reads as `Some` of the empty text.
    pub open spec fn lookup(self, target: AccountId) -> Option<Seq<char>> {
        if self.responses.contains_key(target) {
            Some(self.responses[target])
        } else {
            None
        }
    }

    /// The registry after one call.
    pub open spec fn step(self, call: Call) -> Registry {
        match call {
            Call::Submit { caller, input, model } => self.submit(caller, input, model),
            Call::Respond { target, response } => self.respond(target, response),
        }
    }

    /// The registry after a history of calls, oldest first.
    pub open spec fn run(self, calls: Seq<Call>) -> Registry
        decreases calls.len(),
    {
        if calls.len() == 0 {
            self
        } else {
            self.run(calls.drop_last()).step(calls.last())
        }
    }
}

} // verus!
