//! The executable registry over two persistent maps.

use crate::host::calling_account;
use crate::model::Registry;
use crate::storage::{
    find_response, insert_request, insert_response, new_request_map, new_response_map,
    request_entries, request_prefix, response_entries, response_prefix, RequestMap, ResponseMap,
};
use near_sdk::AccountId;
use vstd::prelude::*;

verus! {

/// The one byte that prefixes the storage key of every request.
pub const REQUESTS_PREFIX: u8 = 0;

/// The one byte that prefixes the storage key of every response.
pub const RESPONSES_PREFIX: u8 = 1;

/// The registry of prediction requests and their responses.
///
/// Both maps live in the host's storage, each under a prefix of its own, so
/// that no entry of one can be taken for an entry of the other.
pub struct Oracle {
    requests: RequestMap,
    responses: ResponseMap,
}

impl View for Oracle {
    type V = Registry;

    /// What the registry holds: for each account the request and the response
    /// that its two maps yield.
    closed spec fn view(&self) -> Registry {
        Registry {
            requests: request_entries(self.requests),
            responses: response_entries(self.responses),
        }
    }
}

impl Default for Oracle {
    /// A registry over the standard prefixes. It holds whatever the host's
    /// storage holds under them: nothing at all on first use.
    fn default() -> (r: Self)
        ensures
            r.requests_prefix() == seq![REQUESTS_PREFIX],
            r.responses_prefix() == seq![RESPONSES_PREFIX],
    {
        let mut requests_key: Vec<u8> = Vec::new();
        requests_key.push(REQUESTS_PREFIX);
        let mut responses_key: Vec<u8> = Vec::new();
        responses_key.push(RESPONSES_PREFIX);
        assert(requests_key@ =~= seq![REQUESTS_PREFIX]);
        assert(responses_key@ =~= seq![RESPONSES_PREFIX]);
        Oracle {
            requests: new_request_map(requests_key),
            responses: new_response_map(responses_key),
        }
    }
}

impl Oracle {
    /// The storage prefix under which the requests are kept.
    pub closed spec fn requests_prefix(&self) -> Seq<u8> {
        request_prefix(self.requests)
    }

    /// The storage prefix under which the responses are kept.
    pub closed spec fn responses_prefix(&self) -> Seq<u8> {
        response_prefix(self.responses)
    }

    /// Files the request `(input, model)` under `caller`, replacing any request
    /// that `caller` had filed. No response changes.
    pub fn submit_request(&mut self, caller: AccountId, input: String, model: String)
        ensures
            final(self)@ == old(self)@.submit(caller, input@, model@),
            final(self)@.responses == old(self)@.responses,
            final(self).requests_prefix() == old(self).requests_prefix(),
            final(self).responses_prefix() == old(self).responses_prefix(),
    {
        insert_request(&mut self.requests, caller, input, model);
    }

    /// Files the request `(input, model)` under the account that makes the
    /// current call, as the host reports it. Which account that is cannot be
    /// known here, so the contract says what holds for whichever it was.
    pub fn request_prediction(&mut self, input: String, model: String)
        ensures
            exists|caller: AccountId|
                final(self)@ == #[trigger] old(self)@.submit(caller, input@, model@),
            final(self)@.responses == old(self)@.responses,
            final(self).requests_prefix() == old(self).requests_prefix(),
            final(self).responses_prefix() == old(self).responses_prefix(),
    {
        let caller = calling_account();
        let ghost filed = old(self)@.submit(caller, input@, model@);
        self.submit_request(caller, input, model);
        assert(self@ == filed);
    }

    /// Attaches `response` to `account_id`, replacing any response attached to
    /// it before. Any account may be named, whether or not it has filed a
    /// request. No request changes.
    pub fn set_response(&mut self, account_id: AccountId, response: String)
        ensures
            final(self)@ == old(self)@.respond(account_id, response@),
            final(self)@.lookup(account_id) == Some(response@),
            final(self)@.requests == old(self)@.requests,
            final(self).requests_prefix() == old(self).requests_prefix(),
            final(self).responses_prefix() == old(self).responses_prefix(),
    {
        insert_response(&mut self.responses, account_id, response);
    }

    /// The response attached to `account_id`: `Some` of its text, which may be
    /// empty, or `None` where no response is attached.
    pub fn get_response(&self, account_id: AccountId) -> (r: Option<String>)
        ensures
            match r {
                Some(text) => self@.lookup(account_id) == Some(text@),
                None => self@.lookup(account_id) is None,
            },
    {
        match find_response(&self.responses, &account_id) {
            Some(text) => Some(text.clone()),
            None => None,
        }
    }
}

} // verus!
