//! The persistent maps of `near_sdk` and the account type that keys them.
//!
//! Everything in this module is taken on trust from `near_sdk`: the types are
//! opaque, and each function states what the corresponding method of
//! `near_sdk::store::LookupMap` does. Nothing here is proved.

use near_sdk::store::LookupMap;
use near_sdk::AccountId;
use vstd::prelude::*;

verus! {

/// `near_sdk::AccountId`: a validated account name. Two account ids are equal
/// exactly when their names are equal, and that is the equality under which the
/// maps below tell keys apart.
#[verifier::external_type_specification]
#[verifier::external_body]
pub struct ExAccountId(AccountId);

/// A `near_sdk::store::LookupMap` from accounts to `(input, model)` pairs. Its
/// entries live in the host's storage under the map's prefix; they are read
/// lazily and written back when the map is flushed or dropped.
#[verifier::external_body]
pub struct RequestMap {
    inner: LookupMap<AccountId, (String, String)>,
}

/// A `near_sdk::store::LookupMap` from accounts to responses. Its entries live
/// in the host's storage under the map's prefix; they are read lazily and
/// written back when the map is flushed or dropped.
#[verifier::external_body]
pub struct ResponseMap {
    inner: LookupMap<AccountId, String>,
}

/// What a map of requests holds for each account. An account that was written
/// or read through this map has the entry that the map keeps for it; any other
/// account has the entry that the host's storage holds for it, under the map's
/// prefix, when the map first reads it.
pub uninterp spec fn request_entries(m: RequestMap) -> Map<
    AccountId,
    (Seq<char>, Seq<char>),
>;

/// The storage prefix that a map of requests was made with.
pub uninterp spec fn request_prefix(m: RequestMap) -> Seq<u8>;

/// What a map of responses holds for each account. An account that was written
/// or read through this map has the entry that the map keeps for it; any other
/// account has the entry that the host's storage holds for it, under the map's
/// prefix, when the map first reads it.
pub uninterp spec fn response_entries(m: ResponseMap) -> Map<
    AccountId,
    Seq<char>,
>;

/// The storage prefix that a map of responses was made with.
pub uninterp spec fn response_prefix(m: ResponseMap) -> Seq<u8>;

/// `LookupMap::new` for a map of requests. The map keeps the given prefix.
/// Nothing is claimed of its entries: a new map shows whatever the host's
/// storage already holds under that prefix.
#[verifier::external_body]
pub(crate) fn new_request_map(prefix: Vec<u8>) -> (m: RequestMap)
    ensures
        request_prefix(m) == prefix@,
{
    RequestMap { inner: LookupMap::new(prefix) }
}

/// `LookupMap::new` for a map of responses. The map keeps the given prefix.
/// Nothing is claimed of its entries: a new map shows whatever the host's
/// storage already holds under that prefix.
#[verifier::external_body]
pub(crate) fn new_response_map(prefix: Vec<u8>) -> (m: ResponseMap)
    ensures
        response_prefix(m) == prefix@,
{
    ResponseMap { inner: LookupMap::new(prefix) }
}

/// `LookupMap::insert` on a map of requests. Afterwards the map holds the
/// given pair for the given account and what it held before for every other
/// account; the prefix stays. The previous entry, which `insert` returns, is
/// discarded. `insert` reads the previous entry from storage and stops the
/// contract if those bytes are not a pair of texts; a map only ever writes
/// such pairs under its prefix.
#[verifier::external_body]
pub(crate) fn insert_request(
    m: &mut RequestMap,
    account: AccountId,
    input: String,
    model: String,
)
    ensures
        request_entries(*final(m)) == request_entries(*old(m)).insert(
            account,
            (input@, model@),
        ),
        request_prefix(*final(m)) == request_prefix(*old(m)),
{
    m.inner.insert(account, (input, model));
}

/// `LookupMap::insert` on a map of responses. Afterwards the map holds the
/// given response for the given account and what it held before for every
/// other account; the prefix stays. The previous entry, which `insert`
/// returns, is discarded. `insert` reads the previous entry from storage and
/// stops the contract if those bytes are not a text; a map only ever writes
/// texts under its prefix.
#[verifier::external_body]
pub(crate) fn insert_response(
    m: &mut ResponseMap,
    account: AccountId,
    response: String,
)
    ensures
        response_entries(*final(m)) == response_entries(*old(m)).insert(account, response@),
        response_prefix(*final(m)) == response_prefix(*old(m)),
{
    m.inner.insert(account, response);
}

/// `LookupMap::get` on a map of responses. The result is the map's entry for
/// the account: a reference to the text where there is one, `None` where
/// there is none. The map remembers the answer, so asking again gives the same.
#[verifier::external_body]
pub(crate) fn find_response<'a>(m: &'a ResponseMap, account: &AccountId) -> (r:
    Option<&'a String>)
    ensures
        match r {
            Some(text) => response_entries(*m).contains_key(*account) && response_entries(
                *m,
            )[*account] == text@,
            None => !response_entries(*m).contains_key(*account),
        },
{
    m.inner.get(account)
}

} // verus!
