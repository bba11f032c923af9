//! Wire-visible errors and the reply shape shared by every handler.

use vstd::prelude::*;

verus! {

/// The closed set of machine-checkable error codes that cross the wire.
#[derive(Clone, Copy, Debug, PartialEq, Eq, Structural)]
pub enum ErrCode {
    EntityNotFound,
    DataStore,
    SessionExpired,
}

/// An error reply: a code and a short tag naming the call site.
#[derive(Clone, Debug, PartialEq, Eq)]
pub struct NetError {
    pub code: ErrCode,
    pub msg: String,
}

/// A persistence or upstream failure; its detail stays with the caller's log.
#[derive(Clone, Copy, Debug, PartialEq, Eq, Structural)]
pub struct StoreError;

/// The empty success payload.
#[derive(Clone, Copy, Debug, PartialEq, Eq, Structural)]
pub struct NetOk;

/// A reply: either the domain payload or an error, never both.
pub type Reply<T> = Result<T, NetError>;

impl View for NetError {
    type V = (ErrCode, Seq<char>);

    open spec fn view(&self) -> (ErrCode, Seq<char>) {
        (self.code, self.msg@)
    }
}

/// A reply with its error, if any, seen as code and tag.
pub open spec fn reply_view<T>(r: Reply<T>) -> Result<T, (ErrCode, Seq<char>)> {
    match r {
        Ok(v) => Ok(v),
        Err(e) => Err(e@),
    }
}

/// Builds an error reply from a code and a call-site tag.
pub fn err(code: ErrCode, msg: &str) -> (r: NetError)
    ensures
        r@ == (code, msg@),
{
    NetError { code, msg: String::from_str(msg) }
}

/// What a lookup handler replies for a store outcome.
pub open spec fn lookup_reply<T>(
    outcome: Result<Option<T>, StoreError>,
    missing: ErrCode,
    missing_tag: Seq<char>,
    failed_tag: Seq<char>,
) -> Result<T, (ErrCode, Seq<char>)> {
    match outcome {
        Ok(Some(v)) => Ok(v),
        Ok(None) => Err((missing, missing_tag)),
        Err(_) => Err((ErrCode::DataStore, failed_tag)),
    }
}

/// What a create handler replies for a store outcome.
pub open spec fn create_reply<T>(outcome: Result<T, StoreError>, failed_tag: Seq<char>) -> Result<
    T,
    (ErrCode, Seq<char>),
> {
    match outcome {
        Ok(v) => Ok(v),
        Err(_) => Err((ErrCode::DataStore, failed_tag)),
    }
}

/// Turns the outcome of a store lookup into a reply: the entity when found,
/// `missing` when absent, `DataStore` when the store failed.
pub fn reply_lookup<T>(
    outcome: Result<Option<T>, StoreError>,
    missing: ErrCode,
    missing_tag: &str,
    failed_tag: &str,
) -> (r: Reply<T>)
    ensures
        reply_view(r) == lookup_reply(outcome, missing, missing_tag@, failed_tag@),
{
    match outcome {
        Ok(Some(v)) => Ok(v),
        Ok(None) => Err(err(missing, missing_tag)),
        Err(_) => Err(err(ErrCode::DataStore, failed_tag)),
    }
}

/// Turns the outcome of a store write into a reply.
pub fn reply_create<T>(outcome: Result<T, StoreError>, failed_tag: &str) -> (r: Reply<T>)
    ensures
        reply_view(r) == create_reply(outcome, failed_tag@),
{
    match outcome {
        Ok(v) => Ok(v),
        Err(_) => Err(err(ErrCode::DataStore, failed_tag)),
    }
}

/// A failed store call is surfaced as `DataStore` by every lookup and create
/// handler, whatever the other reply parameters are.
pub proof fn store_failure_is_data_store<T>(
    e: StoreError,
    missing: ErrCode,
    missing_tag: Seq<char>,
    failed_tag: Seq<char>,
)
    ensures
        lookup_reply::<T>(Err(e), missing, missing_tag, failed_tag) == Err::<T, (ErrCode, Seq<char>)>((ErrCode::DataStore, failed_tag)),
        create_reply::<T>(Err(e), failed_tag) == Err::<T, (ErrCode, Seq<char>)>((ErrCode::DataStore, failed_tag)),
{
}

} // verus!
