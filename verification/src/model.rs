//! Plain data carried by REST responses, as far as the session layer
//! holds it: the success envelope and the records whose fields are plain
//! text and booleans. Decoding response bodies into these is the
//! endpoint wrappers' job, outside this crate.

use vstd::prelude::*;

verus! {

/// A response envelope carrying only a success flag and an optional
/// detail string.
#[derive(Debug, Clone)]
pub struct AnotherOption {
    pub success: bool,
    pub result: Option<String>,
}

/// The common response envelope: a success flag, the typed result, and a
/// paging flag some endpoints add.
#[derive(Debug, Clone)]
pub struct ResultData<T> {
    pub success: bool,
    pub result: T,
    pub has_more_data: Option<bool>,
}

/// A sub-account record.
#[derive(Debug, Clone)]
pub struct SubAccountInfo {
    pub nickname: String,
    pub special: bool,
    pub deletable: bool,
    pub editable: bool,
    pub competition: bool,
}

/// A deposit address record.
#[derive(Debug, Clone)]
pub struct Address {
    pub address: String,
    pub tag: Option<String>,
    pub method: String,
    pub coin: Option<String>,
}

} // verus!
