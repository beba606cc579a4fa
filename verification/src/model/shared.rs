//! Shapes that several areas of the schema share.

use vstd::prelude::*;
use vstd::string::StringExecFns;
use crate::text::{decimal, u64_to_decimal, usize_to_decimal};

verus! {

/// The denomination under which the chain's native token is reported.
pub const NAM: &'static str = "nam";

/// The timestamp reported where the chain has none to offer.
pub const DEFAULT_TIMESTAMP: &'static str = "1970-01-01T00:00:00Z";

/// Seconds and nanoseconds since the Unix epoch.
#[derive(Clone, Copy, Debug, PartialEq, Eq, Structural)]
pub struct Timestamp {
    pub seconds: i64,
    pub nanos: i32,
}

/// Seconds from the Unix epoch back to January 1 of year 1.
pub const ZERO_TIMESTAMP_SECONDS: i64 = -62135596800;

impl Timestamp {
    /// January 1 of year 1, the timestamp of a vote that was never cast.
    pub open spec fn zero_spec() -> Timestamp {
        Timestamp { seconds: ZERO_TIMESTAMP_SECONDS, nanos: 0 }
    }

    /// January 1 of year 1, the timestamp of a vote that was never cast.
    #[verifier::when_used_as_spec(zero_spec)]
    pub fn zero() -> (t: Timestamp)
        ensures
            t == Self::zero_spec(),
    {
        Timestamp { seconds: ZERO_TIMESTAMP_SECONDS, nanos: 0 }
    }
}

/// Paging options of a query string; accepted, and not acted upon.
#[derive(Clone, Copy, Debug)]
pub struct PaginationQueryParams {
    pub limit: Option<u32>,
    pub offset: Option<u32>,
    pub count_total: Option<bool>,
    pub reverse: Option<bool>,
}

/// The paging block of a list response.
#[derive(Debug)]
pub struct PaginationInfo {
    pub next_key: Option<String>,
    pub total: Option<String>,
}

/// What a [`PaginationInfo`] holds, as mathematical values.
pub struct PaginationInfoView {
    pub next_key: Option<Seq<char>>,
    pub total: Option<Seq<char>>,
}

impl DeepView for PaginationInfo {
    type V = PaginationInfoView;

    open spec fn deep_view(&self) -> PaginationInfoView {
        PaginationInfoView {
            next_key: self.next_key.deep_view(),
            total: self.total.deep_view(),
        }
    }
}

impl Default for PaginationInfo {
    /// No cursor and no total.
    fn default() -> (info: PaginationInfo)
        ensures
            info.deep_view() == (PaginationInfoView { next_key: None, total: None }),
    {
        PaginationInfo { next_key: None, total: None }
    }
}

impl PaginationInfo {
    /// The paging block of a response that holds everything on one page: no
    /// cursor, and the number of entries as the total.
    pub fn single_page(entries: usize) -> (info: PaginationInfo)
        ensures
            info.deep_view() == (PaginationInfoView {
                next_key: None,
                total: Some(decimal(entries as nat)),
            }),
    {
        PaginationInfo { next_key: None, total: Some(usize_to_decimal(entries)) }
    }
}

/// An amount of one denomination.
#[derive(Debug)]
pub struct DenomAmount {
    pub denom: String,
    pub amount: String,
}

/// What a [`DenomAmount`] holds, as mathematical values.
pub struct DenomAmountView {
    pub denom: Seq<char>,
    pub amount: Seq<char>,
}

impl DeepView for DenomAmount {
    type V = DenomAmountView;

    open spec fn deep_view(&self) -> DenomAmountView {
        DenomAmountView { denom: self.denom@, amount: self.amount@ }
    }
}

/// The native-token amount whose text is `amount`.
pub open spec fn nam_amount_view(amount: Seq<char>) -> DenomAmountView {
    DenomAmountView { denom: NAM@, amount }
}

impl DenomAmount {
    /// An amount of the native token. `amount` is the amount's text in the
    /// token's native denomination.
    pub fn nam_amount(amount: String) -> (r: DenomAmount)
        ensures
            r.deep_view() == nam_amount_view(amount@),
    {
        DenomAmount { denom: String::from_str(NAM), amount }
    }
}

/// A duration in whole seconds, written in responses with an `s` behind it.
#[derive(Clone, Copy, Debug, PartialEq, Eq, Structural)]
pub struct SuffixedDur(pub u64);

impl SuffixedDur {
    /// The text of a duration of `seconds`: the number, then `s`.
    pub open spec fn text_of(seconds: u64) -> Seq<char> {
        decimal(seconds as nat).push('s')
    }

    /// The duration as it is written in a response.
    pub fn to_text(&self) -> (s: String)
        ensures
            s@ == Self::text_of(self.0),
    {
        proof {
            reveal_strlit("s");
        }
        let s = u64_to_decimal(self.0).concat("s");
        assert(s@ =~= Self::text_of(self.0));
        s
    }
}

} // verus!
