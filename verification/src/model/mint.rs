//! Shapes of the mint area.

use vstd::prelude::*;

verus! {

/// The answer to a query for the inflation rate, a decimal numeral.
#[derive(Debug)]
pub struct InflationResponse {
    pub inflation: String,
}

} // verus!
