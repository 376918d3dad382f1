use vstd::prelude::*;
use crate::error::PipelineError;

verus! {

/// The smallest-unit amount that a decimal text denotes at the given
/// precision, or `None` when the text is no such amount.
pub uninterp spec fn smallest_units_of(ui: Seq<char>, decimals: u8) -> Option<u64>;

/// Relies on `spl_token::try_ui_amount_into_amount`: the result depends on
/// the text and the precision alone, and it never panics.
#[verifier::external_body]
fn ui_to_smallest_units(ui: &String, decimals: u8) -> (r: Option<u64>)
    ensures
        r == smallest_units_of(ui@, decimals),
{
    spl_token::try_ui_amount_into_amount(ui.clone(), decimals).ok()
}

/// What converting a job's amount gives, stated over the converted value.
pub open spec fn checked_amount_spec(units: Option<u64>) -> Result<u64, PipelineError> {
    match units {
        None => Err(PipelineError::ConfigInvalid),
        Some(0) => Err(PipelineError::ZeroAmount),
        Some(n) => Ok(n),
    }
}

/// Decides on an already converted amount: text that is no amount is a
/// configuration error, and zero units are refused before any request.
pub fn checked_amount(units: Option<u64>) -> (r: Result<u64, PipelineError>)
    ensures
        r == checked_amount_spec(units),
{
    match units {
        None => Err(PipelineError::ConfigInvalid),
        Some(n) => if n == 0 {
            Err(PipelineError::ZeroAmount)
        } else {
            Ok(n)
        },
    }
}

/// Converts a decimal job amount into smallest units of an asset with
/// `decimals` digits of precision, refusing text that is no amount and zero.
pub fn smallest_units(ui: &String, decimals: u8) -> (r: Result<u64, PipelineError>)
    ensures
        r == checked_amount_spec(smallest_units_of(ui@, decimals)),
{
    checked_amount(ui_to_smallest_units(ui, decimals))
}

} // verus!
