use vstd::prelude::*;
use crate::amount::{checked_amount_spec, smallest_units, smallest_units_of};
use crate::error::PipelineError;

verus! {

/// A priced, short-lived proposal to convert an exact input amount.
/// Amounts are in smallest units; the price impact is in parts per million.
#[derive(Clone, Debug)]
pub struct Quote {
    pub in_amount: u64,
    pub out_amount: u64,
    pub out_amount_with_slippage: u64,
    pub route: Vec<String>,
    pub price_impact_ppm: u64,
}

/// What is sent to the aggregator for one cycle of one job.
#[derive(Clone, Copy, Debug)]
pub struct QuoteRequest {
    pub input: [u8; 32],
    pub output: [u8; 32],
    pub amount: u64,
    pub only_direct_routes: bool,
    pub slippage_bps: u64,
}

/// The request for an already converted amount, or why none is sent.
pub open spec fn request_spec(
    input: [u8; 32],
    output: [u8; 32],
    units: Option<u64>,
    only_direct_routes: bool,
    slippage_bps: u64,
) -> Result<QuoteRequest, PipelineError> {
    match checked_amount_spec(units) {
        Ok(amount) => Ok(QuoteRequest { input, output, amount, only_direct_routes, slippage_bps }),
        Err(e) => Err(e),
    }
}

/// Builds the quote request for a job amount written as decimal text, with
/// the input asset's precision. Text that is no amount, and an amount of
/// zero smallest units, are refused here, before anything is sent.
pub fn quote_request(
    input: [u8; 32],
    output: [u8; 32],
    ui_amount: &String,
    decimals: u8,
    only_direct_routes: bool,
    slippage_bps: u64,
) -> (r: Result<QuoteRequest, PipelineError>)
    ensures
        r == request_spec(
            input,
            output,
            smallest_units_of(ui_amount@, decimals),
            only_direct_routes,
            slippage_bps,
        ),
{
    match smallest_units(ui_amount, decimals) {
        Ok(amount) => Ok(QuoteRequest { input, output, amount, only_direct_routes, slippage_bps }),
        Err(e) => Err(e),
    }
}

/// An amount of zero smallest units never becomes a request: it is
/// refused before anything is sent to the aggregator.
pub proof fn lemma_zero_amount_sends_nothing(
    input: [u8; 32],
    output: [u8; 32],
    only_direct_routes: bool,
    slippage_bps: u64,
)
    ensures
        request_spec(input, output, Some(0u64), only_direct_routes, slippage_bps) == Err::<
            QuoteRequest,
            PipelineError,
        >(PipelineError::ZeroAmount),
{
}

/// Takes the best-ranked quote, the first one; an empty list means that no
/// route exists for the pair this cycle.
pub fn select_quote(quotes: Vec<Quote>) -> (r: Result<Quote, PipelineError>)
    ensures
        quotes@.len() == 0 ==> r == Err::<Quote, PipelineError>(PipelineError::NoQuoteAvailable),
        quotes@.len() > 0 ==> r == Ok::<Quote, PipelineError>(quotes@[0]),
{
    let mut quotes = quotes;
    if quotes.len() == 0 {
        Err(PipelineError::NoQuoteAvailable)
    } else {
        Ok(quotes.remove(0))
    }
}

/// The labels separated by a comma and a space.
pub open spec fn joined(parts: Seq<Seq<char>>) -> Seq<char>
    decreases parts.len(),
{
    if parts.len() == 0 {
        Seq::empty()
    } else if parts.len() == 1 {
        parts[0]
    } else {
        joined(parts.drop_last()) + seq![',', ' '] + parts.last()
    }
}

pub open spec fn labels_of(route: Seq<String>) -> Seq<Seq<char>> {
    route.map_values(|s: String| s@)
}

/// Relies on `itertools::Itertools::join`: the first element, then the
/// separator and the next element for each further one.
#[verifier::external_body]
fn join_labels(labels: &Vec<String>) -> (r: String)
    ensures
        r@ == joined(labels_of(labels@)),
{
    itertools::Itertools::join(&mut labels.iter(), ", ")
}

impl Quote {
    /// The hops of the route, by label, in order.
    pub fn route_label(&self) -> (r: String)
        ensures
            r@ == joined(labels_of(self.route@)),
    {
        join_labels(&self.route)
    }

    /// Whether `received` output units stay within the quote's worst case.
    pub fn within_slippage(&self, received: u64) -> (r: bool)
        ensures
            r == (received >= self.out_amount_with_slippage),
    {
        received >= self.out_amount_with_slippage
    }
}

} // verus!
