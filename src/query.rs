//! The query descriptor: what to fetch, and over which blocks.
use vstd::prelude::*;

use ethers_core::types::Filter;

verus! {

#[verifier::external_type_specification]
#[verifier::external_body]
pub struct ExFilter(Filter);

/// Relies on `Filter::from_block`: sets the first block of the filter's range,
/// keeping addresses and topics.
#[verifier::external_body]
fn filter_from_block(filter: Filter, block: u64) -> Filter {
    filter.from_block(block)
}

/// Relies on `Filter::to_block`: sets the last block of the filter's range,
/// keeping addresses and topics.
#[verifier::external_body]
fn filter_to_block(filter: Filter, block: u64) -> Filter {
    filter.to_block(block)
}

/// Relies on `Filter`'s derived `Clone`.
#[verifier::external_body]
fn filter_clone(filter: &Filter) -> Filter {
    filter.clone()
}

/// Which blocks a query covers.
#[derive(Clone, Copy, Debug, PartialEq, Eq, Structural)]
pub enum BlockRange {
    /// Both ends fixed: fetched in a single request.
    Bounded { from: u64, to: u64 },
    /// A first block and no fixed end: paged up to the chain tip.
    Open { from: u64 },
}

impl BlockRange {
    pub open spec fn spec_is_open(self) -> bool {
        self is Open
    }
}

/// Addresses and topics to match, carried in an ethers `Filter`, together with
/// the block range, which decides how the query is fetched.
#[derive(Debug)]
pub struct QueryDescriptor {
    filter: Filter,
    range: BlockRange,
}

impl View for QueryDescriptor {
    type V = BlockRange;

    closed spec fn view(&self) -> BlockRange {
        self.range
    }
}

impl QueryDescriptor {
    /// A query for the addresses and topics of `filter` over `range`; the
    /// filter's own block bounds are replaced by those of `range`.
    pub fn new(filter: Filter, range: BlockRange) -> (r: QueryDescriptor)
        ensures
            r@ == range,
    {
        let filter = match range {
            BlockRange::Bounded { from, to } => filter_to_block(filter_from_block(filter, from), to),
            BlockRange::Open { from } => filter_from_block(filter, from),
        };
        QueryDescriptor { filter, range }
    }

    /// The range mode of this query.
    pub fn range(&self) -> (r: BlockRange)
        ensures
            r == self@,
    {
        self.range
    }

    /// True iff the range has no fixed end, so that it is fetched page by page.
    pub fn is_paginatable(&self) -> (r: bool)
        ensures
            r == self@.spec_is_open(),
    {
        match self.range {
            BlockRange::Open { .. } => true,
            BlockRange::Bounded { .. } => false,
        }
    }

    /// A copy of this query bounded to the blocks `from` to `to`; `self` is
    /// left as it is.
    pub fn with_range(&self, from: u64, to: u64) -> (r: QueryDescriptor)
        ensures
            r@ == (BlockRange::Bounded { from, to }),
    {
        let filter = filter_to_block(filter_from_block(filter_clone(&self.filter), from), to);
        QueryDescriptor { filter, range: BlockRange::Bounded { from, to } }
    }

    /// A copy of this query, its range kept.
    pub(crate) fn copied(&self) -> (r: QueryDescriptor)
        ensures
            r@ == self@,
    {
        QueryDescriptor { filter: filter_clone(&self.filter), range: self.range }
    }

    /// The filter to hand to the endpoint, its block bounds set to this query's range.
    pub fn filter(&self) -> &Filter {
        &self.filter
    }
}

} // verus!
