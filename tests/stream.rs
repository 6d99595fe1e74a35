use ethers_core::types::{Address, BlockNumber, Filter, FilterBlockOption, Log, ValueOrArray, U256, U64};
use log_query::log_query::{Advance, LogQuery, Request, StreamState, DEFAULT_PAGE_SIZE};
use log_query::query::{BlockRange, QueryDescriptor};

fn log(i: u64) -> Log {
    Log {
        address: Default::default(),
        topics: vec![],
        data: Default::default(),
        block_hash: None,
        block_number: Some(U64::from(i)),
        transaction_hash: None,
        transaction_index: None,
        log_index: Some(U256::from(i)),
        transaction_log_index: None,
        log_type: None,
        removed: None,
    }
}

struct Run {
    items: Vec<Log>,
    chain_tip_requests: usize,
    windows: Vec<BlockRange>,
}

/// Drives a stream against fixed answers: `tip` for the chain tip, and the
/// pages in the order they are requested (an empty page once they run out).
fn drive(stream: LogQuery, tip: u64, pages: Vec<Vec<Log>>) -> Run {
    let mut stream = stream;
    let mut pages = pages.into_iter();
    let mut run = Run { items: vec![], chain_tip_requests: 0, windows: vec![] };
    let mut step = stream.poll_next();
    for _ in 0..10_000 {
        match step {
            Advance::Item(l) => {
                run.items.push(l);
                step = stream.poll_next();
            }
            Advance::End => return run,
            Advance::Wait(Request::ChainTip) => {
                run.chain_tip_requests += 1;
                step = stream.on_chain_tip(tip);
            }
            Advance::Wait(Request::Logs(q)) => {
                run.windows.push(q.range());
                stream.on_logs(pages.next().unwrap_or_default());
                step = stream.poll_next();
            }
        }
    }
    panic!("the stream did not end");
}

fn open(from: u64) -> QueryDescriptor {
    QueryDescriptor::new(Filter::new(), BlockRange::Open { from })
}

fn bounded(from: u64, to: u64) -> QueryDescriptor {
    QueryDescriptor::new(Filter::new(), BlockRange::Bounded { from, to })
}

#[test]
fn open_range_page_size_two_tip_five() {
    let q = open(0);
    let run = drive(LogQuery::new(&q).with_page_size(2), 5, vec![vec![log(1)], vec![log(3)], vec![]]);
    assert_eq!(run.items, vec![log(1), log(3)]);
    assert_eq!(run.chain_tip_requests, 1);
    assert_eq!(
        run.windows,
        vec![
            BlockRange::Bounded { from: 0, to: 2 },
            BlockRange::Bounded { from: 2, to: 4 },
            BlockRange::Bounded { from: 4, to: 6 },
        ]
    );
}

#[test]
fn bounded_range_single_fetch_in_order() {
    let q = bounded(100, 200);
    let run = drive(LogQuery::new(&q), 1_000, vec![vec![log(7), log(3), log(5)]]);
    assert_eq!(run.items, vec![log(7), log(3), log(5)]);
    assert_eq!(run.chain_tip_requests, 0);
    assert_eq!(run.windows, vec![BlockRange::Bounded { from: 100, to: 200 }]);
}

#[test]
fn bounded_range_ignores_page_size() {
    let q = bounded(0, 100_000);
    let run = drive(LogQuery::new(&q).with_page_size(3), 1_000_000, vec![vec![log(1)], vec![log(2)]]);
    assert_eq!(run.items, vec![log(1)]);
    assert_eq!(run.windows, vec![BlockRange::Bounded { from: 0, to: 100_000 }]);
}

#[test]
fn start_past_tip_fetches_first_window_once() {
    let q = open(50);
    let run = drive(LogQuery::new(&q).with_page_size(10), 20, vec![vec![log(50)]]);
    assert_eq!(run.chain_tip_requests, 1);
    assert_eq!(run.windows, vec![BlockRange::Bounded { from: 50, to: 60 }]);
    assert_eq!(run.items, vec![log(50)]);
}

#[test]
fn windows_are_consecutive_up_to_the_tip() {
    let q = open(7);
    let run = drive(LogQuery::new(&q).with_page_size(3), 20, vec![]);
    assert_eq!(
        run.windows,
        vec![
            BlockRange::Bounded { from: 7, to: 10 },
            BlockRange::Bounded { from: 10, to: 13 },
            BlockRange::Bounded { from: 13, to: 16 },
            BlockRange::Bounded { from: 16, to: 19 },
            BlockRange::Bounded { from: 19, to: 22 },
        ]
    );
    assert!(run.items.is_empty());
}

#[test]
fn window_starting_at_tip_is_fetched() {
    let q = open(0);
    let run = drive(LogQuery::new(&q).with_page_size(5), 10, vec![]);
    assert_eq!(run.windows.len(), 3);
    assert_eq!(run.windows[2], BlockRange::Bounded { from: 10, to: 15 });
}

#[test]
fn last_window_is_held_at_the_largest_block() {
    let q = open(u64::MAX - 1);
    let run = drive(LogQuery::new(&q).with_page_size(10), u64::MAX, vec![vec![log(2)]]);
    assert_eq!(run.windows, vec![BlockRange::Bounded { from: u64::MAX - 1, to: u64::MAX }]);
    assert_eq!(run.items, vec![log(2)]);
}

#[test]
fn two_streams_on_one_query_agree() {
    let q = open(0);
    let pages = vec![vec![log(1), log(2)], vec![], vec![log(9)]];
    let a = drive(LogQuery::new(&q).with_page_size(4), 9, pages.clone());
    let b = drive(LogQuery::new(&q).with_page_size(4), 9, pages);
    assert_eq!(a.items, b.items);
    assert_eq!(a.windows, b.windows);
    assert_eq!(a.items, vec![log(1), log(2), log(9)]);
}

#[test]
fn dropped_stream_asks_for_nothing_more() {
    let q = open(0);
    let mut stream = LogQuery::new(&q).with_page_size(1);
    assert!(matches!(stream.poll_next(), Advance::Wait(Request::ChainTip)));
    assert!(matches!(stream.on_chain_tip(100), Advance::Wait(Request::Logs(_))));
    assert_eq!(stream.state(), StreamState::AwaitingPage);
    drop(stream);
    // The query outlives the stream, unchanged.
    assert_eq!(q.range(), BlockRange::Open { from: 0 });
}

#[test]
fn default_page_size_and_late_change_ignored() {
    let q = open(0);
    let stream = LogQuery::new(&q);
    assert_eq!(stream.page_size(), DEFAULT_PAGE_SIZE);
    assert_eq!(stream.page_size(), 10000);
    let mut stream = stream.with_page_size(25);
    assert_eq!(stream.page_size(), 25);
    let _ = stream.poll_next();
    let stream = stream.with_page_size(7);
    assert_eq!(stream.page_size(), 25);
    assert_eq!(stream.state(), StreamState::AwaitingChainTip);
}

#[test]
fn page_logs_are_drained_front_first() {
    let q = bounded(1, 2);
    let mut stream = LogQuery::new(&q);
    assert!(matches!(stream.poll_next(), Advance::Wait(Request::Logs(_))));
    stream.on_logs(vec![log(4), log(1), log(8)]);
    assert_eq!(stream.state(), StreamState::Draining);
    for want in [4, 1, 8] {
        match stream.poll_next() {
            Advance::Item(l) => assert_eq!(l, log(want)),
            other => panic!("unexpected step {:?}", other),
        }
    }
    assert!(matches!(stream.poll_next(), Advance::End));
    assert!(matches!(stream.poll_next(), Advance::End));
}

#[test]
fn query_range_and_paginatable() {
    let q = open(3);
    assert!(q.is_paginatable());
    assert_eq!(q.range(), BlockRange::Open { from: 3 });
    let b = q.with_range(3, 9);
    assert!(!b.is_paginatable());
    assert_eq!(b.range(), BlockRange::Bounded { from: 3, to: 9 });
    assert_eq!(q.range(), BlockRange::Open { from: 3 });
}

#[test]
fn request_filter_carries_the_window() {
    let q = open(0);
    let base = q.filter().block_option;
    assert_eq!(
        base,
        FilterBlockOption::Range { from_block: Some(BlockNumber::Number(U64::from(0))), to_block: None }
    );
    let w = q.with_range(12, 34);
    assert_eq!(
        w.filter().block_option,
        FilterBlockOption::Range {
            from_block: Some(BlockNumber::Number(U64::from(12))),
            to_block: Some(BlockNumber::Number(U64::from(34))),
        }
    );
    let address = Address::from_low_u64_be(0x1111);
    let with_address = QueryDescriptor::new(Filter::new().address(ValueOrArray::Value(address)), BlockRange::Bounded { from: 1, to: 2 });
    let sub = with_address.with_range(5, 6);
    assert_eq!(sub.filter(), &Filter::new().address(ValueOrArray::Value(address)).from_block(5u64).to_block(6u64));
}
