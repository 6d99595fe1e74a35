//! The paged log stream: a state machine that turns one query into a sequence
//! of logs, asking its driver for one request at a time.
use vstd::prelude::*;

use std::collections::VecDeque;

use ethers_core::types::Log;

use crate::query::{BlockRange, QueryDescriptor};

verus! {

#[verifier::external_type_specification]
#[verifier::external_body]
pub struct ExLog(Log);

/// The page size that a stream starts with, in blocks.
pub const DEFAULT_PAGE_SIZE: u64 = 10000;

/// The largest block number.
pub open spec fn max_block() -> int {
    u64::MAX as int
}

/// A block number past the last one that fits is held at the last one.
pub open spec fn clip(b: int) -> int {
    if b > max_block() {
        max_block()
    } else {
        b
    }
}

/// First block of the `k`-th window (counted from 0) of a stream that starts at
/// `from` with pages of `size` blocks.
pub open spec fn window_start(from: int, size: int, k: int) -> int {
    from + k * size
}

/// End of the `k`-th window, exclusive; held at the largest block number.
pub open spec fn window_end(from: int, size: int, k: int) -> int {
    clip(from + (k + 1) * size)
}

/// The `k`-th window as a bounded range.
pub open spec fn window(from: int, size: int, k: int) -> BlockRange {
    BlockRange::Bounded { from: window_start(from, size, k) as u64, to: window_end(from, size, k) as u64 }
}

/// How many windows an open stream from `from` with pages of `size` blocks
/// requests against chain tip `tip`: the first one always, then every one that
/// starts at or before the tip.
pub open spec fn page_count(from: int, size: int, tip: int) -> int {
    if from > tip {
        1
    } else {
        (tip - from) / size + 1
    }
}

/// Where a stream stands.
#[derive(Clone, Copy, Debug, PartialEq, Eq, Structural)]
pub enum StreamState {
    /// Not driven yet.
    Initial,
    /// A chain tip request is out.
    AwaitingChainTip,
    /// A page of logs is requested.
    AwaitingPage,
    /// Handing out the logs of the last page.
    Draining,
}

/// A request that the driver performs and answers.
#[derive(Debug)]
pub enum Request {
    /// The current block number; answer with `LogQuery::on_chain_tip`.
    ChainTip,
    /// The logs matching a query; answer with `LogQuery::on_logs`.
    Logs(QueryDescriptor),
}

/// What one step of the stream gives.
#[derive(Debug)]
pub enum Advance {
    /// The next log.
    Item(Log),
    /// Perform this request and hand its answer back before the next step.
    Wait(Request),
    /// The sequence is over.
    End,
}

impl Advance {
    /// This step asks for the logs of exactly `range`.
    pub open spec fn fetches(self, range: BlockRange) -> bool {
        match self {
            Advance::Wait(Request::Logs(q)) => q@ == range,
            _ => false,
        }
    }
}

/// A stream of the logs matching one query, paged in windows of `page_size`
/// blocks when the query's range is open.
pub struct LogQuery {
    query: QueryDescriptor,
    from_block: Option<u64>,
    page_size: u64,
    current_logs: VecDeque<Log>,
    last_block: Option<u64>,
    state: StreamState,
    pages: Ghost<nat>,
}

impl LogQuery {
    /// The range of the stream's query.
    pub closed spec fn range(&self) -> BlockRange {
        self.query@
    }

    /// Where the stream stands.
    pub closed spec fn spec_state(&self) -> StreamState {
        self.state
    }

    /// The width of each window, in blocks.
    pub closed spec fn spec_page_size(&self) -> nat {
        self.page_size as nat
    }

    /// The logs of the current page not handed out yet, front first.
    pub closed spec fn buffer(&self) -> Seq<Log> {
        self.current_logs@
    }

    /// The chain tip, once it has been loaded.
    pub closed spec fn chain_tip(&self) -> Option<u64> {
        self.last_block
    }

    /// How many windows have been requested.
    pub closed spec fn pages(&self) -> nat {
        self.pages@
    }

    /// The first block of the range.
    pub open spec fn first_block(&self) -> int {
        match self.range() {
            BlockRange::Bounded { from, .. } => from as int,
            BlockRange::Open { from } => from as int,
        }
    }

    /// The first block of the next window.
    pub open spec fn cursor(&self) -> int {
        window_start(self.first_block(), self.spec_page_size() as int, self.pages() as int)
    }

    /// The stream's invariant.
    pub closed spec fn wf(&self) -> bool {
        &&& self.page_size > 0
        &&& self.state is Initial ==> {
            &&& self.pages@ == 0
            &&& self.current_logs@.len() == 0
            &&& self.last_block is None
        }
        &&& match self.query@ {
            BlockRange::Bounded { .. } => {
                &&& self.pages@ == 0
                &&& !(self.state is AwaitingChainTip)
                &&& self.last_block is None
            },
            BlockRange::Open { from } => {
                &&& self.from_block == (if self.cursor() <= max_block() {
                    Some(self.cursor() as u64)
                } else {
                    None::<u64>
                })
                &&& (self.state is Initial || self.state is AwaitingChainTip) <==> self.pages@ == 0
                &&& self.state is AwaitingChainTip ==> self.last_block is None
                &&& self.pages@ > 0 ==> self.last_block is Some
                &&& self.pages@ > 1 ==> window_start(
                    from as int,
                    self.page_size as int,
                    self.pages@ - 1,
                ) <= self.last_block->0
            },
        }
    }

    /// A stream over `query`, not driven yet, with the default page size.
    pub fn new(query: &QueryDescriptor) -> (r: LogQuery)
        ensures
            r.wf(),
            r.range() == query@,
            r.spec_state() == StreamState::Initial,
            r.spec_page_size() == DEFAULT_PAGE_SIZE,
            r.buffer().len() == 0,
            r.chain_tip() is None,
            r.pages() == 0,
    {
        let from_block = match query.range() {
            BlockRange::Bounded { from, .. } => Some(from),
            BlockRange::Open { from } => Some(from),
        };
        LogQuery {
            query: query.copied(),
            from_block,
            page_size: DEFAULT_PAGE_SIZE,
            current_logs: VecDeque::new(),
            last_block: None,
            state: StreamState::Initial,
            pages: Ghost(0),
        }
    }

    /// Where the stream stands.
    pub fn state(&self) -> (r: StreamState)
        ensures
            r == self.spec_state(),
    {
        self.state
    }

    /// The page size, in blocks.
    pub fn page_size(&self) -> (r: u64)
        ensures
            r == self.spec_page_size(),
    {
        self.page_size
    }

    /// Sets the page size. Once the stream has been driven the call is ignored.
    pub fn with_page_size(self, page_size: u64) -> (r: LogQuery)
        requires
            self.wf(),
            page_size > 0,
        ensures
            r.wf(),
            r.range() == self.range(),
            r.spec_state() == self.spec_state(),
            r.buffer() == self.buffer(),
            r.chain_tip() == self.chain_tip(),
            r.pages() == self.pages(),
            r.spec_page_size() == if self.spec_state() is Initial {
                page_size as nat
            } else {
                self.spec_page_size()
            },
    {
        let mut this = self;
        if this.state == StreamState::Initial {
            this.page_size = page_size;
        }
        this
    }

    /// The bounds of the next window, and the first block after it where that
    /// block number still fits.
    fn next_window(&self, from: u64) -> (r: (u64, Option<u64>))
        requires
            self.wf(),
            self.range() is Open,
            from == self.cursor(),
        ensures
            r.0 == window_end(self.first_block(), self.spec_page_size() as int, self.pages() as int),
            r.1 == (if window_start(self.first_block(), self.spec_page_size() as int, self.pages() + 1 as int)
                <= max_block() {
                Some(
                    window_start(self.first_block(), self.spec_page_size() as int, self.pages() + 1 as int)
                        as u64,
                )
            } else {
                None::<u64>
            }),
    {
        let ghost f = self.first_block();
        let ghost s = self.page_size as int;
        let ghost k = self.pages@ as int;
        assert(window_start(f, s, k + 1) == from + s) by (nonlinear_arith)
            requires
                from == window_start(f, s, k),
        ;
        assert(window_end(f, s, k) == clip(from + s)) by (nonlinear_arith)
            requires
                from == window_start(f, s, k),
        ;
        match from.checked_add(self.page_size) {
            Some(to) => (to, Some(to)),
            None => (u64::MAX, None),
        }
    }

    /// Takes the answer to a chain tip request, and asks for the first window.
    /// The first window is requested even where it starts past the tip.
    pub fn on_chain_tip(&mut self, tip: u64) -> (r: Advance)
        requires
            old(self).wf(),
            old(self).spec_state() is AwaitingChainTip,
        ensures
            final(self).wf(),
            final(self).range() == old(self).range(),
            final(self).spec_page_size() == old(self).spec_page_size(),
            final(self).buffer() == old(self).buffer(),
            final(self).chain_tip() == Some(tip),
            final(self).pages() == 1,
            final(self).spec_state() is AwaitingPage,
            r.fetches(window(old(self).first_block(), old(self).spec_page_size() as int, 0)),
    {
        let from = match self.from_block {
            Some(from) => from,
            None => 0,
        };
        let (to, next) = self.next_window(from);
        self.last_block = Some(tip);
        let query = self.query.with_range(from, to);
        self.from_block = next;
        self.pages = Ghost(self.pages@ + 1);
        self.state = StreamState::AwaitingPage;
        Advance::Wait(Request::Logs(query))
    }

    /// Takes the answer to a page request: its logs, in the order given, are
    /// handed out next.
    pub fn on_logs(&mut self, logs: Vec<Log>)
        requires
            old(self).wf(),
            old(self).spec_state() is AwaitingPage,
        ensures
            final(self).wf(),
            final(self).range() == old(self).range(),
            final(self).spec_page_size() == old(self).spec_page_size(),
            final(self).chain_tip() == old(self).chain_tip(),
            final(self).pages() == old(self).pages(),
            final(self).buffer() == logs@,
            final(self).spec_state() is Draining,
    {
        let ghost all = logs@;
        let mut rest = logs;
        let mut page: VecDeque<Log> = VecDeque::new();
        while rest.len() > 0
            invariant
                rest@.len() <= all.len(),
                rest@ == all.subrange(0, rest@.len() as int),
                page@ == all.subrange(rest@.len() as int, all.len() as int),
            decreases rest@.len(),
        {
            match rest.pop() {
                Some(log) => page.push_front(log),
                None => {},
            }
            assert(page@ =~= all.subrange(rest@.len() as int, all.len() as int));
        }
        self.current_logs = page;
        self.state = StreamState::Draining;
    }

    /// One step of the stream. From the start it asks for the whole range where
    /// the range is bounded, else for the chain tip. While draining it hands out
    /// the next buffered log; once the buffer is empty, a bounded stream ends, and
    /// an open one ends where the next window starts past the chain tip, and
    /// asks for that window otherwise.
    pub fn poll_next(&mut self) -> (r: Advance)
        requires
            old(self).wf(),
            old(self).spec_state() is Initial || old(self).spec_state() is Draining,
        ensures
            final(self).wf(),
            final(self).range() == old(self).range(),
            final(self).spec_page_size() == old(self).spec_page_size(),
            final(self).chain_tip() == old(self).chain_tip(),
            old(self).spec_state() is Initial && old(self).range() is Bounded ==> {
                &&& r.fetches(old(self).range())
                &&& final(self).spec_state() is AwaitingPage
                &&& final(self).buffer() == old(self).buffer()
                &&& final(self).pages() == old(self).pages()
            },
            old(self).spec_state() is Initial && old(self).range() is Open ==> {
                &&& r is Wait && r->Wait_0 is ChainTip
                &&& final(self).spec_state() is AwaitingChainTip
                &&& final(self).buffer() == old(self).buffer()
                &&& final(self).pages() == old(self).pages()
            },
            old(self).spec_state() is Draining && old(self).buffer().len() > 0 ==> {
                &&& r == Advance::Item(old(self).buffer()[0])
                &&& final(self).spec_state() is Draining
                &&& final(self).buffer() == old(self).buffer().drop_first()
                &&& final(self).pages() == old(self).pages()
            },
            old(self).spec_state() is Draining && old(self).buffer().len() == 0 && (old(self).range() is Bounded
                || old(self).cursor() > old(self).chain_tip()->0) ==> {
                &&& r is End
                &&& final(self).spec_state() is Draining
                &&& final(self).buffer() == old(self).buffer()
                &&& final(self).pages() == old(self).pages()
            },
            old(self).spec_state() is Draining && old(self).buffer().len() == 0 && old(self).range() is Open
                && old(self).cursor() <= old(self).chain_tip()->0 ==> {
                &&& r.fetches(
                    window(
                        old(self).first_block(),
                        old(self).spec_page_size() as int,
                        old(self).pages() as int,
                    ),
                )
                &&& final(self).spec_state() is AwaitingPage
                &&& final(self).buffer() == old(self).buffer()
                &&& final(self).pages() == old(self).pages() + 1
            },
            r is End && old(self).range() is Open ==> old(self).pages() == page_count(
                old(self).first_block(),
                old(self).spec_page_size() as int,
                old(self).chain_tip()->0 as int,
            ),
    {
        if self.state == StreamState::Initial {
            if !self.query.is_paginatable() {
                self.state = StreamState::AwaitingPage;
                Advance::Wait(Request::Logs(self.query.copied()))
            } else {
                self.state = StreamState::AwaitingChainTip;
                Advance::Wait(Request::ChainTip)
            }
        } else {
            match self.current_logs.pop_front() {
                Some(log) => Advance::Item(log),
                None => {
                    if !self.query.is_paginatable() {
                        return Advance::End;
                    }
                    let last = match self.last_block {
                        Some(last) => last,
                        None => 0,
                    };
                    let past_end = match self.from_block {
                        Some(from) => from > last,
                        None => true,
                    };
                    if past_end {
                        proof {
                            lemma_page_count(
                                self.first_block(),
                                self.page_size as int,
                                last as int,
                                self.pages@ as int,
                            );
                        }
                        return Advance::End;
                    }
                    let from = match self.from_block {
                        Some(from) => from,
                        None => 0,
                    };
                    let (to, next) = self.next_window(from);
                    let query = self.query.with_range(from, to);
                    self.from_block = next;
                    self.pages = Ghost(self.pages@ + 1);
                    self.state = StreamState::AwaitingPage;
                    Advance::Wait(Request::Logs(query))
                },
            }
        }
    }
}

/// A stream over a bounded range never asks for the chain tip and never pages:
/// in every state it is in, no chain tip request is out and no window has been
/// requested.
pub proof fn lemma_bounded_never_pages(s: &LogQuery)
    requires
        s.wf(),
        s.range() is Bounded,
    ensures
        !(s.spec_state() is AwaitingChainTip),
        s.pages() == 0,
        s.chain_tip() is None,
{
}

/// A stream that ends after `k` windows, the `k`-th starting past the tip and
/// any earlier one at or before it, has requested `page_count` windows.
proof fn lemma_page_count(from: int, size: int, tip: int, k: int)
    requires
        0 <= from,
        0 < size,
        1 <= k,
        window_start(from, size, k) > tip,
        k > 1 ==> window_start(from, size, k - 1) <= tip,
    ensures
        k == page_count(from, size, tip),
{
    if from > tip {
        if k > 1 {
            assert((k - 1) * size >= 0) by (nonlinear_arith)
                requires
                    k > 1,
                    size > 0,
            ;
        }
    } else {
        let d = tip - from;
        if k == 1 {
            assert((k - 1) * size <= d < k * size) by (nonlinear_arith)
                requires
                    k == 1,
                    from + k * size > tip,
                    d == tip - from,
                    d >= 0,
            ;
        } else {
            assert((k - 1) * size <= d < k * size) by (nonlinear_arith)
                requires
                    from + (k - 1) * size <= tip,
                    from + k * size > tip,
                    d == tip - from,
            ;
        }
        assert(d / size == k - 1) by (nonlinear_arith)
            requires
                (k - 1) * size <= d < k * size,
                size > 0,
                k >= 1,
        ;
    }
}

/// The windows that an open stream requests are consecutive and ascending: the
/// `k`-th of the `page_count` windows ends where the next one starts, each one
/// after the first starts at or before the chain tip, and the last one reaches
/// past the tip (or to the largest block number, where the tip is that block).
pub proof fn lemma_windows(from: int, size: int, tip: int, k: int)
    requires
        0 <= from <= max_block(),
        0 < size,
        0 <= tip <= max_block(),
        0 <= k < page_count(from, size, tip),
    ensures
        window_start(from, size, k) < window_start(from, size, k + 1),
        k + 1 < page_count(from, size, tip) ==> window_end(from, size, k) == window_start(
            from,
            size,
            k + 1,
        ),
        k >= 1 ==> window_start(from, size, k) <= tip,
        k == page_count(from, size, tip) - 1 ==> window_end(from, size, k) > tip || window_end(
            from,
            size,
            k,
        ) == max_block(),
{
    assert(window_start(from, size, k) < window_start(from, size, k + 1)) by (nonlinear_arith)
        requires
            size > 0,
    ;
    if from > tip {
        assert(window_end(from, size, k) >= from) by (nonlinear_arith)
            requires
                k == 0,
                size > 0,
                from <= max_block(),
        ;
    } else {
        let d = tip - from;
        assert(k * size <= d) by (nonlinear_arith)
            requires
                k <= d / size,
                size > 0,
                d >= 0,
        ;
        if k + 1 < page_count(from, size, tip) {
            assert((k + 1) * size <= d) by (nonlinear_arith)
                requires
                    k + 1 <= d / size,
                    size > 0,
                    d >= 0,
            ;
        } else {
            assert((k + 1) * size > d) by (nonlinear_arith)
                requires
                    k == d / size,
                    size > 0,
                    d >= 0,
            ;
        }
    }
}

} // verus!
