//! Windowed dispatch of the parts of one file, and the reduction of their
//! completions, in whatever order they come, to one contiguous prefix.

use std::collections::BTreeSet;

use vstd::prelude::*;

use crate::error;
use crate::error::{InnerErrorCode, MeowError};

verus! {

/// The mathematical value of a [`PartWindow`].
#[verifier::ext_equal]
pub struct PartWindowView {
    pub chunk: int,
    pub total: int,
    pub max_in_flight: int,
    /// The next offset to hand out.
    pub next_dispatch: int,
    /// Offsets of completed parts that lie behind a part still missing.
    pub completed: Set<u64>,
    /// The end of the contiguous prefix.
    pub watermark: int,
    /// How many parts were handed out and have not settled.
    pub in_flight: int,
}

pub open spec fn min_int(a: int, b: int) -> int {
    if a <= b {
        a
    } else {
        b
    }
}

pub open spec fn max_int(a: int, b: int) -> int {
    if a >= b {
        a
    } else {
        b
    }
}

impl PartWindowView {
    pub open spec fn wf(self) -> bool {
        &&& self.chunk >= 1
        &&& self.max_in_flight >= 1
        &&& 0 <= self.watermark <= self.total <= u64::MAX
        &&& 0 <= self.next_dispatch <= self.total
        &&& 0 <= self.in_flight
    }

    /// A window over `total` bytes of which the first `start` are there.
    pub open spec fn fresh(start: int, chunk: int, total: int, max_in_flight: int) -> PartWindowView {
        PartWindowView {
            chunk: max_int(chunk, 1),
            total,
            max_in_flight: max_int(max_in_flight, 1),
            next_dispatch: min_int(start, total),
            completed: Set::empty(),
            watermark: min_int(start, total),
            in_flight: 0,
        }
    }

    /// Where the part behind the one at `offset` starts; the last part may be
    /// short.
    pub open spec fn next(self, offset: int) -> int {
        min_int(offset + self.chunk, self.total)
    }

    /// Whether a part can be handed out.
    pub open spec fn can_dispatch(self) -> bool {
        self.in_flight < self.max_in_flight && self.next_dispatch < self.total
    }

    /// The window after a part was handed out.
    pub open spec fn dispatched(self) -> PartWindowView {
        PartWindowView {
            next_dispatch: self.next(self.next_dispatch),
            in_flight: self.in_flight + 1,
            ..self
        }
    }

    /// The window with the prefix grown over the completed parts that touch it.
    pub open spec fn advanced(self) -> PartWindowView
        decreases self.total - self.watermark,
    {
        if self.chunk >= 1 && self.watermark < self.total && self.completed.contains(
            self.watermark as u64,
        ) {
            (PartWindowView {
                completed: self.completed.remove(self.watermark as u64),
                watermark: self.next(self.watermark),
                ..self
            }).advanced()
        } else {
            self
        }
    }

    /// The window after a part was completed.
    pub open spec fn done(self, offset: u64) -> PartWindowView {
        (PartWindowView {
            in_flight: self.in_flight - 1,
            completed: self.completed.insert(offset),
            ..self
        }).advanced()
    }

    /// The window after a part came to rest without being completed.
    pub open spec fn settled(self) -> PartWindowView {
        PartWindowView { in_flight: max_int(self.in_flight - 1, 0), ..self }
    }

    /// Everything is there and nothing is under way.
    pub open spec fn complete(self) -> bool {
        self.watermark >= self.total && self.in_flight == 0
    }
}

/// Bounded dispatcher and prefix tracker for the parts of one file.
pub struct PartWindow {
    chunk: u64,
    total: u64,
    max_in_flight: usize,
    next_dispatch: u64,
    completed: BTreeSet<u64>,
    watermark: u64,
    in_flight: usize,
}

impl View for PartWindow {
    type V = PartWindowView;

    closed spec fn view(&self) -> PartWindowView {
        PartWindowView {
            chunk: self.chunk as int,
            total: self.total as int,
            max_in_flight: self.max_in_flight as int,
            next_dispatch: self.next_dispatch as int,
            completed: self.completed@,
            watermark: self.watermark as int,
            in_flight: self.in_flight as int,
        }
    }
}

impl PartWindow {
    /// A window that resumes at `start_offset`, with at most `max_in_flight`
    /// parts under way.
    pub fn new(start_offset: u64, chunk: u64, total: u64, max_in_flight: usize) -> (window: Self)
        ensures
            window@ == PartWindowView::fresh(
                start_offset as int,
                chunk as int,
                total as int,
                max_in_flight as int,
            ),
            window@.wf(),
    {
        let start: u64 = if start_offset <= total {
            start_offset
        } else {
            total
        };
        PartWindow {
            chunk: if chunk >= 1 {
                chunk
            } else {
                1
            },
            total,
            max_in_flight: if max_in_flight >= 1 {
                max_in_flight
            } else {
                1
            },
            next_dispatch: start,
            completed: BTreeSet::new(),
            watermark: start,
            in_flight: 0,
        }
    }

    fn next_offset(&self, offset: u64) -> (next: u64)
        requires
            offset <= self.total,
        ensures
            next == self@.next(offset as int),
    {
        if self.total - offset <= self.chunk {
            self.total
        } else {
            offset + self.chunk
        }
    }

    /// Hands out the next part; `None` when the window is full or every byte
    /// was handed out.
    pub fn take_dispatch(&mut self) -> (offset: Option<u64>)
        requires
            old(self)@.wf(),
        ensures
            final(self)@.wf(),
            match offset {
                Some(o) => old(self)@.can_dispatch() && o == old(self)@.next_dispatch
                    && final(self)@ == old(self)@.dispatched(),
                None => !old(self)@.can_dispatch() && final(self)@ == old(self)@,
            },
    {
        if self.in_flight >= self.max_in_flight || self.next_dispatch >= self.total {
            return None;
        }
        let offset: u64 = self.next_dispatch;
        self.next_dispatch = self.next_offset(offset);
        self.in_flight = self.in_flight + 1;
        Some(offset)
    }

    /// Records that the part at `offset` was completed. Tells the new prefix
    /// where it grew; a part that lies behind a missing one does not grow it.
    /// Refused when no part is under way.
    pub fn on_done(&mut self, offset: u64) -> (progress: Result<Option<u64>, MeowError>)
        requires
            old(self)@.wf(),
        ensures
            final(self)@.wf(),
            old(self)@.in_flight == 0 ==> {
                &&& error::fails_with(
                    progress,
                    InnerErrorCode::InvalidTaskState,
                    "internal: on_done called without a matching dispatch"@,
                )
                &&& final(self)@ == old(self)@
            },
            old(self)@.in_flight > 0 ==> {
                &&& final(self)@ == old(self)@.done(offset)
                &&& progress is Ok
                &&& progress->Ok_0 == if final(self)@.watermark != old(self)@.watermark {
                    Some(final(self)@.watermark as u64)
                } else {
                    None
                }
            },
    {
        if self.in_flight == 0 {
            return Err(
                MeowError::from_code_str(
                    InnerErrorCode::InvalidTaskState,
                    "internal: on_done called without a matching dispatch",
                ),
            );
        }
        self.in_flight = self.in_flight - 1;
        let _ = self.completed.insert(offset);
        let before: u64 = self.watermark;
        let ghost start = self@;
        assert(start.advanced() == old(self)@.done(offset));
        while self.watermark < self.total && self.completed.contains(&self.watermark)
            invariant
                self@.wf(),
                self@.advanced() == start.advanced(),
                self@.chunk == start.chunk,
                self@.total == start.total,
                self@.max_in_flight == start.max_in_flight,
                self@.next_dispatch == start.next_dispatch,
                self@.in_flight == start.in_flight,
            decreases self.total - self.watermark,
        {
            let here: u64 = self.watermark;
            let _ = self.completed.remove(&here);
            self.watermark = self.next_offset(here);
        }
        assert(self@ == start.advanced());
        if self.watermark != before {
            Ok(Some(self.watermark))
        } else {
            Ok(None)
        }
    }

    /// Records that a part came to rest without being completed.
    pub fn on_settled_without_progress(&mut self)
        requires
            old(self)@.wf(),
        ensures
            final(self)@.wf(),
            final(self)@ == old(self)@.settled(),
    {
        if self.in_flight > 0 {
            self.in_flight = self.in_flight - 1;
        }
    }

    /// The end of the contiguous prefix: the only offset that is safe to
    /// report.
    pub fn watermark(&self) -> (watermark: u64)
        ensures
            watermark == self@.watermark,
    {
        self.watermark
    }

    /// How many parts are under way.
    pub fn in_flight(&self) -> (in_flight: usize)
        ensures
            in_flight == self@.in_flight,
    {
        self.in_flight
    }

    /// Whether everything is there and nothing is under way.
    pub fn is_complete(&self) -> (complete: bool)
        ensures
            complete == self@.complete(),
    {
        self.watermark >= self.total && self.in_flight == 0
    }
}

/// The offset of the `i`-th part of a grid.
pub open spec fn grid_offset(start: int, chunk: int, i: nat) -> int {
    start + i * chunk
}

/// Whether a part of the grid that begins at `start` starts at `offset`.
pub open spec fn on_grid(start: int, chunk: int, offset: int) -> bool {
    exists|i: nat| offset == #[trigger] grid_offset(start, chunk, i)
}

/// Whether the window accounts correctly for the parts in `done`: every part
/// before the watermark is done, the one at the watermark is not, and the done
/// ones behind it are remembered.
pub open spec fn accounts_for(w: PartWindowView, start: int, done: Set<u64>) -> bool {
    &&& w.wf()
    &&& 0 <= start <= w.watermark
    &&& w.watermark < w.total ==> on_grid(start, w.chunk, w.watermark) && !done.contains(
        w.watermark as u64,
    )
    &&& forall|o: u64|
        on_grid(start, w.chunk, o as int) && o < w.watermark ==> #[trigger] done.contains(o)
    &&& forall|o: u64| #[trigger] w.completed.contains(o) == (done.contains(o) && o >= w.watermark)
}

/// The same but for the part at the watermark, which may just have been done.
spec fn nearly_accounts_for(w: PartWindowView, start: int, done: Set<u64>) -> bool {
    &&& w.wf()
    &&& 0 <= start <= w.watermark
    &&& w.watermark < w.total ==> on_grid(start, w.chunk, w.watermark)
    &&& forall|o: u64|
        on_grid(start, w.chunk, o as int) && o < w.watermark ==> #[trigger] done.contains(o)
    &&& forall|o: u64| #[trigger] w.completed.contains(o) == (done.contains(o) && o >= w.watermark)
}

/// Only parts of the grid, each below the total, are ever done.
pub open spec fn grid_parts(w: PartWindowView, start: int, done: Set<u64>) -> bool {
    forall|o: u64| #[trigger]
        done.contains(o) ==> on_grid(start, w.chunk, o as int) && o < w.total
}

proof fn lemma_grid_step(start: int, chunk: int, i: nat)
    ensures
        grid_offset(start, chunk, i + 1) == grid_offset(start, chunk, i) + chunk,
{
    assert((i + 1) * chunk == i * chunk + chunk) by (nonlinear_arith);
}

/// Two parts of one grid are the same or at least a chunk apart.
proof fn lemma_grid_gap(start: int, chunk: int, a: int, b: int)
    requires
        chunk >= 1,
        on_grid(start, chunk, a),
        on_grid(start, chunk, b),
        a < b,
    ensures
        b >= a + chunk,
{
    let i = choose|i: nat| a == #[trigger] grid_offset(start, chunk, i);
    let j = choose|j: nat| b == #[trigger] grid_offset(start, chunk, j);
    assert(i < j) by (nonlinear_arith)
        requires
            start + i * chunk < start + j * chunk,
            chunk >= 1,
    ;
    assert(j * chunk >= (i + 1) * chunk) by (nonlinear_arith)
        requires
            j >= i + 1,
            chunk >= 1,
    ;
    lemma_grid_step(start, chunk, i);
}

proof fn lemma_advanced(w: PartWindowView, start: int, done: Set<u64>)
    requires
        nearly_accounts_for(w, start, done),
        grid_parts(w, start, done),
    ensures
        accounts_for(w.advanced(), start, done),
        w.advanced().watermark >= w.watermark,
        w.advanced() == (PartWindowView {
            watermark: w.advanced().watermark,
            completed: w.advanced().completed,
            ..w
        }),
    decreases w.total - w.watermark,
{
    if w.watermark < w.total && w.completed.contains(w.watermark as u64) {
        let next = PartWindowView {
            completed: w.completed.remove(w.watermark as u64),
            watermark: w.next(w.watermark),
            ..w
        };
        let i = choose|i: nat| w.watermark == #[trigger] grid_offset(start, w.chunk, i);
        lemma_grid_step(start, w.chunk, i);
        assert(next.watermark < next.total ==> next.watermark == grid_offset(
            start,
            w.chunk,
            i + 1,
        ));
        assert forall|o: u64|
            on_grid(start, w.chunk, o as int) && o < next.watermark implies #[trigger] done.contains(
            o,
        ) by {
            if o > w.watermark {
                lemma_grid_gap(start, w.chunk, w.watermark, o as int);
            } else if o == w.watermark {
                assert(w.completed.contains(o));
            }
        }
        assert forall|o: u64| #[trigger]
            next.completed.contains(o) == (done.contains(o) && o >= next.watermark) by {
            if done.contains(o) && o > w.watermark {
                lemma_grid_gap(start, w.chunk, w.watermark, o as int);
            }
            assert(w.completed.contains(o) == (done.contains(o) && o >= w.watermark));
        }
        lemma_advanced(next, start, done);
    } else if w.watermark < w.total {
        assert(!w.completed.contains(w.watermark as u64));
    }
}

/// A new window accounts for no part being done.
pub proof fn law_fresh_window_accounts_for_nothing(
    start: int,
    chunk: int,
    total: int,
    max_in_flight: int,
)
    requires
        0 <= start <= total <= u64::MAX,
    ensures
        accounts_for(
            PartWindowView::fresh(start, chunk, total, max_in_flight),
            start,
            Set::empty(),
        ),
{
    let w = PartWindowView::fresh(start, chunk, total, max_in_flight);
    assert(start == grid_offset(start, w.chunk, 0)) by {
        assert(0 * w.chunk == 0);
    }
    assert forall|o: u64|
        on_grid(start, w.chunk, o as int) && o < w.watermark implies #[trigger] Set::<
        u64,
    >::empty().contains(o) by {
        let i = choose|i: nat| o as int == #[trigger] grid_offset(start, w.chunk, i);
        assert(i * w.chunk >= 0) by (nonlinear_arith)
            requires
                i >= 0,
                w.chunk >= 1,
        ;
    }
}

/// The watermark never passes a missing part and never goes back: completing a
/// part of the grid, in whatever order parts complete, leaves a window that
/// still accounts for exactly the parts that are done.
pub proof fn law_watermark_has_no_hole(
    w: PartWindowView,
    start: int,
    done: Set<u64>,
    offset: u64,
)
    requires
        accounts_for(w, start, done),
        grid_parts(w, start, done),
        on_grid(start, w.chunk, offset as int),
        offset < w.total,
        !done.contains(offset),
        w.in_flight > 0,
    ensures
        accounts_for(w.done(offset), start, done.insert(offset)),
        grid_parts(w.done(offset), start, done.insert(offset)),
        w.done(offset).watermark >= w.watermark,
        w.done(offset) == (PartWindowView {
            watermark: w.done(offset).watermark,
            completed: w.done(offset).completed,
            in_flight: w.in_flight - 1,
            ..w
        }),
{
    let mid = PartWindowView {
        in_flight: w.in_flight - 1,
        completed: w.completed.insert(offset),
        ..w
    };
    let all = done.insert(offset);
    assert forall|o: u64| #[trigger]
        mid.completed.contains(o) == (all.contains(o) && o >= mid.watermark) by {
        assert(w.completed.contains(o) == (done.contains(o) && o >= w.watermark));
    }
    assert forall|o: u64|
        on_grid(start, mid.chunk, o as int) && o < mid.watermark implies #[trigger] all.contains(
        o,
    ) by {
        assert(done.contains(o));
    }
    lemma_advanced(mid, start, all);
}

/// A part that comes to rest without being completed frees its slot and moves
/// nothing.
pub proof fn law_settling_moves_nothing(w: PartWindowView, start: int, done: Set<u64>)
    requires
        accounts_for(w, start, done),
    ensures
        accounts_for(w.settled(), start, done),
        w.settled().watermark == w.watermark,
{
    assert forall|o: u64| #[trigger]
        w.settled().completed.contains(o) == (done.contains(o) && o >= w.watermark) by {
        assert(w.completed.contains(o) == (done.contains(o) && o >= w.watermark));
    }
}

/// Parts are handed out along the grid, each once, and never more at a time
/// than the window allows.
pub proof fn law_dispatch_follows_the_grid(w: PartWindowView, start: int)
    requires
        w.wf(),
        on_grid(start, w.chunk, w.next_dispatch),
        w.can_dispatch(),
    ensures
        w.dispatched().in_flight <= w.max_in_flight,
        w.next_dispatch < w.dispatched().next_dispatch <= w.total,
        w.dispatched().next_dispatch == w.total || on_grid(
            start,
            w.chunk,
            w.dispatched().next_dispatch,
        ),
        forall|o: int|
            w.next_dispatch < o < w.dispatched().next_dispatch ==> !#[trigger] on_grid(
                start,
                w.chunk,
                o,
            ),
{
    let i = choose|i: nat| w.next_dispatch == #[trigger] grid_offset(start, w.chunk, i);
    lemma_grid_step(start, w.chunk, i);
    assert(w.next_dispatch + w.chunk == grid_offset(start, w.chunk, i + 1));
    assert forall|o: int|
        w.next_dispatch < o < w.dispatched().next_dispatch implies !#[trigger] on_grid(
        start,
        w.chunk,
        o,
    ) by {
        if on_grid(start, w.chunk, o) {
            lemma_grid_gap(start, w.chunk, w.next_dispatch, o);
        }
    }
}

} // verus!
