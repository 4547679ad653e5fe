//! The life of one worker that transfers several parts of a file at a time.
//!
//! Parts settle in any order. The worker reports only the contiguous prefix,
//! and only when every part has settled does it complete the transfer or end
//! it otherwise.

use vstd::prelude::*;
use vstd::string::*;

use crate::direction::Direction;
use crate::effect;
use crate::effect::StatusView;
use crate::error::{InnerErrorCode, MeowError};
use crate::exec;
use crate::exec::{Report, ReportView};
use crate::part_window;
use crate::part_window::{PartWindow, PartWindowView};
use crate::retry::ChunkRetryResult;
use crate::text;
use crate::text::push_decimal;

verus! {

/// How far the worker is.
#[derive(Debug, Clone, Copy, PartialEq, Eq, Structural)]
pub enum ParallelPhase {
    /// Parts are under way.
    Running,
    /// A download failed; what is there is being written down.
    CheckpointAfterFailure,
    /// A download was canceled; what is there is being written down.
    CheckpointAfterCancel,
    /// Everything is there; the transfer is being completed.
    Completing,
    Ended,
}

/// What the worker has to do next.
#[derive(Debug, Clone, Copy, PartialEq, Eq, Structural)]
pub enum ParallelAction {
    /// Wait until a part settles.
    WaitForPart,
    /// Tell the remaining parts to stop and wait for them, then end.
    AbandonParts,
    /// Write down which parts of a download are there.
    Checkpoint,
    /// Complete the transfer.
    Complete,
    /// End the worker.
    Stop,
}

/// The mathematical value of a [`ParallelRun`].
#[verifier::ext_equal]
pub struct ParallelView {
    pub direction: Direction,
    pub total: u64,
    pub window: PartWindowView,
    /// A part noticed a cancel.
    pub cancelled: bool,
    /// The first failure.
    pub failed: Option<MeowError>,
    pub phase: ParallelPhase,
}

/// The mathematical value of a turn, with the state it leaves.
#[verifier::ext_equal]
pub struct ParallelTurnView {
    pub after: ParallelView,
    pub reports: Seq<ReportView>,
    /// The parts to start, by their offsets.
    pub dispatch: Seq<u64>,
    pub action: ParallelAction,
}

/// The reports of one turn, the parts to start, and what to do next.
pub struct ParallelTurn {
    pub reports: Vec<Report>,
    pub dispatch: Vec<u64>,
    pub action: ParallelAction,
}

/// The window with as many parts handed out as it takes.
pub open spec fn filled(w: PartWindowView) -> PartWindowView
    decreases w.total - w.next_dispatch,
{
    if w.chunk >= 1 && w.can_dispatch() {
        filled(w.dispatched())
    } else {
        w
    }
}

/// The offsets of these parts, in order.
pub open spec fn fill_offsets(w: PartWindowView) -> Seq<u64>
    decreases w.total - w.next_dispatch,
{
    if w.chunk >= 1 && w.can_dispatch() {
        seq![w.next_dispatch as u64] + fill_offsets(w.dispatched())
    } else {
        Seq::empty()
    }
}

/// The failure of a transfer whose parts settled without adding up.
pub open spec fn incomplete_text(watermark: int, total: int) -> Seq<char> {
    "internal: complete fired before contiguous prefix reached total (watermark="@ + text::decimal(
        watermark as nat,
    ) + ", total="@ + text::decimal(total as nat) + ")"@
}

/// The end of the worker with one report.
pub open spec fn parallel_stop(
    v: ParallelView,
    reports: Seq<ReportView>,
    last: ReportView,
) -> ParallelTurnView {
    ParallelTurnView {
        after: ParallelView { phase: ParallelPhase::Ended, ..v },
        reports: reports.push(last),
        dispatch: Seq::empty(),
        action: ParallelAction::Stop,
    }
}

/// A step outside of the worker.
pub open spec fn parallel_ask(
    v: ParallelView,
    reports: Seq<ReportView>,
    phase: ParallelPhase,
    action: ParallelAction,
) -> ParallelTurnView {
    ParallelTurnView {
        after: ParallelView { phase, ..v },
        reports,
        dispatch: Seq::empty(),
        action,
    }
}

/// What follows when every part has settled: a failure goes before a cancel,
/// and a cancel before the completion. A download first writes down what is
/// there.
pub open spec fn settle_turn(
    v: ParallelView,
    reports: Seq<ReportView>,
    token_cancelled: bool,
) -> ParallelTurnView {
    if v.failed is Some {
        if v.direction == Direction::Download {
            parallel_ask(
                v,
                reports,
                ParallelPhase::CheckpointAfterFailure,
                ParallelAction::Checkpoint,
            )
        } else {
            parallel_stop(
                v,
                reports,
                ReportView::Failed {
                    error: effect::error_status(v.failed->0),
                    total_size: v.total,
                },
            )
        }
    } else if v.cancelled || token_cancelled {
        if v.direction == Direction::Download {
            parallel_ask(
                v,
                reports,
                ParallelPhase::CheckpointAfterCancel,
                ParallelAction::Checkpoint,
            )
        } else {
            parallel_stop(v, reports, ReportView::Canceled { total_size: v.total })
        }
    } else if !v.window.complete() {
        parallel_stop(
            v,
            reports,
            ReportView::Failed {
                error: StatusView::Failed {
                    code: InnerErrorCode::Unknown,
                    msg: incomplete_text(v.window.watermark, v.total as int),
                    http_status: None,
                },
                total_size: v.total,
            },
        )
    } else {
        parallel_ask(v, reports, ParallelPhase::Completing, ParallelAction::Complete)
    }
}

/// The first turn. A transfer that is complete already has no parts: a
/// download is completed once more, so that what was written down on the way
/// is checked and cleaned up; an upload just ends.
pub open spec fn parallel_begin(v: ParallelView, start_offset: u64) -> ParallelTurnView {
    if start_offset >= v.total {
        if v.direction == Direction::Download {
            parallel_ask(v, Seq::empty(), ParallelPhase::Completing, ParallelAction::Complete)
        } else {
            parallel_stop(
                v,
                Seq::empty(),
                ReportView::Completed { total_size: v.total, completion_payload: None },
            )
        }
    } else {
        ParallelTurnView {
            after: ParallelView { window: filled(v.window), ..v },
            reports: Seq::empty(),
            dispatch: fill_offsets(v.window),
            action: ParallelAction::WaitForPart,
        }
    }
}

/// The worker after one part settled, before anything new is started.
pub open spec fn part_settled(v: ParallelView, offset: u64, result: ChunkRetryResult) -> ParallelView {
    match result {
        ChunkRetryResult::Done(_) => ParallelView { window: v.window.done(offset), ..v },
        ChunkRetryResult::Cancelled => ParallelView {
            window: v.window.settled(),
            cancelled: true,
            ..v
        },
        ChunkRetryResult::Failed(e) => ParallelView {
            window: v.window.settled(),
            failed: if v.failed is Some {
                v.failed
            } else {
                Some(e)
            },
            ..v
        },
    }
}

/// What a settled part makes the worker report: the prefix, where it grew.
pub open spec fn part_reports(v: ParallelView, after: ParallelView) -> Seq<ReportView> {
    if after.window.watermark != v.window.watermark {
        seq![
            ReportView::Progress {
                next_offset: after.window.watermark as u64,
                total_size: v.total,
            },
        ]
    } else {
        Seq::empty()
    }
}

/// What follows when a part settled: while nothing failed and nothing was
/// canceled, a completed part makes room for others; when none is left under
/// way, the worker settles.
pub open spec fn part_turn(
    v: ParallelView,
    offset: u64,
    result: ChunkRetryResult,
    token_cancelled: bool,
) -> ParallelTurnView {
    let after = part_settled(v, offset, result);
    let reports = part_reports(v, after);
    let refill = result is Done && !after.cancelled && after.failed is None;
    let refilled = if refill {
        ParallelView { window: filled(after.window), ..after }
    } else {
        after
    };
    if refilled.window.in_flight == 0 {
        settle_turn(refilled, reports, token_cancelled)
    } else {
        ParallelTurnView {
            after: refilled,
            reports,
            dispatch: if refill {
                fill_offsets(after.window)
            } else {
                Seq::empty()
            },
            action: ParallelAction::WaitForPart,
        }
    }
}

/// What follows a checkpoint: after a failure the failure is reported whatever
/// became of the checkpoint; after a cancel, a failed checkpoint is.
pub open spec fn checkpoint_turn(v: ParallelView, result: Result<(), MeowError>) -> ParallelTurnView {
    let last = if v.phase == ParallelPhase::CheckpointAfterFailure {
        ReportView::Failed { error: effect::error_status(v.failed->0), total_size: v.total }
    } else {
        match result {
            Ok(_) => ReportView::Canceled { total_size: v.total },
            Err(e) => ReportView::Failed {
                error: effect::error_status(e),
                total_size: v.total,
            },
        }
    };
    parallel_stop(v, Seq::empty(), last)
}

/// What follows the completing request.
pub open spec fn complete_turn(
    v: ParallelView,
    result: Result<Option<String>, MeowError>,
) -> ParallelTurnView {
    parallel_stop(
        v,
        Seq::empty(),
        match result {
            Ok(payload) => ReportView::Completed {
                total_size: v.total,
                completion_payload: effect::text_view(payload),
            },
            Err(e) => ReportView::Failed {
                error: effect::error_status(e),
                total_size: v.total,
            },
        },
    )
}

/// What follows when a part panicked: its bytes are unverified, so the others
/// are abandoned and the transfer fails.
pub open spec fn panic_turn(v: ParallelView, text: Seq<char>) -> ParallelTurnView {
    ParallelTurnView {
        after: ParallelView { phase: ParallelPhase::Ended, ..v },
        reports: seq![
            ReportView::Failed {
                error: StatusView::Failed {
                    code: InnerErrorCode::Unknown,
                    msg: "upload part task panicked: "@ + text,
                    http_status: None,
                },
                total_size: v.total,
            },
        ],
        dispatch: Seq::empty(),
        action: ParallelAction::AbandonParts,
    }
}

/// A worker that transfers several parts at a time.
pub struct ParallelRun {
    direction: Direction,
    total: u64,
    window: PartWindow,
    cancelled: bool,
    failed: Option<MeowError>,
    phase: ParallelPhase,
    /// Where the first part starts.
    start: Ghost<int>,
    /// The parts that were completed.
    done: Ghost<Set<u64>>,
    /// The parts under way.
    outstanding: Ghost<Set<u64>>,
}

impl View for ParallelRun {
    type V = ParallelView;

    closed spec fn view(&self) -> ParallelView {
        ParallelView {
            direction: self.direction,
            total: self.total,
            window: self.window@,
            cancelled: self.cancelled,
            failed: self.failed,
            phase: self.phase,
        }
    }
}

/// Whether the books of a worker are right: the window accounts for the
/// completed parts, the parts under way are parts of the grid that were handed
/// out and not completed, and while all is well every part that was handed out
/// is one or the other.
pub open spec fn books_right(
    w: PartWindowView,
    start: int,
    done: Set<u64>,
    outstanding: Set<u64>,
    healthy: bool,
) -> bool {
    &&& part_window::accounts_for(w, start, done)
    &&& part_window::grid_parts(w, start, done)
    &&& outstanding.finite()
    &&& w.in_flight == outstanding.len()
    &&& w.in_flight <= w.max_in_flight
    &&& forall|o: u64| #[trigger]
        outstanding.contains(o) ==> part_window::on_grid(start, w.chunk, o as int) && o
            < w.next_dispatch && !done.contains(o)
    &&& w.next_dispatch < w.total ==> part_window::on_grid(start, w.chunk, w.next_dispatch)
    &&& start <= w.next_dispatch
    &&& forall|o: u64| #[trigger] done.contains(o) ==> o < w.next_dispatch
    &&& healthy ==> forall|o: u64|
        part_window::on_grid(start, w.chunk, o as int) && o < w.next_dispatch ==> done.contains(o)
            || #[trigger] outstanding.contains(o)
}

impl ParallelRun {
    /// Whether the part at an offset is under way.
    pub closed spec fn under_way(&self, offset: u64) -> bool {
        self.outstanding@.contains(offset)
    }

    /// The parts under way.
    pub closed spec fn parts_under_way(&self) -> Set<u64> {
        self.outstanding@
    }

    pub closed spec fn wf(&self) -> bool {
        &&& self.window@.wf()
        &&& self.window@.total == self.total
        &&& self.phase == ParallelPhase::CheckpointAfterFailure ==> self.failed is Some
        &&& self.phase == ParallelPhase::Running ==> {
            &&& books_right(
                self.window@,
                self.start@,
                self.done@,
                self.outstanding@,
                !self.cancelled && self.failed is None,
            )
            // While all is well the window is as full as it can be.
            &&& !self.cancelled && self.failed is None && self.window@.in_flight > 0
                ==> !self.window@.can_dispatch()
        }
    }

    /// Starts a worker on the parts from `start_offset` on.
    pub fn start(
        direction: Direction,
        start_offset: u64,
        chunk_size: u64,
        total: u64,
        max_parts_in_flight: usize,
    ) -> (started: (ParallelRun, ParallelTurn))
        ensures
            started.0.wf(),
            parallel_turn_view(started.0, started.1) == parallel_begin(
                (ParallelView {
                    direction,
                    total,
                    window: PartWindowView::fresh(
                        start_offset as int,
                        chunk_size as int,
                        total as int,
                        max_parts_in_flight as int,
                    ),
                    cancelled: false,
                    failed: None,
                    phase: ParallelPhase::Running,
                }),
                start_offset,
            ),
            started.1.action is WaitForPart ==> started.0.parts_under_way()
                == started.1.dispatch@.to_set() && started.0.parts_under_way().len() > 0,
    {
        let window = PartWindow::new(start_offset, chunk_size, total, max_parts_in_flight);
        let ghost first = if start_offset <= total {
            start_offset as int
        } else {
            total as int
        };
        let mut run = ParallelRun {
            direction,
            total,
            window,
            cancelled: false,
            failed: None,
            phase: ParallelPhase::Running,
            start: Ghost(first),
            done: Ghost(Set::empty()),
            outstanding: Ghost(Set::empty()),
        };
        let ghost fresh = run@;
        let mut dispatch: Vec<u64> = Vec::new();
        let mut reports: Vec<Report> = Vec::new();
        assert(exec::report_views(reports@) =~= Seq::empty());
        assert(dispatch@ =~= Seq::empty());
        if start_offset >= total {
            match direction {
                Direction::Download => {
                    run.phase = ParallelPhase::Completing;
                    let turn = ParallelTurn { reports, dispatch, action: ParallelAction::Complete };
                    assert(parallel_turn_view(run, turn) =~= parallel_begin(fresh, start_offset));
                    return (run, turn);
                },
                Direction::Upload => {
                    let report = Report::Completed { total_size: total, completion_payload: None };
                    let turn = run.stop(reports, report);
                    return (run, turn);
                },
            }
        }
        proof {
            part_window::law_fresh_window_accounts_for_nothing(
                first,
                chunk_size as int,
                total as int,
                max_parts_in_flight as int,
            );
            assert(start_offset as int == part_window::grid_offset(first, run.window@.chunk, 0));
            assert(part_window::on_grid(first, run.window@.chunk, first));
            assert forall|o: u64|
                part_window::on_grid(first, run.window@.chunk, o as int) && o
                    < run.window@.next_dispatch implies run.done@.contains(o)
                || #[trigger] run.outstanding@.contains(o) by {
                let i = choose|i: nat|
                    o as int == #[trigger] part_window::grid_offset(first, run.window@.chunk, i);
                assert(i * run.window@.chunk >= 0) by (nonlinear_arith)
                    requires
                        i >= 0,
                        run.window@.chunk >= 1,
                ;
            }
        }
        run.fill(&mut dispatch);
        let turn = ParallelTurn { reports, dispatch, action: ParallelAction::WaitForPart };
        proof {
            lemma_fill_progress(fresh.window);
            assert(run.outstanding@ =~= turn.dispatch@.to_set());
            assert(parallel_turn_view(run, turn) =~= parallel_begin(fresh, start_offset));
        }
        (run, turn)
    }

    /// Hands out parts until the window is full.
    fn fill(&mut self, dispatch: &mut Vec<u64>)
        requires
            old(dispatch)@.len() == 0,
            old(self).phase == ParallelPhase::Running,
            old(self).window@.total == old(self).total,
            books_right(
                old(self).window@,
                old(self).start@,
                old(self).done@,
                old(self).outstanding@,
                true,
            ),
        ensures
            final(self)@ == (ParallelView { window: filled(old(self).window@), ..old(self)@ }),
            final(dispatch)@ == fill_offsets(old(self).window@),
            final(self).start == old(self).start,
            final(self).done == old(self).done,
            final(self).outstanding@ == old(self).outstanding@.union(final(dispatch)@.to_set()),
            books_right(
                final(self).window@,
                final(self).start@,
                final(self).done@,
                final(self).outstanding@,
                true,
            ),
            !final(self).window@.can_dispatch(),
            final(self).window@.total == old(self).window@.total,
    {
        proof {
            lemma_fill_progress(self.window@);
        }
        let ghost w0 = self.window@;
        let ghost out0 = self.outstanding@;
        assert(out0.union(dispatch@.to_set()) =~= out0);
        assert(dispatch@ + fill_offsets(self.window@) =~= fill_offsets(w0));
        loop
            invariant_except_break
                self@ == (ParallelView { window: self.window@, ..old(self)@ }),
                self.start == old(self).start,
                self.done == old(self).done,
                filled(self.window@) == filled(w0),
                dispatch@ + fill_offsets(self.window@) == fill_offsets(w0),
                self.outstanding@ == out0.union(dispatch@.to_set()),
                self.window@.wf(),
                books_right(
                    self.window@,
                    self.start@,
                    self.done@,
                    self.outstanding@,
                    true,
                ),
            ensures
                self@ == (ParallelView { window: filled(w0), ..old(self)@ }),
                self.start == old(self).start,
                self.done == old(self).done,
                dispatch@ == fill_offsets(w0),
                self.outstanding@ == out0.union(dispatch@.to_set()),
                books_right(
                    self.window@,
                    self.start@,
                    self.done@,
                    self.outstanding@,
                    true,
                ),
                !self.window@.can_dispatch(),
            decreases self.window@.total - self.window@.next_dispatch,
        {
            let ghost before = self.window@;
            match self.window.take_dispatch() {
                Some(offset) => {
                    proof {
                        lemma_dispatch_books(
                            before,
                            self.start@,
                            self.done@,
                            self.outstanding@,
                        );
                    }
                    let ghost list = dispatch@;
                    dispatch.push(offset);
                    self.outstanding = Ghost(self.outstanding@.insert(offset));
                    proof {
                        assert(list.push(offset) + fill_offsets(self.window@) =~= list + (seq![
                            offset,
                        ] + fill_offsets(self.window@)));
                        assert(out0.union(list.push(offset).to_set()) =~= out0.union(
                            list.to_set(),
                        ).insert(offset)) by {
                            assert forall|x: u64| out0.union(list.push(offset).to_set()).contains(x)
                                == out0.union(list.to_set()).insert(offset).contains(x) by {
                                crate::scheduler_state::lemma_push_contains(list, offset, x);
                            }
                        }
                    }
                },
                None => {
                    assert(fill_offsets(self.window@) =~= Seq::empty());
                    assert(dispatch@ =~= fill_offsets(w0));
                    break;
                },
            }
        }
    }

    fn stop(&mut self, reports: Vec<Report>, last: Report) -> (turn: ParallelTurn)
        requires
            old(self).window@.wf(),
            old(self).window@.total == old(self).total,
        ensures
            final(self).wf(),
            parallel_turn_view(*final(self), turn) == parallel_stop(
                old(self)@,
                exec::report_views(reports@),
                exec::report_view(last),
            ),
            final(self).outstanding == old(self).outstanding,
    {
        let ghost v = self@;
        let ghost before = exec::report_views(reports@);
        let mut reports = reports;
        reports.push(last);
        self.phase = ParallelPhase::Ended;
        let dispatch: Vec<u64> = Vec::new();
        let turn = ParallelTurn { reports, dispatch, action: ParallelAction::Stop };
        proof {
            assert(exec::report_views(turn.reports@) =~= before.push(exec::report_view(last)));
            assert(turn.dispatch@ =~= Seq::empty());
            assert(parallel_turn_view(*self, turn) =~= parallel_stop(
                v,
                before,
                exec::report_view(last),
            ));
        }
        turn
    }

    fn ask(
        &mut self,
        reports: Vec<Report>,
        phase: ParallelPhase,
        action: ParallelAction,
    ) -> (turn: ParallelTurn)
        requires
            old(self).window@.wf(),
            old(self).window@.total == old(self).total,
            phase != ParallelPhase::Running,
            phase == ParallelPhase::CheckpointAfterFailure ==> old(self).failed is Some,
        ensures
            final(self).wf(),
            parallel_turn_view(*final(self), turn) == parallel_ask(
                old(self)@,
                exec::report_views(reports@),
                phase,
                action,
            ),
    {
        let ghost v = self@;
        self.phase = phase;
        let dispatch: Vec<u64> = Vec::new();
        let turn = ParallelTurn { reports, dispatch, action };
        proof {
            assert(turn.dispatch@ =~= Seq::empty());
            assert(parallel_turn_view(*self, turn) =~= parallel_ask(
                v,
                exec::report_views(turn.reports@),
                phase,
                action,
            ));
        }
        turn
    }

    /// Settles the worker when no part is under way; see [`settle_turn`].
    fn settle(&mut self, reports: Vec<Report>, token_cancelled: bool) -> (turn: ParallelTurn)
        requires
            old(self).window@.wf(),
            old(self).window@.total == old(self).total,
            old(self).phase == ParallelPhase::Running,
        ensures
            final(self).wf(),
            parallel_turn_view(*final(self), turn) == settle_turn(
                old(self)@,
                exec::report_views(reports@),
                token_cancelled,
            ),
    {
        let total: u64 = self.total;
        match &self.failed {
            Some(e) => {
                let error = e.clone();
                match self.direction {
                    Direction::Download => self.ask(
                        reports,
                        ParallelPhase::CheckpointAfterFailure,
                        ParallelAction::Checkpoint,
                    ),
                    Direction::Upload => self.stop(
                        reports,
                        Report::Failed { error, total_size: total },
                    ),
                }
            },
            None => {
                if self.cancelled || token_cancelled {
                    match self.direction {
                        Direction::Download => self.ask(
                            reports,
                            ParallelPhase::CheckpointAfterCancel,
                            ParallelAction::Checkpoint,
                        ),
                        Direction::Upload => self.stop(
                            reports,
                            Report::Canceled { total_size: total },
                        ),
                    }
                } else if !self.window.is_complete() {
                    let mut text =
                        "internal: complete fired before contiguous prefix reached total (watermark=".to_owned();
                    push_decimal(&mut text, self.window.watermark() as u128);
                    text.append(", total=");
                    push_decimal(&mut text, total as u128);
                    text.append(")");
                    let error = MeowError::from_code(InnerErrorCode::Unknown, text);
                    self.stop(reports, Report::Failed { error, total_size: total })
                } else {
                    self.ask(reports, ParallelPhase::Completing, ParallelAction::Complete)
                }
            },
        }
    }

    /// The turn after a part settled; see [`part_turn`]. While nothing failed
    /// and nothing was canceled, the parts always add up: the worker then goes
    /// on or completes the transfer.
    pub fn on_part(
        &mut self,
        offset: u64,
        result: ChunkRetryResult,
        token_cancelled: bool,
    ) -> (turn: ParallelTurn)
        requires
            old(self).wf(),
            old(self)@.phase == ParallelPhase::Running,
            old(self).under_way(offset),
        ensures
            final(self).wf(),
            parallel_turn_view(*final(self), turn) == part_turn(
                old(self)@,
                offset,
                result,
                token_cancelled,
            ),
            turn.action is WaitForPart ==> final(self).parts_under_way()
                == old(self).parts_under_way().remove(offset).union(turn.dispatch@.to_set()),
            !final(self)@.cancelled && final(self)@.failed is None && !token_cancelled ==> (
            turn.action is WaitForPart || turn.action is Complete),
            turn.action is Complete ==> final(self)@.window.complete(),
    {
        let ghost v = self@;
        let ghost out0 = self.outstanding@;
        let ghost done0 = self.done@;
        let ghost healthy = !self.cancelled && self.failed is None;
        let total: u64 = self.total;
        let mut reports: Vec<Report> = Vec::new();
        let mut dispatch: Vec<u64> = Vec::new();
        assert(exec::report_views(reports@) =~= Seq::empty());
        assert(dispatch@ =~= Seq::empty());
        proof {
            assert(out0.contains(offset));
            assert(out0.len() > 0);
            assert(offset < self.window@.total);
        }
        let ghost mut after = part_settled(v, offset, result);
        match result {
            ChunkRetryResult::Done(_) => {
                proof {
                    lemma_done_books(
                        v.window,
                        self.start@,
                        done0,
                        out0,
                        offset,
                        healthy,
                    );
                }
                let progress = self.window.on_done(offset);
                self.done = Ghost(done0.insert(offset));
                self.outstanding = Ghost(out0.remove(offset));
                match progress {
                    Ok(Some(watermark)) => {
                        reports.push(Report::Progress { next_offset: watermark, total_size: total });
                    },
                    _ => {},
                }
                assert(exec::report_views(reports@) =~= part_reports(v, after));
                assert(self@ =~= after);
                let well = !self.cancelled && self.failed.is_none();
                if well {
                    self.fill(&mut dispatch);
                } else {
                    assert(out0.remove(offset).union(dispatch@.to_set()) =~= out0.remove(offset));
                }
            },
            ChunkRetryResult::Cancelled => {
                proof {
                    lemma_settled_books(v.window, self.start@, done0, out0, offset);
                }
                self.cancelled = true;
                self.window.on_settled_without_progress();
                self.outstanding = Ghost(out0.remove(offset));
                assert(exec::report_views(reports@) =~= part_reports(v, after));
                assert(self@ =~= after);
                assert(out0.remove(offset).union(dispatch@.to_set()) =~= out0.remove(offset));
            },
            ChunkRetryResult::Failed(e) => {
                proof {
                    lemma_settled_books(v.window, self.start@, done0, out0, offset);
                }
                if self.failed.is_none() {
                    self.failed = Some(e);
                }
                self.window.on_settled_without_progress();
                self.outstanding = Ghost(out0.remove(offset));
                assert(exec::report_views(reports@) =~= part_reports(v, after));
                assert(self@ =~= after);
                assert(out0.remove(offset).union(dispatch@.to_set()) =~= out0.remove(offset));
            },
        }
        if self.window.in_flight() == 0 {
            proof {
                if !self.cancelled && self.failed is None {
                    lemma_drained_is_complete(
                        self.window@,
                        self.start@,
                        self.done@,
                        self.outstanding@,
                    );
                }
            }
            return self.settle(reports, token_cancelled);
        }
        let turn = ParallelTurn { reports, dispatch, action: ParallelAction::WaitForPart };
        assert(parallel_turn_view(*self, turn) =~= part_turn(v, offset, result, token_cancelled));
        turn
    }

    /// The turn after a part panicked; see [`panic_turn`].
    pub fn on_part_panicked(&mut self, text: &str) -> (turn: ParallelTurn)
        requires
            old(self).wf(),
            old(self)@.phase == ParallelPhase::Running,
        ensures
            final(self).wf(),
            parallel_turn_view(*final(self), turn) == panic_turn(old(self)@, text@),
    {
        let ghost v = self@;
        let mut msg = "upload part task panicked: ".to_owned();
        msg.append(text);
        let error = MeowError::from_code(InnerErrorCode::Unknown, msg);
        let reports: Vec<Report> = Vec::new();
        assert(exec::report_views(reports@) =~= Seq::empty());
        let stopped = self.stop(reports, Report::Failed { error, total_size: self.total });
        let turn = ParallelTurn {
            reports: stopped.reports,
            dispatch: stopped.dispatch,
            action: ParallelAction::AbandonParts,
        };
        assert(parallel_turn_view(*self, turn) =~= panic_turn(v, text@));
        turn
    }

    /// The turn after a checkpoint; see [`checkpoint_turn`].
    pub fn on_checkpoint(&mut self, result: Result<(), MeowError>) -> (turn: ParallelTurn)
        requires
            old(self).wf(),
            old(self)@.phase == ParallelPhase::CheckpointAfterFailure || old(self)@.phase
                == ParallelPhase::CheckpointAfterCancel,
        ensures
            final(self).wf(),
            parallel_turn_view(*final(self), turn) == checkpoint_turn(old(self)@, result),
    {
        let total: u64 = self.total;
        let reports: Vec<Report> = Vec::new();
        assert(exec::report_views(reports@) =~= Seq::empty());
        let last = match self.phase {
            ParallelPhase::CheckpointAfterFailure => match &self.failed {
                Some(e) => Report::Failed { error: e.clone(), total_size: total },
                None => Report::Canceled { total_size: total },
            },
            _ => match result {
                Ok(()) => Report::Canceled { total_size: total },
                Err(error) => Report::Failed { error, total_size: total },
            },
        };
        self.stop(reports, last)
    }

    /// The turn after the completing request; see [`complete_turn`].
    pub fn on_completed(&mut self, result: Result<Option<String>, MeowError>) -> (turn:
        ParallelTurn)
        requires
            old(self).wf(),
            old(self)@.phase == ParallelPhase::Completing,
        ensures
            final(self).wf(),
            parallel_turn_view(*final(self), turn) == complete_turn(old(self)@, result),
    {
        let total: u64 = self.total;
        let reports: Vec<Report> = Vec::new();
        assert(exec::report_views(reports@) =~= Seq::empty());
        let last = match result {
            Ok(completion_payload) => Report::Completed { total_size: total, completion_payload },
            Err(error) => Report::Failed { error, total_size: total },
        };
        self.stop(reports, last)
    }
}

/// What a turn shows.
pub open spec fn parallel_turn_view(run: ParallelRun, turn: ParallelTurn) -> ParallelTurnView {
    ParallelTurnView {
        after: run@,
        reports: exec::report_views(turn.reports@),
        dispatch: turn.dispatch@,
        action: turn.action,
    }
}

/// Handing out a part keeps the books right.
proof fn lemma_dispatch_books(
    w: PartWindowView,
    start: int,
    done: Set<u64>,
    outstanding: Set<u64>,
)
    requires
        books_right(w, start, done, outstanding, true),
        w.can_dispatch(),
    ensures
        books_right(
            w.dispatched(),
            start,
            done,
            outstanding.insert(w.next_dispatch as u64),
            true,
        ),
        !outstanding.contains(w.next_dispatch as u64),
{
    part_window::law_dispatch_follows_the_grid(w, start);
    let next = w.next_dispatch as u64;
    let more = outstanding.insert(next);
    let after = w.dispatched();
    assert(!outstanding.contains(next));
    assert forall|o: u64|
        part_window::on_grid(start, after.chunk, o as int) && o
            < after.next_dispatch implies done.contains(o) || #[trigger] more.contains(o) by {
        if o < w.next_dispatch {
            assert(done.contains(o) || outstanding.contains(o));
        } else if o > w.next_dispatch {
            assert(!part_window::on_grid(start, w.chunk, o as int));
        }
    }
    assert forall|o: u64| #[trigger]
        after.completed.contains(o) == (done.contains(o) && o >= after.watermark) by {
        assert(w.completed.contains(o) == (done.contains(o) && o >= w.watermark));
    }
    assert forall|o: u64| #[trigger] done.contains(o) implies part_window::on_grid(
        start,
        after.chunk,
        o as int,
    ) && o < after.total && o < after.next_dispatch by {}
    assert(part_window::accounts_for(after, start, done));
}

/// Completing a part under way keeps the books right.
proof fn lemma_done_books(
    w: PartWindowView,
    start: int,
    done: Set<u64>,
    outstanding: Set<u64>,
    offset: u64,
    healthy: bool,
)
    requires
        books_right(w, start, done, outstanding, healthy),
        outstanding.contains(offset),
    ensures
        books_right(
            w.done(offset),
            start,
            done.insert(offset),
            outstanding.remove(offset),
            healthy,
        ),
        w.done(offset).total == w.total,
{
    assert(outstanding.len() > 0);
    part_window::law_watermark_has_no_hole(w, start, done, offset);
    let after = w.done(offset);
    let all = done.insert(offset);
    let rest = outstanding.remove(offset);
    if healthy {
        assert forall|o: u64|
            part_window::on_grid(start, after.chunk, o as int) && o
                < after.next_dispatch implies all.contains(o) || #[trigger] rest.contains(o) by {
            assert(done.contains(o) || outstanding.contains(o));
        }
    }
}

/// A part under way that settles without being completed keeps the books right,
/// though not all is well any more.
proof fn lemma_settled_books(
    w: PartWindowView,
    start: int,
    done: Set<u64>,
    outstanding: Set<u64>,
    offset: u64,
)
    requires
        books_right(w, start, done, outstanding, false) || books_right(
            w,
            start,
            done,
            outstanding,
            true,
        ),
        outstanding.contains(offset),
    ensures
        books_right(w.settled(), start, done, outstanding.remove(offset), false),
{
    assert(outstanding.len() > 0);
    part_window::law_settling_moves_nothing(w, start, done);
}

/// When all is well and no part is under way or left, the prefix is the whole
/// file.
proof fn lemma_drained_is_complete(
    w: PartWindowView,
    start: int,
    done: Set<u64>,
    outstanding: Set<u64>,
)
    requires
        books_right(w, start, done, outstanding, true),
        w.in_flight == 0,
        !w.can_dispatch(),
    ensures
        w.complete(),
{
    if w.watermark < w.total {
        let o = w.watermark as u64;
        assert(part_window::on_grid(start, w.chunk, o as int));
        assert(done.contains(o) || outstanding.contains(o));
        assert(outstanding =~= Set::empty());
    }
}

/// A window that can hand out a part has one under way once it is filled.
proof fn lemma_fill_progress(w: PartWindowView)
    requires
        w.wf(),
    ensures
        filled(w).total == w.total,
        filled(w).in_flight >= w.in_flight,
        w.can_dispatch() ==> filled(w).in_flight > 0,
    decreases w.total - w.next_dispatch,
{
    if w.can_dispatch() {
        lemma_fill_progress(w.dispatched());
    }
}

/// Whether a turn ends the worker.
pub open spec fn ends_here(t: ParallelTurnView) -> bool {
    t.action is Stop || t.action is AbandonParts
}

/// A worker on several parts ends with exactly one terminal report, after which
/// no turn follows, and it waits for all its parts first. Only a part that
/// panicked ends it before; the other parts are then abandoned.
pub proof fn law_parallel_worker_ends_once(
    v: ParallelView,
    offset: u64,
    result: ChunkRetryResult,
    token_cancelled: bool,
    panic: Seq<char>,
    checkpoint: Result<(), MeowError>,
    completed: Result<Option<String>, MeowError>,
)
    ensures
        v.phase is Running ==> ({
            let t = parallel_begin(v, offset);
            &&& exec::ends_once(t.reports, ends_here(t))
            &&& ends_here(t) <==> t.after.phase is Ended
        }),
        v.phase is Running ==> ({
            let t = part_turn(v, offset, result, token_cancelled);
            &&& exec::ends_once(t.reports, ends_here(t))
            &&& ends_here(t) <==> t.after.phase is Ended
            &&& !(t.action is WaitForPart) ==> t.after.window.in_flight == 0
        }),
        ({
            let t = panic_turn(v, panic);
            &&& exec::ends_once(t.reports, true)
            &&& t.after.phase is Ended
        }),
        ({
            let t = checkpoint_turn(v, checkpoint);
            &&& exec::ends_once(t.reports, true)
            &&& t.after.phase is Ended
        }),
        ({
            let t = complete_turn(v, completed);
            &&& exec::ends_once(t.reports, true)
            &&& t.after.phase is Ended
        }),
{
}

/// What a worker on several parts reports as progress never goes back and is
/// never more than the contiguous prefix.
pub proof fn law_parallel_progress_is_the_prefix(
    w: PartWindowView,
    start: int,
    done: Set<u64>,
    outstanding: Set<u64>,
    offset: u64,
    healthy: bool,
)
    requires
        books_right(w, start, done, outstanding, healthy),
        outstanding.contains(offset),
    ensures
        w.done(offset).watermark >= w.watermark,
        forall|o: u64|
            part_window::on_grid(start, w.chunk, o as int) && o < w.done(offset).watermark
                ==> #[trigger] done.insert(offset).contains(o),
{
    assert(outstanding.len() > 0);
    part_window::law_watermark_has_no_hole(w, start, done, offset);
}

} // verus!
