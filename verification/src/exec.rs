//! The life of one worker: preparing, then the chunks one after the other or
//! several at a time, and the one report with which it ends.
//!
//! A worker only carries out [`RunAction`]s and hands their results back;
//! [`GroupRun`] holds everything that it decides.

use vstd::prelude::*;
use vstd::string::*;

use crate::direction::{Direction, UniqueId};
use crate::effect;
use crate::effect::StatusView;
use crate::error;
use crate::error::{InnerErrorCode, MeowError};
use crate::inner_task::InnerTask;
use crate::part_window;
use crate::retry::{is_connection_layer_retryable, ChunkRetryResult};
use crate::text;
use crate::text::push_decimal;
use crate::transfer_status::PrepareOutcome;
use crate::worker_event::WorkerEvent;

verus! {

/// The most parts of one file that are ever under way together.
pub const MAX_PARALLEL_PART_TASKS: u128 = 256;

/// The most bytes that the parts of one file under way may take up: 512 MiB.
pub const MAX_PARALLEL_WINDOW_BYTES: u128 = 536870912;

/// How many parts the remaining bytes make.
pub open spec fn part_count(remaining: int, chunk_size: int) -> int {
    (remaining - 1) / chunk_size + 1
}

/// How many parts can be under way together: no more than there are.
pub open spec fn effective_parts(max_parts_in_flight: int, chunk_size: int, remaining: int) -> int {
    part_window::min_int(
        part_window::max_int(max_parts_in_flight, 1),
        part_count(remaining, chunk_size),
    )
}

/// How many bytes they take up.
pub open spec fn window_bytes(max_parts_in_flight: int, chunk_size: int, remaining: int) -> int {
    effective_parts(max_parts_in_flight, chunk_size, remaining) * part_window::min_int(
        remaining,
        chunk_size,
    )
}

/// Why a window of parts is refused, if so.
pub open spec fn window_refusal(
    max_parts_in_flight: int,
    chunk_size: int,
    remaining: int,
) -> Option<Seq<char>> {
    if remaining == 0 {
        None
    } else if chunk_size == 0 {
        Some("parallel part count overflow or zero chunk size"@)
    } else if effective_parts(max_parts_in_flight, chunk_size, remaining)
        > MAX_PARALLEL_PART_TASKS {
        Some(
            "parallel part window exceeds task limit: requested="@ + text::decimal(
                effective_parts(max_parts_in_flight, chunk_size, remaining) as nat,
            ) + " limit="@ + text::decimal(MAX_PARALLEL_PART_TASKS as nat),
        )
    } else if window_bytes(max_parts_in_flight, chunk_size, remaining)
        > MAX_PARALLEL_WINDOW_BYTES {
        Some(
            "parallel part window exceeds memory limit: requested="@ + text::decimal(
                window_bytes(max_parts_in_flight, chunk_size, remaining) as nat,
            ) + " limit="@ + text::decimal(MAX_PARALLEL_WINDOW_BYTES as nat),
        )
    } else {
        None
    }
}

/// Checks the window of a parallel transfer against the part and memory
/// limits. Only parts that the file really has count, so that a large
/// configured maximum does no harm to a small file.
pub fn validate_parallel_part_window(
    max_parts_in_flight: usize,
    chunk_size: u64,
    remaining_bytes: u64,
) -> (result: Result<(), MeowError>)
    ensures
        match window_refusal(
            max_parts_in_flight as int,
            chunk_size as int,
            remaining_bytes as int,
        ) {
            Some(text) => error::fails_with(result, InnerErrorCode::IoError, text),
            None => result is Ok,
        },
{
    if remaining_bytes == 0 {
        return Ok(());
    }
    if chunk_size == 0 {
        return Err(
            MeowError::from_code_str(
                InnerErrorCode::IoError,
                "parallel part count overflow or zero chunk size",
            ),
        );
    }
    assert((remaining_bytes - 1) / chunk_size as int <= remaining_bytes - 1) by (nonlinear_arith)
        requires
            remaining_bytes >= 1,
            chunk_size >= 1,
    ;
    let parts: u128 = ((remaining_bytes - 1) / chunk_size) as u128 + 1;
    let window: u128 = if max_parts_in_flight >= 1 {
        max_parts_in_flight as u128
    } else {
        1
    };
    let effective: u128 = if window <= parts {
        window
    } else {
        parts
    };
    if effective > MAX_PARALLEL_PART_TASKS {
        let mut text = "parallel part window exceeds task limit: requested=".to_owned();
        push_decimal(&mut text, effective);
        text.append(" limit=");
        push_decimal(&mut text, MAX_PARALLEL_PART_TASKS);
        return Err(MeowError::from_code(InnerErrorCode::IoError, text));
    }
    let part_bytes: u128 = if remaining_bytes <= chunk_size {
        remaining_bytes as u128
    } else {
        chunk_size as u128
    };
    assert(effective * part_bytes <= 256 * u64::MAX) by (nonlinear_arith)
        requires
            effective <= 256,
            part_bytes <= u64::MAX,
    ;
    let budget: u128 = effective * part_bytes;
    if budget > MAX_PARALLEL_WINDOW_BYTES {
        let mut text = "parallel part window exceeds memory limit: requested=".to_owned();
        push_decimal(&mut text, budget);
        text.append(" limit=");
        push_decimal(&mut text, MAX_PARALLEL_WINDOW_BYTES);
        return Err(MeowError::from_code(InnerErrorCode::IoError, text));
    }
    Ok(())
}

// ---------------------------------------------------------------------------
// Reports
// ---------------------------------------------------------------------------

/// What a worker tells the scheduler, its key aside.
pub enum Report {
    Progress { next_offset: u64, total_size: u64 },
    Completed { total_size: u64, completion_payload: Option<String> },
    Failed { error: MeowError, total_size: u64 },
    Canceled { total_size: u64 },
}

/// The mathematical value of a report.
pub enum ReportView {
    Progress { next_offset: u64, total_size: u64 },
    Completed { total_size: u64, completion_payload: Option<Seq<char>> },
    Failed { error: StatusView, total_size: u64 },
    Canceled { total_size: u64 },
}

pub open spec fn report_view(report: Report) -> ReportView {
    match report {
        Report::Progress { next_offset, total_size } => ReportView::Progress {
            next_offset,
            total_size,
        },
        Report::Completed { total_size, completion_payload } => ReportView::Completed {
            total_size,
            completion_payload: effect::text_view(completion_payload),
        },
        Report::Failed { error, total_size } => ReportView::Failed {
            error: effect::error_status(error),
            total_size,
        },
        Report::Canceled { total_size } => ReportView::Canceled { total_size },
    }
}

pub open spec fn report_views(reports: Seq<Report>) -> Seq<ReportView> {
    Seq::new(reports.len(), |i: int| report_view(reports[i]))
}

impl Report {
    /// The message to the scheduler.
    pub fn into_event(self, key: UniqueId) -> (event: WorkerEvent)
        ensures
            event == match self {
                Report::Progress { next_offset, total_size } => WorkerEvent::Progress {
                    key,
                    next_offset,
                    total_size,
                },
                Report::Completed { total_size, completion_payload } => WorkerEvent::Completed {
                    key,
                    total_size,
                    completion_payload,
                },
                Report::Failed { error, total_size } => WorkerEvent::Failed {
                    key,
                    error,
                    total_size,
                },
                Report::Canceled { total_size } => WorkerEvent::Canceled { key, total_size },
            },
    {
        match self {
            Report::Progress { next_offset, total_size } => WorkerEvent::Progress {
                key,
                next_offset,
                total_size,
            },
            Report::Completed { total_size, completion_payload } => WorkerEvent::Completed {
                key,
                total_size,
                completion_payload,
            },
            Report::Failed { error, total_size } => WorkerEvent::Failed { key, error, total_size },
            Report::Canceled { total_size } => WorkerEvent::Canceled { key, total_size },
        }
    }
}

/// One report.
fn one_report(report: Report) -> (reports: Vec<Report>)
    ensures
        report_views(reports@) == seq![report_view(report)],
{
    let mut reports: Vec<Report> = Vec::new();
    reports.push(report);
    assert(report_views(reports@) =~= seq![report_view(report)]);
    reports
}

/// One report behind others.
fn add_report(reports: &mut Vec<Report>, report: Report)
    ensures
        report_views(final(reports)@) == report_views(old(reports)@).push(report_view(report)),
{
    reports.push(report);
    assert(report_views(reports@) =~= report_views(old(reports)@).push(report_view(report)));
}

/// Whether a report ends a worker.
pub open spec fn ends_worker(report: ReportView) -> bool {
    !(report is Progress)
}

// ---------------------------------------------------------------------------
// One chunk after the other
// ---------------------------------------------------------------------------

/// What a worker needs to know of its task.
#[derive(Debug, Clone, Copy, PartialEq, Eq, Structural)]
pub struct RunConfig {
    pub direction: Direction,
    pub task_total: u64,
    pub chunk_size: u64,
    pub max_chunk_retries: u32,
    pub max_parts_in_flight: usize,
    pub start_offset: u64,
}

/// How far a worker is.
#[derive(Debug, Clone, Copy, PartialEq, Eq, Structural)]
pub enum RunState {
    Preparing { attempt: u32 },
    Transferring { offset: u64, known_total: u64 },
    /// The parts are transferred several at a time.
    HandedOver,
    Ended,
}

/// What a worker has to do next.
#[derive(Debug, Clone, Copy, PartialEq, Eq, Structural)]
pub enum RunAction {
    /// Prepare the transfer, knowing that this many bytes are there.
    Prepare { local_offset: u64 },
    /// Wait for the delay of a failed attempt.
    Sleep { attempt: u32 },
    /// Transfer one chunk, with its retries.
    Transfer { offset: u64, chunk_size: u64, known_total: u64 },
    /// Go on with several parts at a time.
    RunParallel { start_offset: u64, known_total: u64 },
    /// End the worker.
    Stop,
}

/// The reports of one turn of a worker and what it does next.
pub struct RunTurn {
    pub reports: Vec<Report>,
    pub action: RunAction,
}

/// The mathematical value of a turn, with the state it leaves.
#[verifier::ext_equal]
pub struct RunTurnView {
    pub state: RunState,
    pub reports: Seq<ReportView>,
    pub action: RunAction,
}

/// The end of a worker.
pub open spec fn stop_turn(reports: Seq<ReportView>) -> RunTurnView {
    RunTurnView { state: RunState::Ended, reports, action: RunAction::Stop }
}

/// How often preparing may be tried again here. Uploads have retries of their
/// own inside their preparation.
pub open spec fn prepare_retries(config: RunConfig) -> u32 {
    match config.direction {
        Direction::Upload => 0,
        Direction::Download => config.max_chunk_retries,
    }
}

/// A turn at which the transfer is prepared, unless it was canceled.
pub open spec fn prepare_turn(config: RunConfig, attempt: u32, cancelled: bool) -> RunTurnView {
    if cancelled {
        stop_turn(seq![ReportView::Canceled { total_size: config.task_total }])
    } else {
        RunTurnView {
            state: RunState::Preparing { attempt },
            reports: Seq::empty(),
            action: RunAction::Prepare { local_offset: config.start_offset },
        }
    }
}

/// A turn at which a chunk is transferred, unless the transfer was canceled.
pub open spec fn transfer_turn(
    config: RunConfig,
    reports: Seq<ReportView>,
    offset: u64,
    known_total: u64,
    cancelled: bool,
) -> RunTurnView {
    if cancelled {
        stop_turn(reports.push(ReportView::Canceled { total_size: known_total }))
    } else {
        RunTurnView {
            state: RunState::Transferring { offset, known_total },
            reports,
            action: RunAction::Transfer { offset, chunk_size: config.chunk_size, known_total },
        }
    }
}

/// The total size once the transfer is prepared: what preparing found, or what
/// the task says.
pub open spec fn prepared_total(config: RunConfig, outcome: PrepareOutcome) -> u64 {
    if outcome.total_size > 0 {
        outcome.total_size
    } else {
        config.task_total
    }
}

/// The bytes still missing.
pub open spec fn remaining_bytes(total: u64, offset: u64) -> int {
    part_window::max_int(total - offset, 0)
}

/// What follows when the transfer is prepared: a first progress report, so that
/// the total is known early, then the chunks. Several at a time only where the
/// task asks for it, the total is known and the protocol can do it.
pub open spec fn prepared_ok_turn(
    config: RunConfig,
    outcome: PrepareOutcome,
    supports_parallel: bool,
    cancelled: bool,
) -> RunTurnView {
    let offset = outcome.next_offset;
    let total = prepared_total(config, outcome);
    let progress = seq![ReportView::Progress { next_offset: offset, total_size: total }];
    if config.max_parts_in_flight > 1 && total > 0 && supports_parallel {
        match window_refusal(
            config.max_parts_in_flight as int,
            config.chunk_size as int,
            remaining_bytes(total, offset),
        ) {
            Some(text) => stop_turn(
                progress.push(
                    ReportView::Failed {
                        error: StatusView::Failed {
                            code: InnerErrorCode::IoError,
                            msg: text,
                            http_status: None,
                        },
                        total_size: total,
                    },
                ),
            ),
            None => RunTurnView {
                state: RunState::HandedOver,
                reports: progress,
                action: RunAction::RunParallel { start_offset: offset, known_total: total },
            },
        }
    } else {
        transfer_turn(config, progress, offset, total, cancelled)
    }
}

/// What follows when preparing failed: a cancel goes first; only a download
/// whose connection failed is tried again, as often as its retries allow.
pub open spec fn prepared_err_turn(
    config: RunConfig,
    attempt: u32,
    e: MeowError,
    cancelled: bool,
) -> RunTurnView {
    if cancelled {
        stop_turn(seq![ReportView::Canceled { total_size: config.task_total }])
    } else if config.direction == Direction::Download && e.code == InnerErrorCode::HttpError
        && attempt < prepare_retries(config) {
        RunTurnView {
            state: RunState::Preparing { attempt: (attempt + 1) as u32 },
            reports: Seq::empty(),
            action: RunAction::Sleep { attempt },
        }
    } else {
        stop_turn(
            seq![
                ReportView::Failed {
                    error: effect::error_status(e),
                    total_size: config.task_total,
                },
            ],
        )
    }
}

/// What follows a chunk: its progress is reported; the last one completes the
/// transfer.
pub open spec fn chunk_turn(
    config: RunConfig,
    known_total: u64,
    result: ChunkRetryResult,
    cancelled: bool,
) -> RunTurnView {
    match result {
        ChunkRetryResult::Cancelled => stop_turn(
            seq![ReportView::Canceled { total_size: known_total }],
        ),
        ChunkRetryResult::Failed(e) => stop_turn(
            seq![
                ReportView::Failed { error: effect::error_status(e), total_size: known_total },
            ],
        ),
        ChunkRetryResult::Done(outcome) => {
            let total = if outcome.total_size > 0 {
                outcome.total_size
            } else {
                known_total
            };
            let progress = seq![
                ReportView::Progress { next_offset: outcome.next_offset, total_size: total },
            ];
            if outcome.done {
                stop_turn(
                    progress.push(
                        ReportView::Completed {
                            total_size: total,
                            completion_payload: effect::text_view(outcome.completion_payload),
                        },
                    ),
                )
            } else {
                transfer_turn(config, progress, outcome.next_offset, total, cancelled)
            }
        },
    }
}

/// A worker that prepares its transfer and takes the chunks one by one.
#[derive(Debug, Clone, Copy, PartialEq, Eq, Structural)]
pub struct GroupRun {
    pub config: RunConfig,
    pub state: RunState,
}

/// What a turn of a worker shows.
pub open spec fn turn_view(run: GroupRun, turn: RunTurn) -> RunTurnView {
    RunTurnView { state: run.state, reports: report_views(turn.reports@), action: turn.action }
}

impl GroupRun {
    pub fn new(task: &InnerTask, start_offset: u64) -> (run: GroupRun)
        ensures
            run.config == (RunConfig {
                direction: task.direction,
                task_total: task.total_size,
                chunk_size: task.chunk_size,
                max_chunk_retries: task.max_chunk_retries,
                max_parts_in_flight: task.max_parts_in_flight,
                start_offset,
            }),
            run.state == (RunState::Preparing { attempt: 0 }),
    {
        GroupRun {
            config: RunConfig {
                direction: task.direction,
                task_total: task.total_size,
                chunk_size: task.chunk_size,
                max_chunk_retries: task.max_chunk_retries,
                max_parts_in_flight: task.max_parts_in_flight,
                start_offset,
            },
            state: RunState::Preparing { attempt: 0 },
        }
    }

    fn stop(&mut self, reports: Vec<Report>) -> (turn: RunTurn)
        ensures
            final(self).config == old(self).config,
            turn_view(*final(self), turn) == stop_turn(report_views(reports@)),
    {
        self.state = RunState::Ended;
        RunTurn { reports, action: RunAction::Stop }
    }

    fn transfer(
        &mut self,
        reports: Vec<Report>,
        offset: u64,
        known_total: u64,
        cancelled: bool,
    ) -> (turn: RunTurn)
        ensures
            final(self).config == old(self).config,
            turn_view(*final(self), turn) == transfer_turn(
                old(self).config,
                report_views(reports@),
                offset,
                known_total,
                cancelled,
            ),
    {
        let mut reports = reports;
        if cancelled {
            add_report(&mut reports, Report::Canceled { total_size: known_total });
            self.stop(reports)
        } else {
            self.state = RunState::Transferring { offset, known_total };
            RunTurn {
                reports,
                action: RunAction::Transfer {
                    offset,
                    chunk_size: self.config.chunk_size,
                    known_total,
                },
            }
        }
    }

    /// The first turn, and the one after each wait.
    pub fn begin(&mut self, cancelled: bool) -> (turn: RunTurn)
        requires
            old(self).state is Preparing,
        ensures
            final(self).config == old(self).config,
            turn_view(*final(self), turn) == prepare_turn(
                old(self).config,
                old(self).state->attempt,
                cancelled,
            ),
    {
        if cancelled {
            self.stop(one_report(Report::Canceled { total_size: self.config.task_total }))
        } else {
            let reports: Vec<Report> = Vec::new();
            assert(report_views(reports@) =~= Seq::empty());
            RunTurn {
                reports,
                action: RunAction::Prepare { local_offset: self.config.start_offset },
            }
        }
    }

    /// The turn after preparing.
    pub fn on_prepared(
        &mut self,
        result: Result<PrepareOutcome, MeowError>,
        supports_parallel: bool,
        cancelled: bool,
    ) -> (turn: RunTurn)
        requires
            old(self).state is Preparing,
        ensures
            final(self).config == old(self).config,
            turn_view(*final(self), turn) == match result {
                Ok(outcome) => prepared_ok_turn(
                    old(self).config,
                    outcome,
                    supports_parallel,
                    cancelled,
                ),
                Err(e) => prepared_err_turn(
                    old(self).config,
                    old(self).state->attempt,
                    e,
                    cancelled,
                ),
            },
    {
        let config = self.config;
        match result {
            Ok(outcome) => {
                let offset: u64 = outcome.next_offset;
                let total: u64 = if outcome.total_size > 0 {
                    outcome.total_size
                } else {
                    config.task_total
                };
                let mut reports = one_report(
                    Report::Progress { next_offset: offset, total_size: total },
                );
                if config.max_parts_in_flight > 1 && total > 0 && supports_parallel {
                    let remaining: u64 = total.saturating_sub(offset);
                    match validate_parallel_part_window(
                        config.max_parts_in_flight,
                        config.chunk_size,
                        remaining,
                    ) {
                        Err(error) => {
                            add_report(&mut reports, Report::Failed { error, total_size: total });
                            self.stop(reports)
                        },
                        Ok(()) => {
                            self.state = RunState::HandedOver;
                            RunTurn {
                                reports,
                                action: RunAction::RunParallel {
                                    start_offset: offset,
                                    known_total: total,
                                },
                            }
                        },
                    }
                } else {
                    self.transfer(reports, offset, total, cancelled)
                }
            },
            Err(e) => {
                if cancelled {
                    return self.stop(
                        one_report(Report::Canceled { total_size: config.task_total }),
                    );
                }
                let attempt: u32 = match self.state {
                    RunState::Preparing { attempt } => attempt,
                    _ => 0,
                };
                let download = config.direction == Direction::Download;
                if download && is_connection_layer_retryable(&e) && attempt
                    < config.max_chunk_retries {
                    self.state = RunState::Preparing { attempt: attempt + 1 };
                    let reports: Vec<Report> = Vec::new();
                    assert(report_views(reports@) =~= Seq::empty());
                    RunTurn { reports, action: RunAction::Sleep { attempt } }
                } else {
                    self.stop(
                        one_report(Report::Failed { error: e, total_size: config.task_total }),
                    )
                }
            },
        }
    }

    /// The turn after a chunk.
    pub fn on_chunk(&mut self, result: ChunkRetryResult, cancelled: bool) -> (turn: RunTurn)
        requires
            old(self).state is Transferring,
        ensures
            final(self).config == old(self).config,
            turn_view(*final(self), turn) == chunk_turn(
                old(self).config,
                old(self).state->known_total,
                result,
                cancelled,
            ),
    {
        let known: u64 = match self.state {
            RunState::Transferring { known_total, .. } => known_total,
            _ => 0,
        };
        match result {
            ChunkRetryResult::Cancelled => self.stop(
                one_report(Report::Canceled { total_size: known }),
            ),
            ChunkRetryResult::Failed(error) => self.stop(
                one_report(Report::Failed { error, total_size: known }),
            ),
            ChunkRetryResult::Done(outcome) => {
                let total: u64 = if outcome.total_size > 0 {
                    outcome.total_size
                } else {
                    known
                };
                let mut reports = one_report(
                    Report::Progress { next_offset: outcome.next_offset, total_size: total },
                );
                if outcome.done {
                    add_report(
                        &mut reports,
                        Report::Completed {
                            total_size: total,
                            completion_payload: outcome.completion_payload,
                        },
                    );
                    self.stop(reports)
                } else {
                    self.transfer(reports, outcome.next_offset, total, cancelled)
                }
            },
        }
    }
}

/// The report of a worker that panicked: its transfer fails, with the size that
/// its task was made with.
pub fn worker_panicked(task: &InnerTask, text: &str) -> (report: Report)
    ensures
        report_view(report) == (ReportView::Failed {
            error: StatusView::Failed {
                code: InnerErrorCode::Unknown,
                msg: "run_group task panicked: "@ + text@,
                http_status: None,
            },
            total_size: task.total_size,
        }),
{
    let mut msg = "run_group task panicked: ".to_owned();
    msg.append(text);
    Report::Failed {
        error: MeowError::from_code(InnerErrorCode::Unknown, msg),
        total_size: task.total_size,
    }
}

/// Whether a turn ends its worker with exactly one terminal report, the last
/// one, or does not end it and has none.
pub open spec fn ends_once(reports: Seq<ReportView>, stops: bool) -> bool {
    if stops {
        &&& reports.len() > 0
        &&& ends_worker(reports.last())
        &&& forall|i: int| 0 <= i < reports.len() - 1 ==> !ends_worker(#[trigger] reports[i])
    } else {
        forall|i: int| 0 <= i < reports.len() ==> !ends_worker(#[trigger] reports[i])
    }
}

/// A worker that takes the chunks one by one ends with exactly one terminal
/// report, and with it its work is over: no turn follows it.
pub proof fn law_worker_ends_once(
    config: RunConfig,
    attempt: u32,
    known_total: u64,
    prepared: Result<PrepareOutcome, MeowError>,
    supports_parallel: bool,
    chunk: ChunkRetryResult,
    cancelled: bool,
)
    ensures
        ({
            let t = prepare_turn(config, attempt, cancelled);
            &&& ends_once(t.reports, t.action is Stop)
            &&& t.action is Stop <==> t.state is Ended
        }),
        ({
            let t = match prepared {
                Ok(outcome) => prepared_ok_turn(config, outcome, supports_parallel, cancelled),
                Err(e) => prepared_err_turn(config, attempt, e, cancelled),
            };
            &&& ends_once(t.reports, t.action is Stop)
            &&& t.action is Stop <==> t.state is Ended
        }),
        ({
            let t = chunk_turn(config, known_total, chunk, cancelled);
            &&& ends_once(t.reports, t.action is Stop)
            &&& t.action is Stop <==> t.state is Ended
        }),
{
}

} // verus!
