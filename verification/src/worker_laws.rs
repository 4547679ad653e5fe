//! What holds of workers, told by what they are handed and what they report.

use vstd::prelude::*;

use crate::direction::{Direction, UniqueId};
use crate::effect::StatusView;
use crate::error::{InnerErrorCode, MeowError};
use crate::exec;
use crate::exec::{GroupRun, Report, ReportView, RunAction, RunConfig, RunState, RunTurn};
use crate::exec_parallel;
use crate::exec_parallel::{ParallelAction, ParallelPhase, ParallelRun, ParallelTurn, ParallelView};
use crate::inner_task::InnerTask;
use crate::part_window::{PartWindow, PartWindowView};
use crate::retry;
use crate::retry::{ChunkRetry, ChunkRetryResult, RetryDecision};
use crate::text;
use crate::transfer_status::{ChunkOutcome, PrepareOutcome};
use crate::worker_event::WorkerEvent;

verus! {

// ---------------------------------------------------------------------------
// Reports
// ---------------------------------------------------------------------------

/// The value of a report holds everything that the report does: its kind, its
/// numbers, the payload of a completion, and code, text and HTTP status of the
/// error of a failure.
pub proof fn law_report_values_lose_nothing(report: Report)
    ensures
        match report {
            Report::Progress { next_offset, total_size } => exec::report_view(report) == (
            ReportView::Progress { next_offset, total_size }),
            Report::Completed { total_size, completion_payload: None } => exec::report_view(report)
                == (ReportView::Completed { total_size, completion_payload: None }),
            Report::Completed { total_size, completion_payload: Some(payload) } =>
            exec::report_view(report) == (ReportView::Completed {
                total_size,
                completion_payload: Some(payload@),
            }),
            Report::Failed { error, total_size } => exec::report_view(report) == (
            ReportView::Failed {
                error: StatusView::Failed {
                    code: error.code,
                    msg: error.msg@,
                    http_status: error.http_status,
                },
                total_size,
            }),
            Report::Canceled { total_size } => exec::report_view(report) == (
            ReportView::Canceled { total_size }),
        },
{
}

/// The values of a list of reports are those of its members, in order.
pub proof fn law_reports_keep_their_order(reports: Seq<Report>, i: int)
    requires
        0 <= i < reports.len(),
    ensures
        exec::report_views(reports).len() == reports.len(),
        exec::report_views(reports)[i] == exec::report_view(reports[i]),
{
}

// ---------------------------------------------------------------------------
// Preparing
// ---------------------------------------------------------------------------

/// A worker that was not canceled asks for the transfer to be prepared from the
/// offset it was started at and reports nothing yet, at the first attempt as at
/// any later one; one that was canceled reports just that.
pub proof fn law_preparing_starts_at_the_recorded_offset(
    config: RunConfig,
    attempt: u32,
    cancelled: bool,
)
    ensures
        ({
            let t = exec::prepare_turn(config, attempt, cancelled);
            &&& t.action is Stop <==> cancelled
            &&& !cancelled ==> t.action == (RunAction::Prepare {
                local_offset: config.start_offset,
            }) && t.reports.len() == 0 && t.state == (RunState::Preparing { attempt })
            &&& cancelled ==> t.reports == seq![
                ReportView::Canceled { total_size: config.task_total },
            ]
        }),
{
}

/// A transfer goes on exactly where preparing says, whatever offset the worker
/// was started at: the first report is progress at that offset, and the next
/// chunk, the parts, and the state that is left all begin there. The total is
/// the one that preparing found, or that of the task where it found none.
pub proof fn law_transfer_goes_on_where_preparing_says(
    config: RunConfig,
    outcome: PrepareOutcome,
    supports_parallel: bool,
    cancelled: bool,
)
    ensures
        ({
            let t = exec::prepared_ok_turn(config, outcome, supports_parallel, cancelled);
            let first = t.reports[0];
            &&& t.reports.len() >= 1
            &&& first is Progress
            &&& first->next_offset == outcome.next_offset
            &&& outcome.total_size > 0 ==> first->Progress_total_size == outcome.total_size
            &&& outcome.total_size == 0 ==> first->Progress_total_size == config.task_total
            &&& t.action matches RunAction::Transfer { offset, chunk_size, known_total } ==> {
                &&& offset == outcome.next_offset
                &&& chunk_size == config.chunk_size
                &&& known_total == first->Progress_total_size
                &&& t.state == (RunState::Transferring { offset, known_total })
                &&& t.reports.len() == 1
            }
            &&& t.action matches RunAction::RunParallel { start_offset, known_total } ==> {
                &&& start_offset == outcome.next_offset
                &&& known_total == first->Progress_total_size
                &&& t.reports.len() == 1
            }
            &&& !(t.action is Prepare) && !(t.action is Sleep)
        }),
{
}

/// A prepared transfer takes its chunks one by one unless it asks for several
/// at a time, knows its total and has a protocol that can do it. One by one, it
/// goes on exactly where it was not canceled, and a cancel is the last thing it
/// reports.
pub proof fn law_serial_or_parallel(
    config: RunConfig,
    outcome: PrepareOutcome,
    supports_parallel: bool,
    cancelled: bool,
)
    ensures
        ({
            let t = exec::prepared_ok_turn(config, outcome, supports_parallel, cancelled);
            let total_known = outcome.total_size > 0 || config.task_total > 0;
            let parallel = config.max_parts_in_flight >= 2 && total_known && supports_parallel;
            let total = t.reports[0]->Progress_total_size;
            &&& !parallel ==> {
                &&& t.action is Transfer <==> !cancelled
                &&& t.action is Stop <==> cancelled
                &&& cancelled ==> t.reports.len() == 2 && t.reports[1] == (ReportView::Canceled {
                    total_size: total,
                })
            }
            &&& parallel ==> {
                &&& t.action is RunParallel || t.action is Stop
                &&& t.action is RunParallel ==> t.state is HandedOver
                &&& t.action is Stop ==> {
                    &&& t.reports.len() == 2
                    &&& t.reports[1] is Failed
                    &&& t.reports[1]->Failed_total_size == total
                    &&& t.reports[1]->error is Failed
                    &&& t.reports[1]->error->code == InnerErrorCode::IoError
                    &&& t.reports[1]->error->http_status is None
                }
            }
        }),
{
}

/// How often preparing is tried depends on the failure alone: a download whose
/// connection failed waits and is prepared again while retries are left, and
/// the attempts are counted. Every other failure is reported as it is, with the
/// size of the task, and so is the last one. A cancel goes before all of this.
pub proof fn law_failed_preparing_is_retried_or_reported(
    config: RunConfig,
    attempt: u32,
    e: MeowError,
    cancelled: bool,
)
    ensures
        ({
            let t = exec::prepared_err_turn(config, attempt, e, cancelled);
            let again = config.direction == Direction::Download && e.code
                == InnerErrorCode::HttpError && attempt < config.max_chunk_retries;
            &&& cancelled ==> t.action is Stop && t.reports == seq![
                ReportView::Canceled { total_size: config.task_total },
            ]
            &&& !cancelled && again ==> t.reports.len() == 0 && t.action == (RunAction::Sleep {
                attempt,
            }) && t.state is Preparing && t.state->attempt == attempt + 1
            &&& !cancelled && !again ==> t.action is Stop && t.reports == seq![
                ReportView::Failed {
                    error: StatusView::Failed {
                        code: e.code,
                        msg: e.msg@,
                        http_status: e.http_status,
                    },
                    total_size: config.task_total,
                },
            ]
        }),
{
}

// ---------------------------------------------------------------------------
// One chunk after the other
// ---------------------------------------------------------------------------

/// A transferred chunk is reported as progress up to its end. The transfer is
/// complete exactly where the chunk says so, and with the payload it came back
/// with; otherwise it goes on at the end of the chunk, unless it was canceled.
/// A total that a chunk does not know keeps the value it had.
pub proof fn law_chunks_follow_each_other(
    config: RunConfig,
    known_total: u64,
    outcome: ChunkOutcome,
    cancelled: bool,
)
    ensures
        ({
            let t = exec::chunk_turn(
                config,
                known_total,
                ChunkRetryResult::Done(outcome),
                cancelled,
            );
            let total = t.reports[0]->Progress_total_size;
            &&& t.reports.len() >= 1
            &&& t.reports[0] is Progress
            &&& t.reports[0]->next_offset == outcome.next_offset
            &&& outcome.total_size > 0 ==> total == outcome.total_size
            &&& outcome.total_size == 0 ==> total == known_total
            &&& t.reports.last() is Completed <==> outcome.done
            &&& outcome.done ==> {
                &&& t.action is Stop
                &&& t.reports.len() == 2
                &&& t.reports[1]->Completed_total_size == total
                &&& t.reports[1]->completion_payload is Some <==> outcome.completion_payload is Some
                &&& outcome.completion_payload matches Some(payload)
                    ==> t.reports[1]->completion_payload == Some(payload@)
            }
            &&& !outcome.done && !cancelled ==> {
                &&& t.reports.len() == 1
                &&& t.action == (RunAction::Transfer {
                    offset: outcome.next_offset,
                    chunk_size: config.chunk_size,
                    known_total: total,
                })
                &&& t.state == (RunState::Transferring {
                    offset: outcome.next_offset,
                    known_total: total,
                })
            }
            &&& !outcome.done && cancelled ==> {
                &&& t.action is Stop
                &&& t.reports.len() == 2
                &&& t.reports[1] == (ReportView::Canceled { total_size: total })
            }
        }),
{
}

/// A chunk that failed for good fails the transfer with that very error, and
/// one that was given up for a cancel cancels it; neither is ever reported as
/// progress or as a completion.
pub proof fn law_a_lost_chunk_ends_the_transfer(
    config: RunConfig,
    known_total: u64,
    e: MeowError,
    cancelled: bool,
)
    ensures
        ({
            let t = exec::chunk_turn(config, known_total, ChunkRetryResult::Failed(e), cancelled);
            &&& t.action is Stop
            &&& t.reports == seq![
                ReportView::Failed {
                    error: StatusView::Failed {
                        code: e.code,
                        msg: e.msg@,
                        http_status: e.http_status,
                    },
                    total_size: known_total,
                },
            ]
        }),
        ({
            let t = exec::chunk_turn(config, known_total, ChunkRetryResult::Cancelled, cancelled);
            &&& t.action is Stop
            &&& t.reports == seq![ReportView::Canceled { total_size: known_total }]
        }),
{
}

// ---------------------------------------------------------------------------
// Retries
// ---------------------------------------------------------------------------

/// What becomes of an attempt: a success is handed on as it is; a failure is
/// given up for a cancel, tried again where it may pass and a retry is left,
/// and otherwise handed on as it is. The delay is that of the attempt that
/// failed.
pub proof fn law_an_attempt_ends_or_is_repeated(
    retry: ChunkRetry,
    result: Result<ChunkOutcome, MeowError>,
    cancelled: bool,
)
    ensures
        ({
            let d = retry::decide_retry(retry, result, cancelled);
            &&& result matches Ok(outcome) ==> d == RetryDecision::Finish(
                ChunkRetryResult::Done(outcome),
            )
            &&& result is Err && cancelled ==> d == RetryDecision::Finish(
                ChunkRetryResult::Cancelled,
            )
            &&& !cancelled ==> (result matches Err(e) ==> {
                let passes = e.code == InnerErrorCode::HttpError || (e.code
                    == InnerErrorCode::ResponseStatusError && (e.http_status is None
                    || e.http_status == Some(408u16) || e.http_status == Some(429u16) || 500
                    <= e.http_status->Some_0 <= 599));
                &&& passes && retry.attempt < retry.max_retries ==> d == (
                RetryDecision::Backoff { attempt: retry.attempt })
                &&& !(passes && retry.attempt < retry.max_retries) ==> d == RetryDecision::Finish(
                    ChunkRetryResult::Failed(e),
                )
            })
        }),
{
}

/// The delay doubles from 200 milliseconds on with every attempt, up to five
/// seconds, and jitter moves it by a fifth at most.
pub proof fn law_delays_double(attempt: nat, random: nat)
    ensures
        retry::backoff_ms(0) == 200,
        attempt < 4 ==> retry::backoff_ms(attempt + 1) == 2 * retry::backoff_ms(attempt),
        attempt > 4 ==> retry::backoff_ms(attempt) == 5000,
        80 <= retry::jitter_percent(random) <= 120,
        retry::jitter_percent(random + 41) == retry::jitter_percent(random),
        random < 41 ==> retry::jitter_percent(random) == 80 + random,
{
    vstd::arithmetic::power2::lemma2_to64();
    if attempt > 5 {
        let exponent: nat = if attempt <= 20 {
            attempt
        } else {
            20
        };
        vstd::arithmetic::power2::lemma_pow2_strictly_increases(5, exponent);
    }
    assert(retry::jitter_percent(random) == 80 + random % 41);
    assert(retry::jitter_percent(random + 41) == 80 + (random + 41) % 41);
}

// ---------------------------------------------------------------------------
// Several parts at a time
// ---------------------------------------------------------------------------

/// The parts of one file under way are at most 256 and take up at most 512 MiB;
/// a window within both limits is accepted, one beyond either is refused. Only
/// parts that the file has count, and each is at most a chunk. Without bytes
/// left there is nothing to refuse; a chunk has to have a byte.
pub proof fn law_window_limits(max_parts_in_flight: int, chunk_size: int, remaining: int, parts: int)
    requires
        max_parts_in_flight >= 0,
        chunk_size >= 0,
        remaining >= 0,
        chunk_size > 0 && remaining > 0 ==> (parts - 1) * chunk_size < remaining <= parts
            * chunk_size,
    ensures
        ({
            let asked = if max_parts_in_flight >= 1 {
                max_parts_in_flight
            } else {
                1
            };
            let under_way = if asked <= parts {
                asked
            } else {
                parts
            };
            let part_bytes = if remaining <= chunk_size {
                remaining
            } else {
                chunk_size
            };
            let refused = exec::window_refusal(max_parts_in_flight, chunk_size, remaining) is Some;
            &&& remaining == 0 ==> !refused
            &&& remaining > 0 && chunk_size == 0 ==> refused
            &&& remaining > 0 && chunk_size > 0 ==> (refused <==> under_way > 256 || under_way
                * part_bytes > 536870912)
        }),
{
    if remaining > 0 && chunk_size > 0 {
        let q = (remaining - 1) / chunk_size;
        vstd::arithmetic::div_mod::lemma_fundamental_div_mod(remaining - 1, chunk_size);
        vstd::arithmetic::div_mod::lemma_mod_bound(remaining - 1, chunk_size);
        vstd::arithmetic::mul::lemma_mul_is_commutative(q, chunk_size);
        assert(q == parts - 1) by (nonlinear_arith)
            requires
                chunk_size > 0,
                (parts - 1) * chunk_size <= remaining - 1 < parts * chunk_size,
                q * chunk_size <= remaining - 1 < q * chunk_size + chunk_size,
        ;
    }
}

/// A worker on several parts begins with the first part that is missing, and
/// hands nothing out where none is: then an upload is complete, and a download
/// is completed once more. Nothing is reported as progress before a part is
/// there.
pub proof fn law_parts_begin_where_bytes_are_missing(v: ParallelView, start_offset: u64)
    requires
        v.window.wf(),
        v.window.total == v.total,
        v.window.in_flight == 0,
        v.window.next_dispatch == start_offset || start_offset >= v.total,
    ensures
        ({
            let t = exec_parallel::parallel_begin(v, start_offset);
            &&& t.action is WaitForPart <==> start_offset < v.total
            &&& start_offset < v.total ==> t.reports.len() == 0 && t.dispatch.len() > 0
                && t.dispatch[0] == start_offset
            &&& start_offset >= v.total ==> t.dispatch.len() == 0
            &&& start_offset >= v.total && v.direction == Direction::Download ==> t.action
                is Complete && t.after.phase is Completing && t.reports.len() == 0
            &&& start_offset >= v.total && v.direction == Direction::Upload ==> t.action is Stop
                && t.reports == seq![
                ReportView::Completed { total_size: v.total, completion_payload: None },
            ]
        }),
{
}

/// The parts that are handed out together follow each other, a chunk apart,
/// from where the last ones ended, each within the file. As many are handed out
/// as the window takes: afterwards it is full, or every byte was handed out.
pub proof fn law_window_is_filled(w: PartWindowView)
    requires
        w.wf(),
    ensures
        ({
            let offsets = exec_parallel::fill_offsets(w);
            let after = exec_parallel::filled(w);
            &&& forall|i: int|
                0 <= i < offsets.len() ==> #[trigger] offsets[i] == w.next_dispatch + i * w.chunk
                    && offsets[i] < w.total
            &&& after.in_flight == w.in_flight + offsets.len()
            &&& after.in_flight >= w.max_in_flight || after.next_dispatch == w.total
            &&& w.in_flight <= w.max_in_flight ==> after.in_flight <= w.max_in_flight
            &&& after.watermark == w.watermark
            &&& after.completed == w.completed
            &&& after.total == w.total
            &&& after.chunk == w.chunk
            &&& after.max_in_flight == w.max_in_flight
        }),
    decreases w.total - w.next_dispatch,
{
    if w.can_dispatch() {
        let next = w.dispatched();
        law_window_is_filled(next);
        let rest = exec_parallel::fill_offsets(next);
        let offsets = exec_parallel::fill_offsets(w);
        assert forall|i: int| 0 <= i < offsets.len() implies #[trigger] offsets[i]
            == w.next_dispatch + i * w.chunk && offsets[i] < w.total by {
            if i > 0 {
                assert(offsets[i] == rest[i - 1]);
                assert(next.next_dispatch < w.total) by {
                    if next.next_dispatch >= w.total {
                        assert(!next.can_dispatch());
                    }
                }
                assert((i - 1) * w.chunk + w.chunk == i * w.chunk) by (nonlinear_arith);
            } else {
                assert(0 * w.chunk == 0);
            }
        }
    }
}

/// While parts are under way the first failure is kept, whatever fails after
/// it, a cancel is not forgotten, and neither lets another part start. A
/// completed part reports progress exactly where it moved the prefix, up to the
/// end of the prefix, and a lost one reports none.
pub proof fn law_settled_parts_are_taken_account_of(
    v: ParallelView,
    offset: u64,
    result: ChunkRetryResult,
    token_cancelled: bool,
)
    requires
        v.phase is Running,
    ensures
        ({
            let t = exec_parallel::part_turn(v, offset, result, token_cancelled);
            let progress = t.reports[0];
            &&& v.failed is Some ==> t.after.failed == v.failed
            &&& v.failed is None ==> (result matches ChunkRetryResult::Failed(e)
                ==> t.after.failed == Some(e))
            &&& v.failed is None && !(result is Failed) ==> t.after.failed is None
            &&& t.after.cancelled == (v.cancelled || result is Cancelled)
            &&& t.after.direction == v.direction
            &&& t.after.total == v.total
            &&& t.after.failed is Some || t.after.cancelled || !(result is Done)
                ==> t.dispatch.len() == 0
            &&& !(result is Done) ==> t.after.window.watermark == v.window.watermark
            &&& t.after.window.watermark != v.window.watermark ==> t.reports.len() >= 1
                && progress == (ReportView::Progress {
                next_offset: t.after.window.watermark as u64,
                total_size: v.total,
            })
            &&& t.reports.len() >= 1 && progress is Progress ==> t.after.window.watermark
                != v.window.watermark
            &&& t.action is WaitForPart <==> t.after.window.in_flight != 0
        }),
{
    let after = exec_parallel::part_settled(v, offset, result);
    lemma_filling_moves_no_prefix(after.window);
}

/// Handing out parts does not move the prefix.
proof fn lemma_filling_moves_no_prefix(w: PartWindowView)
    ensures
        exec_parallel::filled(w).watermark == w.watermark,
    decreases w.total - w.next_dispatch,
{
    if w.chunk >= 1 && w.can_dispatch() {
        lemma_filling_moves_no_prefix(w.dispatched());
    }
}

/// When no part is left under way, a failure decides over a cancel, and either
/// over everything else; the transfer is completed exactly where there was
/// neither and the prefix is the whole file. A download writes down what is
/// there before it ends; an upload ends at once, with the first failure as it
/// was or with the cancel.
pub proof fn law_settled_workers_end_or_complete(
    v: ParallelView,
    reports: Seq<ReportView>,
    token_cancelled: bool,
)
    ensures
        ({
            let t = exec_parallel::settle_turn(v, reports, token_cancelled);
            let stopped = v.cancelled || token_cancelled;
            let whole = v.window.watermark >= v.window.total && v.window.in_flight == 0;
            &&& t.dispatch.len() == 0
            &&& t.after.window == v.window
            &&& t.action is Complete <==> v.failed is None && !stopped && whole
            &&& t.action is Complete ==> t.reports == reports && t.after.phase is Completing
            &&& t.action is Checkpoint <==> v.direction == Direction::Download && (v.failed is Some
                || stopped)
            &&& t.action is Checkpoint ==> t.reports == reports && t.after.failed == v.failed
            &&& t.action is Checkpoint && v.failed is Some
                ==> t.after.phase is CheckpointAfterFailure
            &&& t.action is Checkpoint && v.failed is None ==> t.after.phase is CheckpointAfterCancel
            &&& t.action is Stop ==> t.reports.len() == reports.len() + 1
            &&& v.direction == Direction::Upload ==> (v.failed matches Some(e) ==> t.action is Stop
                && t.reports.last() == (ReportView::Failed {
                error: StatusView::Failed {
                    code: e.code,
                    msg: e.msg@,
                    http_status: e.http_status,
                },
                total_size: v.total,
            }))
            &&& v.direction == Direction::Upload && v.failed is None && stopped ==> t.action is Stop
                && t.reports.last() == (ReportView::Canceled { total_size: v.total })
            &&& v.failed is None && !stopped && !whole ==> t.action is Stop && t.reports.last()
                is Failed && t.reports.last()->error->code == InnerErrorCode::Unknown
                && t.reports.last()->Failed_total_size == v.total
        }),
{
}

/// What a worker on several parts ends with follows the completing request: it
/// reports a completion exactly where the request succeeded, with the payload
/// it was answered, and otherwise the very error that the request failed with.
pub proof fn law_completion_follows_the_request(
    v: ParallelView,
    result: Result<Option<String>, MeowError>,
)
    ensures
        ({
            let t = exec_parallel::complete_turn(v, result);
            &&& t.action is Stop
            &&& t.after.phase is Ended
            &&& t.dispatch.len() == 0
            &&& t.reports.len() == 1
            &&& t.reports.last() is Completed <==> result is Ok
            &&& t.reports.last() is Failed <==> result is Err
            &&& result matches Ok(None) ==> t.reports.last() == (ReportView::Completed {
                total_size: v.total,
                completion_payload: None,
            })
            &&& result matches Ok(Some(payload)) ==> t.reports.last() == (ReportView::Completed {
                total_size: v.total,
                completion_payload: Some(payload@),
            })
            &&& result matches Err(e) ==> t.reports.last() == (ReportView::Failed {
                error: StatusView::Failed {
                    code: e.code,
                    msg: e.msg@,
                    http_status: e.http_status,
                },
                total_size: v.total,
            })
        }),
{
}

/// A failure that made a download write down what is there is what is reported
/// in the end, however that went. After a cancel the cancel is reported where
/// it went well, and otherwise why it did not. Neither is ever a completion.
pub proof fn law_checkpoints_do_not_hide_the_reason(v: ParallelView, result: Result<(), MeowError>)
    requires
        v.phase is CheckpointAfterFailure || v.phase is CheckpointAfterCancel,
        v.phase is CheckpointAfterFailure ==> v.failed is Some,
    ensures
        ({
            let t = exec_parallel::checkpoint_turn(v, result);
            &&& t.action is Stop
            &&& t.after.phase is Ended
            &&& t.dispatch.len() == 0
            &&& t.reports.len() == 1
            &&& v.phase is CheckpointAfterFailure ==> (v.failed matches Some(e)
                ==> t.reports.last() == (ReportView::Failed {
                error: StatusView::Failed {
                    code: e.code,
                    msg: e.msg@,
                    http_status: e.http_status,
                },
                total_size: v.total,
            }))
            &&& v.phase is CheckpointAfterCancel && result is Ok ==> t.reports.last() == (
            ReportView::Canceled { total_size: v.total })
            &&& v.phase is CheckpointAfterCancel ==> (result matches Err(e) ==> t.reports.last()
                == (ReportView::Failed {
                error: StatusView::Failed {
                    code: e.code,
                    msg: e.msg@,
                    http_status: e.http_status,
                },
                total_size: v.total,
            }))
        }),
{
}

/// A part that panicked fails the transfer, with what the panic said; the other
/// parts are abandoned and none is started.
pub proof fn law_a_panic_fails_the_transfer(v: ParallelView, text: Seq<char>)
    ensures
        ({
            let t = exec_parallel::panic_turn(v, text);
            &&& t.action == ParallelAction::AbandonParts
            &&& t.after.phase == ParallelPhase::Ended
            &&& t.dispatch.len() == 0
            &&& t.reports == seq![
                ReportView::Failed {
                    error: StatusView::Failed {
                        code: InnerErrorCode::Unknown,
                        msg: "upload part task panicked: "@ + text,
                        http_status: None,
                    },
                    total_size: v.total,
                },
            ]
        }),
{
}

// ---------------------------------------------------------------------------
// Workers as they run
// ---------------------------------------------------------------------------

/// A new worker has everything of its task and is at its first attempt to
/// prepare; it asks for that from the offset it is given, and for nothing where
/// it was canceled.
pub proof fn law_workers_begin_by_preparing(
    task: &InnerTask,
    start_offset: u64,
    made: GroupRun,
    run: &mut GroupRun,
    cancelled: bool,
    turn: RunTurn,
)
    requires
        call_ensures(GroupRun::new, (task, start_offset), made),
        *old(run) == made,
        call_ensures(GroupRun::begin, (run, cancelled), turn),
    ensures
        made.config.direction == task.direction,
        made.config.task_total == task.total_size,
        made.config.chunk_size == task.chunk_size,
        made.config.max_chunk_retries == task.max_chunk_retries,
        made.config.max_parts_in_flight == task.max_parts_in_flight,
        final(run).config == made.config,
        !cancelled ==> turn.action == (RunAction::Prepare { local_offset: start_offset })
            && turn.reports@.len() == 0 && final(run).state == (RunState::Preparing { attempt: 0 }),
        cancelled ==> turn.action is Stop && turn.reports@.len() == 1 && turn.reports@[0] == (
        Report::Canceled { total_size: task.total_size }),
{
    assert(exec::report_views(turn.reports@).len() == turn.reports@.len());
    if cancelled {
        assert(exec::report_views(turn.reports@)[0] == exec::report_view(turn.reports@[0]));
    }
}

/// A worker whose transfer was prepared goes on where preparing said: its first
/// report, its next chunk or its parts, and its state all have that offset. It
/// goes on chunk by chunk unless several parts at a time are asked for and
/// possible, and unless it was canceled.
pub proof fn law_prepared_workers_go_on(
    run: &mut GroupRun,
    outcome: PrepareOutcome,
    supports_parallel: bool,
    cancelled: bool,
    turn: RunTurn,
)
    requires
        call_ensures(
            GroupRun::on_prepared,
            (run, Ok::<PrepareOutcome, MeowError>(outcome), supports_parallel, cancelled),
            turn,
        ),
    ensures
        final(run).config == old(run).config,
        turn.reports@.len() >= 1,
        turn.reports@[0] is Progress,
        turn.reports@[0]->next_offset == outcome.next_offset,
        turn.reports@[0]->Progress_total_size == if outcome.total_size > 0 {
            outcome.total_size
        } else {
            old(run).config.task_total
        },
        turn.action matches RunAction::Transfer { offset, chunk_size, known_total } ==> offset
            == outcome.next_offset && chunk_size == old(run).config.chunk_size && known_total
            == turn.reports@[0]->Progress_total_size && final(run).state == (
        RunState::Transferring { offset, known_total }),
        turn.action matches RunAction::RunParallel { start_offset, known_total } ==> start_offset
            == outcome.next_offset && known_total == turn.reports@[0]->Progress_total_size,
        (old(run).config.max_parts_in_flight <= 1 || !supports_parallel) ==> {
            &&& turn.action is Transfer <==> !cancelled
            &&& turn.action is Stop <==> cancelled
            &&& cancelled ==> turn.reports@.len() == 2 && turn.reports@[1] is Canceled
        },
{
    let t = exec::prepared_ok_turn(old(run).config, outcome, supports_parallel, cancelled);
    law_transfer_goes_on_where_preparing_says(
        old(run).config,
        outcome,
        supports_parallel,
        cancelled,
    );
    law_serial_or_parallel(old(run).config, outcome, supports_parallel, cancelled);
    assert(t.reports == exec::report_views(turn.reports@));
    law_reports_keep_their_order(turn.reports@, 0);
    law_report_values_lose_nothing(turn.reports@[0]);
    if turn.reports@.len() > 1 {
        law_reports_keep_their_order(turn.reports@, 1);
        law_report_values_lose_nothing(turn.reports@[1]);
    }
}

/// A worker whose transfer could not be prepared waits and tries again, or
/// reports the very error and ends.
pub proof fn law_unprepared_workers_wait_or_end(
    run: &mut GroupRun,
    e: MeowError,
    supports_parallel: bool,
    cancelled: bool,
    turn: RunTurn,
)
    requires
        old(run).state is Preparing,
        call_ensures(
            GroupRun::on_prepared,
            (run, Err::<PrepareOutcome, MeowError>(e), supports_parallel, cancelled),
            turn,
        ),
    ensures
        ({
            let config = old(run).config;
            let attempt = old(run).state->attempt;
            let again = config.direction == Direction::Download && e.code
                == InnerErrorCode::HttpError && attempt < config.max_chunk_retries;
            &&& !cancelled && again ==> turn.action == (RunAction::Sleep { attempt })
                && turn.reports@.len() == 0 && final(run).state is Preparing
                && final(run).state->attempt == attempt + 1
            &&& !cancelled && !again ==> turn.action is Stop && turn.reports@.len() == 1
                && turn.reports@[0] is Failed && turn.reports@[0]->error.code == e.code
                && turn.reports@[0]->error.msg@ == e.msg@ && turn.reports@[0]->error.http_status
                == e.http_status
            &&& cancelled ==> turn.action is Stop && turn.reports@.len() == 1 && turn.reports@[0]
                is Canceled
        }),
{
    let t = exec::prepared_err_turn(old(run).config, old(run).state->attempt, e, cancelled);
    law_failed_preparing_is_retried_or_reported(
        old(run).config,
        old(run).state->attempt,
        e,
        cancelled,
    );
    assert(t.reports == exec::report_views(turn.reports@));
    if turn.reports@.len() > 0 {
        law_reports_keep_their_order(turn.reports@, 0);
        law_report_values_lose_nothing(turn.reports@[0]);
    }
}

/// A worker that transferred a chunk reports its end, and completes exactly
/// where the chunk says so, with its payload; otherwise the next chunk begins
/// where this one ended.
pub proof fn law_workers_take_chunk_after_chunk(
    run: &mut GroupRun,
    outcome: ChunkOutcome,
    cancelled: bool,
    turn: RunTurn,
)
    requires
        old(run).state is Transferring,
        call_ensures(GroupRun::on_chunk, (run, ChunkRetryResult::Done(outcome), cancelled), turn),
    ensures
        turn.reports@.len() >= 1,
        turn.reports@[0] is Progress,
        turn.reports@[0]->next_offset == outcome.next_offset,
        turn.reports@.last() is Completed <==> outcome.done,
        outcome.done ==> turn.action is Stop && turn.reports@.len() == 2
            && turn.reports@[1]->completion_payload is Some == outcome.completion_payload is Some,
        outcome.done && outcome.completion_payload is Some
            ==> turn.reports@[1]->completion_payload->Some_0@
            == outcome.completion_payload->Some_0@,
        !outcome.done && !cancelled ==> turn.action is Transfer && turn.action->Transfer_offset
            == outcome.next_offset && turn.action->Transfer_chunk_size
            == old(run).config.chunk_size,
        !outcome.done && cancelled ==> turn.action is Stop && turn.reports@.last() is Canceled,
{
    let t = exec::chunk_turn(
        old(run).config,
        old(run).state->known_total,
        ChunkRetryResult::Done(outcome),
        cancelled,
    );
    law_chunks_follow_each_other(old(run).config, old(run).state->known_total, outcome, cancelled);
    assert(t.reports == exec::report_views(turn.reports@));
    law_reports_keep_their_order(turn.reports@, 0);
    law_report_values_lose_nothing(turn.reports@[0]);
    if turn.reports@.len() > 1 {
        law_reports_keep_their_order(turn.reports@, 1);
        law_report_values_lose_nothing(turn.reports@[1]);
    }
}

/// A worker that lost a chunk ends with the error of the chunk, or as canceled.
pub proof fn law_workers_end_with_a_lost_chunk(
    run: &mut GroupRun,
    result: ChunkRetryResult,
    cancelled: bool,
    turn: RunTurn,
)
    requires
        old(run).state is Transferring,
        !(result is Done),
        call_ensures(GroupRun::on_chunk, (run, result, cancelled), turn),
    ensures
        turn.action is Stop,
        final(run).state is Ended,
        turn.reports@.len() == 1,
        result is Cancelled ==> turn.reports@[0] is Canceled,
        result matches ChunkRetryResult::Failed(e) ==> turn.reports@[0] is Failed
            && turn.reports@[0]->error.code == e.code && turn.reports@[0]->error.msg@ == e.msg@
            && turn.reports@[0]->error.http_status == e.http_status,
{
    let known = old(run).state->known_total;
    let t = exec::chunk_turn(old(run).config, known, result, cancelled);
    if let ChunkRetryResult::Failed(e) = result {
        law_a_lost_chunk_ends_the_transfer(old(run).config, known, e, cancelled);
    }
    assert(t.reports == exec::report_views(turn.reports@));
    assert(turn.reports@.len() == 1);
    law_reports_keep_their_order(turn.reports@, 0);
    law_report_values_lose_nothing(turn.reports@[0]);
}

/// What a worker tells the scheduler is what it reported, under its key.
pub proof fn law_reports_become_events(report: Report, key: UniqueId, event: WorkerEvent)
    requires
        call_ensures(Report::into_event, (report, key), event),
    ensures
        event.key() == (key.0, key.1@),
        event is Progress <==> report is Progress,
        event is Completed <==> report is Completed,
        event is Failed <==> report is Failed,
        event is Canceled <==> report is Canceled,
        report is Progress ==> event->next_offset == report->next_offset
            && event->Progress_total_size == report->Progress_total_size,
        report is Completed ==> event->completion_payload == report->completion_payload
            && event->Completed_total_size == report->Completed_total_size,
        report is Failed ==> event->error == report->error && event->Failed_total_size
            == report->Failed_total_size,
        report is Canceled ==> event->Canceled_total_size == report->Canceled_total_size,
{
}

/// A worker that panicked fails its transfer, never completes or cancels it.
pub proof fn law_panicked_workers_fail(task: &InnerTask, text: &str, report: Report)
    requires
        call_ensures(exec::worker_panicked, (task, text), report),
    ensures
        report is Failed,
        report->Failed_total_size == task.total_size,
        report->error.code == InnerErrorCode::Unknown,
        report->error.msg@ == "run_group task panicked: "@ + text@,
{
    law_report_values_lose_nothing(report);
}

/// A worker on several parts ends as its completing request did: it reports a
/// completion exactly where the request succeeded, with the payload it was
/// answered, and otherwise a failure with the very error.
pub proof fn law_parallel_workers_end_as_their_request(
    run: &mut ParallelRun,
    result: Result<Option<String>, MeowError>,
    turn: ParallelTurn,
)
    requires
        call_ensures(ParallelRun::on_completed, (run, result), turn),
    ensures
        turn.action is Stop,
        turn.dispatch@.len() == 0,
        turn.reports@.len() == 1,
        turn.reports@[0] is Completed <==> result is Ok,
        turn.reports@[0] is Failed <==> result is Err,
        result matches Ok(payload) ==> {
            let told = turn.reports@[0];
            &&& told->Completed_total_size == old(run)@.total
            &&& told->completion_payload is Some <==> payload is Some
            &&& payload is Some ==> told->completion_payload->Some_0@ == payload->Some_0@
        },
        result matches Err(e) ==> {
            let told = turn.reports@[0];
            &&& told->Failed_total_size == old(run)@.total
            &&& told->error.code == e.code
            &&& told->error.msg@ == e.msg@
            &&& told->error.http_status == e.http_status
        },
{
    law_completion_follows_the_request(old(run)@, result);
    let t = exec_parallel::complete_turn(old(run)@, result);
    assert(t.reports == exec::report_views(turn.reports@));
    assert(turn.reports@.len() == 1);
    law_reports_keep_their_order(turn.reports@, 0);
    law_report_values_lose_nothing(turn.reports@[0]);
}

/// A worker on several parts whose checkpoint came back ends with the failure
/// that led to it, or, after a cancel, as canceled where the checkpoint was
/// made and with its failure where it was not.
pub proof fn law_parallel_workers_end_after_a_checkpoint(
    run: &mut ParallelRun,
    result: Result<(), MeowError>,
    turn: ParallelTurn,
)
    requires
        call_ensures(ParallelRun::on_checkpoint, (run, result), turn),
        old(run)@.phase is CheckpointAfterFailure || old(run)@.phase is CheckpointAfterCancel,
        old(run)@.phase is CheckpointAfterFailure ==> old(run)@.failed is Some,
    ensures
        turn.action is Stop,
        turn.reports@.len() == 1,
        !(turn.reports@[0] is Completed),
        old(run)@.phase is CheckpointAfterFailure ==> turn.reports@[0] is Failed
            && turn.reports@[0]->error.code == old(run)@.failed->Some_0.code
            && turn.reports@[0]->error.msg@ == old(run)@.failed->Some_0.msg@,
        old(run)@.phase is CheckpointAfterCancel ==> (turn.reports@[0] is Canceled <==> result
            is Ok),
        old(run)@.phase is CheckpointAfterCancel ==> (result matches Err(e) ==> turn.reports@[0]
            is Failed && turn.reports@[0]->error.code == e.code && turn.reports@[0]->error.msg@
            == e.msg@),
{
    law_checkpoints_do_not_hide_the_reason(old(run)@, result);
    let t = exec_parallel::checkpoint_turn(old(run)@, result);
    assert(t.reports == exec::report_views(turn.reports@));
    assert(turn.reports@.len() == 1);
    law_reports_keep_their_order(turn.reports@, 0);
    law_report_values_lose_nothing(turn.reports@[0]);
}

/// A worker on several parts keeps the first failure of a part and any cancel,
/// starts no part after either, and reports progress exactly up to the end of
/// the prefix.
pub proof fn law_parallel_workers_account_for_parts(
    run: &mut ParallelRun,
    offset: u64,
    result: ChunkRetryResult,
    token_cancelled: bool,
    turn: ParallelTurn,
)
    requires
        old(run)@.phase is Running,
        call_ensures(ParallelRun::on_part, (run, offset, result, token_cancelled), turn),
    ensures
        old(run)@.failed is Some ==> final(run)@.failed == old(run)@.failed,
        old(run)@.failed is None ==> (result matches ChunkRetryResult::Failed(e)
            ==> final(run)@.failed == Some(e)),
        result is Cancelled ==> final(run)@.cancelled,
        old(run)@.cancelled ==> final(run)@.cancelled,
        final(run)@.failed is Some || final(run)@.cancelled ==> turn.dispatch@.len() == 0,
        final(run)@.window.watermark != old(run)@.window.watermark ==> turn.reports@.len() >= 1
            && turn.reports@[0] is Progress && turn.reports@[0]->next_offset
            == final(run)@.window.watermark as u64 && turn.reports@[0]->Progress_total_size
            == old(run)@.total,
        turn.action is Complete ==> final(run)@.failed is None && !final(run)@.cancelled
            && !token_cancelled && final(run)@.window.watermark >= final(run)@.window.total,
        turn.reports@.len() >= 1 ==> !(turn.reports@.last() is Completed),
{
    law_settled_parts_are_taken_account_of(old(run)@, offset, result, token_cancelled);
    let t = exec_parallel::part_turn(old(run)@, offset, result, token_cancelled);
    assert(t.reports == exec::report_views(turn.reports@));
    if turn.reports@.len() > 0 {
        let last = turn.reports@.len() - 1;
        law_reports_keep_their_order(turn.reports@, 0);
        law_report_values_lose_nothing(turn.reports@[0]);
        law_reports_keep_their_order(turn.reports@, last);
        law_report_values_lose_nothing(turn.reports@[last]);
    }
}

/// A retry is counted, the first attempt is not one, and what is decided of an
/// attempt follows its result.
pub proof fn law_retries_are_counted(
    max_retries: u32,
    fresh: ChunkRetry,
    retry: &mut ChunkRetry,
    result: Result<ChunkOutcome, MeowError>,
    cancelled: bool,
    decision: RetryDecision,
    stop: Option<ChunkRetryResult>,
)
    requires
        call_ensures(ChunkRetry::new, (max_retries,), fresh),
        call_ensures(ChunkRetry::after_attempt, (retry, result, cancelled), decision),
        call_ensures(ChunkRetry::before_attempt, (&fresh, cancelled), stop),
    ensures
        fresh.attempt == 0,
        fresh.max_retries == max_retries,
        stop is Some <==> cancelled,
        stop is Some ==> stop->Some_0 is Cancelled,
        final(retry).max_retries == old(retry).max_retries,
        decision is Backoff ==> final(retry).attempt == old(retry).attempt + 1
            && old(retry).attempt < old(retry).max_retries && result is Err && !cancelled
            && decision->attempt == old(retry).attempt,
        decision is Finish ==> final(retry).attempt == old(retry).attempt,
        result matches Ok(outcome) ==> decision == RetryDecision::Finish(
            ChunkRetryResult::Done(outcome),
        ),
        result is Err && cancelled ==> decision == RetryDecision::Finish(
            ChunkRetryResult::Cancelled,
        ),
{
    law_an_attempt_ends_or_is_repeated(*old(retry), result, cancelled);
}

/// Transport failures and transient statuses may pass; of failures to prepare
/// only those of the connection may.
pub proof fn law_what_may_pass(e: &MeowError, chunk: bool, prepare: bool)
    requires
        call_ensures(retry::is_transport_retryable, (e,), chunk),
        call_ensures(retry::is_connection_layer_retryable, (e,), prepare),
    ensures
        prepare <==> e.code == InnerErrorCode::HttpError,
        prepare ==> chunk,
        e.code == InnerErrorCode::ResponseStatusError ==> (chunk <==> e.http_status is None
            || e.http_status->Some_0 == 408 || e.http_status->Some_0 == 429 || (500
            <= e.http_status->Some_0 <= 599)),
        e.code != InnerErrorCode::HttpError && e.code != InnerErrorCode::ResponseStatusError
            ==> !chunk,
{
}

/// A delay lies within a fifth of 200 milliseconds doubled per attempt, up to
/// five seconds.
pub proof fn law_delays_are_near_their_base(attempt: u32, random: u64, delay: u64)
    requires
        call_ensures(retry::backoff_with_jitter_ms, (attempt, random), delay),
    ensures
        attempt == 0 ==> 160 <= delay <= 240,
        attempt == 1 ==> 320 <= delay <= 480,
        attempt == 2 ==> 640 <= delay <= 960,
        attempt == 3 ==> 1280 <= delay <= 1920,
        attempt == 4 ==> 2560 <= delay <= 3840,
        attempt >= 5 ==> 4000 <= delay <= 6000,
{
    law_delays_double(attempt as nat, random as nat);
    law_delays_double(0, random as nat);
    law_delays_double(1, random as nat);
    law_delays_double(2, random as nat);
    law_delays_double(3, random as nat);
    let d = retry::backoff_ms(attempt as nat);
    let p = retry::jitter_percent(random as nat);
    assert(d * 80 <= d * p <= d * 120) by (nonlinear_arith)
        requires
            80 <= p <= 120,
            d >= 0,
    ;
}

/// A window hands its parts out one after the other, each once and only while
/// it has room; a part that comes back frees its room, and only one that was
/// done moves the prefix.
pub proof fn law_windows_hand_out_and_take_back(
    w: &mut PartWindow,
    offset: Option<u64>,
    back: &mut PartWindow,
    done: u64,
    progress: Result<Option<u64>, MeowError>,
    lost: &mut PartWindow,
)
    requires
        old(w)@.wf(),
        call_ensures(PartWindow::take_dispatch, (w,), offset),
        old(back)@.wf(),
        call_ensures(PartWindow::on_done, (back, done), progress),
        call_ensures(PartWindow::on_settled_without_progress, (lost,), ()),
    ensures
        offset is Some <==> old(w)@.in_flight < old(w)@.max_in_flight && old(w)@.next_dispatch
            < old(w)@.total,
        offset matches Some(o) ==> o == old(w)@.next_dispatch && final(w)@.in_flight
            == old(w)@.in_flight + 1 && o < final(w)@.next_dispatch <= o + old(w)@.chunk,
        offset is None ==> final(w)@ == old(w)@,
        final(w)@.watermark == old(w)@.watermark,
        progress is Err <==> old(back)@.in_flight == 0,
        progress is Err ==> final(back)@ == old(back)@,
        progress is Ok ==> final(back)@.in_flight == old(back)@.in_flight - 1,
        progress matches Ok(moved) ==> {
            &&& moved is Some <==> final(back)@.watermark != old(back)@.watermark
            &&& moved is Some ==> moved->Some_0 == final(back)@.watermark
        },
        final(lost)@.watermark == old(lost)@.watermark,
        old(lost)@.in_flight > 0 ==> final(lost)@.in_flight == old(lost)@.in_flight - 1,
{
    if old(back)@.in_flight > 0 {
        let started = PartWindowView {
            in_flight: old(back)@.in_flight - 1,
            completed: old(back)@.completed.insert(done),
            ..old(back)@
        };
        lemma_advancing_keeps_the_rest(started);
    }
}

/// Moving the prefix changes nothing but the prefix and what waits behind it.
proof fn lemma_advancing_keeps_the_rest(w: PartWindowView)
    requires
        0 <= w.watermark <= w.total <= u64::MAX,
    ensures
        w.advanced().in_flight == w.in_flight,
        w.watermark <= w.advanced().watermark <= u64::MAX,
    decreases w.total - w.watermark,
{
    if w.chunk >= 1 && w.watermark < w.total && w.completed.contains(w.watermark as u64) {
        lemma_advancing_keeps_the_rest(
            PartWindowView {
                completed: w.completed.remove(w.watermark as u64),
                watermark: w.next(w.watermark),
                ..w
            },
        );
    }
}

/// A window is complete exactly where its prefix is the whole file and no part
/// is under way; a new one has nothing under way and begins at the offset that
/// it resumes at, or at the end where that lies beyond it.
pub proof fn law_windows_begin_and_end(
    start_offset: u64,
    chunk: u64,
    total: u64,
    max_in_flight: usize,
    fresh: PartWindow,
    w: &PartWindow,
    complete: bool,
    watermark: u64,
    in_flight: usize,
)
    requires
        call_ensures(PartWindow::new, (start_offset, chunk, total, max_in_flight), fresh),
        call_ensures(PartWindow::is_complete, (w,), complete),
        call_ensures(PartWindow::watermark, (w,), watermark),
        call_ensures(PartWindow::in_flight, (w,), in_flight),
    ensures
        fresh@.in_flight == 0,
        fresh@.total == total,
        fresh@.completed == Set::<u64>::empty(),
        fresh@.next_dispatch == fresh@.watermark,
        start_offset <= total ==> fresh@.watermark == start_offset,
        start_offset > total ==> fresh@.watermark == total,
        fresh@.chunk == if chunk == 0 {
            1
        } else {
            chunk as int
        },
        fresh@.max_in_flight == if max_in_flight == 0 {
            1
        } else {
            max_in_flight as int
        },
        watermark == w@.watermark,
        in_flight == w@.in_flight,
        complete <==> w@.watermark >= w@.total && w@.in_flight == 0,
{
}

/// Parts that all settled without adding up fail the transfer, with how far the
/// prefix came.
pub proof fn law_unfinished_transfers_say_how_far(
    v: ParallelView,
    reports: Seq<ReportView>,
    token_cancelled: bool,
)
    requires
        v.failed is None,
        !v.cancelled,
        !token_cancelled,
        v.window.watermark < v.window.total || v.window.in_flight > 0,
    ensures
        ({
            let t = exec_parallel::settle_turn(v, reports, token_cancelled);
            &&& t.action is Stop
            &&& t.reports.len() == reports.len() + 1
            &&& t.reports.last() == (ReportView::Failed {
                error: StatusView::Failed {
                    code: InnerErrorCode::Unknown,
                    msg: "internal: complete fired before contiguous prefix reached total (watermark="@
                        + text::decimal(v.window.watermark as nat) + ", total="@ + text::decimal(
                        v.total as nat,
                    ) + ")"@,
                    http_status: None,
                },
                total_size: v.total,
            })
        }),
{
}

/// A worker on several parts begins where bytes are missing: with as many parts
/// as the window takes, the first at that offset. With nothing missing a
/// download is completed by its request and an upload at once.
pub proof fn law_parallel_workers_begin(
    direction: Direction,
    start_offset: u64,
    chunk_size: u64,
    total: u64,
    max_parts: usize,
    run: ParallelRun,
    turn: ParallelTurn,
)
    requires
        call_ensures(
            ParallelRun::start,
            (direction, start_offset, chunk_size, total, max_parts),
            (run, turn),
        ),
    ensures
        start_offset < total ==> turn.action is WaitForPart && turn.reports@.len() == 0
            && turn.dispatch@.len() > 0 && turn.dispatch@[0] == start_offset,
        start_offset >= total ==> turn.dispatch@.len() == 0,
        start_offset >= total && direction == Direction::Download ==> turn.action is Complete
            && turn.reports@.len() == 0,
        start_offset >= total && direction == Direction::Upload ==> turn.action is Stop
            && turn.reports@.len() == 1 && turn.reports@[0] is Completed
            && turn.reports@[0]->Completed_total_size == total,
        run@.total == total,
        run@.direction == direction,
        run@.failed is None,
        !run@.cancelled,
{
    let w = PartWindowView::fresh(
        start_offset as int,
        chunk_size as int,
        total as int,
        max_parts as int,
    );
    assert(exec::report_views(turn.reports@).len() == turn.reports@.len());
    if turn.reports@.len() > 0 {
        law_reports_keep_their_order(turn.reports@, 0);
        law_report_values_lose_nothing(turn.reports@[0]);
    }
    if start_offset < total {
        assert(w.can_dispatch());
        assert(exec_parallel::fill_offsets(w)[0] == start_offset);
    }
}

/// A part that panicked fails the transfer and has the others abandoned.
pub proof fn law_panicked_parts_fail_the_transfer(
    run: &mut ParallelRun,
    text: &str,
    turn: ParallelTurn,
)
    requires
        call_ensures(ParallelRun::on_part_panicked, (run, text), turn),
    ensures
        turn.action is AbandonParts,
        turn.dispatch@.len() == 0,
        turn.reports@.len() == 1,
        turn.reports@[0] is Failed,
        turn.reports@[0]->error.code == InnerErrorCode::Unknown,
        turn.reports@[0]->error.msg@ == "upload part task panicked: "@ + text@,
        turn.reports@[0]->Failed_total_size == old(run)@.total,
{
    assert(exec::report_views(turn.reports@).len() == turn.reports@.len());
    law_reports_keep_their_order(turn.reports@, 0);
    law_report_values_lose_nothing(turn.reports@[0]);
}

/// A delay that is drawn by chance lies within a fifth of its base, too.
pub proof fn law_drawn_delays_are_near_their_base(attempt: u32, delay: u64)
    requires
        call_ensures(retry::calc_backoff_with_jitter_ms, (attempt,), delay),
    ensures
        attempt == 0 ==> 160 <= delay <= 240,
        attempt == 1 ==> 320 <= delay <= 480,
        attempt == 2 ==> 640 <= delay <= 960,
        attempt == 3 ==> 1280 <= delay <= 1920,
        attempt == 4 ==> 2560 <= delay <= 3840,
        attempt >= 5 ==> 4000 <= delay <= 6000,
{
    let random = choose|random: u64|
        delay == retry::backoff_ms(attempt as nat) * #[trigger] retry::jitter_percent(
            random as nat,
        ) / 100;
    law_delays_double(attempt as nat, random as nat);
    law_delays_double(0, random as nat);
    law_delays_double(1, random as nat);
    law_delays_double(2, random as nat);
    law_delays_double(3, random as nat);
    let d = retry::backoff_ms(attempt as nat);
    let p = retry::jitter_percent(random as nat);
    assert(d * 80 <= d * p <= d * 120) by (nonlinear_arith)
        requires
            80 <= p <= 120,
            d >= 0,
    ;
}

/// A window of parts that is refused says why: chunks without a size, more
/// parts at a time than there may be, or more bytes.
pub proof fn law_refused_windows_say_why(
    max_parts: usize,
    chunk_size: u64,
    remaining: u64,
    parts: int,
    result: Result<(), MeowError>,
)
    requires
        chunk_size > 0 && remaining > 0 ==> (parts - 1) * chunk_size < remaining <= parts
            * chunk_size,
        call_ensures(
            exec::validate_parallel_part_window,
            (max_parts, chunk_size, remaining),
            result,
        ),
    ensures
        result matches Err(e) ==> e.code == InnerErrorCode::IoError,
        remaining == 0 ==> result is Ok,
        remaining > 0 && chunk_size == 0 ==> result is Err && result->Err_0.msg@
            == "parallel part count overflow or zero chunk size"@,
        remaining > 0 && chunk_size > 0 ==> {
            let asked = if max_parts >= 1 {
                max_parts as int
            } else {
                1
            };
            let under_way = if asked <= parts {
                asked
            } else {
                parts
            };
            let bytes = under_way * if remaining <= chunk_size {
                remaining as int
            } else {
                chunk_size as int
            };
            &&& under_way > 256 ==> result is Err && result->Err_0.msg@
                == "parallel part window exceeds task limit: requested="@ + text::decimal(
                under_way as nat,
            ) + " limit="@ + text::decimal(256)
            &&& under_way <= 256 && bytes > 536870912 ==> result is Err && result->Err_0.msg@
                == "parallel part window exceeds memory limit: requested="@ + text::decimal(
                bytes as nat,
            ) + " limit="@ + text::decimal(536870912)
            &&& under_way <= 256 && bytes <= 536870912 ==> result is Ok
        },
{
    if remaining > 0 && chunk_size > 0 {
        let r = remaining as int;
        let c = chunk_size as int;
        let q = (r - 1) / c;
        vstd::arithmetic::div_mod::lemma_fundamental_div_mod(r - 1, c);
        vstd::arithmetic::div_mod::lemma_mod_bound(r - 1, c);
        vstd::arithmetic::mul::lemma_mul_is_commutative(q, c);
        assert(q == parts - 1) by (nonlinear_arith)
            requires
                c > 0,
                (parts - 1) * c <= r - 1 < parts * c,
                q * c <= r - 1 < q * c + c,
        ;
    }
}

} // verus!
