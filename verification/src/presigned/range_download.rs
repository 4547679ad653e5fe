//! Downloads by ranges over URLs that a server signed.

use vstd::prelude::*;
use vstd::string::*;

use reqwest::header::{HeaderMap, HeaderValue};

use crate::error;
use crate::error::{InnerErrorCode, MeowError};
use crate::headers;
use crate::headers::{full_map_error, header_map_contains, header_map_insert, header_map_keys_len, invalid_value_text, merge_headers, parse_header_value, MAX_HEADER_NAMES};
use crate::log;
use crate::presigned::range_download_plan;
use crate::presigned::range_download_plan::PresignedRangeDownloadPlan;
use crate::presigned::time;
use crate::presigned::time::{due, law_due_covers_expiry, now_unix_secs};
use crate::text;
use crate::text::push_decimal;

verus! {

// ---------------------------------------------------------------------------
// Renewals under way
// ---------------------------------------------------------------------------

/// The downloads whose URL is being renewed on one thread, the innermost last.
/// Renewing may lead to renewing another download, but never the same again.
#[derive(Debug)]
pub struct ActiveRefreshes {
    keys: Vec<u64>,
}

/// Where a key stands last in a list.
pub open spec fn last_place(keys: Seq<u64>, key: u64, at: int) -> bool {
    &&& 0 <= at < keys.len()
    &&& keys[at] == key
    &&& forall|i: int| at < i < keys.len() ==> keys[i] != key
}

/// The refusal of a renewal that leads back to itself.
pub open spec fn refused_reentry<T>(result: Result<T, MeowError>) -> bool {
    error::fails_with(
        result,
        InnerErrorCode::InvalidTaskState,
        "presigned range URL refresher re-entered the same download"@,
    )
}

impl View for ActiveRefreshes {
    type V = Seq<u64>;

    closed spec fn view(&self) -> Seq<u64> {
        self.keys@
    }
}

impl ActiveRefreshes {
    pub fn new() -> (active: ActiveRefreshes)
        ensures
            active@ == Seq::<u64>::empty(),
    {
        ActiveRefreshes { keys: Vec::new() }
    }

    pub fn contains(&self, key: u64) -> (contains: bool)
        ensures
            contains == self@.contains(key),
    {
        let mut i: usize = 0;
        while i < self.keys.len()
            invariant
                i <= self.keys@.len(),
                forall|j: int| 0 <= j < i ==> self.keys@[j] != key,
            decreases self.keys@.len() - i,
        {
            if self.keys[i] == key {
                assert(self.keys@[i as int] == key);
                return true;
            }
            i += 1;
        }
        false
    }

    /// A renewal begins. One of the same download must not be under way.
    pub fn enter(&mut self, key: u64) -> (result: Result<(), MeowError>)
        ensures
            result is Ok <==> !old(self)@.contains(key),
            result is Ok ==> final(self)@ == old(self)@.push(key),
            result is Err ==> final(self)@ == old(self)@ && refused_reentry(result),
    {
        if self.contains(key) {
            return Err(
                MeowError::from_code_str(
                    InnerErrorCode::InvalidTaskState,
                    "presigned range URL refresher re-entered the same download",
                ),
            );
        }
        self.keys.push(key);
        Ok(())
    }

    /// A renewal ends.
    pub fn leave(&mut self, key: u64)
        ensures
            old(self)@.contains(key) ==> exists|at: int| #[trigger]
                last_place(old(self)@, key, at) && final(self)@ == old(self)@.remove(at),
            !old(self)@.contains(key) ==> final(self)@ == old(self)@,
    {
        let mut i: usize = self.keys.len();
        while i > 0
            invariant
                *self == *old(self),
                i <= self.keys@.len(),
                forall|j: int| i <= j < self.keys@.len() ==> self.keys@[j] != key,
            decreases i,
        {
            i -= 1;
            if self.keys[i] == key {
                assert(last_place(old(self)@, key, i as int));
                self.keys.remove(i);
                return ;
            }
        }
    }
}

/// Leaving undoes entering.
pub proof fn law_leave_undoes_enter(keys: Seq<u64>, key: u64, at: int)
    requires
        last_place(keys.push(key), key, at),
    ensures
        keys.push(key).remove(at) == keys,
{
    if at < keys.len() {
        assert(keys.push(key)[keys.len() as int] == key);
    }
    assert(keys.push(key).remove(at) =~= keys);
}

// ---------------------------------------------------------------------------
// The plan and its renewal
// ---------------------------------------------------------------------------

/// A download by ranges with its current plan.
pub struct PresignedRangeDownload {
    /// What tells this download from others.
    key: u64,
    plan: PresignedRangeDownloadPlan,
}

/// What to do before a plan is used.
#[derive(Debug, Clone, Copy, PartialEq, Eq, Structural)]
pub enum Freshness {
    /// Use it as it is.
    Fresh,
    /// Renew it first.
    Stale,
}

/// What came of asking for a fresh plan.
pub enum RefreshOutcome {
    Refreshed(PresignedRangeDownloadPlan),
    Failed(MeowError),
    Panicked,
}

/// Whether `result` is what the plan calls for, with two readings of the clock:
/// one that is about to expire is renewed where that is possible, unless this
/// very renewal is under way; without that one that has expired is an error. A
/// clock that cannot be read is an error where its reading decides: the first
/// for every URL that expires, the second only for one that is about to and
/// cannot be renewed.
pub open spec fn is_freshness(
    plan: PresignedRangeDownloadPlan,
    has_refresher: bool,
    under_way: bool,
    first: Result<u64, MeowError>,
    second: Result<u64, MeowError>,
    result: Result<Freshness, MeowError>,
) -> bool {
    if plan.range_expires_at_unix_secs is None {
        result == Ok::<Freshness, MeowError>(Freshness::Fresh)
    } else if first is Err {
        result == Err::<Freshness, MeowError>(first->Err_0)
    } else if !time::is_due(
        plan.range_expires_at_unix_secs,
        plan.refresh_before_secs,
        first->Ok_0,
    ) {
        result == Ok::<Freshness, MeowError>(Freshness::Fresh)
    } else if !has_refresher {
        if second is Err {
            result == Err::<Freshness, MeowError>(second->Err_0)
        } else if time::is_due(plan.range_expires_at_unix_secs, 0, second->Ok_0) {
            error::fails_with(
                result,
                InnerErrorCode::InvalidTaskState,
                "presigned range URL expired and no refresher is configured"@,
            )
        } else {
            result == Ok::<Freshness, MeowError>(Freshness::Fresh)
        }
    } else if under_way {
        refused_reentry(result)
    } else {
        result == Ok::<Freshness, MeowError>(Freshness::Stale)
    }
}

/// Whether beginning a renewal leads from `before` to `after` and `result`, with
/// a reading of the clock: where the plan is not due any more, it was renewed
/// meanwhile and there is nothing left to do; a renewal that leads back to
/// itself is refused; any other is under way from now on.
pub open spec fn is_refresh_start(
    plan: PresignedRangeDownloadPlan,
    key: u64,
    before: Seq<u64>,
    now: Result<u64, MeowError>,
    after: Seq<u64>,
    result: Result<Freshness, MeowError>,
) -> bool {
    if plan.range_expires_at_unix_secs is None {
        result == Ok::<Freshness, MeowError>(Freshness::Fresh) && after == before
    } else if now is Err {
        result == Err::<Freshness, MeowError>(now->Err_0) && after == before
    } else if !time::is_due(plan.range_expires_at_unix_secs, plan.refresh_before_secs, now->Ok_0) {
        result == Ok::<Freshness, MeowError>(Freshness::Fresh) && after == before
    } else if before.contains(key) {
        refused_reentry(result) && after == before
    } else {
        result == Ok::<Freshness, MeowError>(Freshness::Stale) && after == before.push(key)
    }
}

/// The plan that takes the place of another: a size that the new one does not
/// give is kept.
pub open spec fn succeeding_plan(
    current: PresignedRangeDownloadPlan,
    fresh: PresignedRangeDownloadPlan,
) -> PresignedRangeDownloadPlan {
    PresignedRangeDownloadPlan {
        total_size: match fresh.total_size {
            Some(size) => Some(size),
            None => current.total_size,
        },
        ..fresh
    }
}

/// Whether two plans give different sizes.
pub open spec fn sizes_differ(
    a: PresignedRangeDownloadPlan,
    b: PresignedRangeDownloadPlan,
) -> bool {
    a.total_size is Some && b.total_size is Some && a.total_size != b.total_size
}

impl PresignedRangeDownload {
    pub closed spec fn spec_key(self) -> u64 {
        self.key
    }

    pub closed spec fn spec_plan(self) -> PresignedRangeDownloadPlan {
        self.plan
    }

    pub fn new(key: u64, plan: PresignedRangeDownloadPlan) -> (download: Self)
        ensures
            download.spec_key() == key,
            download.spec_plan() == plan,
    {
        PresignedRangeDownload { key, plan }
    }

    /// A copy of the current plan.
    pub fn plan(&self) -> (plan: PresignedRangeDownloadPlan)
        ensures
            range_download_plan::same_plan(plan, self.spec_plan()),
    {
        self.plan.clone()
    }

    /// What to do before the plan is used, with two readings of the clock.
    pub fn check_fresh_at(
        &self,
        has_refresher: bool,
        active: &ActiveRefreshes,
        first: Result<u64, MeowError>,
        second: Result<u64, MeowError>,
    ) -> (result: Result<Freshness, MeowError>)
        ensures
            is_freshness(
                self.spec_plan(),
                has_refresher,
                active@.contains(self.spec_key()),
                first,
                second,
                result,
            ),
    {
        if self.plan.range_expires_at_unix_secs.is_none() {
            return Ok(Freshness::Fresh);
        }
        let now: u64 = match first {
            Ok(now) => now,
            Err(e) => {
                return Err(e);
            },
        };
        if !due(self.plan.range_expires_at_unix_secs, self.plan.refresh_before_secs, now) {
            return Ok(Freshness::Fresh);
        }
        if !has_refresher {
            let later: u64 = match second {
                Ok(later) => later,
                Err(e) => {
                    return Err(e);
                },
            };
            if due(self.plan.range_expires_at_unix_secs, 0, later) {
                return Err(
                    MeowError::from_code_str(
                        InnerErrorCode::InvalidTaskState,
                        "presigned range URL expired and no refresher is configured",
                    ),
                );
            }
            return Ok(Freshness::Fresh);
        }
        if active.contains(self.key) {
            return Err(
                MeowError::from_code_str(
                    InnerErrorCode::InvalidTaskState,
                    "presigned range URL refresher re-entered the same download",
                ),
            );
        }
        Ok(Freshness::Stale)
    }

    /// What the clock shows where the plan makes it matter: the first reading of
    /// a URL that expires, and the second of one that is about to, unless the
    /// first alone decides.
    fn readings(&self, first_decides: bool) -> (readings: (
        Result<u64, MeowError>,
        Result<u64, MeowError>,
    ))
        ensures
            time::is_clock_answer(readings.0),
            time::is_clock_answer(readings.1),
    {
        let expires = self.plan.range_expires_at_unix_secs;
        let first: Result<u64, MeowError> = if expires.is_some() {
            now_unix_secs()
        } else {
            Ok(0)
        };
        let again = match &first {
            Ok(now) => !first_decides && due(expires, self.plan.refresh_before_secs, *now),
            Err(_) => false,
        };
        let second: Result<u64, MeowError> = if again {
            now_unix_secs()
        } else {
            Ok(0)
        };
        (first, second)
    }

    /// What to do now before the plan is used; see
    /// [`PresignedRangeDownload::check_fresh_at`]. The clock is read only for a
    /// URL that expires, and once more only for one that is about to and cannot
    /// be renewed.
    pub fn check_fresh(&self, has_refresher: bool, active: &ActiveRefreshes) -> (result: Result<
        Freshness,
        MeowError,
    >)
        ensures
            exists|first: Result<u64, MeowError>, second: Result<u64, MeowError>|
                time::is_clock_answer(first) && time::is_clock_answer(second)
                    && #[trigger] is_freshness(
                    self.spec_plan(),
                    has_refresher,
                    active@.contains(self.spec_key()),
                    first,
                    second,
                    result,
                ),
            self.spec_plan().range_expires_at_unix_secs is None ==> result == Ok::<
                Freshness,
                MeowError,
            >(Freshness::Fresh),
    {
        let (first, second) = self.readings(has_refresher);
        let result = self.check_fresh_at(has_refresher, active, first, second);
        assert(is_freshness(
            self.spec_plan(),
            has_refresher,
            active@.contains(self.spec_key()),
            first,
            second,
            result,
        ));
        result
    }

    /// Begins a renewal, once no other one of this download is under way, with a
    /// reading of the clock; see [`is_refresh_start`].
    pub fn begin_refresh_at(
        &self,
        active: &mut ActiveRefreshes,
        now: Result<u64, MeowError>,
    ) -> (result: Result<Freshness, MeowError>)
        ensures
            is_refresh_start(
                self.spec_plan(),
                self.spec_key(),
                old(active)@,
                now,
                final(active)@,
                result,
            ),
    {
        if self.plan.range_expires_at_unix_secs.is_none() {
            return Ok(Freshness::Fresh);
        }
        let now: u64 = match now {
            Ok(now) => now,
            Err(e) => {
                return Err(e);
            },
        };
        if !due(self.plan.range_expires_at_unix_secs, self.plan.refresh_before_secs, now) {
            return Ok(Freshness::Fresh);
        }
        match active.enter(self.key) {
            Ok(()) => Ok(Freshness::Stale),
            Err(e) => Err(e),
        }
    }

    /// Ends a renewal. The new plan takes the place of the old one, unless it
    /// gives another size; in every other case the old one stays.
    pub fn finish_refresh(
        &mut self,
        active: &mut ActiveRefreshes,
        outcome: RefreshOutcome,
    ) -> (result: Result<(), MeowError>)
        ensures
            final(self).spec_key() == old(self).spec_key(),
            old(active)@.contains(old(self).spec_key()) ==> exists|at: int| #[trigger]
                last_place(old(active)@, old(self).spec_key(), at) && final(active)@
                    == old(active)@.remove(at),
            match outcome {
                RefreshOutcome::Panicked => final(self).spec_plan() == old(self).spec_plan()
                    && error::fails_with(
                    result,
                    InnerErrorCode::InvalidTaskState,
                    "presigned range URL refresher panicked"@,
                ),
                RefreshOutcome::Failed(e) => final(self).spec_plan() == old(self).spec_plan()
                    && result == Err::<(), MeowError>(e),
                RefreshOutcome::Refreshed(plan) => if sizes_differ(old(self).spec_plan(), plan) {
                    final(self).spec_plan() == old(self).spec_plan() && error::fails_with(
                        result,
                        InnerErrorCode::InvalidTaskState,
                        size_mismatch_text(
                            old(self).spec_plan().total_size->Some_0,
                            plan.total_size->Some_0,
                        ),
                    )
                } else {
                    result is Ok && final(self).spec_plan() == succeeding_plan(
                        old(self).spec_plan(),
                        plan,
                    )
                },
            },
    {
        active.leave(self.key);
        let mut plan = match outcome {
            RefreshOutcome::Panicked => {
                return Err(
                    MeowError::from_code_str(
                        InnerErrorCode::InvalidTaskState,
                        "presigned range URL refresher panicked",
                    ),
                );
            },
            RefreshOutcome::Failed(e) => {
                return Err(e);
            },
            RefreshOutcome::Refreshed(plan) => plan,
        };
        match (self.plan.total_size, plan.total_size) {
            (Some(old_size), Some(new_size)) => {
                if old_size != new_size {
                    let mut text = "refreshed range total_size mismatch: old=".to_owned();
                    push_decimal(&mut text, old_size as u128);
                    text.append(" new=");
                    push_decimal(&mut text, new_size as u128);
                    return Err(MeowError::from_code(InnerErrorCode::InvalidTaskState, text));
                }
            },
            (_, None) => {
                plan.total_size = self.plan.total_size;
            },
            _ => {},
        }
        self.plan = plan;
        Ok(())
    }
}

/// Gets fresh plans. Applications implement it on top of the server that signs
/// their URLs.
pub trait PresignedDownloadUrlRefresher {
    /// A fresh plan for the same object.
    fn refresh_range_download(&self, plan: &PresignedRangeDownloadPlan) -> Result<
        PresignedRangeDownloadPlan,
        MeowError,
    >;
}

/// Whether a plan is handed out as it is.
pub open spec fn keeps_plan(
    plan: PresignedRangeDownloadPlan,
    after: PresignedRangeDownloadPlan,
    result: Result<PresignedRangeDownloadPlan, MeowError>,
) -> bool {
    after == plan && (result matches Ok(given) && range_download_plan::same_plan(given, plan))
}

/// What asking for a fresh plan leads to: a fresh plan takes the place of the
/// old one and is handed out, unless it gives another size; an error is handed
/// on, and a refresher that panicked is one.
pub open spec fn follows_outcome(
    plan: PresignedRangeDownloadPlan,
    outcome: RefreshOutcome,
    after: PresignedRangeDownloadPlan,
    result: Result<PresignedRangeDownloadPlan, MeowError>,
) -> bool {
    match outcome {
        RefreshOutcome::Panicked => after == plan && error::fails_with(
            result,
            InnerErrorCode::InvalidTaskState,
            "presigned range URL refresher panicked"@,
        ),
        RefreshOutcome::Failed(e) => after == plan && result == Err::<
            PresignedRangeDownloadPlan,
            MeowError,
        >(e),
        RefreshOutcome::Refreshed(fresh) => if sizes_differ(plan, fresh) {
            after == plan && error::fails_with(
                result,
                InnerErrorCode::InvalidTaskState,
                size_mismatch_text(plan.total_size->Some_0, fresh.total_size->Some_0),
            )
        } else {
            after == succeeding_plan(plan, fresh) && (result matches Ok(given)
                && range_download_plan::same_plan(given, after))
        },
    }
}

/// Whether the plan was asked about, and what came of it decides.
pub open spec fn renewed<F: Fn(&PresignedRangeDownloadPlan) -> RefreshOutcome>(
    ask: F,
    plan: PresignedRangeDownloadPlan,
    after: PresignedRangeDownloadPlan,
    result: Result<PresignedRangeDownloadPlan, MeowError>,
) -> bool {
    exists|outcome: RefreshOutcome| #[trigger]
        call_ensures(ask, (&plan,), outcome) && follows_outcome(plan, outcome, after, result)
}

/// Asks a refresher for a fresh plan. Whoever asks catches a panic, which is the
/// outcome that no call returns.
pub fn ask_refresher<R: PresignedDownloadUrlRefresher + ?Sized>(
    refresher: &R,
    plan: &PresignedRangeDownloadPlan,
) -> (outcome: RefreshOutcome)
    ensures
        exists|answer: Result<PresignedRangeDownloadPlan, MeowError>| #[trigger]
            call_ensures(R::refresh_range_download, (refresher, plan), answer) && outcome
                == match answer {
                Ok(fresh) => RefreshOutcome::Refreshed(fresh),
                Err(e) => RefreshOutcome::Failed(e),
            },
{
    let answer = refresher.refresh_range_download(plan);
    assert(call_ensures(R::refresh_range_download, (refresher, plan), answer));
    match answer {
        Ok(fresh) => RefreshOutcome::Refreshed(fresh),
        Err(e) => RefreshOutcome::Failed(e),
    }
}

/// Whether `after` and `result` are what making sure of a fresh plan leads to,
/// with two readings of the clock: a plan that is not due is kept; one that is
/// due is renewed where there is a refresher, unless this very renewal is under
/// way or the second reading finds it renewed; without a refresher it is kept
/// until it has expired. A clock that cannot be read is an error where its
/// reading decides.
pub open spec fn is_fresh_plan<F: Fn(&PresignedRangeDownloadPlan) -> RefreshOutcome>(
    plan: PresignedRangeDownloadPlan,
    ask: Option<&F>,
    under_way: bool,
    first: Result<u64, MeowError>,
    second: Result<u64, MeowError>,
    after: PresignedRangeDownloadPlan,
    result: Result<PresignedRangeDownloadPlan, MeowError>,
) -> bool {
    if plan.range_expires_at_unix_secs is None {
        keeps_plan(plan, after, result)
    } else if first is Err {
        after == plan && result == Err::<PresignedRangeDownloadPlan, MeowError>(first->Err_0)
    } else if !time::is_due(
        plan.range_expires_at_unix_secs,
        plan.refresh_before_secs,
        first->Ok_0,
    ) {
        keeps_plan(plan, after, result)
    } else if ask is Some && under_way {
        after == plan && refused_reentry(result)
    } else if second is Err {
        after == plan && result == Err::<PresignedRangeDownloadPlan, MeowError>(second->Err_0)
    } else {
        match ask {
            None => if time::is_due(plan.range_expires_at_unix_secs, 0, second->Ok_0) {
                after == plan && error::fails_with(
                    result,
                    InnerErrorCode::InvalidTaskState,
                    "presigned range URL expired and no refresher is configured"@,
                )
            } else {
                keeps_plan(plan, after, result)
            },
            Some(ask) => if time::is_due(
                plan.range_expires_at_unix_secs,
                plan.refresh_before_secs,
                second->Ok_0,
            ) {
                renewed(*ask, plan, after, result)
            } else {
                keeps_plan(plan, after, result)
            },
        }
    }
}

impl PresignedRangeDownload {
    /// Begins a renewal now; see [`PresignedRangeDownload::begin_refresh_at`].
    pub fn begin_refresh(&self, active: &mut ActiveRefreshes) -> (result: Result<
        Freshness,
        MeowError,
    >)
        ensures
            exists|now: Result<u64, MeowError>|
                time::is_clock_answer(now) && #[trigger] is_refresh_start(
                    self.spec_plan(),
                    self.spec_key(),
                    old(active)@,
                    now,
                    final(active)@,
                    result,
                ),
    {
        let (now, _) = self.readings(true);
        let result = self.begin_refresh_at(active, now);
        assert(is_refresh_start(
            self.spec_plan(),
            self.spec_key(),
            old(active)@,
            now,
            active@,
            result,
        ));
        result
    }

    /// A plan that can be used, with two readings of the clock: the current one,
    /// or a fresh one where it is about to expire; see [`is_fresh_plan`]. `ask`
    /// asks the refresher, see [`ask_refresher`], and tells where it panicked.
    /// Whatever comes of it, no renewal is left under way.
    pub fn ensure_fresh_plan_at<F: Fn(&PresignedRangeDownloadPlan) -> RefreshOutcome>(
        &mut self,
        ask: Option<&F>,
        active: &mut ActiveRefreshes,
        first: Result<u64, MeowError>,
        second: Result<u64, MeowError>,
    ) -> (result: Result<PresignedRangeDownloadPlan, MeowError>)
        requires
            ask matches Some(ask) ==> call_requires(*ask, (&old(self).spec_plan(),)),
        ensures
            final(self).spec_key() == old(self).spec_key(),
            final(active)@ == old(active)@,
            is_fresh_plan(
                old(self).spec_plan(),
                ask,
                old(active)@.contains(old(self).spec_key()),
                first,
                second,
                final(self).spec_plan(),
                result,
            ),
    {
        if self.plan.range_expires_at_unix_secs.is_none() {
            return Ok(self.plan.clone());
        }
        let now: u64 = match first {
            Ok(now) => now,
            Err(e) => {
                return Err(e);
            },
        };
        if !due(self.plan.range_expires_at_unix_secs, self.plan.refresh_before_secs, now) {
            return Ok(self.plan.clone());
        }
        if ask.is_some() && active.contains(self.key) {
            return Err(
                MeowError::from_code_str(
                    InnerErrorCode::InvalidTaskState,
                    "presigned range URL refresher re-entered the same download",
                ),
            );
        }
        let later: u64 = match second {
            Ok(later) => later,
            Err(e) => {
                return Err(e);
            },
        };
        let ask = match ask {
            Some(ask) => ask,
            None => {
                return match self.check_fresh_at(false, active, Ok(now), Ok(later)) {
                    Ok(_) => Ok(self.plan.clone()),
                    Err(e) => Err(e),
                };
            },
        };
        match self.begin_refresh_at(active, Ok(later)) {
            Ok(Freshness::Fresh) => {
                return Ok(self.plan.clone());
            },
            Ok(Freshness::Stale) => {},
            Err(e) => {
                return Err(e);
            },
        }
        let outcome = ask(&self.plan);
        assert(call_ensures(*ask, (&self.plan,), outcome));
        let ghost stack = active@;
        assert(stack[stack.len() - 1] == self.spec_key());
        assert(stack.contains(self.spec_key()));
        let finished = self.finish_refresh(active, outcome);
        proof {
            let at = choose|at: int| #[trigger]
                last_place(stack, self.spec_key(), at) && active@ == stack.remove(at);
            law_leave_undoes_enter(old(active)@, self.spec_key(), at);
        }
        match finished {
            Ok(()) => Ok(self.plan.clone()),
            Err(e) => Err(e),
        }
    }

    /// A plan that can be used now; see
    /// [`PresignedRangeDownload::ensure_fresh_plan_at`]. The clock is read only
    /// for a URL that expires, and once more only for one that is about to.
    pub fn ensure_fresh_plan<F: Fn(&PresignedRangeDownloadPlan) -> RefreshOutcome>(
        &mut self,
        ask: Option<&F>,
        active: &mut ActiveRefreshes,
    ) -> (result: Result<PresignedRangeDownloadPlan, MeowError>)
        requires
            ask matches Some(ask) ==> call_requires(*ask, (&old(self).spec_plan(),)),
        ensures
            final(self).spec_key() == old(self).spec_key(),
            final(active)@ == old(active)@,
            exists|first: Result<u64, MeowError>, second: Result<u64, MeowError>|
                time::is_clock_answer(first) && time::is_clock_answer(second) && #[trigger] is_fresh_plan(
                    old(self).spec_plan(),
                    ask,
                    old(active)@.contains(old(self).spec_key()),
                    first,
                    second,
                    final(self).spec_plan(),
                    result,
                ),
            result is Err ==> final(self).spec_plan() == old(self).spec_plan(),
            result matches Ok(plan) ==> range_download_plan::same_plan(plan, final(self).spec_plan()),
            old(self).spec_plan().range_expires_at_unix_secs is None ==> keeps_plan(
                old(self).spec_plan(),
                final(self).spec_plan(),
                result,
            ),
            final(self).spec_plan() == old(self).spec_plan() || (ask matches Some(ask)
                && !old(active)@.contains(old(self).spec_key()) && renewed(
                *ask,
                old(self).spec_plan(),
                final(self).spec_plan(),
                result,
            )),
            result is Ok && always_due(old(self).spec_plan(), 0) ==> ask is Some && !old(
                active,
            )@.contains(old(self).spec_key()),
            (result is Ok && always_due(
                old(self).spec_plan(),
                old(self).spec_plan().refresh_before_secs,
            )) ==> (ask matches Some(ask) ==> renewed(
                *ask,
                old(self).spec_plan(),
                final(self).spec_plan(),
                result,
            )),
    {
        let (first, second) = self.readings(false);
        let result = self.ensure_fresh_plan_at(ask, active, first, second);
        assert(is_fresh_plan(
            old(self).spec_plan(),
            ask,
            old(active)@.contains(old(self).spec_key()),
            first,
            second,
            self.spec_plan(),
            result,
        ));
        proof {
            let plan = old(self).spec_plan();
            let expires = plan.range_expires_at_unix_secs;
            let margin = plan.refresh_before_secs;
            let now = first->Ok_0;
            let later = second->Ok_0;
            law_due_covers_expiry(expires, margin, now, now);
            assert(always_due(plan, margin) ==> time::is_due(expires, margin, now)
                && time::is_due(expires, margin, later));
            assert(always_due(plan, 0) ==> time::is_due(expires, 0, now) && time::is_due(
                expires,
                0,
                later,
            ));
        }
        result
    }
}

/// Whether a plan is due, with a margin, whatever the clock shows.
pub open spec fn always_due(plan: PresignedRangeDownloadPlan, margin: u64) -> bool {
    forall|now: u64| #[trigger] time::is_due(plan.range_expires_at_unix_secs, margin, now)
}

/// What is said of a fresh plan that gives another size.
pub open spec fn size_mismatch_text(old_size: u64, new_size: u64) -> Seq<char> {
    "refreshed range total_size mismatch: old="@ + text::decimal(old_size as nat) + " new="@
        + text::decimal(new_size as nat)
}

/// A renewal never forgets the size of the object, nor changes it.
pub proof fn law_refresh_keeps_the_size(
    current: PresignedRangeDownloadPlan,
    fresh: PresignedRangeDownloadPlan,
)
    requires
        !sizes_differ(current, fresh),
        current.total_size is Some,
    ensures
        succeeding_plan(current, fresh).total_size == current.total_size,
{
}

// ---------------------------------------------------------------------------
// Requests
// ---------------------------------------------------------------------------

/// Headers with a range, and with what is accepted where they do not say.
pub open spec fn ranged_headers(
    base: Map<Seq<char>, Seq<Seq<u8>>>,
    range: Seq<char>,
) -> Map<Seq<char>, Seq<Seq<u8>>> {
    let ranged = base.insert("range"@, seq![vstd::utf8::encode_utf8(range)]);
    if ranged.contains_key("accept"@) {
        ranged
    } else {
        ranged.insert("accept"@, seq![vstd::utf8::encode_utf8("application/octet-stream"@)])
    }
}

/// What is said of a range that cannot be a header.
pub open spec fn invalid_range_text(range: Seq<char>) -> Seq<char> {
    "invalid range header value '"@ + range + "': "@ + "failed to parse header value"@
}

/// How many names the headers of a request for a range can have at most.
pub open spec fn request_names(
    base: Map<Seq<char>, Seq<Seq<u8>>>,
    plan: PresignedRangeDownloadPlan,
) -> nat {
    base.dom().len() + headers::header_contents(plan.range_headers).dom().len() + 2
}

/// Whether `result` is the request for a range: URL and headers of one plan.
/// More than [`MAX_HEADER_NAMES`] names may be too many for a map.
pub open spec fn is_range_request(
    plan: PresignedRangeDownloadPlan,
    range: Seq<char>,
    base: Map<Seq<char>, Seq<Seq<u8>>>,
    result: Result<(String, HeaderMap<HeaderValue>), MeowError>,
) -> bool {
    if !headers::is_header_text(range) {
        error::fails_with(result, InnerErrorCode::ParameterEmpty, invalid_range_text(range))
    } else {
        match result {
            Ok((url, request)) => url@ == plan.range_url@ && headers::header_contents(request)
                == headers::merged_headers(
                ranged_headers(base, range),
                headers::header_contents(plan.range_headers),
            ),
            Err(e) => request_names(base, plan) > MAX_HEADER_NAMES && error::is_error(
                e,
                InnerErrorCode::ParameterEmpty,
                headers::full_map_text(),
            ),
        }
    }
}

proof fn lemma_request_names()
    ensures
        headers::is_stored_name("range"@),
        headers::is_stored_name("accept"@),
        headers::is_lower_name("accept"@),
        headers::is_header_text("application/octet-stream"@),
{
    reveal_strlit("range");
    reveal_strlit("accept");
    reveal_strlit("application/octet-stream");
    assert(log::lower_text("range"@) =~= "range"@);
    assert(log::lower_text("accept"@) =~= "accept"@);
}

impl PresignedRangeDownload {
    /// The URL and headers of a request for a range. The headers that the plan
    /// gives come last.
    pub fn range_request(&self, range_value: &str, base: HeaderMap<HeaderValue>) -> (result: Result<
        (String, HeaderMap<HeaderValue>),
        MeowError,
    >)
        ensures
            is_range_request(
                self.spec_plan(),
                range_value@,
                headers::header_contents(base),
                result,
            ),
    {
        proof {
            lemma_request_names();
        }
        let _ = header_map_keys_len(&base);
        let mut request = base;
        let value = match parse_header_value(range_value) {
            Ok(value) => value,
            Err(e) => {
                let mut text = "invalid range header value '".to_owned();
                text.append(range_value);
                text.append("': ");
                text.append(invalid_value_text(&e).as_str());
                return Err(MeowError::from_code(InnerErrorCode::ParameterEmpty, text));
            },
        };
        if !header_map_insert(&mut request, "range", value) {
            return Err(full_map_error());
        }
        if !header_map_contains(&request, "accept") {
            match parse_header_value("application/octet-stream") {
                Ok(value) => {
                    if !header_map_insert(&mut request, "accept", value) {
                        return Err(full_map_error());
                    }
                },
                Err(_) => {},
            }
        }
        if !merge_headers(&mut request, &self.plan.range_headers) {
            return Err(full_map_error());
        }
        Ok((self.plan.range_url.clone(), request))
    }

    /// Adds the plan's headers to a request for the size, and says whether there
    /// was room for them; see [`merge_headers`].
    pub fn merge_head_headers(&self, base: &mut HeaderMap<HeaderValue>) -> (merged: bool)
        ensures
            headers::header_contents(*old(base)).dom().len() + headers::header_contents(
                self.spec_plan().head_headers,
            ).dom().len() <= MAX_HEADER_NAMES ==> merged,
            headers::header_contents(*final(base)) == if merged {
                headers::merged_headers(
                    headers::header_contents(*old(base)),
                    headers::header_contents(self.spec_plan().head_headers),
                )
            } else {
                headers::header_contents(*old(base))
            },
    {
        merge_headers(base, &self.plan.head_headers)
    }

    /// The size of the object, where the plan gives it.
    pub fn total_size_hint(&self) -> (total_size: Option<u64>)
        ensures
            total_size == self.spec_plan().total_size,
    {
        self.plan.total_size
    }

    /// The URL of the request for the size: the plan's own, or the task's.
    pub fn head_url(&self, task_url: &str) -> (url: String)
        ensures
            url@ == match self.spec_plan().head_url {
                Some(url) => url@,
                None => task_url@,
            },
    {
        match &self.plan.head_url {
            Some(url) => url.clone(),
            None => task_url.to_owned(),
        }
    }

    /// The URL for ranges: the one that goes with the headers that were made
    /// last on this thread, or the plan's current one.
    pub fn range_url(&self, pending: &mut PendingRangeUrl) -> (url: String)
        ensures
            url@ == match old(pending).taken(self.spec_key()) {
                Some(url) => url,
                None => self.spec_plan().range_url@,
            },
            final(pending)@ == old(pending).left(self.spec_key()),
    {
        match pending.take(self.key) {
            Some(url) => url,
            None => self.plan.range_url.clone(),
        }
    }
}

/// The URL that goes with the headers that were made last, so that a renewal in
/// between cannot mix the headers of one plan with the URL of another.
#[derive(Debug)]
pub struct PendingRangeUrl {
    slot: Option<(u64, String)>,
}

impl View for PendingRangeUrl {
    type V = Option<(u64, Seq<char>)>;

    closed spec fn view(&self) -> Option<(u64, Seq<char>)> {
        match self.slot {
            Some((key, url)) => Some((key, url@)),
            None => None,
        }
    }
}

impl PendingRangeUrl {
    /// What a download finds.
    pub open spec fn taken(self, key: u64) -> Option<Seq<char>> {
        match self@ {
            Some((owner, url)) => if owner == key {
                Some(url)
            } else {
                None
            },
            None => None,
        }
    }

    /// What is left when a download has looked.
    pub open spec fn left(self, key: u64) -> Option<(u64, Seq<char>)> {
        if self.taken(key) is Some {
            None
        } else {
            self@
        }
    }

    pub fn new() -> (pending: PendingRangeUrl)
        ensures
            pending@ is None,
    {
        PendingRangeUrl { slot: None }
    }

    /// Remembers the URL of a download, in place of whatever was remembered.
    pub fn remember(&mut self, key: u64, url: String)
        ensures
            final(self)@ == Some((key, url@)),
    {
        self.slot = Some((key, url));
    }

    /// Hands out the URL of a download, once.
    pub fn take(&mut self, key: u64) -> (url: Option<String>)
        ensures
            match old(self).taken(key) {
                Some(found) => url matches Some(url) && url@ == found,
                None => url is None,
            },
            final(self)@ == old(self).left(key),
    {
        let own = match &self.slot {
            Some((owner, _)) => *owner == key,
            None => false,
        };
        if !own {
            return None;
        }
        match self.slot.take() {
            Some((_, url)) => Some(url),
            None => None,
        }
    }
}

} // verus!
