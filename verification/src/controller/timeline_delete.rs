//! Deleting a timeline. A pageserver first answers that the deletion is accepted, and once
//! it is done that there is no such timeline. Asking again until then exposes a simpler API
//! upstream.

use vstd::prelude::*;

use crate::controller::status::{invalid_status, is_status, map_reqwest_hyper_status, StatusCode};
use crate::error::{ApiError, ApiErrorView};

verus! {

/// To keep deletion reasonably snappy for small tenants, initially check after 1 second if
/// deletion completed.
pub const FIRST_RETRY_SECS: u64 = 1;

/// On subsequent retries, wait longer.
pub const MAX_RETRY_SECS: u64 = 5;

/// Enable callers with a 30 second request timeout to reliably get a response.
pub const MAX_WAIT_SECS: u64 = 25;

/// How many nanoseconds a second has.
pub const NANOS_PER_SEC: u128 = 1_000_000_000;

/// Waits for what the pageservers say.
#[derive(Debug)]
pub struct Asking {
    retry_secs: u64,
}

/// Waits until it is time to ask again.
#[derive(Debug)]
pub struct Sleeping;

/// What deleting a timeline needs next.
#[derive(Debug)]
pub enum DeletionNext {
    /// To ask the pageservers to delete the timeline.
    Ask(Asking),
    /// To sleep.
    Sleep { secs: u64, sleeping: Sleeping },
    /// To respond.
    Respond(Result<StatusCode, ApiError>),
}

/// A `DeletionNext`, as plain values.
pub enum DeletionView {
    Ask { retry_secs: u64 },
    Sleep { secs: u64 },
    Respond(Result<u16, ApiErrorView>),
}

impl View for DeletionNext {
    type V = DeletionView;

    open spec fn view(&self) -> DeletionView {
        match *self {
            DeletionNext::Ask(asking) => DeletionView::Ask {
                retry_secs: asking.spec_retry_secs(),
            },
            DeletionNext::Sleep { secs, .. } => DeletionView::Sleep { secs },
            DeletionNext::Respond(Ok(status)) => DeletionView::Respond(Ok(status.spec_code())),
            DeletionNext::Respond(Err(e)) => DeletionView::Respond(Err(e@)),
        }
    }
}

/// What follows the pageservers' answer.
pub open spec fn after_answer(retry_secs: u64, answer: Result<u16, ApiErrorView>) -> DeletionView {
    match answer {
        Err(e) => DeletionView::Respond(Err(e)),
        Ok(status) => if !is_status(status) {
            DeletionView::Respond(Err(invalid_status()))
        } else if status == 202 {
            DeletionView::Sleep { secs: retry_secs }
        } else if status == 404 {
            DeletionView::Respond(Ok(200))
        } else {
            DeletionView::Respond(Ok(status))
        },
    }
}

/// What follows a sleep, so many nanoseconds after the request came in: there has to be time
/// left for another.
pub open spec fn after_sleep(elapsed_nanos: nat) -> DeletionView {
    if elapsed_nanos + MAX_RETRY_SECS * NANOS_PER_SEC > MAX_WAIT_SECS * NANOS_PER_SEC {
        DeletionView::Respond(Ok(409))
    } else {
        DeletionView::Ask { retry_secs: MAX_RETRY_SECS }
    }
}

/// The answer that is given as a plain value.
pub open spec fn answer_view(answer: Result<u16, ApiError>) -> Result<u16, ApiErrorView> {
    match answer {
        Ok(status) => Ok(status),
        Err(e) => Err(e@),
    }
}

/// Begins to delete a timeline.
pub fn handle_tenant_timeline_delete() -> (r: DeletionNext)
    ensures
        r@ == (DeletionView::Ask { retry_secs: FIRST_RETRY_SECS }),
{
    DeletionNext::Ask(Asking { retry_secs: FIRST_RETRY_SECS })
}

impl Asking {
    /// How long to sleep if the deletion goes on.
    pub closed spec fn spec_retry_secs(self) -> u64 {
        self.retry_secs
    }

    /// Takes the pageservers' answer.
    pub fn answered(self, answer: Result<u16, ApiError>) -> (r: DeletionNext)
        ensures
            r@ == after_answer(self.spec_retry_secs(), answer_view(answer)),
    {
        let status = match answer {
            Err(e) => {
                return DeletionNext::Respond(Err(e));
            },
            Ok(status) => match map_reqwest_hyper_status(status) {
                Err(e) => {
                    return DeletionNext::Respond(Err(e));
                },
                Ok(status) => status,
            },
        };
        match status.as_u16() {
            202 => DeletionNext::Sleep { secs: self.retry_secs, sleeping: Sleeping },
            404 => DeletionNext::Respond(Ok(StatusCode::ok())),
            _ => DeletionNext::Respond(Ok(status)),
        }
    }
}

impl Sleeping {
    /// Goes on after the sleep, so many nanoseconds after the request came in.
    ///
    /// REQUEST_TIMEOUT would be more appropriate than CONFLICT, but CONFLICT is already part
    /// of the pageserver's swagger definition for this endpoint, and has the same desired
    /// effect of causing the control plane to retry later.
    pub fn woke(self, elapsed_nanos: u128) -> (r: DeletionNext)
        ensures
            r@ == after_sleep(elapsed_nanos as nat),
    {
        if elapsed_nanos > 20_000_000_000u128 {
            DeletionNext::Respond(Ok(StatusCode::conflict()))
        } else {
            DeletionNext::Ask(Asking { retry_secs: MAX_RETRY_SECS })
        }
    }
}

// ---------------------------------------------------------------------------
// Laws
// ---------------------------------------------------------------------------

/// How long the sleep after question number `k` is.
pub open spec fn sleep_secs(k: nat) -> u64 {
    if k == 0 {
        FIRST_RETRY_SECS
    } else {
        MAX_RETRY_SECS
    }
}

/// A question to the pageservers: how it is answered, and how many nanoseconds that takes.
pub struct Question {
    pub answer: Result<u16, ApiErrorView>,
    pub took: nat,
}

/// What a deletion comes to from question number `k` on, which is asked `now` nanoseconds
/// after the request came in, and when it does. The sleep after question `j` takes
/// `sleeps[j]` nanoseconds. `None` stands for a deletion that goes on.
pub open spec fn deletion_run(
    k: nat,
    now: nat,
    questions: Seq<Question>,
    sleeps: Seq<nat>,
) -> Option<(Result<u16, ApiErrorView>, nat)>
    decreases questions.len() - k,
{
    if k >= questions.len() || k >= sleeps.len() {
        None
    } else {
        let answered = now + questions[k as int].took;
        match after_answer(sleep_secs(k), questions[k as int].answer) {
            DeletionView::Respond(outcome) => Some((outcome, answered)),
            DeletionView::Ask { .. } => None,
            DeletionView::Sleep { .. } => {
                let woke = answered + sleeps[k as int];
                match after_sleep(woke) {
                    DeletionView::Respond(outcome) => Some((outcome, woke)),
                    DeletionView::Sleep { .. } => None,
                    DeletionView::Ask { .. } => deletion_run(k + 1, woke, questions, sleeps),
                }
            },
        }
    }
}

/// How many nanoseconds the sleep after question number `k` is meant to take.
pub open spec fn sleep_nanos(k: nat) -> nat {
    (sleep_secs(k) * NANOS_PER_SEC) as nat
}

proof fn lemma_deletion_ends(k: nat, now: nat, questions: Seq<Question>, sleeps: Seq<nat>)
    requires
        k < 5,
        questions.len() == 5,
        sleeps.len() == 5,
        forall|j: int| 0 <= j < 5 ==> #[trigger] sleeps[j] >= sleep_nanos(j as nat),
        k > 0 ==> now >= (FIRST_RETRY_SECS + MAX_RETRY_SECS * (k - 1)) * NANOS_PER_SEC,
    ensures
        deletion_run(k, now, questions, sleeps) is Some,
    decreases 5 - k,
{
    assert(sleeps[k as int] >= sleep_nanos(k));
    if k < 4 {
        let woke = now + questions[k as int].took + sleeps[k as int];
        lemma_deletion_ends(k + 1, woke, questions, sleeps);
    }
}

/// A deletion is always answered, after at most five questions, as long as no sleep ends
/// early.
pub proof fn law_deletion_ends(questions: Seq<Question>, sleeps: Seq<nat>)
    requires
        questions.len() == 5,
        sleeps.len() == 5,
        forall|j: int| 0 <= j < 5 ==> #[trigger] sleeps[j] >= sleep_nanos(j as nat),
    ensures
        deletion_run(0, 0, questions, sleeps) is Some,
{
    lemma_deletion_ends(0, 0, questions, sleeps);
}

proof fn lemma_deletion_in_time(
    k: nat,
    now: nat,
    questions: Seq<Question>,
    sleeps: Seq<nat>,
    longest: nat,
    late: nat,
)
    requires
        forall|j: int| 0 <= j < questions.len() ==> (#[trigger] questions[j]).took <= longest,
        forall|j: int| 0 <= j < sleeps.len() ==> #[trigger] sleeps[j] <= sleep_nanos(j as nat) + late,
        now <= (MAX_WAIT_SECS - MAX_RETRY_SECS) * NANOS_PER_SEC,
    ensures
        deletion_run(k, now, questions, sleeps) matches Some((_, at)) ==> at <= MAX_WAIT_SECS
            * NANOS_PER_SEC + longest + late,
    decreases questions.len() - k,
{
    if k < questions.len() && k < sleeps.len() {
        assert(questions[k as int].took <= longest);
        assert(sleeps[k as int] <= sleep_nanos(k) + late);
        let woke = now + questions[k as int].took + sleeps[k as int];
        if after_sleep(woke) is Ask {
            lemma_deletion_in_time(k + 1, woke, questions, sleeps, longest, late);
        }
    }
}

/// A deletion is answered in time: no later than the longest wait, and what one question takes
/// and one sleep is late. So callers with a timeout that leaves that much on top get a response.
pub proof fn law_deletion_in_time(
    questions: Seq<Question>,
    sleeps: Seq<nat>,
    longest: nat,
    late: nat,
)
    requires
        forall|j: int| 0 <= j < questions.len() ==> (#[trigger] questions[j]).took <= longest,
        forall|j: int| 0 <= j < sleeps.len() ==> #[trigger] sleeps[j] <= sleep_nanos(j as nat) + late,
    ensures
        deletion_run(0, 0, questions, sleeps) matches Some((_, at)) ==> at <= MAX_WAIT_SECS
            * NANOS_PER_SEC + longest + late,
{
    lemma_deletion_in_time(0, 0, questions, sleeps, longest, late);
}

/// No sleep is begun that would end later than the longest wait, if sleeps last as long as
/// they are meant to.
pub proof fn law_sleep_within_wait(elapsed_nanos: nat)
    ensures
        after_sleep(elapsed_nanos) matches DeletionView::Ask { retry_secs } ==> elapsed_nanos
            + retry_secs * NANOS_PER_SEC <= MAX_WAIT_SECS * NANOS_PER_SEC,
        FIRST_RETRY_SECS <= MAX_WAIT_SECS,
{
}

/// A timeline that is gone is a success, a deletion that goes on is waited for, and any other
/// status is passed on as it is.
pub proof fn law_deletion_statuses(retry_secs: u64, status: u16)
    requires
        is_status(status),
    ensures
        status == 404 ==> after_answer(retry_secs, Ok(status)) == DeletionView::Respond(Ok(200)),
        after_answer(retry_secs, Ok(status)) is Sleep <==> status == 202,
        status != 404 && status != 202 ==> after_answer(retry_secs, Ok(status))
            == DeletionView::Respond(Ok(status)),
{
}

/// The times of a deletion: the first sleep takes one second and every later one five, and the
/// pageservers are asked again after a sleep exactly as long as no more than twenty seconds have
/// passed, so that another sleep ends within twenty-five. Else the answer is a conflict.
pub proof fn law_deletion_times(k: nat, elapsed_nanos: nat)
    ensures
        sleep_secs(0) == 1,
        k > 0 ==> sleep_secs(k) == 5,
        after_sleep(elapsed_nanos) is Ask <==> elapsed_nanos <= 20_000_000_000,
        after_sleep(elapsed_nanos) is Ask ==> after_sleep(elapsed_nanos)->retry_secs == 5,
        elapsed_nanos > 20_000_000_000 ==> after_sleep(elapsed_nanos) == DeletionView::Respond(
            Ok(409),
        ),
        FIRST_RETRY_SECS == 1,
        MAX_RETRY_SECS == 5,
        MAX_WAIT_SECS == 25,
{
}

/// What the pageservers answer decides: 202 has the deletion wait for as long as was meant,
/// 404 is a success, any other status from 100 to 999 is passed on, any other number is an
/// internal error, and an error is passed on.
pub proof fn law_deletion_answers(retry_secs: u64, status: u16, e: ApiErrorView)
    ensures
        after_answer(retry_secs, Ok(202)) == (DeletionView::Sleep { secs: retry_secs }),
        after_answer(retry_secs, Ok(404)) == DeletionView::Respond(Ok(200)),
        100 <= status <= 999 && status != 202 && status != 404 ==> after_answer(
            retry_secs,
            Ok(status),
        ) == DeletionView::Respond(Ok(status)),
        status < 100 || status > 999 ==> (after_answer(retry_secs, Ok(status)) matches
            DeletionView::Respond(Err(ApiErrorView::InternalServerError(_)))),
        after_answer(retry_secs, Err(e)) == DeletionView::Respond(Err(e)),
{
}

} // verus!
