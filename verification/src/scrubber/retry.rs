//! Listing and downloading objects, with retries.
//!
//! Each operation is driven from outside: a trial says what to send, takes what came back
//! and says what follows.

use vstd::prelude::*;

use crate::error::{plain, Report, ReportView};
use crate::scrubber::config::with_context;
use crate::scrubber::target::S3Target;
use crate::text::{concat2, concat3, copy_of, decimal_string, decimal_text, owned};

verus! {

/// How often an operation is tried.
pub const MAX_RETRIES: usize = 20;

/// How long to wait between two trials.
pub const PAUSE_SECS: u64 = 1;

/// The outcome of the first trial, from `from` on, that decides; or of giving up.
pub open spec fn first_decided<A>(
    decide: spec_fn(nat) -> Option<A>,
    from: nat,
    give_up: A,
) -> A
    decreases MAX_RETRIES - from,
{
    if from >= MAX_RETRIES {
        give_up
    } else {
        match decide(from) {
            Some(outcome) => outcome,
            None => first_decided(decide, from + 1, give_up),
        }
    }
}

/// The first trial that decides has its way, if it is one of the first twenty.
pub proof fn lemma_decided<A>(decide: spec_fn(nat) -> Option<A>, from: nat, k: nat, give_up: A)
    requires
        from <= k < MAX_RETRIES,
        decide(k) is Some,
        forall|j: nat| from <= j < k ==> #[trigger] decide(j) is None,
    ensures
        first_decided(decide, from, give_up) == decide(k)->0,
    decreases k - from,
{
    if from < k {
        lemma_decided(decide, from + 1, k, give_up);
    }
}

/// Where no trial decides, the operation is given up.
pub proof fn lemma_given_up<A>(decide: spec_fn(nat) -> Option<A>, from: nat, give_up: A)
    requires
        from <= MAX_RETRIES,
        forall|j: nat| from <= j < MAX_RETRIES ==> #[trigger] decide(j) is None,
    ensures
        first_decided(decide, from, give_up) == give_up,
    decreases MAX_RETRIES - from,
{
    if from < MAX_RETRIES {
        lemma_given_up(decide, from + 1, give_up);
    }
}

// ---------------------------------------------------------------------------
// Listing
// ---------------------------------------------------------------------------

/// A request for one page of a listing.
#[derive(Debug)]
pub struct ListRequest {
    pub bucket: String,
    pub prefix: String,
    pub delimiter: String,
    pub continuation_token: Option<String>,
}

/// One trial of a listing.
#[derive(Debug)]
pub struct ListTrial {
    number: usize,
}

/// What follows a trial of a listing.
#[derive(Debug)]
pub enum ListNext<R> {
    /// To wait, and then to send the request again.
    Pause { secs: u64, trial: ListTrial },
    /// Nothing: this is the outcome.
    Done(Result<R, Report>),
}

/// A `ListNext`, with the trial by its number.
pub enum ListNextView<R> {
    Pause { secs: u64, trial: nat },
    Done(Result<R, ReportView>),
}

impl<R> View for ListNext<R> {
    type V = ListNextView<R>;

    open spec fn view(&self) -> ListNextView<R> {
        match *self {
            ListNext::Pause { secs, trial } => ListNextView::Pause {
                secs,
                trial: trial.spec_number(),
            },
            ListNext::Done(Ok(r)) => ListNextView::Done(Ok(r)),
            ListNext::Done(Err(e)) => ListNextView::Done(Err(e@)),
        }
    }
}

/// What is said of a listing that failed too often.
pub open spec fn list_failure(cause: Seq<char>) -> ReportView {
    with_context("Failed to list objects "@ + decimal_text(MAX_RETRIES as int) + " times"@, cause)
}

/// What follows trial `trial` of a listing: a failure is followed by another trial, but for
/// the last.
pub open spec fn after_list<R>(trial: nat, answer: Result<R, String>) -> ListNextView<R> {
    match answer {
        Ok(response) => ListNextView::Done(Ok(response)),
        Err(why) => if trial == MAX_RETRIES - 1 {
            ListNextView::Done(Err(list_failure(why@)))
        } else {
            ListNextView::Pause { secs: PAUSE_SECS, trial: trial + 1 }
        },
    }
}

impl ListTrial {
    #[verifier::type_invariant]
    spec fn wf(self) -> bool {
        self.number < MAX_RETRIES
    }

    /// The number of this trial, counted from zero.
    pub closed spec fn spec_number(self) -> nat {
        self.number as nat
    }

    /// Takes what came back.
    pub fn answered<R>(self, answer: Result<R, String>) -> (r: ListNext<R>)
        ensures
            r@ == after_list::<R>(self.spec_number(), answer),
            r matches ListNext::Pause { trial, .. } ==> trial.spec_number() < MAX_RETRIES,
    {
        proof {
            use_type_invariant(&self);
        }
        match answer {
            Ok(response) => ListNext::Done(Ok(response)),
            Err(why) => {
                if self.number == MAX_RETRIES - 1 {
                    let times = decimal_string(MAX_RETRIES as u64);
                    let message = concat3("Failed to list objects ", times.as_str(), " times");
                    return ListNext::Done(Err(Report { message, cause: Some(why) }));
                }
                ListNext::Pause { secs: PAUSE_SECS, trial: ListTrial { number: self.number + 1 } }
            },
        }
    }
}

/// Begins to list what is under a target: the request, which every trial sends, and the
/// first trial.
pub fn list_objects_with_retries(
    s3_target: &S3Target,
    continuation_token: &Option<String>,
) -> (r: (ListRequest, ListTrial))
    ensures
        r.0.bucket == s3_target.bucket_name,
        r.0.prefix == s3_target.prefix_in_bucket,
        r.0.delimiter == s3_target.delimiter,
        r.0.continuation_token == *continuation_token,
        r.1.spec_number() == 0,
{
    (
        ListRequest {
            bucket: s3_target.bucket_name.clone(),
            prefix: s3_target.prefix_in_bucket.clone(),
            delimiter: s3_target.delimiter.clone(),
            continuation_token: copy_of(continuation_token),
        },
        ListTrial { number: 0 },
    )
}

/// What a listing comes to from trial `trial` on, where trial `k` is answered `answers(k)`.
pub open spec fn list_run<R>(trial: nat, answers: spec_fn(nat) -> Result<R, String>) -> Result<
    R,
    ReportView,
>
    decreases MAX_RETRIES - trial,
{
    if trial >= MAX_RETRIES {
        arbitrary()
    } else {
        match after_list(trial, answers(trial)) {
            ListNextView::Done(outcome) => outcome,
            ListNextView::Pause { .. } => list_run(trial + 1, answers),
        }
    }
}

/// A listing gives the first answer that is no failure, if one of the first twenty is none;
/// else it fails with the cause of the last.
pub proof fn law_list<R>(answers: spec_fn(nat) -> Result<R, String>)
    ensures
        forall|k: nat|
            k < MAX_RETRIES && #[trigger] answers(k) is Ok && (forall|j: nat|
                j < k ==> #[trigger] answers(j) is Err) ==> list_run(0, answers) == Ok::<R, ReportView>(
                answers(k)->Ok_0,
            ),
        (forall|j: nat| j < MAX_RETRIES ==> #[trigger] answers(j) is Err) ==> list_run(0, answers)
            == Err::<R, ReportView>(list_failure(answers((MAX_RETRIES - 1) as nat)->Err_0@)),
{
    let decide = |t: nat|
        match after_list(t, answers(t)) {
            ListNextView::Done(outcome) => Some(outcome),
            ListNextView::Pause { .. } => None,
        };
    let last = (MAX_RETRIES - 1) as nat;
    lemma_list_run(0, answers);
    assert forall|k: nat|
        k < MAX_RETRIES && #[trigger] answers(k) is Ok && (forall|j: nat|
            j < k ==> #[trigger] answers(j) is Err) implies list_run(0, answers) == Ok::<R, ReportView>(
        answers(k)->Ok_0,
    ) by {
        assert forall|j: nat| 0 <= j < k implies #[trigger] decide(j) is None by {
            assert(answers(j) is Err);
        }
        lemma_decided(decide, 0, k, arbitrary());
    }
    if forall|j: nat| j < MAX_RETRIES ==> #[trigger] answers(j) is Err {
        assert forall|j: nat| 0 <= j < last implies #[trigger] decide(j) is None by {
            assert(answers(j) is Err);
        }
        assert(answers(last) is Err);
        lemma_decided(decide, 0, last, arbitrary());
    }
}

proof fn lemma_list_run<R>(trial: nat, answers: spec_fn(nat) -> Result<R, String>)
    ensures
        list_run(trial, answers) == first_decided(
            |t: nat|
                match after_list(t, answers(t)) {
                    ListNextView::Done(outcome) => Some(outcome),
                    ListNextView::Pause { .. } => None,
                },
            trial,
            arbitrary(),
        ),
    decreases MAX_RETRIES - trial,
{
    if trial < MAX_RETRIES {
        lemma_list_run(trial + 1, answers);
    }
}

// ---------------------------------------------------------------------------
// Downloading
// ---------------------------------------------------------------------------

/// A request for an object.
#[derive(Debug)]
pub struct GetRequest {
    pub bucket: String,
    pub key: String,
    pub version_id: Option<String>,
}

/// One trial of a download.
#[derive(Debug)]
pub struct DownloadTrial {
    number: usize,
}

/// A download that waits after a trial.
#[derive(Debug)]
pub struct DownloadPause {
    number: usize,
}

/// What follows a trial of a download.
#[derive(Debug)]
pub enum DownloadNext<B> {
    /// To wait.
    Pause { secs: u64, pause: DownloadPause },
    /// Nothing: this is what was downloaded.
    Done(B),
}

/// What follows a pause.
#[derive(Debug)]
pub enum Resumed {
    /// To try again.
    Again(DownloadTrial),
    /// Nothing: the download has failed too often.
    GiveUp(Report),
}

/// What follows a trial of a download: either the bytes, or a pause of so many seconds.
pub open spec fn after_trial<B>(answer: Result<B, String>) -> Result<B, u64> {
    match answer {
        Ok(body) => Ok(body),
        Err(_) => Err(PAUSE_SECS),
    }
}

/// What follows the pause after trial `trial` of a download: the number of the next trial,
/// or the end.
pub open spec fn after_pause(trial: nat, key: Seq<char>) -> Result<nat, ReportView> {
    if trial + 1 < MAX_RETRIES {
        Ok(trial + 1)
    } else {
        Err(download_failure(key))
    }
}

/// What is said of a download that failed too often.
pub open spec fn download_failure(key: Seq<char>) -> ReportView {
    plain(
        "Failed to download objects with key "@ + key + " "@ + decimal_text(MAX_RETRIES as int)
            + " times"@,
    )
}

fn download_failure_report(key: &str) -> (r: Report)
    ensures
        r@ == download_failure(key@),
{
    let times = decimal_string(MAX_RETRIES as u64);
    let head = concat3("Failed to download objects with key ", key, " ");
    Report::plain(concat3(head.as_str(), times.as_str(), " times"))
}

impl DownloadTrial {
    #[verifier::type_invariant]
    spec fn wf(self) -> bool {
        self.number < MAX_RETRIES
    }

    /// The number of this trial, counted from zero.
    pub closed spec fn spec_number(self) -> nat {
        self.number as nat
    }

    /// Takes what came back: all bytes of the object, or why there are none. The reason
    /// is of no consequence.
    pub fn answered<B>(self, answer: Result<B, String>) -> (r: DownloadNext<B>)
        ensures
            match r {
                DownloadNext::Done(body) => after_trial(answer) == Ok::<B, u64>(
                    body,
                ),
                DownloadNext::Pause { secs, pause } => {
                    &&& after_trial(answer) == Err::<B, u64>(secs)
                    &&& pause.spec_number() == self.spec_number()
                },
            },
            self.spec_number() < MAX_RETRIES,
    {
        proof {
            use_type_invariant(&self);
        }
        match answer {
            Ok(body) => DownloadNext::Done(body),
            Err(_) => DownloadNext::Pause {
                secs: PAUSE_SECS,
                pause: DownloadPause { number: self.number },
            },
        }
    }
}

impl DownloadPause {
    #[verifier::type_invariant]
    spec fn wf(self) -> bool {
        self.number < MAX_RETRIES
    }

    /// The number of the trial before this pause.
    pub closed spec fn spec_number(self) -> nat {
        self.number as nat
    }

    /// Goes on with the download of `key`.
    pub fn resume(self, key: &str) -> (r: Resumed)
        ensures
            after_pause(self.spec_number(), key@) == match r {
                Resumed::Again(trial) => Ok(trial.spec_number()),
                Resumed::GiveUp(report) => Err(report@),
            },
    {
        proof {
            use_type_invariant(&self);
        }
        if self.number + 1 < MAX_RETRIES {
            Resumed::Again(DownloadTrial { number: self.number + 1 })
        } else {
            Resumed::GiveUp(download_failure_report(key))
        }
    }
}

/// Begins to download an object: the request, which every trial sends, and the first trial.
pub fn download_object_with_retries(bucket_name: &str, key: &str) -> (r: (
    GetRequest,
    DownloadTrial,
))
    ensures
        r.0.bucket@ == bucket_name@,
        r.0.key@ == key@,
        r.0.version_id is None,
        r.1.spec_number() == 0,
{
    (
        GetRequest { bucket: owned(bucket_name), key: owned(key), version_id: None },
        DownloadTrial { number: 0 },
    )
}

/// What a download comes to from trial `trial` on, where trial `k` is answered
/// `answers(k)`.
pub open spec fn download_run<B>(
    key: Seq<char>,
    trial: nat,
    answers: spec_fn(nat) -> Result<B, String>,
) -> Result<B, ReportView>
    decreases MAX_RETRIES - trial,
{
    match after_trial(answers(trial)) {
        Ok(body) => Ok(body),
        Err(_) => match after_pause(trial, key) {
            Ok(next) => download_run(key, next, answers),
            Err(report) => Err(report),
        },
    }
}

proof fn lemma_download_run<B>(
    key: Seq<char>,
    trial: nat,
    answers: spec_fn(nat) -> Result<B, String>,
)
    requires
        trial < MAX_RETRIES,
    ensures
        download_run(key, trial, answers) == first_decided(
            |t: nat|
                match answers(t) {
                    Ok(body) => Some(Ok::<B, ReportView>(body)),
                    Err(_) => None,
                },
            trial,
            Err(download_failure(key)),
        ),
    decreases MAX_RETRIES - trial,
{
    reveal_with_fuel(first_decided, 2);
    if trial + 1 < MAX_RETRIES {
        lemma_download_run(key, trial + 1, answers);
    }
}

/// A download gives the first body that comes, if one of the first twenty trials gives one;
/// else it fails.
pub proof fn law_download<B>(key: Seq<char>, answers: spec_fn(nat) -> Result<B, String>)
    ensures
        forall|k: nat|
            k < MAX_RETRIES && #[trigger] answers(k) is Ok && (forall|j: nat|
                j < k ==> #[trigger] answers(j) is Err) ==> download_run(key, 0, answers) == Ok::<
                B,
                ReportView,
            >(answers(k)->Ok_0),
        (forall|j: nat| j < MAX_RETRIES ==> #[trigger] answers(j) is Err) ==> download_run(
            key,
            0,
            answers,
        ) == Err::<B, ReportView>(download_failure(key)),
{
    let decide = |t: nat|
        match answers(t) {
            Ok(body) => Some(Ok::<B, ReportView>(body)),
            Err(_) => None,
        };
    lemma_download_run(key, 0, answers);
    assert forall|k: nat|
        k < MAX_RETRIES && #[trigger] answers(k) is Ok && (forall|j: nat|
            j < k ==> #[trigger] answers(j) is Err) implies download_run(key, 0, answers) == Ok::<
        B,
        ReportView,
    >(answers(k)->Ok_0) by {
        assert forall|j: nat| 0 <= j < k implies #[trigger] decide(j) is None by {
            assert(answers(j) is Err);
        }
        lemma_decided(decide, 0, k, Err(download_failure(key)));
    }
    if forall|j: nat| j < MAX_RETRIES ==> #[trigger] answers(j) is Err {
        assert forall|j: nat| 0 <= j < MAX_RETRIES implies #[trigger] decide(j) is None by {
            assert(answers(j) is Err);
        }
        lemma_given_up(decide, 0, Err(download_failure(key)));
    }
}

// ---------------------------------------------------------------------------
// Downloading into a file
// ---------------------------------------------------------------------------

/// What became of removing a file.
#[derive(Debug)]
pub enum Removal {
    Removed,
    NotFound,
    Failed(String),
}

/// Waits for the temporary file to be removed.
#[derive(Debug)]
pub struct RemovingTmp {
    number: usize,
}

/// Waits for the temporary file to be created.
#[derive(Debug)]
pub struct CreatingTmp {
    number: usize,
}

/// Waits for the object to be served.
#[derive(Debug)]
pub struct Requesting {
    number: usize,
}

/// Waits for the object to be written into the temporary file.
#[derive(Debug)]
pub struct CopyingBody {
    number: usize,
}

/// Waits for the temporary file to be renamed.
#[derive(Debug)]
pub struct Renaming {
    number: usize,
}

/// Waits until it is time for the next trial.
#[derive(Debug)]
pub struct FilePause {
    number: usize,
}

/// What a download into a file needs next.
#[derive(Debug)]
pub enum FileNext {
    /// To remove the temporary file.
    RemoveTmp(RemovingTmp),
    /// To create the temporary file.
    CreateTmp(CreatingTmp),
    /// To send the request.
    Request(Requesting),
    /// To write the object into the temporary file.
    CopyBody(CopyingBody),
    /// To rename the temporary file to the file.
    Rename(Renaming),
    /// To wait.
    Pause { secs: u64, pause: FilePause },
    /// Nothing: this is the outcome.
    Done(Result<(), Report>),
}

/// A `FileNext`, with each trial by its number.
pub enum FileNextView {
    RemoveTmp(nat),
    CreateTmp(nat),
    Request(nat),
    CopyBody(nat),
    Rename(nat),
    Pause { secs: u64, trial: nat },
    Done(Result<(), ReportView>),
}

impl View for FileNext {
    type V = FileNextView;

    open spec fn view(&self) -> FileNextView {
        match *self {
            FileNext::RemoveTmp(state) => FileNextView::RemoveTmp(state.spec_number()),
            FileNext::CreateTmp(state) => FileNextView::CreateTmp(state.spec_number()),
            FileNext::Request(state) => FileNextView::Request(state.spec_number()),
            FileNext::CopyBody(state) => FileNextView::CopyBody(state.spec_number()),
            FileNext::Rename(state) => FileNextView::Rename(state.spec_number()),
            FileNext::Pause { secs, pause } => FileNextView::Pause {
                secs,
                trial: pause.spec_number(),
            },
            FileNext::Done(Ok(_)) => FileNextView::Done(Ok(())),
            FileNext::Done(Err(e)) => FileNextView::Done(Err(e@)),
        }
    }
}

/// The name of the temporary file.
pub open spec fn tmp_path(local_path: Seq<char>) -> Seq<char> {
    local_path + ".tmp"@
}

/// What follows the removal: a file that was not there is as good as removed.
pub open spec fn after_removal(trial: nat, removed: Removal) -> FileNextView {
    match removed {
        Removal::Failed(why) => FileNextView::Done(Err(plain(why@))),
        _ => FileNextView::CreateTmp(trial),
    }
}

/// What follows the creation.
pub open spec fn after_creation(trial: nat, created: Result<(), String>) -> FileNextView {
    match created {
        Err(why) => FileNextView::Done(Err(with_context("Opening output file"@, why@))),
        Ok(_) => FileNextView::Request(trial),
    }
}

/// What follows the request: this is the one step that is tried again.
pub open spec fn after_request(trial: nat, served: Result<(), String>) -> FileNextView {
    match served {
        Err(_) => FileNextView::Pause { secs: PAUSE_SECS, trial },
        Ok(_) => FileNextView::CopyBody(trial),
    }
}

/// What follows the writing.
pub open spec fn after_body(trial: nat, copied: Result<(), String>) -> FileNextView {
    match copied {
        Err(why) => FileNextView::Done(Err(plain(why@))),
        Ok(_) => FileNextView::Rename(trial),
    }
}

/// What follows the renaming.
pub open spec fn after_rename(renamed: Result<(), String>) -> FileNextView {
    match renamed {
        Err(why) => FileNextView::Done(Err(plain(why@))),
        Ok(_) => FileNextView::Done(Ok(())),
    }
}

/// What follows the pause.
pub open spec fn after_file_pause(trial: nat, key: Seq<char>) -> FileNextView {
    match after_pause(trial, key) {
        Ok(next) => FileNextView::RemoveTmp(next),
        Err(report) => FileNextView::Done(Err(report)),
    }
}

impl RemovingTmp {
    #[verifier::type_invariant]
    spec fn wf(self) -> bool {
        self.number < MAX_RETRIES
    }

    /// The number of the trial.
    pub closed spec fn spec_number(self) -> nat {
        self.number as nat
    }

    /// Takes what became of the temporary file.
    pub fn removed(self, removed: Removal) -> (r: FileNext)
        ensures
            r@ == after_removal(self.spec_number(), removed),
    {
        proof {
            use_type_invariant(&self);
        }
        match removed {
            Removal::Failed(why) => FileNext::Done(Err(Report::plain(why))),
            Removal::Removed => FileNext::CreateTmp(CreatingTmp { number: self.number }),
            Removal::NotFound => FileNext::CreateTmp(CreatingTmp { number: self.number }),
        }
    }
}

impl CreatingTmp {
    #[verifier::type_invariant]
    spec fn wf(self) -> bool {
        self.number < MAX_RETRIES
    }

    /// The number of the trial.
    pub closed spec fn spec_number(self) -> nat {
        self.number as nat
    }

    /// Takes whether the temporary file was created.
    pub fn created(self, created: Result<(), String>) -> (r: FileNext)
        ensures
            r@ == after_creation(self.spec_number(), created),
    {
        proof {
            use_type_invariant(&self);
        }
        match created {
            Err(why) => FileNext::Done(
                Err(Report { message: owned("Opening output file"), cause: Some(why) }),
            ),
            Ok(_) => FileNext::Request(Requesting { number: self.number }),
        }
    }
}

impl Requesting {
    #[verifier::type_invariant]
    spec fn wf(self) -> bool {
        self.number < MAX_RETRIES
    }

    /// The number of the trial.
    pub closed spec fn spec_number(self) -> nat {
        self.number as nat
    }

    /// Takes whether the object is served.
    pub fn served(self, served: Result<(), String>) -> (r: FileNext)
        ensures
            r@ == after_request(self.spec_number(), served),
    {
        proof {
            use_type_invariant(&self);
        }
        match served {
            Err(_) => FileNext::Pause { secs: PAUSE_SECS, pause: FilePause { number: self.number } },
            Ok(_) => FileNext::CopyBody(CopyingBody { number: self.number }),
        }
    }
}

impl CopyingBody {
    #[verifier::type_invariant]
    spec fn wf(self) -> bool {
        self.number < MAX_RETRIES
    }

    /// The number of the trial.
    pub closed spec fn spec_number(self) -> nat {
        self.number as nat
    }

    /// Takes whether the object was written.
    pub fn copied(self, copied: Result<(), String>) -> (r: FileNext)
        ensures
            r@ == after_body(self.spec_number(), copied),
    {
        proof {
            use_type_invariant(&self);
        }
        match copied {
            Err(why) => FileNext::Done(Err(Report::plain(why))),
            Ok(_) => FileNext::Rename(Renaming { number: self.number }),
        }
    }
}

impl Renaming {
    #[verifier::type_invariant]
    spec fn wf(self) -> bool {
        self.number < MAX_RETRIES
    }

    /// The number of the trial.
    pub closed spec fn spec_number(self) -> nat {
        self.number as nat
    }

    /// Takes whether the temporary file was renamed.
    pub fn renamed(self, renamed: Result<(), String>) -> (r: FileNext)
        ensures
            r@ == after_rename(renamed),
    {
        match renamed {
            Err(why) => FileNext::Done(Err(Report::plain(why))),
            Ok(_) => FileNext::Done(Ok(())),
        }
    }
}

impl FilePause {
    #[verifier::type_invariant]
    spec fn wf(self) -> bool {
        self.number < MAX_RETRIES
    }

    /// The number of the trial before this pause.
    pub closed spec fn spec_number(self) -> nat {
        self.number as nat
    }

    /// Goes on with the download of `key`.
    pub fn resume(self, key: &str) -> (r: FileNext)
        ensures
            r@ == after_file_pause(self.spec_number(), key@),
    {
        proof {
            use_type_invariant(&self);
        }
        if self.number + 1 < MAX_RETRIES {
            FileNext::RemoveTmp(RemovingTmp { number: self.number + 1 })
        } else {
            FileNext::Done(Err(download_failure_report(key)))
        }
    }
}

/// A download into a file: what each trial sends, and the file that it writes before the
/// object is complete.
#[derive(Debug)]
pub struct FileDownload {
    pub request: GetRequest,
    pub tmp_path: String,
    pub first: FileNext,
}

/// Begins to download an object, or a version of it, into the file `local_path`.
pub fn download_object_to_file(
    bucket_name: &str,
    key: &str,
    version_id: Option<&str>,
    local_path: &str,
) -> (r: FileDownload)
    ensures
        r.request.bucket@ == bucket_name@,
        r.request.key@ == key@,
        match (version_id, r.request.version_id) {
            (Some(wanted), Some(sent)) => sent@ == wanted@,
            (None, None) => true,
            _ => false,
        },
        r.tmp_path@ == tmp_path(local_path@),
        r.first@ == FileNextView::RemoveTmp(0),
{
    FileDownload {
        request: GetRequest {
            bucket: owned(bucket_name),
            key: owned(key),
            version_id: match version_id {
                Some(version_id) => Some(owned(version_id)),
                None => None,
            },
        },
        tmp_path: concat2(local_path, ".tmp"),
        first: FileNext::RemoveTmp(RemovingTmp { number: 0 }),
    }
}

/// Everything that one trial may be told.
pub struct FileAnswers {
    pub removed: Removal,
    pub created: Result<(), String>,
    pub served: Result<(), String>,
    pub copied: Result<(), String>,
    pub renamed: Result<(), String>,
}

/// How many steps of the trial may still follow.
pub open spec fn file_stage(next: FileNextView) -> nat {
    match next {
        FileNextView::RemoveTmp(_) => 5,
        FileNextView::CreateTmp(_) => 4,
        FileNextView::Request(_) => 3,
        FileNextView::CopyBody(_) => 2,
        FileNextView::Rename(_) => 1,
        FileNextView::Pause { .. } => 0,
        FileNextView::Done(_) => 0,
    }
}

/// Where one trial ends that has reached `next`: in a pause or at the outcome.
pub open spec fn file_trial_run(next: FileNextView, a: FileAnswers) -> FileNextView
    decreases file_stage(next),
{
    match next {
        FileNextView::RemoveTmp(trial) => file_trial_run(after_removal(trial, a.removed), a),
        FileNextView::CreateTmp(trial) => file_trial_run(after_creation(trial, a.created), a),
        FileNextView::Request(trial) => file_trial_run(after_request(trial, a.served), a),
        FileNextView::CopyBody(trial) => file_trial_run(after_body(trial, a.copied), a),
        FileNextView::Rename(_) => file_trial_run(after_rename(a.renamed), a),
        _ => next,
    }
}

/// What a download into a file comes to from trial `trial` on, where trial `k` is answered
/// `answers(k)`.
pub open spec fn file_run(
    key: Seq<char>,
    trial: nat,
    answers: spec_fn(nat) -> FileAnswers,
) -> Result<(), ReportView>
    decreases MAX_RETRIES - trial,
{
    match file_trial_run(FileNextView::RemoveTmp(trial), answers(trial)) {
        FileNextView::Done(outcome) => outcome,
        _ => match after_pause(trial, key) {
            Ok(next) => file_run(key, next, answers),
            Err(report) => Err(report),
        },
    }
}

/// What one trial decides: nothing where the object is not served.
pub open spec fn file_decision(a: FileAnswers) -> Option<Result<(), ReportView>> {
    if let Removal::Failed(why) = a.removed {
        Some(Err(plain(why@)))
    } else if a.created is Err {
        Some(Err(with_context("Opening output file"@, a.created->Err_0@)))
    } else if a.served is Err {
        None
    } else if a.copied is Err {
        Some(Err(plain(a.copied->Err_0@)))
    } else if a.renamed is Err {
        Some(Err(plain(a.renamed->Err_0@)))
    } else {
        Some(Ok(()))
    }
}

proof fn lemma_file_run(key: Seq<char>, trial: nat, answers: spec_fn(nat) -> FileAnswers)
    requires
        trial < MAX_RETRIES,
    ensures
        file_run(key, trial, answers) == first_decided(
            |t: nat| file_decision(answers(t)),
            trial,
            Err(download_failure(key)),
        ),
    decreases MAX_RETRIES - trial,
{
    reveal_with_fuel(first_decided, 2);
    reveal_with_fuel(file_trial_run, 6);
    if trial + 1 < MAX_RETRIES {
        lemma_file_run(key, trial + 1, answers);
    }
}

/// A download into a file succeeds when a trial succeeds before any other has failed for
/// good, fails as the first trial does that fails for good, and fails if the object is not
/// served twenty times. Only a trial whose object is not served is followed by another.
pub proof fn law_download_to_file(key: Seq<char>, answers: spec_fn(nat) -> FileAnswers)
    ensures
        forall|k: nat|
            k < MAX_RETRIES && file_decision(#[trigger] answers(k)) is Some && (forall|j: nat|
                j < k ==> file_decision(#[trigger] answers(j)) is None) ==> file_run(
                key,
                0,
                answers,
            ) == file_decision(answers(k))->0,
        (forall|j: nat| j < MAX_RETRIES ==> file_decision(#[trigger] answers(j)) is None)
            ==> file_run(key, 0, answers) == Err::<(), ReportView>(download_failure(key)),
{
    let decide = |t: nat| file_decision(answers(t));
    lemma_file_run(key, 0, answers);
    assert forall|k: nat|
        k < MAX_RETRIES && file_decision(#[trigger] answers(k)) is Some && (forall|j: nat|
            j < k ==> file_decision(#[trigger] answers(j)) is None) implies file_run(
        key,
        0,
        answers,
    ) == file_decision(answers(k))->0 by {
        assert forall|j: nat| 0 <= j < k implies #[trigger] decide(j) is None by {
            assert(file_decision(answers(j)) is None);
        }
        lemma_decided(decide, 0, k, Err(download_failure(key)));
    }
    if forall|j: nat| j < MAX_RETRIES ==> file_decision(#[trigger] answers(j)) is None {
        assert forall|j: nat| 0 <= j < MAX_RETRIES implies #[trigger] decide(j) is None by {
            assert(file_decision(answers(j)) is None);
        }
        lemma_given_up(decide, 0, Err(download_failure(key)));
    }
}

/// Whether this step makes the file appear, or reports that it is there.
pub open spec fn shows_file(next: FileNextView) -> bool {
    next is Rename || next == FileNextView::Done(Ok(()))
}

/// The file only ever appears with the whole object in it: the temporary file is renamed
/// only after the object has been written into it, a success is only reported after that,
/// and no other step leads there.
pub proof fn law_file_is_complete(trial: nat, key: Seq<char>, a: FileAnswers)
    ensures
        !shows_file(after_removal(trial, a.removed)),
        !shows_file(after_creation(trial, a.created)),
        !shows_file(after_request(trial, a.served)),
        !shows_file(after_file_pause(trial, key)),
        shows_file(after_body(trial, a.copied)) <==> a.copied is Ok,
        after_body(trial, a.copied) != FileNextView::Done(Ok(())),
        after_rename(a.renamed) == FileNextView::Done(Ok(())) <==> a.renamed is Ok,
{
}

/// A listing is tried twenty times, with a second between two trials. Any answer ends it; so
/// does the twentieth failure, and its reason is kept.
pub proof fn law_twenty_listings<R>(trial: nat, response: R, why: String)
    requires
        trial < 20,
    ensures
        MAX_RETRIES == 20,
        PAUSE_SECS == 1,
        after_list::<R>(trial, Ok(response)) == ListNextView::<R>::Done(Ok(response)),
        trial < 19 ==> after_list::<R>(trial, Err(why)) == (ListNextView::<R>::Pause {
            secs: 1,
            trial: trial + 1,
        }),
        after_list::<R>(19, Err(why)) matches ListNextView::Done(Err(report)) && report.message
            == "Failed to list objects 20 times"@ && report.cause == Some(why@),
{
    lemma_twenty();
    reveal_strlit("Failed to list objects ");
    reveal_strlit(" times");
    reveal_strlit("Failed to list objects 20 times");
    assert("Failed to list objects "@ + seq!['2', '0'] + " times"@
        =~= "Failed to list objects 20 times"@);
}

proof fn lemma_twenty()
    ensures
        decimal_text(20) == seq!['2', '0'],
{
    reveal_with_fuel(decimal_text, 3);
    assert(decimal_text(20) =~= seq!['2', '0']);
}

/// A download is tried twenty times, with a second between two trials, and what is said when
/// it is given up names the key.
pub proof fn law_twenty_downloads<B>(trial: nat, key: Seq<char>, body: B, why: String)
    requires
        trial < 20,
    ensures
        after_trial::<B>(Ok(body)) == Ok::<B, u64>(body),
        after_trial::<B>(Err(why)) == Err::<B, u64>(1),
        trial < 19 ==> after_pause(trial, key) == Ok::<nat, ReportView>(trial + 1),
        after_pause(19, key) matches Err(report) && report.message
            == "Failed to download objects with key "@ + key + " 20 times"@ && report.cause is None,
{
    lemma_twenty();
    reveal_strlit(" ");
    reveal_strlit(" times");
    reveal_strlit(" 20 times");
    let head = "Failed to download objects with key "@ + key;
    assert(head + " "@ + seq!['2', '0'] + " times"@ =~= head + " 20 times"@);
}

/// The steps of a download into a file, one by one: a temporary file beside the file is removed
/// if it is there, created, filled and renamed, and only a request that is not served is tried
/// again, from the start and with a second in between.
pub proof fn law_file_steps(
    trial: nat,
    key: Seq<char>,
    local_path: Seq<char>,
    why: String,
)
    requires
        trial < 20,
    ensures
        tmp_path(local_path) == local_path + seq!['.', 't', 'm', 'p'],
        after_removal(trial, Removal::Removed) == FileNextView::CreateTmp(trial),
        after_removal(trial, Removal::NotFound) == FileNextView::CreateTmp(trial),
        after_creation(trial, Ok(())) == FileNextView::Request(trial),
        after_request(trial, Ok(())) == FileNextView::CopyBody(trial),
        after_body(trial, Ok(())) == FileNextView::Rename(trial),
        after_rename(Ok(())) == FileNextView::Done(Ok(())),
        after_request(trial, Err(why)) == (FileNextView::Pause { secs: 1, trial }),
        trial < 19 ==> after_file_pause(trial, key) == FileNextView::RemoveTmp(trial + 1),
        after_file_pause(19, key) matches FileNextView::Done(Err(report)) && report.message
            == "Failed to download objects with key "@ + key + " 20 times"@,
        after_removal(trial, Removal::Failed(why)) matches FileNextView::Done(Err(report))
            && report.message == why@ && report.cause is None,
        after_creation(trial, Err(why)) matches FileNextView::Done(Err(report)) && report.message
            == "Opening output file"@ && report.cause == Some(why@),
        after_body(trial, Err(why)) matches FileNextView::Done(Err(report)) && report.message
            == why@ && report.cause is None,
        after_rename(Err(why)) matches FileNextView::Done(Err(report)) && report.message == why@
            && report.cause is None,
{
    law_twenty_downloads::<()>(trial, key, (), why);
    reveal_strlit(".tmp");
    assert(".tmp"@ =~= seq!['.', 't', 'm', 'p']);
}

} // verus!
