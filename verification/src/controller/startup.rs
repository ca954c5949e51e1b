//! Starting and stopping the controller: which secrets it uses, whether it may run without
//! some of them, and in which order things are started and stopped.

use std::time::Duration;

use vstd::prelude::*;

use crate::error::{plain, Report, ReportView};
use crate::text::{copy_of, owned};

verus! {

/// The variable that holds the URL of the database.
pub const DATABASE_URL_ENV: &'static str = "DATABASE_URL";

/// The variable that holds the token for pageservers.
pub const PAGESERVER_JWT_TOKEN_ENV: &'static str = "PAGESERVER_JWT_TOKEN";

/// The variable that holds the token for the control plane.
pub const CONTROL_PLANE_JWT_TOKEN_ENV: &'static str = "CONTROL_PLANE_JWT_TOKEN";

/// The variable that holds the key that tokens are checked with.
pub const PUBLIC_KEY_ENV: &'static str = "PUBLIC_KEY";

/// How strict to be about secrets.
#[derive(Debug, Clone, Copy, PartialEq, Eq, Structural)]
pub enum StrictMode {
    /// In strict mode, we will require that all secrets are loaded, i.e. security features
    /// may not be implicitly turned off by omitting secrets in the environment.
    Strict,
    /// In dev mode, secrets are optional, and omitting a particular secret will implicitly
    /// disable the auth related to it (e.g. no pageserver jwt key -> send unauthenticated
    /// requests, no public key -> don't authenticate incoming requests).
    Dev,
}

impl Default for StrictMode {
    fn default() -> (r: Self)
        ensures
            r == StrictMode::Strict,
    {
        StrictMode::Strict
    }
}

impl StrictMode {
    /// The mode that the flag for dev mode asks for.
    pub fn from_flag(dev: bool) -> (r: Self)
        ensures
            r == if dev {
                StrictMode::Dev
            } else {
                StrictMode::Strict
            },
    {
        if dev {
            StrictMode::Dev
        } else {
            StrictMode::Strict
        }
    }
}

// ---------------------------------------------------------------------------
// Secrets
// ---------------------------------------------------------------------------

/// The secrets that one source gives: the command line, the environment, or the secrets
/// manager.
#[derive(Debug)]
pub struct SecretSources {
    pub database_url: Option<String>,
    pub public_key: Option<String>,
    pub jwt_token: Option<String>,
    pub control_plane_jwt_token: Option<String>,
}

/// Secrets whose key has not been read yet.
#[derive(Debug)]
pub struct UnreadSecrets {
    pub database_url: String,
    pub public_key: Option<String>,
    pub jwt_token: Option<String>,
    pub control_plane_jwt_token: Option<String>,
}

/// Secrets may either be provided on the command line (for testing), or loaded from the
/// environment or from AWS SecretManager: this type encapsulates the logic to decide which
/// and do the loading.
#[derive(Debug)]
pub struct Secrets<K> {
    pub database_url: String,
    pub public_key: Option<K>,
    pub jwt_token: Option<String>,
    pub control_plane_jwt_token: Option<String>,
}

/// The source that all secrets come from: the first that has the database URL.
pub open spec fn source(
    args: SecretSources,
    env: SecretSources,
    stored: SecretSources,
) -> Option<SecretSources> {
    if args.database_url is Some {
        Some(args)
    } else if env.database_url is Some {
        Some(env)
    } else if stored.database_url is Some {
        Some(stored)
    } else {
        None
    }
}

/// What is said where there is no database.
pub open spec fn no_database_url() -> ReportView {
    plain("Database URL is not set (set `--database-url`, or `DATABASE_URL` environment)"@)
}

impl UnreadSecrets {
    /// Whether these are the secrets that a source gives.
    pub open spec fn come_from(self, source: SecretSources) -> bool {
        &&& Some(self.database_url) == source.database_url
        &&& self.public_key == source.public_key
        &&& self.jwt_token == source.jwt_token
        &&& self.control_plane_jwt_token == source.control_plane_jwt_token
    }

    /// Takes all secrets from one source, where that has the database URL.
    fn load_from(source: &SecretSources) -> (r: Option<Self>)
        ensures
            r is Some <==> source.database_url is Some,
            r matches Some(secrets) ==> secrets.come_from(*source),
    {
        match &source.database_url {
            Some(database_url) => Some(
                UnreadSecrets {
                    database_url: database_url.clone(),
                    public_key: copy_of(&source.public_key),
                    jwt_token: copy_of(&source.jwt_token),
                    control_plane_jwt_token: copy_of(&source.control_plane_jwt_token),
                },
            ),
            None => None,
        }
    }

    /// Load secrets from, in order of preference:
    /// - CLI args if database URL is provided on the CLI
    /// - Environment variables if DATABASE_URL is set.
    /// - AWS Secrets Manager secrets
    pub fn load(args: &SecretSources, env: &SecretSources, stored: &SecretSources) -> (r: Result<
        Self,
        Report,
    >)
        ensures
            match source(*args, *env, *stored) {
                Some(source) => r is Ok && r->Ok_0.come_from(source),
                None => r is Err && r->Err_0@ == no_database_url(),
            },
    {
        if let Some(secrets) = Self::load_from(args) {
            return Ok(secrets);
        }
        if let Some(secrets) = Self::load_from(env) {
            return Ok(secrets);
        }
        if let Some(secrets) = Self::load_from(stored) {
            return Ok(secrets);
        }
        Err(
            Report::plain(
                owned(
                    "Database URL is not set (set `--database-url`, or `DATABASE_URL` environment)",
                ),
            ),
        )
    }
}

/// Secrets are never mixed: those that come with a database URL are taken as they are, even
/// where another source has more of them.
pub proof fn law_one_source(args: SecretSources, env: SecretSources, stored: SecretSources)
    ensures
        args.database_url is Some ==> source(args, env, stored) == Some(args),
        args.database_url is None && env.database_url is Some ==> source(args, env, stored) == Some(
            env,
        ),
        args.database_url is None && env.database_url is None && stored.database_url is Some
            ==> source(args, env, stored) == Some(stored),
        source(args, env, stored) matches Some(chosen) ==> chosen.database_url is Some,
{
}

impl<K> Secrets<K> {
    /// The secrets, once their key has been read. `key` is missing exactly where no key was
    /// given; an `Err` says why it cannot be read.
    pub fn with_key(unread: UnreadSecrets, key: Option<Result<K, String>>) -> (r: Result<
        Self,
        Report,
    >)
        requires
            key is Some <==> unread.public_key is Some,
        ensures
            match key {
                Some(Err(why)) => r is Err && r->Err_0@ == (ReportView {
                    message: "Loading public key"@,
                    cause: Some(why@),
                }),
                Some(Ok(key)) => r == Ok::<Self, Report>(
                    Secrets {
                        database_url: unread.database_url,
                        public_key: Some(key),
                        jwt_token: unread.jwt_token,
                        control_plane_jwt_token: unread.control_plane_jwt_token,
                    },
                ),
                None => r == Ok::<Self, Report>(
                    Secrets {
                        database_url: unread.database_url,
                        public_key: None,
                        jwt_token: unread.jwt_token,
                        control_plane_jwt_token: unread.control_plane_jwt_token,
                    },
                ),
            },
    {
        let public_key = match key {
            Some(Err(why)) => {
                return Err(Report { message: owned("Loading public key"), cause: Some(why) });
            },
            Some(Ok(key)) => Some(key),
            None => None,
        };
        Ok(
            Secrets {
                database_url: unread.database_url,
                public_key,
                jwt_token: unread.jwt_token,
                control_plane_jwt_token: unread.control_plane_jwt_token,
            },
        )
    }

    /// Whether some secret is missing.
    pub open spec fn is_incomplete(self) -> bool {
        self.public_key is None || self.jwt_token is None || self.control_plane_jwt_token is None
    }
}

/// What is said where a secret is missing.
pub open spec fn insecure() -> ReportView {
    plain(
        "Insecure config!  One or more secrets is not set.  This is only permitted in `--dev` mode"@,
    )
}

/// What is said where the compute hook is missing.
pub open spec fn no_compute_hook() -> ReportView {
    plain("`--compute-hook-url` is not set: this is only permitted in `--dev` mode"@)
}

/// What validating comes to: dev mode permits everything, strict mode wants all secrets and
/// a compute hook.
pub open spec fn validated<K>(
    strict_mode: StrictMode,
    secrets: Secrets<K>,
    compute_hook_url: Option<String>,
) -> Result<(), ReportView> {
    if strict_mode == StrictMode::Dev {
        Ok(())
    } else if secrets.is_incomplete() {
        Err(insecure())
    } else if compute_hook_url is None {
        Err(no_compute_hook())
    } else {
        Ok(())
    }
}

/// Validates that required secrets and arguments are provided in strict mode. Production
/// systems should always have secrets configured: if the public key was not set then we
/// would implicitly disable auth. They should always have a compute hook set, to prevent
/// falling back to trying to use neon_local.
pub fn validate<K>(
    strict_mode: StrictMode,
    secrets: &Secrets<K>,
    compute_hook_url: &Option<String>,
) -> (r: Result<(), Report>)
    ensures
        (match r {
            Ok(_) => Ok(()),
            Err(e) => Err(e@),
        }) == validated(strict_mode, *secrets, *compute_hook_url),
{
    match strict_mode {
        StrictMode::Strict => {
            if secrets.public_key.is_none() || secrets.jwt_token.is_none()
                || secrets.control_plane_jwt_token.is_none() {
                return Err(
                    Report::plain(
                        owned(
                            "Insecure config!  One or more secrets is not set.  This is only permitted in `--dev` mode",
                        ),
                    ),
                );
            }
            if compute_hook_url.is_none() {
                return Err(
                    Report::plain(
                        owned(
                            "`--compute-hook-url` is not set: this is only permitted in `--dev` mode",
                        ),
                    ),
                );
            }
            Ok(())
        },
        StrictMode::Dev => Ok(()),
    }
}

/// A controller that runs in strict mode authenticates everybody: those who call it, and
/// itself to those whom it calls.
pub proof fn law_strict_mode_authenticates<K>(secrets: Secrets<K>, compute_hook_url: Option<String>)
    requires
        validated(StrictMode::Strict, secrets, compute_hook_url) is Ok,
    ensures
        secrets.public_key is Some,
        secrets.jwt_token is Some,
        secrets.control_plane_jwt_token is Some,
        compute_hook_url is Some,
{
}

// ---------------------------------------------------------------------------
// Configuration
// ---------------------------------------------------------------------------

/// What is given on the command line besides secrets.
#[derive(Debug)]
pub struct Arguments {
    pub compute_hook_url: Option<String>,
    pub max_unavailable_interval: Option<Duration>,
    pub reconciler_concurrency: Option<usize>,
    pub split_threshold: Option<u64>,
    pub neon_local_repo_dir: Option<String>,
}

/// What holds where nothing is given.
#[derive(Debug, Clone, Copy)]
pub struct Defaults {
    pub max_unavailable_interval: Duration,
    pub reconciler_concurrency: usize,
}

/// The configuration of the service.
#[derive(Debug)]
pub struct Config {
    pub jwt_token: Option<String>,
    pub control_plane_jwt_token: Option<String>,
    pub compute_hook_url: Option<String>,
    pub max_unavailable_interval: Duration,
    pub reconciler_concurrency: usize,
    pub split_threshold: Option<u64>,
    pub neon_local_repo_dir: Option<String>,
}

/// The value, else the default.
pub open spec fn given_or<T>(value: Option<T>, default: T) -> T {
    match value {
        Some(value) => value,
        None => default,
    }
}

/// What is left of the secrets when the service has got its tokens.
#[derive(Debug)]
pub struct RemainingSecrets<K> {
    pub database_url: String,
    pub public_key: Option<K>,
}

/// The configuration that arguments and secrets ask for.
pub fn make_config<K>(secrets: Secrets<K>, args: Arguments, defaults: Defaults) -> (r: (
    Config,
    RemainingSecrets<K>,
))
    ensures
        r.0 == (Config {
            jwt_token: secrets.jwt_token,
            control_plane_jwt_token: secrets.control_plane_jwt_token,
            compute_hook_url: args.compute_hook_url,
            max_unavailable_interval: given_or(
                args.max_unavailable_interval,
                defaults.max_unavailable_interval,
            ),
            reconciler_concurrency: given_or(
                args.reconciler_concurrency,
                defaults.reconciler_concurrency,
            ),
            split_threshold: args.split_threshold,
            neon_local_repo_dir: args.neon_local_repo_dir,
        }),
        r.1 == (RemainingSecrets {
            database_url: secrets.database_url,
            public_key: secrets.public_key,
        }),
{
    let config = Config {
        jwt_token: secrets.jwt_token,
        control_plane_jwt_token: secrets.control_plane_jwt_token,
        compute_hook_url: args.compute_hook_url,
        max_unavailable_interval: match args.max_unavailable_interval {
            Some(interval) => interval,
            None => defaults.max_unavailable_interval,
        },
        reconciler_concurrency: match args.reconciler_concurrency {
            Some(concurrency) => concurrency,
            None => defaults.reconciler_concurrency,
        },
        split_threshold: args.split_threshold,
        neon_local_repo_dir: args.neon_local_repo_dir,
    };
    (
        config,
        RemainingSecrets { database_url: secrets.database_url, public_key: secrets.public_key },
    )
}

// ---------------------------------------------------------------------------
// Order
// ---------------------------------------------------------------------------

/// What is done to start and to stop, once there is a configuration.
#[derive(Debug, Clone, Copy, PartialEq, Eq, Structural)]
pub enum Step {
    /// Wait until the database answers.
    AwaitConnection,
    /// Apply the migrations of the database.
    RunMigrations,
    /// Start the service.
    SpawnService,
    /// Bind the address to listen on.
    BindListener,
    /// Put the router together.
    BuildRouter,
    /// Begin to serve requests.
    StartServer,
    /// Wait until a signal comes.
    AwaitSignal,
    /// Stop serving requests, waiting no longer than `SERVER_SHUTDOWN_SECS`.
    StopServer,
    /// Shut the service down.
    ShutdownService,
    /// Leave.
    Exit,
}

/// How long to wait for the server to stop.
pub const SERVER_SHUTDOWN_SECS: u64 = 5;

/// What follows a step.
#[derive(Debug)]
pub enum AfterStep {
    Do(Step),
    /// Leave at once, with this error.
    Fail(Report),
}

/// What follows a step, with the error as plain text.
pub enum AfterStepView {
    Do(Step),
    Fail(ReportView),
}

impl View for AfterStep {
    type V = AfterStepView;

    open spec fn view(&self) -> AfterStepView {
        match *self {
            AfterStep::Do(step) => AfterStepView::Do(step),
            AfterStep::Fail(report) => AfterStepView::Fail(report@),
        }
    }
}

/// The step that follows one that went well.
pub open spec fn following(step: Step) -> Step {
    match step {
        Step::AwaitConnection => Step::RunMigrations,
        Step::RunMigrations => Step::SpawnService,
        Step::SpawnService => Step::BindListener,
        Step::BindListener => Step::BuildRouter,
        Step::BuildRouter => Step::StartServer,
        Step::StartServer => Step::AwaitSignal,
        Step::AwaitSignal => Step::StopServer,
        Step::StopServer => Step::ShutdownService,
        Step::ShutdownService => Step::Exit,
        Step::Exit => Step::Exit,
    }
}

/// Whether the way to the end goes on even if a step fails: nothing keeps the service from
/// being shut down.
pub open spec fn is_stopping(step: Step) -> bool {
    step == Step::StopServer || step == Step::ShutdownService || step == Step::Exit
}

/// What follows a step: a failure while starting is the end.
pub open spec fn after_step(step: Step, outcome: Result<(), String>) -> AfterStepView {
    match outcome {
        Err(why) => if is_stopping(step) {
            AfterStepView::Do(following(step))
        } else if step == Step::RunMigrations {
            AfterStepView::Fail(
                ReportView { message: "Running database migrations"@, cause: Some(why@) },
            )
        } else {
            AfterStepView::Fail(plain(why@))
        },
        Ok(_) => AfterStepView::Do(following(step)),
    }
}

fn following_step(step: Step) -> (r: Step)
    ensures
        r == following(step),
{
    match step {
        Step::AwaitConnection => Step::RunMigrations,
        Step::RunMigrations => Step::SpawnService,
        Step::SpawnService => Step::BindListener,
        Step::BindListener => Step::BuildRouter,
        Step::BuildRouter => Step::StartServer,
        Step::StartServer => Step::AwaitSignal,
        Step::AwaitSignal => Step::StopServer,
        Step::StopServer => Step::ShutdownService,
        Step::ShutdownService => Step::Exit,
        Step::Exit => Step::Exit,
    }
}

/// What comes first: nothing at all where the configuration is not accepted. Else, after
/// loading secrets & config, but before starting anything else, the database is brought up to
/// date.
pub open spec fn started<K>(
    strict_mode: StrictMode,
    secrets: Secrets<K>,
    compute_hook_url: Option<String>,
) -> AfterStepView {
    match validated(strict_mode, secrets, compute_hook_url) {
        Err(e) => AfterStepView::Fail(e),
        Ok(_) => AfterStepView::Do(Step::AwaitConnection),
    }
}

/// Validates the configuration, and says what to do first.
pub fn start<K>(
    strict_mode: StrictMode,
    secrets: &Secrets<K>,
    compute_hook_url: &Option<String>,
) -> (r: AfterStep)
    ensures
        r@ == started(strict_mode, *secrets, *compute_hook_url),
{
    match validate(strict_mode, secrets, compute_hook_url) {
        Err(e) => AfterStep::Fail(e),
        Ok(_) => AfterStep::Do(Step::AwaitConnection),
    }
}

/// Takes how a step went.
pub fn step_done(step: Step, outcome: Result<(), String>) -> (r: AfterStep)
    ensures
        r@ == after_step(step, outcome),
{
    match outcome {
        Ok(_) => AfterStep::Do(following_step(step)),
        Err(why) => match step {
            Step::StopServer => AfterStep::Do(Step::ShutdownService),
            Step::ShutdownService => AfterStep::Do(Step::Exit),
            Step::Exit => AfterStep::Do(Step::Exit),
            Step::RunMigrations => AfterStep::Fail(
                Report { message: owned("Running database migrations"), cause: Some(why) },
            ),
            _ => AfterStep::Fail(Report::plain(why)),
        },
    }
}

/// The number of a step.
pub open spec fn step_number(step: Step) -> nat {
    match step {
        Step::AwaitConnection => 0,
        Step::RunMigrations => 1,
        Step::SpawnService => 2,
        Step::BindListener => 3,
        Step::BuildRouter => 4,
        Step::StartServer => 5,
        Step::AwaitSignal => 6,
        Step::StopServer => 7,
        Step::ShutdownService => 8,
        Step::Exit => 9,
    }
}

/// Steps are done one after the other, and none is skipped: whatever follows a step is the
/// step with the next number, or the end.
pub proof fn law_steps_in_order(step: Step, outcome: Result<(), String>)
    requires
        step != Step::Exit,
    ensures
        after_step(step, outcome) matches AfterStepView::Do(next) ==> step_number(next)
            == step_number(step) + 1,
{
}

/// The steps that are done where `next` is to come and the steps end as `outcomes` say, one
/// after the other.
pub open spec fn steps_done(next: AfterStepView, outcomes: Seq<Result<(), String>>) -> Seq<Step>
    decreases outcomes.len(),
{
    match next {
        AfterStepView::Fail(_) => Seq::empty(),
        AfterStepView::Do(step) => if outcomes.len() == 0 {
            Seq::empty()
        } else {
            seq![step] + steps_done(after_step(step, outcomes[0]), outcomes.skip(1))
        },
    }
}

/// Nothing is done before the configuration is accepted: where it is not, the database is
/// never contacted and nothing is served, and the reason is reported. And no step leads back
/// to the first, so whatever is done is done after validating.
pub proof fn law_nothing_before_validation<K>(
    strict_mode: StrictMode,
    secrets: Secrets<K>,
    compute_hook_url: Option<String>,
    outcomes: Seq<Result<(), String>>,
)
    ensures
        validated(strict_mode, secrets, compute_hook_url) matches Err(e) ==> {
            &&& started(strict_mode, secrets, compute_hook_url) == AfterStepView::Fail(e)
            &&& steps_done(started(strict_mode, secrets, compute_hook_url), outcomes)
                == Seq::<Step>::empty()
        },
        validated(strict_mode, secrets, compute_hook_url) is Ok && outcomes.len() > 0
            ==> steps_done(started(strict_mode, secrets, compute_hook_url), outcomes)[0]
            == Step::AwaitConnection,
        forall|step: Step, outcome: Result<(), String>|
            #[trigger] after_step(step, outcome) != AfterStepView::Do(Step::AwaitConnection),
{
}

/// A strict controller that does anything has all of its secrets and a compute hook.
pub proof fn law_strict_start_is_secure<K>(
    secrets: Secrets<K>,
    compute_hook_url: Option<String>,
    outcomes: Seq<Result<(), String>>,
)
    requires
        steps_done(started(StrictMode::Strict, secrets, compute_hook_url), outcomes).len() > 0,
    ensures
        secrets.public_key is Some,
        secrets.jwt_token is Some,
        secrets.control_plane_jwt_token is Some,
        compute_hook_url is Some,
{
    law_nothing_before_validation(StrictMode::Strict, secrets, compute_hook_url, outcomes);
}

/// The service is only spawned once the migrations have been applied.
pub proof fn law_migrations_before_service(step: Step, outcome: Result<(), String>)
    ensures
        after_step(step, outcome) == AfterStepView::Do(Step::SpawnService) ==> step
            == Step::RunMigrations && outcome is Ok,
{
}

/// Whatever becomes of stopping the server, the service is shut down after it, and the
/// process ends after that.
pub proof fn law_server_stops_first(outcome: Result<(), String>)
    ensures
        after_step(Step::StopServer, outcome) == AfterStepView::Do(Step::ShutdownService),
        after_step(Step::ShutdownService, outcome) == AfterStepView::Do(Step::Exit),
        forall|step: Step|
            #![trigger after_step(step, outcome)]
            after_step(step, outcome) == AfterStepView::Do(Step::ShutdownService) ==> step
                == Step::StopServer,
{
}

/// A configuration is accepted exactly in dev mode, or with all secrets and a compute hook. A
/// missing secret is complained of before a missing hook.
pub proof fn law_accepted_configurations<K>(
    mode: StrictMode,
    secrets: Secrets<K>,
    hook: Option<String>,
)
    ensures
        validated(mode, secrets, hook) is Ok <==> mode == StrictMode::Dev || (
        secrets.public_key is Some && secrets.jwt_token is Some
            && secrets.control_plane_jwt_token is Some && hook is Some),
        mode == StrictMode::Strict && (secrets.public_key is None || secrets.jwt_token is None
            || secrets.control_plane_jwt_token is None) ==> (validated(mode, secrets, hook) matches
            Err(e) && e.message
            == "Insecure config!  One or more secrets is not set.  This is only permitted in `--dev` mode"@
            && e.cause is None),
        mode == StrictMode::Strict && secrets.public_key is Some && secrets.jwt_token is Some
            && secrets.control_plane_jwt_token is Some && hook is None ==> (validated(
            mode,
            secrets,
            hook,
        ) matches Err(e) && e.message
            == "`--compute-hook-url` is not set: this is only permitted in `--dev` mode"@
            && e.cause is None),
        no_database_url().message
            == "Database URL is not set (set `--database-url`, or `DATABASE_URL` environment)"@,
        no_database_url().cause is None,
{
}

/// Where everything goes well, the database is waited for and migrated, then the service is
/// spawned, the address bound, the router built and the server started; and once a signal
/// comes, the server is stopped and then the service shut down.
pub proof fn law_whole_life<K>(
    mode: StrictMode,
    secrets: Secrets<K>,
    hook: Option<String>,
    outcomes: Seq<Result<(), String>>,
)
    requires
        mode == StrictMode::Dev || (secrets.public_key is Some && secrets.jwt_token is Some
            && secrets.control_plane_jwt_token is Some && hook is Some),
        outcomes.len() == 10,
        forall|i: int| 0 <= i < outcomes.len() ==> #[trigger] outcomes[i] is Ok,
    ensures
        steps_done(started(mode, secrets, hook), outcomes) == seq![
            Step::AwaitConnection,
            Step::RunMigrations,
            Step::SpawnService,
            Step::BindListener,
            Step::BuildRouter,
            Step::StartServer,
            Step::AwaitSignal,
            Step::StopServer,
            Step::ShutdownService,
            Step::Exit,
        ],
{
    reveal_with_fuel(steps_done, 11);
    assert(outcomes[0] is Ok);
    assert forall|n: int| 0 <= n < 10 implies #[trigger] outcomes.skip(n)[0] is Ok by {
        assert(outcomes[n] is Ok);
    }
    assert(outcomes.skip(1).skip(1) =~= outcomes.skip(2));
    assert(outcomes.skip(2).skip(1) =~= outcomes.skip(3));
    assert(outcomes.skip(3).skip(1) =~= outcomes.skip(4));
    assert(outcomes.skip(4).skip(1) =~= outcomes.skip(5));
    assert(outcomes.skip(5).skip(1) =~= outcomes.skip(6));
    assert(outcomes.skip(6).skip(1) =~= outcomes.skip(7));
    assert(outcomes.skip(7).skip(1) =~= outcomes.skip(8));
    assert(outcomes.skip(8).skip(1) =~= outcomes.skip(9));
    assert(outcomes.skip(9).skip(1).len() == 0);
    assert(steps_done(started(mode, secrets, hook), outcomes) =~= seq![
        Step::AwaitConnection,
        Step::RunMigrations,
        Step::SpawnService,
        Step::BindListener,
        Step::BuildRouter,
        Step::StartServer,
        Step::AwaitSignal,
        Step::StopServer,
        Step::ShutdownService,
        Step::Exit,
    ]);
}

/// A step that fails on the way up is the end, and is reported as it failed, but that a failed
/// migration says what it was about. A step on the way down ends nothing.
pub proof fn law_failed_steps(step: Step, why: String)
    ensures
        step == Step::RunMigrations ==> (after_step(step, Err(why)) matches AfterStepView::Fail(e)
            && e.message == "Running database migrations"@ && e.cause == Some(why@)),
        step == Step::AwaitConnection || step == Step::SpawnService || step == Step::BindListener
            || step == Step::BuildRouter || step == Step::StartServer || step == Step::AwaitSignal
            ==> (after_step(step, Err(why)) matches AfterStepView::Fail(e) && e.message == why@
            && e.cause is None),
        after_step(Step::StopServer, Err(why)) == AfterStepView::Do(Step::ShutdownService),
        after_step(Step::ShutdownService, Err(why)) == AfterStepView::Do(Step::Exit),
        SERVER_SHUTDOWN_SECS == 5,
{
}

/// What is given counts, and only where nothing is given the default does.
pub proof fn law_given_or<T>(value: T, default: T)
    ensures
        given_or(Some(value), default) == value,
        given_or(None, default) == default,
{
}

/// The variables of the environment.
pub proof fn law_environment()
    ensures
        DATABASE_URL_ENV@ == "DATABASE_URL"@,
        PAGESERVER_JWT_TOKEN_ENV@ == "PAGESERVER_JWT_TOKEN"@,
        CONTROL_PLANE_JWT_TOKEN_ENV@ == "CONTROL_PLANE_JWT_TOKEN"@,
        PUBLIC_KEY_ENV@ == "PUBLIC_KEY"@,
{
}

} // verus!
