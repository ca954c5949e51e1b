//! What the scrubber is told by its environment.

use vstd::prelude::*;

use crate::error::{opt_text, Report, ReportView};
use crate::scrubber::target::{NodeKind, RootTarget, S3Target, TargetView};
use crate::text::{ascii_lowered, copy_of, is_ascii_text, owned};

verus! {

/// The variable that holds the bucket's region.
pub const REGION_ENV_VAR: &'static str = "REGION";

/// The variable that holds the bucket's name.
pub const BUCKET_ENV_VAR: &'static str = "BUCKET";

/// The variable that holds the prefix in the bucket.
pub const BUCKET_PREFIX_ENV_VAR: &'static str = "BUCKET_PREFIX";

/// The variable that holds the URL of the console.
pub const CLOUD_ADMIN_API_URL_ENV_VAR: &'static str = "CLOUD_ADMIN_API_URL";

/// The variable that holds the token for the console.
pub const CLOUD_ADMIN_API_TOKEN_ENV_VAR: &'static str = "CLOUD_ADMIN_API_TOKEN";

/// The variable that turns logging into a file off.
pub const DISABLE_FILE_LOGGING_ENV_VAR: &'static str = "PAGESERVER_DISABLE_FILE_LOGGING";

/// The directory of the log files.
pub const LOG_DIRECTORY: &'static str = "./logs/";

/// A report that adds a message to what went wrong.
pub open spec fn with_context(message: Seq<char>, cause: Seq<char>) -> ReportView {
    ReportView { message, cause: Some(cause) }
}

fn report_with_context(message: &str, cause: String) -> (r: Report)
    ensures
        r@ == with_context(message@, cause@),
{
    Report { message: owned(message), cause: Some(cause) }
}

// ---------------------------------------------------------------------------
// The bucket
// ---------------------------------------------------------------------------

/// Which bucket to look into.
#[derive(Debug)]
pub struct BucketConfig {
    pub region: String,
    pub bucket: String,
    pub prefix_in_bucket: Option<String>,
}

impl Clone for BucketConfig {
    fn clone(&self) -> (r: Self)
        ensures
            r == *self,
    {
        BucketConfig {
            region: self.region.clone(),
            bucket: self.bucket.clone(),
            prefix_in_bucket: copy_of(&self.prefix_in_bucket),
        }
    }
}

impl BucketConfig {
    /// The bucket that the variables for region, bucket and prefix name. An `Err` says why
    /// a variable cannot be had.
    pub fn from_env(
        region: Result<String, String>,
        bucket: Result<String, String>,
        prefix_in_bucket: Option<String>,
    ) -> (r: Result<Self, Report>)
        ensures
            match (region, bucket) {
                (Err(why), _) => r is Err && r->Err_0@ == with_context(
                    "'REGION' param retrieval"@,
                    why@,
                ),
                (Ok(_), Err(why)) => r is Err && r->Err_0@ == with_context(
                    "'BUCKET' param retrieval"@,
                    why@,
                ),
                (Ok(region), Ok(bucket)) => r == Ok::<Self, Report>(
                    BucketConfig { region, bucket, prefix_in_bucket },
                ),
            },
    {
        let region = match region {
            Ok(region) => region,
            Err(why) => {
                return Err(report_with_context("'REGION' param retrieval", why));
            },
        };
        let bucket = match bucket {
            Ok(bucket) => bucket,
            Err(why) => {
                return Err(report_with_context("'BUCKET' param retrieval", why));
            },
        };
        Ok(BucketConfig { region, bucket, prefix_in_bucket })
    }
}

/// A region to connect to, and the root to look under.
#[derive(Debug)]
pub struct RemoteRoot {
    pub region: String,
    pub root: RootTarget,
}

/// The prefix that a node of this kind uses unless another is configured.
pub open spec fn default_prefix(node_kind: NodeKind) -> Seq<char> {
    match node_kind {
        NodeKind::Pageserver => "pageserver/v1"@,
        NodeKind::Safekeeper => "wal/"@,
    }
}

/// The prefix that a node of this kind uses.
pub open spec fn used_prefix(configured: Option<Seq<char>>, node_kind: NodeKind) -> Seq<char> {
    match configured {
        Some(prefix) => prefix,
        None => default_prefix(node_kind),
    }
}

/// A prefix that is configured is used as it is, for every kind of node and even if it is empty;
/// only where none is configured the kind decides.
pub proof fn law_used_prefix(prefix: Seq<char>, node_kind: NodeKind)
    ensures
        used_prefix(Some(prefix), node_kind) == prefix,
        used_prefix(None, NodeKind::Pageserver) == "pageserver/v1"@,
        used_prefix(None, NodeKind::Safekeeper) == "wal/"@,
{
}

/// The root that nodes of this kind use in a bucket.
pub fn init_remote(bucket_config: BucketConfig, node_kind: NodeKind) -> (r: RemoteRoot)
    ensures
        r.region == bucket_config.region,
        r.root is Pageserver <==> node_kind is Pageserver,
        r.root.root() == (TargetView {
            bucket_name: bucket_config.bucket@,
            prefix_in_bucket: match opt_text(bucket_config.prefix_in_bucket) {
                Some(prefix) => prefix,
                None => default_prefix(node_kind),
            },
            delimiter: "/"@,
        }),
        r.root.root().prefix_in_bucket == used_prefix(
            opt_text(bucket_config.prefix_in_bucket),
            node_kind,
        ),
{
    let delimiter = owned("/");
    let root = match node_kind {
        NodeKind::Pageserver => RootTarget::Pageserver(
            S3Target {
                bucket_name: bucket_config.bucket,
                prefix_in_bucket: match bucket_config.prefix_in_bucket {
                    Some(prefix) => prefix,
                    None => owned("pageserver/v1"),
                },
                delimiter,
            },
        ),
        NodeKind::Safekeeper => RootTarget::Safekeeper(
            S3Target {
                bucket_name: bucket_config.bucket,
                prefix_in_bucket: match bucket_config.prefix_in_bucket {
                    Some(prefix) => prefix,
                    None => owned("wal/"),
                },
                delimiter,
            },
        ),
    };
    RemoteRoot { region: bucket_config.region, root }
}

// ---------------------------------------------------------------------------
// The console and the controller
// ---------------------------------------------------------------------------

/// A URL, in normal form.
#[derive(Debug)]
pub struct Url {
    pub text: String,
}

/// What `Url::parse` makes of a text: the URL in normal form, or what it says against the
/// text.
pub uninterp spec fn url_parsed(text: Seq<char>) -> Result<Seq<char>, Seq<char>>;

/// `Url::parse` of the URL library, with the URL and the error written out. The contract
/// only says that the result depends on the text alone.
#[verifier::external_body]
fn parse_url(text: &str) -> (r: Result<String, String>)
    ensures
        (match r {
            Ok(url) => Ok(url@),
            Err(why) => Err(why@),
        }) == url_parsed(text@),
{
    match reqwest::Url::parse(text) {
        Ok(url) => Ok(url.to_string()),
        Err(e) => Err(e.to_string()),
    }
}

impl Url {
    /// Reads a URL.
    pub fn parse(text: &str) -> (r: Result<Url, String>)
        ensures
            (match r {
                Ok(url) => Ok(url.text@),
                Err(why) => Err(why@),
            }) == url_parsed(text@),
    {
        match parse_url(text) {
            Ok(text) => Ok(Url { text }),
            Err(why) => Err(why),
        }
    }
}

/// How to reach the storage controller.
#[derive(Debug)]
pub struct ControllerClientConfig {
    /// URL to storage controller.  e.g. http://127.0.0.1:1234 when using `neon_local`
    pub controller_api: Url,
    /// JWT token for authenticating with storage controller.  Requires scope 'scrubber' or 'admin'.
    pub controller_jwt: String,
}

/// How to reach the console.
#[derive(Debug)]
pub struct ConsoleConfig {
    pub token: String,
    pub base_url: Url,
}

impl ConsoleConfig {
    /// The console that the variables for URL and token name. An `Err` says why a variable
    /// cannot be had.
    pub fn from_env(url: Result<String, String>, token: Result<String, String>) -> (r: Result<
        Self,
        Report,
    >)
        ensures
            match url {
                Err(why) => r is Err && r->Err_0@ == with_context(
                    "'CLOUD_ADMIN_API_URL' param retrieval"@,
                    why@,
                ),
                Ok(text) => match (url_parsed(text@), token) {
                    (Err(why), _) => r is Err && r->Err_0@ == with_context(
                        "'CLOUD_ADMIN_API_URL' param parsing"@,
                        why,
                    ),
                    (Ok(_), Err(why)) => r is Err && r->Err_0@ == with_context(
                        "'CLOUD_ADMIN_API_TOKEN' environment variable fetch"@,
                        why@,
                    ),
                    (Ok(url), Ok(token)) => r is Ok && r->Ok_0.base_url.text@ == url
                        && r->Ok_0.token == token,
                },
            },
    {
        match url {
            Err(why) => Err(report_with_context("'CLOUD_ADMIN_API_URL' param retrieval", why)),
            Ok(text) => Self::from_parsed(Url::parse(text.as_str()), token),
        }
    }

    /// The console at a URL that has been read, or could not be.
    pub fn from_parsed(url: Result<Url, String>, token: Result<String, String>) -> (r: Result<
        Self,
        Report,
    >)
        ensures
            match (url, token) {
                (Err(why), _) => r is Err && r->Err_0@ == with_context(
                    "'CLOUD_ADMIN_API_URL' param parsing"@,
                    why@,
                ),
                (Ok(_), Err(why)) => r is Err && r->Err_0@ == with_context(
                    "'CLOUD_ADMIN_API_TOKEN' environment variable fetch"@,
                    why@,
                ),
                (Ok(base_url), Ok(token)) => r == Ok::<Self, Report>(
                    ConsoleConfig { token, base_url },
                ),
            },
    {
        let base_url = match url {
            Ok(base_url) => base_url,
            Err(why) => {
                return Err(report_with_context("'CLOUD_ADMIN_API_URL' param parsing", why));
            },
        };
        let token = match token {
            Ok(token) => token,
            Err(why) => {
                return Err(
                    report_with_context("'CLOUD_ADMIN_API_TOKEN' environment variable fetch", why),
                );
            },
        };
        Ok(ConsoleConfig { token, base_url })
    }
}

// ---------------------------------------------------------------------------
// Logging
// ---------------------------------------------------------------------------

/// Where log lines go.
#[derive(Debug)]
pub enum LogOutput {
    /// To standard error only.
    Stderr,
    /// To standard error, and without colors to a file.
    StderrAndFile { directory: String, file_name: String },
}

/// What `str::to_lowercase` makes of a text.
pub uninterp spec fn lowercased(text: Seq<char>) -> Seq<char>;

/// `str::to_lowercase` of the standard library. The result depends on the text alone; of ASCII
/// text it lowers the letters and keeps the rest. What becomes of other characters is left
/// unsaid.
#[verifier::external_body]
fn to_lowercase(text: &str) -> (r: String)
    ensures
        r@ == lowercased(text@),
        is_ascii_text(text@) ==> r@ == ascii_lowered(text@),
{
    text.to_lowercase()
}

/// Whether a variable with this value turns logging into a file off.
pub open spec fn turns_file_logging_off(value: Seq<char>) -> bool {
    value == "1"@ || lowercased(value) == "true"@
}

/// Whether a variable with this value, and this value in lower case, is set to yes.
pub fn says_yes(value: &str, lowercase_value: &str) -> (r: bool)
    ensures
        r == (value@ == "1"@ || lowercase_value@ == "true"@),
{
    *value == *"1" || *lowercase_value == *"true"
}

/// Whether logging into a file is turned off. A variable that cannot be had turns nothing
/// off; `true` does so however it is written.
pub fn file_logging_disabled(variable: &Option<String>) -> (r: bool)
    ensures
        r == match *variable {
            Some(value) => turns_file_logging_off(value@),
            None => false,
        },
        variable matches Some(value) ==> is_ascii_text(value@) ==> r == (value@ == "1"@
            || ascii_lowered(value@) == "true"@),
{
    match variable {
        Some(value) => {
            let lowercase_value = to_lowercase(value.as_str());
            says_yes(value.as_str(), lowercase_value.as_str())
        },
        None => false,
    }
}

/// Where log lines go, given whether logging into a file is turned off.
pub fn log_output(file_name: &str, disable_file_logging: bool) -> (r: LogOutput)
    ensures
        match r {
            LogOutput::Stderr => disable_file_logging,
            LogOutput::StderrAndFile { directory, file_name: name } => !disable_file_logging
                && directory@ == LOG_DIRECTORY@ && name@ == file_name@,
        },
{
    if disable_file_logging {
        LogOutput::Stderr
    } else {
        LogOutput::StderrAndFile { directory: owned(LOG_DIRECTORY), file_name: owned(file_name) }
    }
}

/// Where log lines go: to standard error, and to the file `file_name` unless the variable
/// turns that off.
pub fn init_logging(file_name: &str, variable: &Option<String>) -> (r: LogOutput)
    ensures
        r is Stderr <==> (variable matches Some(value) && turns_file_logging_off(value@)),
        variable matches Some(value) ==> is_ascii_text(value@) ==> (r is Stderr <==> value@ == "1"@
            || ascii_lowered(value@) == "true"@),
        r matches LogOutput::StderrAndFile { directory, file_name: name } ==> directory@
            == LOG_DIRECTORY@ && name@ == file_name@,
{
    let disable_file_logging = file_logging_disabled(variable);
    log_output(file_name, disable_file_logging)
}

/// Nodes use the prefixes that they have always used, unless another is configured; logs go
/// into their own directory; and a variable turns that off if it is `1`, or `true` in any case.
pub proof fn law_defaults(value: Seq<char>)
    ensures
        default_prefix(NodeKind::Pageserver) == "pageserver/v1"@,
        default_prefix(NodeKind::Safekeeper) == "wal/"@,
        LOG_DIRECTORY@ == "./logs/"@,
        turns_file_logging_off(value) <==> value == seq!['1'] || lowercased(value) == seq![
            't',
            'r',
            'u',
            'e',
        ],
{
    reveal_strlit("1");
    reveal_strlit("true");
    assert("1"@ =~= seq!['1']);
    assert("true"@ =~= seq!['t', 'r', 'u', 'e']);
}

/// The variables of the environment.
pub proof fn law_environment()
    ensures
        REGION_ENV_VAR@ == "REGION"@,
        BUCKET_ENV_VAR@ == "BUCKET"@,
        BUCKET_PREFIX_ENV_VAR@ == "BUCKET_PREFIX"@,
        CLOUD_ADMIN_API_URL_ENV_VAR@ == "CLOUD_ADMIN_API_URL"@,
        CLOUD_ADMIN_API_TOKEN_ENV_VAR@ == "CLOUD_ADMIN_API_TOKEN"@,
        DISABLE_FILE_LOGGING_ENV_VAR@ == "PAGESERVER_DISABLE_FILE_LOGGING"@,
{
}

/// A report with context holds the context as its message and the rest as its cause.
pub proof fn law_with_context(message: Seq<char>, cause: Seq<char>)
    ensures
        with_context(message, cause).message == message,
        with_context(message, cause).cause == Some(cause),
{
}

} // verus!
