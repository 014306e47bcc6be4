//! Why a `soma context` call fails, and where its store is.
use crate::capture::ai_cli::{store_path, IngestError, IngestFault};
use crate::outcome::outcome;
use crate::storage::StorageError;
use crate::text::{cat2, cat3, same};
use vstd::prelude::*;
use vstd::string::*;

verus! {

/// A failure to pack memories, as it describes itself.
#[derive(Debug)]
pub struct PackError {
    pub message: String,
}

/// A failure to record a correction, as it describes itself.
#[derive(Debug)]
pub struct CorrectionError {
    pub message: String,
}

/// A failure of a review action, as it describes itself: what was asked for is not valid,
/// or the store failed.
#[derive(Debug)]
pub enum ReviewActionError {
    Invalid(String),
    Storage(StorageError),
}

/// Why the command failed.
#[derive(Debug)]
pub enum ContextError {
    Storage(StorageError),
    Pack(PackError),
    Correction(CorrectionError),
    ReviewAction(ReviewActionError),
    Path(String),
    BadFormat(String),
}

/// What a `ContextError` holds.
pub enum ContextFault {
    Storage(Seq<char>),
    Pack(Seq<char>),
    Correction(Seq<char>),
    ReviewInvalid(Seq<char>),
    ReviewStorage(Seq<char>),
    Path(Seq<char>),
    BadFormat(Seq<char>),
}

impl DeepView for ContextError {
    type V = ContextFault;

    open spec fn deep_view(&self) -> ContextFault {
        match self {
            ContextError::Storage(e) => ContextFault::Storage(e.message@),
            ContextError::Pack(e) => ContextFault::Pack(e.message@),
            ContextError::Correction(e) => ContextFault::Correction(e.message@),
            ContextError::ReviewAction(ReviewActionError::Invalid(m)) => {
                ContextFault::ReviewInvalid(m@)
            },
            ContextError::ReviewAction(ReviewActionError::Storage(e)) => {
                ContextFault::ReviewStorage(e.message@)
            },
            ContextError::Path(m) => ContextFault::Path(m@),
            ContextError::BadFormat(m) => ContextFault::BadFormat(m@),
        }
    }
}

impl ContextError {
    /// The message of the error.
    pub fn message(&self) -> (r: String)
        ensures
            r@ == match self.deep_view() {
                ContextFault::Storage(m) => "storage: "@ + m,
                ContextFault::Pack(m) => "pack: "@ + m,
                ContextFault::Correction(m) => "correction: "@ + m,
                ContextFault::ReviewInvalid(m) => "review action: "@ + m,
                ContextFault::ReviewStorage(m) => "review action: "@ + m,
                ContextFault::Path(m) => "path: "@ + m,
                ContextFault::BadFormat(m) => "bad format: "@ + m,
            },
    {
        match self {
            ContextError::Storage(e) => cat2("storage: ", e.message.as_str()),
            ContextError::Pack(e) => cat2("pack: ", e.message.as_str()),
            ContextError::Correction(e) => cat2("correction: ", e.message.as_str()),
            ContextError::ReviewAction(ReviewActionError::Invalid(m)) => cat2(
                "review action: ",
                m.as_str(),
            ),
            ContextError::ReviewAction(ReviewActionError::Storage(e)) => cat2(
                "review action: ",
                e.message.as_str(),
            ),
            ContextError::Path(m) => cat2("path: ", m.as_str()),
            ContextError::BadFormat(m) => cat2("bad format: ", m.as_str()),
        }
    }
}

impl From<StorageError> for ContextError {
    fn from(value: StorageError) -> (r: Self) {
        ContextError::Storage(value)
    }
}

impl vstd::std_specs::convert::FromSpecImpl<StorageError> for ContextError {
    open spec fn obeys_from_spec() -> bool {
        true
    }

    open spec fn from_spec(value: StorageError) -> Self {
        ContextError::Storage(value)
    }
}

impl From<PackError> for ContextError {
    fn from(value: PackError) -> (r: Self) {
        ContextError::Pack(value)
    }
}

impl vstd::std_specs::convert::FromSpecImpl<PackError> for ContextError {
    open spec fn obeys_from_spec() -> bool {
        true
    }

    open spec fn from_spec(value: PackError) -> Self {
        ContextError::Pack(value)
    }
}

impl From<CorrectionError> for ContextError {
    fn from(value: CorrectionError) -> (r: Self) {
        ContextError::Correction(value)
    }
}

impl vstd::std_specs::convert::FromSpecImpl<CorrectionError> for ContextError {
    open spec fn obeys_from_spec() -> bool {
        true
    }

    open spec fn from_spec(value: CorrectionError) -> Self {
        ContextError::Correction(value)
    }
}

impl From<ReviewActionError> for ContextError {
    fn from(value: ReviewActionError) -> (r: Self) {
        ContextError::ReviewAction(value)
    }
}

impl vstd::std_specs::convert::FromSpecImpl<ReviewActionError> for ContextError {
    open spec fn obeys_from_spec() -> bool {
        true
    }

    open spec fn from_spec(value: ReviewActionError) -> Self {
        ContextError::ReviewAction(value)
    }
}

/// The exit code of an error: what was asked for, the store and paths each have their
/// own.
pub fn exit_code_for(e: &ContextError) -> (r: i32)
    ensures
        r == match e.deep_view() {
            ContextFault::BadFormat(_) => 1i32,
            ContextFault::ReviewInvalid(_) => 1i32,
            ContextFault::Storage(_) => 2i32,
            ContextFault::Pack(_) => 2i32,
            ContextFault::Correction(_) => 2i32,
            ContextFault::ReviewStorage(_) => 2i32,
            ContextFault::Path(_) => 3i32,
        },
{
    match e {
        ContextError::BadFormat(_) => 1,
        ContextError::ReviewAction(ReviewActionError::Invalid(_)) => 1,
        ContextError::Storage(_) => 2,
        ContextError::Pack(_) => 2,
        ContextError::Correction(_) => 2,
        ContextError::ReviewAction(ReviewActionError::Storage(_)) => 2,
        ContextError::Path(_) => 3,
    }
}

/// What was asked for is not valid.
pub open spec fn bad<T>(message: Seq<char>) -> Result<T, ContextFault> {
    Err(ContextFault::BadFormat(message))
}

pub fn bad_format<T>(message: &str) -> (r: Result<T, ContextError>)
    ensures
        r matches Err(e) && e.deep_view() == ContextFault::BadFormat(message@),
{
    Err(ContextError::BadFormat(message.to_string()))
}

/// The store does not hold what it should hold.
pub fn corrupt<T>(detail: &str) -> (r: Result<T, ContextError>)
    ensures
        r matches Err(e) && e.deep_view() == ContextFault::Storage(detail@),
{
    Err(ContextError::Storage(StorageError { message: detail.to_string() }))
}

/// A result by its value, or by what its error holds.
pub open spec fn plain<T>(r: Result<T, ContextError>) -> Result<T, ContextFault> {
    match r {
        Ok(v) => Ok(v),
        Err(e) => Err(e.deep_view()),
    }
}

/// Where the store of a call is.
#[derive(Debug)]
pub struct ContextCliContext {
    pub db_path: String,
}

/// Where the store is: as chosen, else as the variable `SOMA_DB` says, else below the
/// home directory.
pub open spec fn context_store(
    cli: Option<Seq<char>>,
    env: Option<Seq<char>>,
    home: Option<Seq<char>>,
) -> Result<Seq<char>, ContextFault> {
    match store_path(cli, env, home) {
        Ok(p) => Ok(p),
        Err(IngestFault::Path(m)) => Err(ContextFault::Path(m)),
        Err(f) => Err(ContextFault::Path(crate::capture::ai_cli::fault_text(f))),
    }
}

pub fn resolve_db_path(
    cli_override: Option<&str>,
    env: Option<&str>,
    home: Option<&str>,
) -> (r: Result<String, ContextError>)
    ensures
        outcome(r) == context_store(cli_override.deep_view(), env.deep_view(), home.deep_view()),
{
    match crate::capture::ai_cli::resolve_db_path(cli_override, env, home) {
        Ok(p) => Ok(p),
        Err(IngestError::Path(m)) => Err(ContextError::Path(m)),
        Err(e) => Err(ContextError::Path(e.message())),
    }
}

/// The forms in which an envelope is shown.
#[derive(Debug, Clone, Copy, PartialEq, Eq, Structural)]
pub enum OutputFormat {
    Xml,
    Json,
}

pub open spec fn output_format(s: Seq<char>) -> Result<OutputFormat, ContextFault> {
    if s == "xml"@ || s == "prompt"@ {
        Ok(OutputFormat::Xml)
    } else if s == "json"@ {
        Ok(OutputFormat::Json)
    } else {
        bad("unknown format `"@ + s + "`; expected `xml` or `json`"@)
    }
}

impl OutputFormat {
    pub fn parse(s: &str) -> (r: Result<OutputFormat, ContextError>)
        ensures
            plain(r) == output_format(s@),
    {
        if same(s, "xml") || same(s, "prompt") {
            Ok(OutputFormat::Xml)
        } else if same(s, "json") {
            Ok(OutputFormat::Json)
        } else {
            bad_format(cat3("unknown format `", s, "`; expected `xml` or `json`").as_str())
        }
    }
}

}
