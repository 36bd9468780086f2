//! Errors of the library, and what it reads of a failed service call.
use vstd::prelude::*;
use vstd::string::*;

use crate::text;

verus! {

/// What the storage service said about a failed call: its error code and its
/// message, as far as the reply carried them.
#[derive(Debug)]
pub struct ServiceError {
    pub code: Option<String>,
    pub message: Option<String>,
}

/// The text in `value`, or `unknown` where there is none.
pub open spec fn or_unknown(value: Option<String>) -> Seq<char> {
    match value {
        Some(s) => s@,
        None => "unknown"@,
    }
}

pub(crate) fn text_or_unknown(value: &Option<String>) -> (r: &str)
    ensures
        r@ == or_unknown(*value),
{
    match value {
        Some(s) => s.as_str(),
        None => "unknown",
    }
}

impl ServiceError {
    /// Whether the error carries one of `codes`.
    pub open spec fn has_code(self, codes: Seq<&'static str>) -> bool {
        self.code matches Some(code) && text::holds_text(codes, code@)
    }

    /// The report of a read that failed: the operation, the code and the message.
    pub open spec fn read_error(self, operation: Seq<char>) -> Seq<char> {
        operation + " failed (code="@ + or_unknown(self.code) + "): "@ + or_unknown(self.message)
    }
}

impl Clone for ServiceError {
    fn clone(&self) -> (r: Self)
        ensures
            r == *self,
    {
        ServiceError { code: self.code.clone(), message: self.message.clone() }
    }
}

/// Whether a failed call carries one of `codes`.
pub fn s3_error_has_code(e: &ServiceError, codes: &[&'static str]) -> (r: bool)
    ensures
        r == e.has_code(codes@),
{
    match &e.code {
        Some(code) => text::one_of(code.as_str(), codes),
        None => false,
    }
}

/// Describes a read that failed.
pub fn s3_read_error(operation: &str, e: &ServiceError) -> (r: String)
    ensures
        r@ == e.read_error(operation@),
{
    let mut out = text::join4(
        operation,
        " failed (code=",
        text_or_unknown(&e.code),
        "): ",
    );
    out.append(text_or_unknown(&e.message));
    out
}

/// A bucket name or a set of buckets that breaks a rule.
#[derive(Debug)]
pub enum BucketValidationError {
    ValidationError(String),
}

impl BucketValidationError {
    /// What the rule says.
    pub open spec fn text(self) -> Seq<char> {
        match self {
            BucketValidationError::ValidationError(message) => message@,
        }
    }

    /// What the rule says.
    pub fn message(&self) -> (r: &str)
        ensures
            r@ == self.text(),
    {
        match self {
            BucketValidationError::ValidationError(message) => message.as_str(),
        }
    }
}

impl Clone for BucketValidationError {
    fn clone(&self) -> (r: Self)
        ensures
            r == *self,
    {
        match self {
            BucketValidationError::ValidationError(message) => {
                BucketValidationError::ValidationError(message.clone())
            },
        }
    }
}

/// A request that cannot be carried out.
#[derive(Debug)]
pub enum RequestError {
    /// The request file is not plain text.
    InvalidContentType,
    /// The request file is larger than `max` bytes.
    FileTooLarge { actual: i64, max: i64 },
    /// The operation does not exist for the kind of bucket.
    UnsupportedOperation(String),
    /// The request breaks a rule.
    ValidationError(String),
    /// A bucket breaks a naming rule.
    Bucket(BucketValidationError),
    /// The storage service refused a call.
    S3 { context: String, source: ServiceError },
    /// Reading or writing a local file failed.
    Io(String),
}

/// An object key from which no bucket name can be read.
#[derive(Debug)]
pub enum FileKeyError {
    MissingExtension(String),
}

/// A batch job that could not be created or read.
#[derive(Debug)]
pub enum BatchError {
    Request(RequestError),
    S3Control(String),
    Manifest(String),
}

/// Checksum jobs whose buckets could not be resolved.
#[derive(Debug)]
pub enum ComputeChecksumsError {
    BucketDiscovery(RequestError),
    PairBuckets(BucketValidationError),
    InvalidBucket(String),
    ReplicationBucket { bucket: String, source: BucketValidationError },
}

/// Inventory statistics that could not be collected.
#[derive(Debug)]
#[allow(inconsistent_fields)]
pub enum StorageReportError {
    DownloadStats { bucket: String, source: RequestError },
    ParseStats { bucket: String, source: String },
}

/// A reconciliation that ends in an error.
#[derive(Debug)]
pub enum BucketReconciliationError {
    Request(RequestError),
    DriftDetected(String),
}

/// An archive audit that could not go on.
#[derive(Debug)]
pub enum ArchiveItError {
    Io(String),
    Request(RequestError),
}

/// An error carries one of some codes exactly where it has a code at all and that code is one of
/// them.
pub proof fn error_has_a_code_of_the_list(e: ServiceError, codes: Seq<&'static str>)
    ensures
        e.has_code(codes) <==> e.code is Some && exists|i: int|
            0 <= i < codes.len() && (#[trigger] codes[i])@ == e.code->0@,
        e.code is None ==> !e.has_code(codes),
{
}

/// The report of a read that failed names the operation, the code and the message, and says
/// `unknown` for what the reply did not carry.
pub proof fn report_tells_the_code_and_the_message(e: ServiceError, operation: Seq<char>)
    ensures
        e.code is Some && e.message is Some ==> e.read_error(operation) == operation
            + " failed (code="@ + e.code->0@ + "): "@ + e.message->0@,
        e.code is Some && e.message is None ==> e.read_error(operation) == operation
            + " failed (code="@ + e.code->0@ + "): "@ + "unknown"@,
        e.code is None && e.message is Some ==> e.read_error(operation) == operation
            + " failed (code="@ + "unknown"@ + "): "@ + e.message->0@,
        e.code is None && e.message is None ==> e.read_error(operation) == operation
            + " failed (code="@ + "unknown"@ + "): "@ + "unknown"@,
{
}

} // verus!
