//! Objects in the storage service, seen as files.
use vstd::prelude::*;
use vstd::string::*;

use crate::errors;
use crate::errors::{RequestError, ServiceError};
use crate::stack;
use crate::stack::ManagedFile;
use crate::text;

verus! {

/// Basic type wrapper for an S3 "file" (bucket + key)
#[derive(Debug)]
pub struct File {
    bucket: String,
    object: String,
}

impl View for File {
    type V = stack::ObjectView;

    closed spec fn view(&self) -> stack::ObjectView {
        stack::ObjectView { bucket: self.bucket@, key: self.object@ }
    }
}

/// The address of an object within the storage service.
pub open spec fn s3_address(file: stack::ObjectView) -> Seq<char> {
    "s3://"@ + file.bucket + "/"@ + file.key
}

/// The address of an object on the web.
pub open spec fn http_address(file: stack::ObjectView) -> Seq<char> {
    "https://"@ + file.bucket + ".s3.amazonaws.com/"@ + file.key
}

/// How an object is named as the source of a copy.
pub open spec fn source_of_copy(file: stack::ObjectView) -> Seq<char> {
    file.bucket + "/"@ + file.key
}

impl File {
    pub fn new(bucket: &str, object: &str) -> (r: File)
        ensures
            r@ == (stack::ObjectView { bucket: bucket@, key: object@ }),
    {
        File { bucket: String::from_str(bucket), object: String::from_str(object) }
    }

    pub fn bucket(&self) -> (r: &str)
        ensures
            r@ == self@.bucket,
    {
        self.bucket.as_str()
    }

    pub fn http_url(&self) -> (r: String)
        ensures
            r@ == http_address(self@),
    {
        text::join4("https://", self.bucket.as_str(), ".s3.amazonaws.com/", self.object.as_str())
    }

    pub fn key(&self) -> (r: &str)
        ensures
            r@ == self@.key,
    {
        self.object.as_str()
    }

    pub fn s3_url(&self) -> (r: String)
        ensures
            r@ == s3_address(self@),
    {
        text::join4("s3://", self.bucket.as_str(), "/", self.object.as_str())
    }

    /// How the object is named as the source of a copy.
    pub fn copy_source(&self) -> (r: String)
        ensures
            r@ == source_of_copy(self@),
    {
        text::join3(self.bucket.as_str(), "/", self.object.as_str())
    }
}

impl Clone for File {
    fn clone(&self) -> (r: Self)
        ensures
            r == *self,
    {
        File { bucket: self.bucket.clone(), object: self.object.clone() }
    }
}

impl From<ManagedFile> for File {
    fn from(mf: ManagedFile) -> (r: File) {
        File { bucket: mf.bucket, object: mf.key }
    }
}

impl vstd::std_specs::convert::FromSpecImpl<ManagedFile> for File {
    open spec fn obeys_from_spec() -> bool {
        true
    }

    closed spec fn from_spec(mf: ManagedFile) -> File {
        File { bucket: mf.bucket, object: mf.key }
    }
}

/// A managed file and the file made of it are the same object.
pub proof fn managed_file_is_the_same_object(mf: ManagedFile)
    ensures
        <File as vstd::std_specs::convert::FromSpec<ManagedFile>>::from_spec(mf)@ == mf@,
{
    mf.lemma_view();
}

/// A copy within the storage service: the data does not pass through the caller.
#[derive(Debug)]
pub struct CopyRequest {
    /// The bucket of the copy.
    pub bucket: String,
    /// The key of the copy.
    pub key: String,
    /// What is copied.
    pub copy_source: String,
}

/// The request that copies `src` to `dest`.
pub fn copy(src: &File, dest: &File) -> (r: CopyRequest)
    ensures
        r.bucket@ == dest@.bucket,
        r.key@ == dest@.key,
        r.copy_source@ == source_of_copy(src@),
{
    CopyRequest {
        bucket: String::from_str(dest.bucket()),
        key: String::from_str(dest.key()),
        copy_source: src.copy_source(),
    }
}

/// The name of the local copy of the object at position `index` of a list: the position,
/// at least five digits long, and the last part of the key.
pub open spec fn local_file_name(index: nat, key: Seq<char>) -> Seq<char> {
    text::padded_digits(index, 5) + "-"@ + text::after_last(key, '/')
}

/// The name of the local copy of the object at position `index` of a list.
pub fn local_name(index: usize, file: &File) -> (r: String)
    ensures
        r@ == local_file_name(index as nat, file@.key),
{
    let filename = text::tail_after(file.key(), '/');
    let number = text::zero_padded(index as u128, 5);
    text::join3(number.as_str(), "-", filename)
}

/// Local copies of objects at different positions of a list have different names, and
/// none of the names leads into another directory.
pub proof fn local_names_do_not_collide(i: nat, a: Seq<char>, j: nat, b: Seq<char>)
    ensures
        local_file_name(i, a) == local_file_name(j, b) ==> i == j,
        !local_file_name(i, a).contains('/'),
{
    reveal_strlit("-");
    let x = local_file_name(i, a);
    let y = local_file_name(j, b);
    let p = text::padded_digits(i, 5);
    let q = text::padded_digits(j, 5);
    text::padded_digits_stand_for_the_number(i, 5);
    text::padded_digits_stand_for_the_number(j, 5);
    assert(x[p.len() as int] == '-' && y[q.len() as int] == '-');
    if x == y {
        assert forall|k: int| 0 <= k < p.len() implies x[k] != '-' by {
            assert(x[k] == p[k]);
        }
        assert forall|k: int| 0 <= k < q.len() implies y[k] != '-' by {
            assert(y[k] == q[k]);
        }
        assert(p.len() == q.len());
        assert(p =~= x.take(p.len() as int));
        assert(q =~= y.take(q.len() as int));
    }
    text::lemma_last_position(a, '/');
    let tail = text::after_last(a, '/');
    assert forall|k: int| 0 <= k < x.len() implies x[k] != '/' by {
        if k < p.len() {
            assert(x[k] == p[k]);
        } else if k > p.len() {
            assert(x[k] == tail[k - p.len() - 1]);
        }
    }
}

/// Why the metadata of an object could not be read.
#[derive(Debug)]
pub enum HeadFailure {
    /// The storage service refused; `not_found` says that it knows no such object.
    Service { not_found: bool, error: ServiceError },
    /// The request did not get that far.
    Other(ServiceError),
}

impl HeadFailure {
    /// What is known of the failure.
    pub open spec fn cause(self) -> ServiceError {
        match self {
            HeadFailure::Service { not_found, error } => error,
            HeadFailure::Other(error) => error,
        }
    }

    /// Whether the storage service said that there is no such object.
    pub open spec fn is_missing(self) -> bool {
        self matches HeadFailure::Service { not_found, error } && (not_found || error.has_code(
            missing_codes(),
        ))
    }
}

/// The codes that say that there is no such object.
pub open spec fn missing_codes() -> Seq<&'static str> {
    seq!["NotFound", "NoSuchKey"]
}

/// Whether the storage service said that there is no such object.
pub fn is_missing_object(e: &HeadFailure) -> (r: bool)
    ensures
        r == e.is_missing(),
{
    match e {
        HeadFailure::Service { not_found, error } => {
            let codes = ["NotFound", "NoSuchKey"];
            assert(codes@ =~= missing_codes());
            *not_found || errors::s3_error_has_code(error, &codes)
        },
        HeadFailure::Other(_) => false,
    }
}

/// Check if a file exists in S3, given the reply to a request for its metadata.
/// Returns `Ok(false)` when the object is absent (404/NotFound); other failures
/// (network, permissions, throttling) surface as `Err`.
pub fn file_exists(file: &File, reply: Result<(), HeadFailure>) -> (r: Result<bool, RequestError>)
    ensures
        match reply {
            Ok(_) => r == Ok::<bool, RequestError>(true),
            Err(e) => if e.is_missing() {
                r == Ok::<bool, RequestError>(false)
            } else {
                r matches Err(RequestError::S3 { context, source }) && context@
                    == "failed to head "@ + s3_address(file@) && source == e.cause()
            },
        },
{
    match reply {
        Ok(_) => Ok(true),
        Err(e) => {
            if is_missing_object(&e) {
                return Ok(false);
            }
            let url = file.s3_url();
            let source = match e {
                HeadFailure::Service { not_found: _, error } => error,
                HeadFailure::Other(error) => error,
            };
            Err(RequestError::S3 { context: text::join2("failed to head ", url.as_str()), source })
        },
    }
}

/// The addresses of an object are made of its bucket and its key.
pub proof fn addresses_name_the_bucket_and_the_key(file: stack::ObjectView)
    ensures
        s3_address(file) == "s3://"@ + file.bucket + "/"@ + file.key,
        http_address(file) == "https://"@ + file.bucket + ".s3.amazonaws.com/"@ + file.key,
        source_of_copy(file) == file.bucket + "/"@ + file.key,
{
}

/// The name of a local copy is the position of the object, in at least five digits, a hyphen, and
/// the part of the key behind its last slash.
pub proof fn local_copy_is_named_after_the_position_and_the_key(
    index: nat,
    directory: Seq<char>,
    name: Seq<char>,
)
    requires
        !name.contains('/'),
    ensures
        local_file_name(index, directory + seq!['/'] + name) == local_file_name(index, name),
        local_file_name(index, name) == text::padded_digits(index, 5) + "-"@ + name,
        text::padded_digits(index, 5).len() >= 5,
        text::decimal_value(text::padded_digits(index, 5)) == index,
{
    text::text_is_split_at_the_last_occurrence(directory, '/', name);
    text::padding_reaches_the_width(index, 5);
    text::padded_digits_stand_for_the_number(index, 5);
}

/// An object is taken to be absent only where the storage service itself said so, by its answer or
/// by one of the two codes for it; what went wrong is kept either way.
pub proof fn only_the_service_can_say_that_an_object_is_missing(
    not_found: bool,
    error: ServiceError,
)
    ensures
        (HeadFailure::Service { not_found, error }).is_missing() <==> not_found || (
        error.code is Some && (error.code->0@ == "NotFound"@ || error.code->0@ == "NoSuchKey"@)),
        !HeadFailure::Other(error).is_missing(),
        (HeadFailure::Service { not_found, error }).cause() == error,
        HeadFailure::Other(error).cause() == error,
{
    assert(missing_codes()[0]@ == "NotFound"@);
    assert(missing_codes()[1]@ == "NoSuchKey"@);
}

} // verus!
