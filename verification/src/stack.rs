//! Stacks: independent installations of the service, and the files each one keeps.
use vstd::prelude::*;
use vstd::string::*;

use crate::constants::{
    BATCH_MANIFEST_PREFIX, BATCH_REPORT_PREFIX, LOGGING_PREFIX, MANAGED_SUFFIX, STACK_BUCKET_DELIMITER,
};
use crate::text;

verus! {

/// The name of an installation. All its buckets carry it as their prefix.
///
/// Which texts may name a stack is decided where the name is read; a `Stack`
/// holds a name that was accepted there.
#[derive(Debug)]
pub struct Stack {
    name: String,
}

/// An object that a stack keeps for itself: a bucket and a key in it.
#[derive(Debug)]
pub struct ManagedFile {
    pub(crate) bucket: String,
    pub(crate) key: String,
}

/// The bucket and the key of an object.
pub struct ObjectView {
    pub bucket: Seq<char>,
    pub key: Seq<char>,
}

impl View for Stack {
    type V = Seq<char>;

    closed spec fn view(&self) -> Seq<char> {
        self.name@
    }
}

impl View for ManagedFile {
    type V = ObjectView;

    closed spec fn view(&self) -> ObjectView {
        ObjectView { bucket: self.bucket@, key: self.key@ }
    }
}

/// The name of the bucket in which a stack keeps its own files.
pub open spec fn managed_bucket_name(stack: Seq<char>) -> Seq<char> {
    stack + MANAGED_SUFFIX@
}

/// The prefix that every bucket name of a stack begins with.
pub open spec fn stack_prefix(stack: Seq<char>) -> Seq<char> {
    stack + STACK_BUCKET_DELIMITER@
}

/// Where the access logs of a bucket are kept.
pub open spec fn logging_location(stack: Seq<char>, bucket: Seq<char>) -> ObjectView {
    ObjectView {
        bucket: managed_bucket_name(stack),
        key: LOGGING_PREFIX@ + "/"@ + bucket + "/"@,
    }
}

/// Where the manifests of a kind of batch job are kept.
pub open spec fn batch_manifest_location(stack: Seq<char>, job_type: Seq<char>) -> ObjectView {
    ObjectView {
        bucket: managed_bucket_name(stack),
        key: BATCH_MANIFEST_PREFIX@ + "/"@ + job_type,
    }
}

/// Where the reports of a kind of batch job on one bucket are kept.
pub open spec fn batch_report_location(
    stack: Seq<char>,
    job_type: Seq<char>,
    bucket: Seq<char>,
) -> ObjectView {
    ObjectView {
        bucket: managed_bucket_name(stack),
        key: BATCH_REPORT_PREFIX@ + "/"@ + job_type + "/"@ + bucket,
    }
}

impl Stack {
    /// The stack with an accepted name.
    pub fn named(name: &str) -> (r: Stack)
        ensures
            r@ == name@,
    {
        Stack { name: String::from_str(name) }
    }

    pub fn as_str(&self) -> (r: &str)
        ensures
            r@ == self@,
    {
        self.name.as_str()
    }

    /// The name of the bucket in which the stack keeps its own files.
    pub fn managed_bucket(&self) -> (r: String)
        ensures
            r@ == managed_bucket_name(self@),
    {
        text::join2(self.as_str(), MANAGED_SUFFIX)
    }

    /// Where the access logs of a bucket are kept.
    pub fn logging_prefix_path(&self, bucket: &str) -> (r: ManagedFile)
        ensures
            r@ == logging_location(self@, bucket@),
    {
        ManagedFile {
            bucket: self.managed_bucket(),
            key: text::join4(LOGGING_PREFIX, "/", bucket, "/"),
        }
    }

    /// Where the manifests of a kind of batch job are kept.
    pub fn batch_manifest_prefix(&self, job_type: &str) -> (r: ManagedFile)
        ensures
            r@ == batch_manifest_location(self@, job_type@),
    {
        ManagedFile {
            bucket: self.managed_bucket(),
            key: text::join3(BATCH_MANIFEST_PREFIX, "/", job_type),
        }
    }

    /// Where the reports of a kind of batch job on one bucket are kept.
    pub fn batch_report_prefix(&self, job_type: &str, bucket: &str) -> (r: ManagedFile)
        ensures
            r@ == batch_report_location(self@, job_type@, bucket@),
    {
        let mut key = text::join4(BATCH_REPORT_PREFIX, "/", job_type, "/");
        key.append(bucket);
        ManagedFile { bucket: self.managed_bucket(), key }
    }
}

impl Clone for Stack {
    fn clone(&self) -> (r: Self)
        ensures
            r == *self,
    {
        Stack { name: self.name.clone() }
    }
}

impl ManagedFile {
    /// The object `key` in `bucket`.
    pub fn new(bucket: &str, key: &str) -> (r: ManagedFile)
        ensures
            r@ == (ObjectView { bucket: bucket@, key: key@ }),
    {
        ManagedFile { bucket: String::from_str(bucket), key: String::from_str(key) }
    }

    pub(crate) proof fn lemma_view(self)
        ensures
            self@ == (ObjectView { bucket: self.bucket@, key: self.key@ }),
    {
    }

    pub fn bucket(&self) -> (r: &str)
        ensures
            r@ == self@.bucket,
    {
        self.bucket.as_str()
    }

    pub fn key(&self) -> (r: &str)
        ensures
            r@ == self@.key,
    {
        self.key.as_str()
    }
}

/// What a stack keeps for itself stands in its managed bucket, which has its name and `-managed`;
/// its other buckets begin with its name and a hyphen.
pub proof fn managed_files_stand_in_the_managed_bucket(
    stack: Seq<char>,
    job_type: Seq<char>,
    bucket: Seq<char>,
)
    ensures
        managed_bucket_name(stack) == stack + "-managed"@,
        stack_prefix(stack) == stack + "-"@,
        logging_location(stack, bucket) == (ObjectView {
            bucket: stack + "-managed"@,
            key: "audit"@ + "/"@ + bucket + "/"@,
        }),
        batch_manifest_location(stack, job_type) == (ObjectView {
            bucket: stack + "-managed"@,
            key: "batch/manifests"@ + "/"@ + job_type,
        }),
        batch_report_location(stack, job_type, bucket) == (ObjectView {
            bucket: stack + "-managed"@,
            key: "batch/reports"@ + "/"@ + job_type + "/"@ + bucket,
        }),
{
}

/// The access logs of different buckets, and the reports of a kind of job on different buckets,
/// are kept in different places.
pub proof fn buckets_have_places_of_their_own(
    stack: Seq<char>,
    job_type: Seq<char>,
    a: Seq<char>,
    b: Seq<char>,
)
    ensures
        logging_location(stack, a) == logging_location(stack, b) ==> a == b,
        batch_report_location(stack, job_type, a) == batch_report_location(stack, job_type, b)
            ==> a == b,
{
    let logs = LOGGING_PREFIX@ + "/"@;
    let x = logging_location(stack, a).key;
    let y = logging_location(stack, b).key;
    if x == y {
        assert(x.len() == logs.len() + a.len() + "/"@.len());
        assert(y.len() == logs.len() + b.len() + "/"@.len());
        assert(a =~= x.subrange(logs.len() as int, (logs.len() + a.len()) as int));
        assert(b =~= y.subrange(logs.len() as int, (logs.len() + b.len()) as int));
    }
    let reports = BATCH_REPORT_PREFIX@ + "/"@ + job_type + "/"@;
    let p = batch_report_location(stack, job_type, a).key;
    let q = batch_report_location(stack, job_type, b).key;
    if p == q {
        assert(a =~= p.skip(reports.len() as int));
        assert(b =~= q.skip(reports.len() as int));
    }
}

} // verus!
