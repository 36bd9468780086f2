//! Objects that an archive audit finds to be out of date.
use vstd::prelude::*;

use aws_sdk_s3::types::Tagging;

use crate::errors::{ArchiveItError, RequestError, ServiceError};
use crate::file;
use crate::stack;
use crate::text;

verus! {

/// A moment: seconds since the epoch, and nanoseconds into the second.
#[derive(Debug, Clone, Copy, PartialEq, Eq, Structural)]
pub struct Timestamp {
    pub seconds: i64,
    pub nanos: u32,
}

/// Which objects are out of date, and what is done with them.
#[derive(Debug)]
pub struct ExpirationPolicy {
    pub older_than: Timestamp,
    /// When set, tag matching S3 objects with this key/value pair.
    pub tag: Option<(String, String)>,
}

impl Clone for ExpirationPolicy {
    fn clone(&self) -> (r: Self)
        ensures
            r == *self,
    {
        let tag = match &self.tag {
            Some(tag) => Some((tag.0.clone(), tag.1.clone())),
            None => None,
        };
        ExpirationPolicy { older_than: self.older_than, tag }
    }
}

/// A set of tags, as the storage service takes it.
#[verifier::external_type_specification]
#[verifier::external_body]
pub struct ExTagging(aws_sdk_s3::types::Tagging);

/// The keys and values in a set of tags.
pub uninterp spec fn tag_entries(tagging: Tagging) -> Seq<(Seq<char>, Seq<char>)>;

/// Calls `aws_sdk_s3::types::Tagging::builder` with one tag, made by
/// `aws_sdk_s3::types::Tag::builder`. Claims that the set holds just this key and value:
/// both builders fail only where a part is missing, and none is.
#[verifier::external_body]
fn service_tagging(key: &str, value: &str) -> (r: Result<Tagging, String>)
    ensures
        r is Ok,
        tag_entries(r->Ok_0) == seq![(key@, value@)],
{
    let tag = aws_sdk_s3::types::Tag::builder()
        .key(key)
        .value(value)
        .build()
        .map_err(|e| e.to_string())?;
    Tagging::builder().tag_set(tag).build().map_err(|e| e.to_string())
}

/// The tag that a policy asks for.
pub open spec fn policy_tag(policy: Option<&ExpirationPolicy>) -> Option<(Seq<char>, Seq<char>)> {
    match policy {
        Some(p) => match p.tag {
            Some(tag) => Some((tag.0@, tag.1@)),
            None => None,
        },
        None => None,
    }
}

/// The tags that out of date objects receive, where there is a policy that asks for one.
pub fn build_tagging(policy: Option<&ExpirationPolicy>) -> (r: Result<
    Option<Tagging>,
    ArchiveItError,
>)
    ensures
        match policy_tag(policy) {
            Some(tag) => r matches Ok(Some(tagging)) && tag_entries(tagging) == seq![tag],
            None => r matches Ok(None),
        },
{
    let policy = match policy {
        Some(policy) => policy,
        None => {
            return Ok(None);
        },
    };
    match &policy.tag {
        Some(tag) => match service_tagging(tag.0.as_str(), tag.1.as_str()) {
            Ok(tagging) => Ok(Some(tagging)),
            Err(message) => Err(ArchiveItError::Io(message)),
        },
        None => Ok(None),
    }
}

/// How the tagging of an out of date object ended, given the reply to the request.
pub fn tag_expired(bucket: &str, key: &str, reply: Result<(), ServiceError>) -> (r: Result<
    (),
    ArchiveItError,
>)
    ensures
        match reply {
            Ok(_) => r is Ok,
            Err(e) => r matches Err(ArchiveItError::Request(RequestError::S3 { context, source }))
                && context@ == "failed to tag expired object "@ + file::s3_address(
                stack::ObjectView { bucket: bucket@, key: key@ },
            ) && source == e,
        },
{
    match reply {
        Ok(_) => Ok(()),
        Err(e) => {
            let url = text::join4("s3://", bucket, "/", key);
            let context = text::join2("failed to tag expired object ", url.as_str());
            Err(ArchiveItError::Request(RequestError::S3 { context, source: e }))
        },
    }
}

/// Objects are tagged exactly where there is a policy and it asks for a tag, and with that tag.
pub proof fn policy_decides_on_the_tag(policy: ExpirationPolicy, key: String, value: String)
    ensures
        policy_tag(None) is None,
        policy.tag is None ==> policy_tag(Some(&policy)) is None,
        policy.tag == Some((key, value)) ==> policy_tag(Some(&policy)) == Some((key@, value@)),
{
}

} // verus!
