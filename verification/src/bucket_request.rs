//! Requests for new buckets: the files that hold them and the names in them.
use vstd::prelude::*;
use vstd::string::*;

use crate::bucket;
use crate::bucket::{Bucket, BucketPair, BucketPairView, BucketView, Name};
use crate::constants::{
    MAX_BUCKETS_PER_REQUEST, MAX_REQUEST_FILE_SIZE, REPLICATION_SUFFIX, TEXT_PLAIN,
};
use crate::errors::{BucketValidationError, FileKeyError, RequestError, ServiceError};
use crate::file::File;
use crate::pairing;
use crate::stack;
use crate::stack::Stack;
use crate::text;

verus! {

/// The name of the file with this key, without its extension.
pub open spec fn name_in_key(key: Seq<char>) -> Option<Seq<char>> {
    text::before_last(text::after_last(key, '/'), '.')
}

/// Extract the name from an object key.
/// Key format example: `reports/{date_ctx}/manifests/{bucket}.csv`
pub fn name_from_file(file: &File) -> (r: Result<&str, FileKeyError>)
    ensures
        match name_in_key(file@.key) {
            Some(name) => r matches Ok(found) && found@ == name,
            None => r matches Err(FileKeyError::MissingExtension(key)) && key@ == file@.key,
        },
{
    match text::head_before(text::tail_after(file.key(), '/'), '.') {
        Some(name) => Ok(name),
        None => Err(FileKeyError::MissingExtension(String::from_str(file.key()))),
    }
}

proof fn lemma_last_position_is(s: Seq<char>, c: char, p: int)
    requires
        -1 <= p < s.len(),
        p >= 0 ==> s[p] == c,
        forall|i: int| p < i < s.len() ==> s[i] != c,
    ensures
        text::last_position(s, c) == p,
{
    text::lemma_last_position(s, c);
}

/// The name is found in a key that is made of a directory, the name and an extension.
#[verifier::rlimit(40)]
pub proof fn name_is_found_in_its_key(
    directory: Seq<char>,
    name: Seq<char>,
    extension: Seq<char>,
)
    requires
        !name.contains('/'),
        !extension.contains('/'),
        !extension.contains('.'),
    ensures
        name_in_key(directory + seq!['/'] + name + seq!['.'] + extension) == Some(name),
        name_in_key(name + seq!['.'] + extension) == Some(name),
{
    let filename = name + seq!['.'] + extension;
    let key = directory + seq!['/'] + name + seq!['.'] + extension;
    assert(key =~= directory + seq!['/'] + filename);
    assert forall|i: int| 0 <= i < filename.len() implies filename[i] != '/' by {
        if i < name.len() {
            assert(filename[i] == name[i]);
        } else if i > name.len() {
            assert(filename[i] == extension[i - name.len() - 1]);
        }
    }
    assert forall|i: int| name.len() < i < filename.len() implies filename[i] != '.' by {
        assert(filename[i] == extension[i - name.len() - 1]);
    }
    lemma_last_position_is(filename, '.', name.len() as int);
    lemma_last_position_is(filename, '/', -1);
    assert forall|i: int| directory.len() < i < key.len() implies key[i] != '/' by {
        assert(key[i] == filename[i - directory.len() - 1]);
    }
    lemma_last_position_is(key, '/', directory.len() as int);
    assert(text::after_last(key, '/') =~= filename);
    assert(text::after_last(filename, '/') =~= filename);
    assert(filename.take(name.len() as int) =~= name);
}

/// The names in a request: its lines, up to the number of buckets that may be requested.
pub open spec fn requested_names(content: Seq<char>) -> Seq<Seq<char>> {
    let lines = text::lines(content);
    if lines.len() <= MAX_BUCKETS_PER_REQUEST {
        lines
    } else {
        lines.take(MAX_BUCKETS_PER_REQUEST as int)
    }
}

/// Parse prospective bucket names limited to the bucket request max
pub fn parse_request_names(content: &str) -> (r: Vec<String>)
    ensures
        text::texts(r@) == requested_names(content@),
        r@.len() <= MAX_BUCKETS_PER_REQUEST,
{
    let names = text::first_lines(content, MAX_BUCKETS_PER_REQUEST as usize);
    assert(text::texts(names@).len() == names@.len());
    names
}

/// The text that `String::from_utf8_lossy` makes of bytes.
pub uninterp spec fn utf8_lossy(bytes: Seq<u8>) -> Seq<char>;

/// Calls `String::from_utf8_lossy`. Claims that the text depends on the bytes alone, and
/// that bytes that are valid UTF-8 are decoded as they stand. What stands in for other
/// bytes is left unsaid.
#[verifier::external_body]
fn lossy_text(bytes: &Vec<u8>) -> (r: String)
    ensures
        r@ == utf8_lossy(bytes@),
        vstd::utf8::valid_utf8(bytes@) ==> r@ == vstd::utf8::decode_utf8(bytes@),
{
    String::from_utf8_lossy(bytes).into_owned()
}

/// Whether the content type, where there is one, is that of plain text.
pub open spec fn is_plain_text(content_type: Option<&str>) -> bool {
    content_type matches Some(t) ==> TEXT_PLAIN@.is_prefix_of(t@)
}

/// Whether a request file has a length that is known to be too large.
pub open spec fn is_too_large(content_length: Option<i64>) -> bool {
    content_length matches Some(len) && len > MAX_REQUEST_FILE_SIZE
}

/// Verify that a bucket request file can be read, before its content is.
pub fn check_request_file(content_type: Option<&str>, content_length: Option<i64>) -> (r: Result<
    (),
    RequestError,
>)
    ensures
        r is Ok <==> is_plain_text(content_type) && !is_too_large(content_length),
        !is_plain_text(content_type) ==> r matches Err(RequestError::InvalidContentType),
        is_plain_text(content_type) && is_too_large(content_length) ==> r == Err::<
            (),
            RequestError,
        >(
            RequestError::FileTooLarge {
                actual: content_length->0,
                max: MAX_REQUEST_FILE_SIZE as i64,
            },
        ),
{
    if let Some(ct) = content_type {
        if !text::starts_with(ct, TEXT_PLAIN) {
            return Err(RequestError::InvalidContentType);
        }
    }
    if let Some(len) = content_length {
        if len > MAX_REQUEST_FILE_SIZE as i64 {
            return Err(
                RequestError::FileTooLarge { actual: len, max: MAX_REQUEST_FILE_SIZE as i64 },
            );
        }
    }
    Ok(())
}

/// The names in a bucket request file, where it is valid.
pub fn read_request_names(
    content_type: Option<&str>,
    content_length: Option<i64>,
    body: Result<Vec<u8>, ServiceError>,
) -> (r: Result<Vec<String>, RequestError>)
    ensures
        !is_plain_text(content_type) ==> r matches Err(RequestError::InvalidContentType),
        is_plain_text(content_type) && is_too_large(content_length) ==> r == Err::<
            Vec<String>,
            RequestError,
        >(
            RequestError::FileTooLarge {
                actual: content_length->0,
                max: MAX_REQUEST_FILE_SIZE as i64,
            },
        ),
        is_plain_text(content_type) && !is_too_large(content_length) ==> match body {
            Err(e) => r matches Err(RequestError::S3 { context, source }) && context@
                == "failed to read response body"@ && source == e,
            Ok(bytes) => {
                &&& r matches Ok(names)
                &&& text::texts(names@) == requested_names(utf8_lossy(bytes@))
                &&& vstd::utf8::valid_utf8(bytes@) ==> text::texts(names@) == requested_names(
                    vstd::utf8::decode_utf8(bytes@),
                )
            },
        },
{
    match check_request_file(content_type, content_length) {
        Ok(_) => {},
        Err(e) => {
            return Err(e);
        },
    }
    match body {
        Err(e) => Err(
            RequestError::S3 { context: String::from_str("failed to read response body"), source: e },
        ),
        Ok(bytes) => {
            let content = lossy_text(&bytes);
            Ok(parse_request_names(content.as_str()))
        },
    }
}

/// A name that a user asks a bucket for, and what the naming rules say of it.
#[derive(Debug)]
pub struct RequestedName {
    pub text: String,
    /// Whether the text can be part of a bucket name.
    pub name: Result<(), BucketValidationError>,
    /// Whether the primary bucket can have the name that it would get.
    pub primary: Result<(), BucketValidationError>,
    /// Whether the replica can have the name that it would get.
    pub replication: Result<(), BucketValidationError>,
}

impl RequestedName {
    /// The first rule that the name breaks.
    pub open spec fn refusal(self) -> Option<BucketValidationError> {
        match self.name {
            Err(e) => Some(e),
            Ok(_) => match self.primary {
                Err(e) => Some(e),
                Ok(_) => match self.replication {
                    Err(e) => Some(e),
                    Ok(_) => None,
                },
            },
        }
    }

    fn first_refusal(&self) -> (r: Option<BucketValidationError>)
        ensures
            r == self.refusal(),
    {
        match &self.name {
            Err(e) => Some(e.clone()),
            Ok(_) => match &self.primary {
                Err(e) => Some(e.clone()),
                Ok(_) => match &self.replication {
                    Err(e) => Some(e.clone()),
                    Ok(_) => None,
                },
            },
        }
    }

    /// A name that breaks no rule.
    pub fn accepted(text: &str) -> (r: RequestedName)
        ensures
            r.text@ == text@,
            r.refusal() is None,
    {
        RequestedName {
            text: String::from_str(text),
            name: Ok(()),
            primary: Ok(()),
            replication: Ok(()),
        }
    }
}

/// The buckets for a name.
pub open spec fn pair_for(stack: Seq<char>, name: Seq<char>) -> BucketPairView {
    BucketPairView {
        source: bucket::primary_bucket(stack, name),
        replication: bucket::replica_bucket(stack, name),
    }
}

/// The buckets for the names, in their order; the first name that breaks a rule stands
/// for all.
pub open spec fn reviewed(stack: Seq<char>, names: Seq<RequestedName>) -> Result<
    Seq<BucketPairView>,
    BucketValidationError,
>
    decreases names.len(),
{
    if names.len() == 0 {
        Ok(Seq::empty())
    } else {
        match reviewed(stack, names.drop_last()) {
            Err(e) => Err(e),
            Ok(pairs) => match names.last().refusal() {
                Some(e) => Err(e),
                None => Ok(pairs.push(pair_for(stack, names.last().text@))),
            },
        }
    }
}

proof fn lemma_reviewed_error(stack: Seq<char>, names: Seq<RequestedName>, n: int)
    requires
        0 <= n <= names.len(),
        reviewed(stack, names.take(n)) is Err,
    ensures
        reviewed(stack, names) == reviewed(stack, names.take(n)),
    decreases names.len() - n,
{
    if n < names.len() {
        assert(names.take(n + 1).drop_last() =~= names.take(n));
        lemma_reviewed_error(stack, names, n + 1);
    } else {
        assert(names.take(n) =~= names);
    }
}

/// Check that user supplied bucket names are valid and convert
/// to (primary, replication) pairs for the stack.
pub fn review_request_names(stack: &Stack, names: &Vec<RequestedName>) -> (r: Result<
    Vec<BucketPair>,
    BucketValidationError,
>)
    ensures
        match r {
            Ok(pairs) => reviewed(stack@, names@) == Ok::<
                Seq<BucketPairView>,
                BucketValidationError,
            >(bucket::pair_views(pairs@)),
            Err(e) => reviewed(stack@, names@) == Err::<
                Seq<BucketPairView>,
                BucketValidationError,
            >(e),
        },
{
    let mut buckets: Vec<BucketPair> = Vec::new();
    let mut i: usize = 0;
    assert(bucket::pair_views(buckets@) =~= Seq::<BucketPairView>::empty());
    while i < names.len()
        invariant
            i <= names@.len(),
            reviewed(stack@, names@.take(i as int)) == Ok::<
                Seq<BucketPairView>,
                BucketValidationError,
            >(bucket::pair_views(buckets@)),
        decreases names@.len() - i,
    {
        let ghost before = buckets@;
        assert(names@.take(i + 1).drop_last() =~= names@.take(i as int));
        assert(names@.take(i + 1).last() == names@[i as int]);
        if let Some(e) = names[i].first_refusal() {
            proof {
                lemma_reviewed_error(stack@, names@, i + 1);
            }
            return Err(e);
        }
        let partial = Name::accepted(names[i].text.as_str());
        let primary = Bucket::primary(stack, &partial);
        let replication = Bucket::replication(stack, &partial);
        let pair = BucketPair::new(primary, replication);
        buckets.push(pair);
        assert(bucket::pair_views(buckets@) =~= bucket::pair_views(before).push(pair@));
        i += 1;
    }
    assert(names@.take(i as int) =~= names@);
    Ok(buckets)
}

/// A request is accepted exactly where none of its names breaks a rule, and it then gives
/// one pair of buckets for each name, in the order of the names.
pub proof fn review_gives_a_pair_for_each_name(stack: Seq<char>, names: Seq<RequestedName>)
    ensures
        reviewed(stack, names) is Ok <==> forall|i: int|
            0 <= i < names.len() ==> (#[trigger] names[i]).refusal() is None,
        reviewed(stack, names) matches Ok(pairs) ==> pairs.len() == names.len() && forall|i: int|
            0 <= i < names.len() ==> #[trigger] pairs[i] == pair_for(stack, names[i].text@),
    decreases names.len(),
{
    if names.len() > 0 {
        let rest = names.drop_last();
        review_gives_a_pair_for_each_name(stack, rest);
        if reviewed(stack, rest) is Err {
            let i = choose|i: int|
                0 <= i < rest.len() && !((#[trigger] rest[i]).refusal() is None);
            assert(names[i] == rest[i]);
        } else {
            assert forall|i: int| 0 <= i < rest.len() implies (
            #[trigger] names[i]).refusal() is None by {
                assert(rest[i] == names[i]);
            }
            assert(names[names.len() - 1] == names.last());
        }
    }
}

/// The source buckets of pairs.
pub open spec fn sources_of(pairs: Seq<BucketPairView>) -> Seq<BucketView> {
    pairs.map_values(|pair: BucketPairView| pair.source)
}

/// The replicas of pairs.
pub open spec fn replicas_of(pairs: Seq<BucketPairView>) -> Seq<BucketView> {
    pairs.map_values(|pair: BucketPairView| pair.replication)
}

/// The pairs for different names come apart and together again: pairing their source
/// buckets with their replicas gives the same pairs.
pub proof fn reviewed_buckets_pair_again(stack: Seq<char>, names: Seq<RequestedName>)
    requires
        reviewed(stack, names) is Ok,
        forall|i: int, j: int|
            0 <= i < j < names.len() ==> (#[trigger] names[i]).text@ != (
            #[trigger] names[j]).text@,
    ensures
        pairing::all_pair(
            sources_of(reviewed(stack, names)->Ok_0),
            replicas_of(reviewed(stack, names)->Ok_0),
        ),
        pairing::pairs_of(
            sources_of(reviewed(stack, names)->Ok_0),
            replicas_of(reviewed(stack, names)->Ok_0),
        ) == reviewed(stack, names)->Ok_0,
{
    let pairs = reviewed(stack, names)->Ok_0;
    let sources = sources_of(pairs);
    let replicas = replicas_of(pairs);
    review_gives_a_pair_for_each_name(stack, names);
    assert forall|i: int, j: int| 0 <= i < names.len() && 0 <= j < names.len() && i != j implies (
    #[trigger] sources[i]).name != (#[trigger] sources[j]).name by {
        let prefix = stack::stack_prefix(stack);
        let a = names[i].text@;
        let b = names[j].text@;
        assert(sources[i] == pairs[i].source && sources[j] == pairs[j].source);
        assert(sources[i].name == prefix + a && sources[j].name == prefix + b);
        if prefix + a == prefix + b {
            assert(a =~= (prefix + a).skip(prefix.len() as int));
            assert(b =~= (prefix + b).skip(prefix.len() as int));
        }
    }
    assert forall|i: int| 0 <= i < sources.len() implies pairing::replica_of(
        replicas,
        (#[trigger] sources[i]).name,
    ) == Some(replicas[i]) by {
        lemma_replica_at(sources, replicas, i);
    }
    assert forall|i: int| 0 <= i < sources.len() implies #[trigger] pairing::can_pair(
        sources,
        replicas,
        i,
    ) by {
        assert(sources[i] == sources[i]);
    }
    assert(pairing::pairs_of(sources, replicas) =~= pairs) by {
        assert forall|i: int| 0 <= i < pairs.len() implies #[trigger] pairing::pairs_of(
            sources,
            replicas,
        )[i] == pairs[i] by {
            assert(sources[i] == pairs[i].source && replicas[i] == pairs[i].replication);
        }
    }
}

proof fn lemma_replica_at(sources: Seq<BucketView>, replicas: Seq<BucketView>, i: int)
    requires
        sources.len() >= replicas.len(),
        0 <= i < replicas.len(),
        forall|j: int|
            0 <= j < replicas.len() ==> (#[trigger] replicas[j]).name == bucket::replica_name(
                sources[j].name,
            ),
        forall|j: int, k: int|
            0 <= j < sources.len() && 0 <= k < sources.len() && j != k ==> (
            #[trigger] sources[j]).name != (#[trigger] sources[k]).name,
    ensures
        pairing::replica_of(replicas, sources[i].name) == Some(replicas[i]),
    decreases replicas.len(),
{
    let last = replicas.len() - 1;
    if i < last {
        let a = sources[i].name;
        let b = sources[last].name;
        if a + REPLICATION_SUFFIX@ == b + REPLICATION_SUFFIX@ {
            assert((a + REPLICATION_SUFFIX@).len() == (b + REPLICATION_SUFFIX@).len());
            assert(a =~= (a + REPLICATION_SUFFIX@).take(a.len() as int));
            assert(b =~= (b + REPLICATION_SUFFIX@).take(b.len() as int));
        }
        assert(replicas[last].name == bucket::replica_name(b));
        let rest = replicas.drop_last();
        assert forall|j: int| 0 <= j < rest.len() implies (#[trigger] rest[j]).name
            == bucket::replica_name(sources[j].name) by {
            assert(rest[j] == replicas[j]);
        }
        lemma_replica_at(sources, rest, i);
    } else {
        assert(replicas[last].name == bucket::replica_name(sources[last].name));
    }
}

/// A key whose last part has no dot holds no name: what stands before the last slash is not looked
/// at.
pub proof fn key_without_an_extension_holds_no_name(directory: Seq<char>, filename: Seq<char>)
    requires
        !filename.contains('/'),
        !filename.contains('.'),
    ensures
        name_in_key(directory + seq!['/'] + filename) is None,
        name_in_key(filename) is None,
{
    text::text_is_split_at_the_last_occurrence(directory, '/', filename);
    text::text_is_split_at_the_last_occurrence(directory, '.', filename);
}

/// The names in a request are its first five lines, or all of them where there are no more.
pub proof fn first_five_lines_are_requested(content: Seq<char>)
    ensures
        text::lines(content).len() <= 5 ==> requested_names(content) == text::lines(content),
        text::lines(content).len() > 5 ==> requested_names(content).len() == 5,
        forall|i: int|
            0 <= i < requested_names(content).len() ==> #[trigger] requested_names(content)[i]
                == text::lines(content)[i],
{
}

/// A request file is refused where its content type is given and does not begin with
/// `text/plain`, or where it is known to be longer than 512 bytes.
pub proof fn request_file_is_short_plain_text(
    content_type: Option<&str>,
    content_length: Option<i64>,
)
    ensures
        is_plain_text(content_type) <==> content_type is None || "text/plain"@.is_prefix_of(
            content_type->0@,
        ),
        is_too_large(content_length) <==> content_length is Some && content_length->0 > 512,
{
}

/// A name is refused exactly where it breaks one of the three rules, and for the first that it
/// breaks: the one on the name itself, then on the bucket, then on the replica.
pub proof fn first_broken_rule_refuses_a_name(name: RequestedName)
    ensures
        name.refusal() is None <==> name.name is Ok && name.primary is Ok && name.replication is Ok,
        name.name is Err ==> name.refusal() == Some(name.name->Err_0),
        name.name is Ok && name.primary is Err ==> name.refusal() == Some(name.primary->Err_0),
        name.name is Ok && name.primary is Ok && name.replication is Err ==> name.refusal() == Some(
            name.replication->Err_0,
        ),
{
}

/// An accepted request gives for each name, in their order, the bucket with the name of the stack,
/// a hyphen and the name, and its replica with `-repl` behind that.
pub proof fn accepted_names_become_pairs(stack: Seq<char>, names: Seq<RequestedName>, i: int)
    requires
        reviewed(stack, names) is Ok,
        0 <= i < names.len(),
    ensures
        reviewed(stack, names)->Ok_0.len() == names.len(),
        ({
            let pair = reviewed(stack, names)->Ok_0[i];
            let full = stack + "-"@ + names[i].text@;
            &&& pair.source.name == full
            &&& pair.source.bucket_type == (if "-public"@.is_suffix_of(full) {
                bucket::Type::Public
            } else {
                bucket::Type::Standard
            })
            &&& pair.replication.name == full + "-repl"@
            &&& pair.replication.bucket_type == bucket::Type::Replication
        }),
{
    review_gives_a_pair_for_each_name(stack, names);
}

/// A request is refused for the first of its names that breaks a rule.
pub proof fn first_refused_name_refuses_the_request(
    stack: Seq<char>,
    names: Seq<RequestedName>,
    k: int,
)
    requires
        0 <= k < names.len(),
        names[k].refusal() is Some,
        forall|i: int| 0 <= i < k ==> (#[trigger] names[i]).refusal() is None,
    ensures
        reviewed(stack, names) == Err::<Seq<BucketPairView>, BucketValidationError>(
            names[k].refusal()->0,
        ),
    decreases names.len(),
{
    let rest = names.drop_last();
    if k < rest.len() {
        first_refused_name_refuses_the_request(stack, rest, k);
    } else {
        review_gives_a_pair_for_each_name(stack, rest);
    }
}

} // verus!
