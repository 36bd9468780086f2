//! Buckets, their kinds, and the pairs of a bucket and its replica.
use vstd::prelude::*;
use vstd::string::*;

use crate::constants::{
    BUCKET_TAG_TYPE_KEY, PUBLIC_SUFFIX, REPLICATION_SUFFIX, STACK_BUCKET_DELIMITER,
};
use crate::stack;
use crate::stack::Stack;
use crate::tags;
use crate::tags::Tag;
use crate::text;

verus! {

/// What a bucket is for.
#[derive(Debug, Clone, Copy, PartialEq, Eq, Structural)]
pub enum Type {
    /// Kept by the service for itself.
    Internal,
    /// Readable by everyone.
    Public,
    /// Holds the copies of another bucket's objects.
    Replication,
    /// Holds preserved objects.
    Standard,
}

/// The part of a bucket name that a user chooses.
#[derive(Debug)]
pub struct Name {
    text: String,
}

/// A bucket: its name and what it is for.
#[derive(Debug)]
pub struct Bucket {
    name: String,
    bucket_type: Type,
}

/// A bucket and the bucket that holds the copies of its objects.
#[derive(Debug)]
pub struct BucketPair {
    pub source: Bucket,
    pub replication: Bucket,
}

/// The name and the kind of a bucket.
pub struct BucketView {
    pub name: Seq<char>,
    pub bucket_type: Type,
}

/// A bucket and its replica.
pub struct BucketPairView {
    pub source: BucketView,
    pub replication: BucketView,
}

/// The text that stands for a kind of bucket in tags and messages.
impl View for Type {
    type V = Seq<char>;

    open spec fn view(&self) -> Seq<char> {
        match self {
            Type::Internal => "internal"@,
            Type::Public => "public"@,
            Type::Replication => "replication"@,
            Type::Standard => "standard"@,
        }
    }
}

impl View for Name {
    type V = Seq<char>;

    closed spec fn view(&self) -> Seq<char> {
        self.text@
    }
}

impl View for Bucket {
    type V = BucketView;

    closed spec fn view(&self) -> BucketView {
        BucketView { name: self.name@, bucket_type: self.bucket_type }
    }
}

impl View for BucketPair {
    type V = BucketPairView;

    open spec fn view(&self) -> BucketPairView {
        BucketPairView { source: self.source@, replication: self.replication@ }
    }
}

/// The views of a sequence of buckets.
pub open spec fn bucket_views(buckets: Seq<Bucket>) -> Seq<BucketView> {
    Seq::new(buckets.len(), |i: int| buckets[i]@)
}

/// The views of a sequence of pairs.
pub open spec fn pair_views(pairs: Seq<BucketPair>) -> Seq<BucketPairView> {
    Seq::new(pairs.len(), |i: int| pairs[i]@)
}

/// The kind of bucket that `text` stands for.
pub open spec fn type_named(text: Seq<char>) -> Option<Type> {
    if text == "internal"@ {
        Some(Type::Internal)
    } else if text == "public"@ {
        Some(Type::Public)
    } else if text == "replication"@ {
        Some(Type::Replication)
    } else if text == "standard"@ {
        Some(Type::Standard)
    } else {
        None
    }
}

/// The kind of bucket that its tags give.
pub open spec fn tagged_type(tags: Seq<Tag>) -> Option<Type> {
    match tags::tag_value(tags, BUCKET_TAG_TYPE_KEY@) {
        Some(value) => type_named(value),
        None => None,
    }
}

/// The bucket that holds the objects under a name that a user of the stack chose.
pub open spec fn primary_bucket(stack: Seq<char>, name: Seq<char>) -> BucketView {
    let full = stack::stack_prefix(stack) + name;
    BucketView {
        name: full,
        bucket_type: if PUBLIC_SUFFIX@.is_suffix_of(full) {
            Type::Public
        } else {
            Type::Standard
        },
    }
}

/// The name of the bucket that holds the copies of the objects of `source`.
pub open spec fn replica_name(source: Seq<char>) -> Seq<char> {
    source + REPLICATION_SUFFIX@
}

/// The name of the bucket that holds the copies of the objects of `source`.
pub fn name_of_replica(source: &str) -> (r: String)
    ensures
        r@ == replica_name(source@),
{
    text::join2(source, REPLICATION_SUFFIX)
}

/// The bucket that holds the copies of the objects of the primary bucket.
pub open spec fn replica_bucket(stack: Seq<char>, name: Seq<char>) -> BucketView {
    BucketView {
        name: replica_name(primary_bucket(stack, name).name),
        bucket_type: Type::Replication,
    }
}

impl Type {
    /// The text that stands for the kind in tags and messages.
    pub fn as_str(&self) -> (r: &'static str)
        ensures
            r@ == self@,
    {
        match self {
            Type::Internal => "internal",
            Type::Public => "public",
            Type::Replication => "replication",
            Type::Standard => "standard",
        }
    }

    /// The kind that `text` stands for.
    pub fn parse(text: &str) -> (r: Option<Type>)
        ensures
            r == type_named(text@),
    {
        if text::same(text, "internal") {
            Some(Type::Internal)
        } else if text::same(text, "public") {
            Some(Type::Public)
        } else if text::same(text, "replication") {
            Some(Type::Replication)
        } else if text::same(text, "standard") {
            Some(Type::Standard)
        } else {
            None
        }
    }
}

/// The kind of bucket that its tags give; nothing where the tag is missing or
/// stands for no kind.
pub fn type_from_tags(tags: &[Tag]) -> (r: Option<Type>)
    ensures
        r == tagged_type(tags@),
{
    match tags::find_tag(tags, BUCKET_TAG_TYPE_KEY) {
        Some(value) => Type::parse(value),
        None => None,
    }
}

/// The bucket `name` with the kind that its tags give.
pub fn from_tags(name: &str, tags: &[Tag]) -> (r: Option<Bucket>)
    ensures
        match r {
            Some(bucket) => tagged_type(tags@) is Some && bucket@ == (BucketView {
                name: name@,
                bucket_type: tagged_type(tags@)->0,
            }),
            None => tagged_type(tags@) is None,
        },
{
    match type_from_tags(tags) {
        Some(bucket_type) => Some(Bucket::new(name, bucket_type)),
        None => None,
    }
}

impl Name {
    /// A name that was accepted.
    pub fn accepted(text: &str) -> (r: Name)
        ensures
            r@ == text@,
    {
        Name { text: String::from_str(text) }
    }

    pub fn as_str(&self) -> (r: &str)
        ensures
            r@ == self@,
    {
        self.text.as_str()
    }
}

impl Bucket {
    /// The bucket with a name that was accepted.
    pub fn new(name: &str, bucket_type: Type) -> (r: Bucket)
        ensures
            r@ == (BucketView { name: name@, bucket_type }),
    {
        Bucket { name: String::from_str(name), bucket_type }
    }

    /// The bucket that holds the objects under a name that a user of the stack chose.
    pub fn primary(stack: &Stack, name: &Name) -> (r: Bucket)
        ensures
            r@ == primary_bucket(stack@, name@),
    {
        let full = text::join3(stack.as_str(), STACK_BUCKET_DELIMITER, name.as_str());
        let bucket_type = if text::ends_with(full.as_str(), PUBLIC_SUFFIX) {
            Type::Public
        } else {
            Type::Standard
        };
        Bucket { name: full, bucket_type }
    }

    /// The bucket that holds the copies of the objects of the primary bucket.
    pub fn replication(stack: &Stack, name: &Name) -> (r: Bucket)
        ensures
            r@ == replica_bucket(stack@, name@),
    {
        let full = text::join4(
            stack.as_str(),
            STACK_BUCKET_DELIMITER,
            name.as_str(),
            REPLICATION_SUFFIX,
        );
        Bucket { name: full, bucket_type: Type::Replication }
    }

    pub fn name(&self) -> (r: &str)
        ensures
            r@ == self@.name,
    {
        self.name.as_str()
    }

    pub fn bucket_type(&self) -> (r: &Type)
        ensures
            *r == self@.bucket_type,
    {
        &self.bucket_type
    }
}

impl Clone for Bucket {
    fn clone(&self) -> (r: Self)
        ensures
            r == *self,
    {
        Bucket { name: self.name.clone(), bucket_type: self.bucket_type }
    }
}

impl BucketPair {
    pub fn new(source: Bucket, replication: Bucket) -> (r: BucketPair)
        ensures
            r == (BucketPair { source, replication }),
    {
        BucketPair { source, replication }
    }
}

/// The text of a kind stands for that kind and no other.
pub proof fn type_is_found_by_its_text(bucket_type: Type)
    ensures
        type_named(bucket_type@) == Some(bucket_type),
{
    reveal_strlit("internal");
    reveal_strlit("public");
    reveal_strlit("replication");
    reveal_strlit("standard");
    assert("internal"@[0] == 'i' && "standard"@[0] == 's');
    assert("public"@.len() == 6 && "replication"@.len() == 11);
}

/// The text of each kind, which stands for it in tags and in messages.
pub proof fn kinds_have_their_texts()
    ensures
        Type::Internal@ == "internal"@,
        Type::Public@ == "public"@,
        Type::Replication@ == "replication"@,
        Type::Standard@ == "standard"@,
{
}

/// A text stands for a kind exactly where it is the text of that kind.
pub proof fn text_stands_for_the_kind_it_names(text: Seq<char>, bucket_type: Type)
    ensures
        type_named(text) == Some(bucket_type) <==> text == bucket_type@,
{
    type_is_found_by_its_text(bucket_type);
    if type_named(text) is Some {
        assert(text == (type_named(text)->0)@);
    }
}

/// The kind of a bucket is read from the first tag with the key `BucketType`, and from no other.
pub proof fn kind_is_read_from_the_first_type_tag(tags: Seq<Tag>, i: int, bucket_type: Type)
    requires
        0 <= i < tags.len(),
        tags[i].key@ == "BucketType"@,
        forall|n: int| 0 <= n < i ==> (#[trigger] tags[n]).key@ != "BucketType"@,
    ensures
        tagged_type(tags) == Some(bucket_type) <==> tags[i].value@ == bucket_type@,
{
    tags::first_tag_is_found(tags, "BucketType"@);
    text_stands_for_the_kind_it_names(tags[i].value@, bucket_type);
}

/// A bucket without a tag with the key `BucketType` is of no kind.
pub proof fn bucket_without_a_type_tag_has_no_kind(tags: Seq<Tag>)
    requires
        forall|n: int| 0 <= n < tags.len() ==> (#[trigger] tags[n]).key@ != "BucketType"@,
    ensures
        tagged_type(tags) is None,
{
    tags::first_tag_is_found(tags, "BucketType"@);
}

/// The bucket for a name has the name of the stack, a hyphen and that name; it is public exactly
/// where it ends in `-public`, else standard. Its replica has its name and `-repl`, whatever its
/// kind.
pub proof fn requested_name_gives_the_bucket_and_its_replica(stack: Seq<char>, name: Seq<char>)
    ensures
        primary_bucket(stack, name).name == stack + "-"@ + name,
        primary_bucket(stack, name).bucket_type == Type::Public <==> "-public"@.is_suffix_of(
            stack + "-"@ + name,
        ),
        primary_bucket(stack, name).bucket_type == Type::Standard <==> !"-public"@.is_suffix_of(
            stack + "-"@ + name,
        ),
        replica_bucket(stack, name).name == stack + "-"@ + name + "-repl"@,
        replica_bucket(stack, name).bucket_type == Type::Replication,
        replica_name(name) == name + "-repl"@,
{
}

/// Different names give different buckets and different replicas, and no replica has the name of
/// the bucket it belongs to.
pub proof fn different_names_give_different_buckets(
    stack: Seq<char>,
    a: Seq<char>,
    b: Seq<char>,
)
    requires
        a != b,
    ensures
        primary_bucket(stack, a).name != primary_bucket(stack, b).name,
        replica_bucket(stack, a).name != replica_bucket(stack, b).name,
        replica_bucket(stack, a).name != primary_bucket(stack, a).name,
{
    reveal_strlit("-repl");
    let prefix = stack::stack_prefix(stack);
    let x = primary_bucket(stack, a).name;
    let y = primary_bucket(stack, b).name;
    assert(a =~= x.skip(prefix.len() as int));
    assert(b =~= y.skip(prefix.len() as int));
    let p = replica_bucket(stack, a).name;
    let q = replica_bucket(stack, b).name;
    assert(x =~= p.take(p.len() - 5));
    assert(y =~= q.take(q.len() - 5));
    assert(p.len() == x.len() + 5);
}

} // verus!
