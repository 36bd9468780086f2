//! Which buckets of the account belong to a stack.
use vstd::prelude::*;
use vstd::string::*;

use crate::bucket;
use crate::bucket::{Bucket, BucketView, Type};
use crate::constants::{
    BUCKET_TAG_ORIGIN_KEY, BUCKET_TAG_ORIGIN_VAL, BUCKET_TAG_STACK_KEY, STACK_BUCKET_DELIMITER,
};
use crate::errors::{BucketValidationError, RequestError, ServiceError};
use crate::stack;
use crate::stack::Stack;
use crate::tags;
use crate::tags::Tag;
use crate::text;

verus! {

/// What is known of a bucket of the account.
#[derive(Debug)]
pub struct BucketListing {
    pub name: Option<String>,
    /// The tags of the bucket, as far as they were read.
    pub tags: Result<Vec<Tag>, ServiceError>,
    /// Whether the name is one that a bucket of the service can have.
    pub naming: Result<(), BucketValidationError>,
}

/// The tags that a bucket needs in order to be listed.
#[derive(Debug)]
pub enum TagFilter {
    /// Any tags.
    All,
    /// The mark of buckets that were created on request.
    Requested,
    /// The kind is one of these.
    OfTypes(Vec<Type>),
}

/// The tags that a bucket needs in order to be listed.
pub enum FilterView {
    All,
    Requested,
    OfTypes(Seq<Type>),
}

impl View for TagFilter {
    type V = FilterView;

    open spec fn view(&self) -> FilterView {
        match self {
            TagFilter::All => FilterView::All,
            TagFilter::Requested => FilterView::Requested,
            TagFilter::OfTypes(types) => FilterView::OfTypes(types@),
        }
    }
}

impl FilterView {
    /// Whether the filter lets a bucket with these tags through.
    pub open spec fn admits(self, tags: Seq<Tag>) -> bool {
        match self {
            FilterView::All => true,
            FilterView::Requested => tags::has_tag(
                tags,
                BUCKET_TAG_ORIGIN_KEY@,
                BUCKET_TAG_ORIGIN_VAL@,
            ),
            FilterView::OfTypes(types) => bucket::tagged_type(tags) matches Some(t)
                && types.contains(t),
        }
    }
}

impl TagFilter {
    /// Whether the filter lets a bucket with these tags through.
    pub fn accepts(&self, tags: &Vec<Tag>) -> (r: bool)
        ensures
            r == self@.admits(tags@),
    {
        match self {
            TagFilter::All => true,
            TagFilter::Requested => tags::contains_tag(
                tags.as_slice(),
                BUCKET_TAG_ORIGIN_KEY,
                BUCKET_TAG_ORIGIN_VAL,
            ),
            TagFilter::OfTypes(types) => match bucket::type_from_tags(tags.as_slice()) {
                Some(t) => has_type(types, t),
                None => false,
            },
        }
    }
}

fn has_type(types: &Vec<Type>, t: Type) -> (r: bool)
    ensures
        r == types@.contains(t),
{
    let mut i: usize = 0;
    while i < types.len()
        invariant
            i <= types@.len(),
            forall|j: int| 0 <= j < i ==> types@[j] != t,
        decreases types@.len() - i,
    {
        if types[i] == t {
            return true;
        }
        i += 1;
    }
    false
}

impl BucketListing {
    /// Whether the name begins like those of the buckets of the stack.
    pub open spec fn has_prefix(self, stack: Seq<char>) -> bool {
        self.name matches Some(name) && stack::stack_prefix(stack).is_prefix_of(name@)
    }

    /// Whether the bucket belongs to the stack, by its name and its tags, and has the
    /// tags that are asked for.
    pub open spec fn belongs(self, stack: Seq<char>, filter: FilterView) -> bool {
        &&& self.has_prefix(stack)
        &&& self.tags matches Ok(tags)
        &&& tags::has_tag(tags@, BUCKET_TAG_STACK_KEY@, stack)
        &&& filter.admits(tags@)
        &&& bucket::tagged_type(tags@) is Some
    }

    /// The bucket that is listed, where it belongs to a stack.
    pub open spec fn bucket_view(self) -> BucketView {
        BucketView {
            name: self.name->0@,
            bucket_type: bucket::tagged_type(self.tags->Ok_0@)->0,
        }
    }
}

/// Whether the tags of a bucket with this name are of interest: its name has to begin
/// like those of the buckets of the stack.
pub fn reads_tags(stack: &Stack, name: &Option<String>) -> (r: bool)
    ensures
        r == (name matches Some(n) && stack::stack_prefix(stack@).is_prefix_of(n@)),
{
    match name {
        Some(name) => {
            let prefix = text::join2(stack.as_str(), STACK_BUCKET_DELIMITER);
            text::starts_with(name.as_str(), prefix.as_str())
        },
        None => false,
    }
}

/// The buckets of a stack in the order in which they are listed. The first that belongs
/// to it under a name that it cannot have stands for all.
pub open spec fn stack_buckets(
    listings: Seq<BucketListing>,
    stack: Seq<char>,
    filter: FilterView,
) -> Result<Seq<BucketView>, BucketValidationError>
    decreases listings.len(),
{
    if listings.len() == 0 {
        Ok(Seq::empty())
    } else {
        match stack_buckets(listings.drop_last(), stack, filter) {
            Err(e) => Err(e),
            Ok(buckets) => if !listings.last().belongs(stack, filter) {
                Ok(buckets)
            } else {
                match listings.last().naming {
                    Ok(_) => Ok(buckets.push(listings.last().bucket_view())),
                    Err(e) => Err(e),
                }
            },
        }
    }
}

/// What a listing of a stack gives: its buckets, or why they could not be listed.
pub open spec fn lists(
    r: Result<Vec<Bucket>, RequestError>,
    listings: Result<Vec<BucketListing>, ServiceError>,
    stack: Seq<char>,
    filter: FilterView,
) -> bool {
    match listings {
        Err(e) => r matches Err(RequestError::S3 { context, source }) && context@
            == "failed to list buckets"@ && source == e,
        Ok(all) => match stack_buckets(all@, stack, filter) {
            Ok(buckets) => r matches Ok(found) && bucket::bucket_views(found@) == buckets,
            Err(e) => r matches Err(RequestError::Bucket(refusal)) && refusal == e,
        },
    }
}

/// The buckets of a stack that were let through, in the order in which they are listed. The
/// first that belongs to the stack under a name that it cannot have stands for all.
pub open spec fn kept_buckets(
    listings: Seq<BucketListing>,
    stack: Seq<char>,
    verdicts: Seq<bool>,
) -> Result<Seq<BucketView>, BucketValidationError>
    decreases listings.len(),
{
    if listings.len() == 0 {
        Ok(Seq::empty())
    } else {
        match kept_buckets(listings.drop_last(), stack, verdicts) {
            Err(e) => Err(e),
            Ok(buckets) => if !listings.last().belongs(stack, FilterView::All)
                || !verdicts[listings.len() - 1] {
                Ok(buckets)
            } else {
                match listings.last().naming {
                    Ok(_) => Ok(buckets.push(listings.last().bucket_view())),
                    Err(e) => Err(e),
                }
            },
        }
    }
}

/// Whether each verdict on a bucket of the stack is one that `found` gives on its tags.
pub open spec fn are_verdicts<F: Fn(&Vec<Tag>) -> bool>(
    verdicts: Seq<bool>,
    found: F,
    listings: Seq<BucketListing>,
    stack: Seq<char>,
) -> bool {
    &&& verdicts.len() == listings.len()
    &&& forall|i: int|
        0 <= i < listings.len() && (#[trigger] listings[i]).belongs(stack, FilterView::All)
            ==> call_ensures(found, (&listings[i].tags->Ok_0,), verdicts[i])
}

/// What a listing of a stack gives for verdicts on its buckets: those that were let through,
/// or why they could not be listed.
pub open spec fn lists_kept(
    r: Result<Vec<Bucket>, RequestError>,
    listings: Result<Vec<BucketListing>, ServiceError>,
    stack: Seq<char>,
    verdicts: Seq<bool>,
) -> bool {
    match listings {
        Err(e) => r matches Err(RequestError::S3 { context, source }) && context@
            == "failed to list buckets"@ && source == e,
        Ok(all) => match kept_buckets(all@, stack, verdicts) {
            Ok(buckets) => r matches Ok(found) && bucket::bucket_views(found@) == buckets,
            Err(e) => r matches Err(RequestError::Bucket(refusal)) && refusal == e,
        },
    }
}

/// The buckets of the account, where they could be listed.
pub open spec fn listed(listings: Result<Vec<BucketListing>, ServiceError>) -> Seq<BucketListing> {
    match listings {
        Ok(all) => all@,
        Err(_) => Seq::empty(),
    }
}

proof fn lemma_kept_error(
    listings: Seq<BucketListing>,
    stack: Seq<char>,
    verdicts: Seq<bool>,
    n: int,
)
    requires
        0 <= n <= listings.len(),
        kept_buckets(listings.take(n), stack, verdicts) is Err,
    ensures
        kept_buckets(listings, stack, verdicts) == kept_buckets(listings.take(n), stack, verdicts),
    decreases listings.len() - n,
{
    if n < listings.len() {
        assert(listings.take(n + 1).drop_last() =~= listings.take(n));
        lemma_kept_error(listings, stack, verdicts, n + 1);
    } else {
        assert(listings.take(n) =~= listings);
    }
}

/// Verdicts that let through what a filter admits give the buckets that the filter gives.
pub proof fn verdicts_stand_for_the_filter(
    listings: Seq<BucketListing>,
    stack: Seq<char>,
    verdicts: Seq<bool>,
    filter: FilterView,
)
    requires
        forall|i: int|
            0 <= i < listings.len() && (#[trigger] listings[i]).belongs(stack, FilterView::All)
                ==> verdicts[i] == filter.admits(listings[i].tags->Ok_0@),
    ensures
        kept_buckets(listings, stack, verdicts) == stack_buckets(listings, stack, filter),
    decreases listings.len(),
{
    if listings.len() > 0 {
        let rest = listings.drop_last();
        assert forall|i: int|
            0 <= i < rest.len() && (#[trigger] rest[i]).belongs(
                stack,
                FilterView::All,
            ) implies verdicts[i] == filter.admits(rest[i].tags->Ok_0@) by {
            assert(rest[i] == listings[i]);
        }
        verdicts_stand_for_the_filter(rest, stack, verdicts, filter);
        assert(listings[listings.len() - 1] == listings.last());
    }
}

fn stack_bucket(stack: &Stack, listing: &BucketListing) -> (r: Option<Bucket>)
    ensures
        match r {
            Some(bucket) => listing.belongs(stack@, FilterView::All) && bucket@
                == listing.bucket_view(),
            None => !listing.belongs(stack@, FilterView::All),
        },
{
    if !reads_tags(stack, &listing.name) {
        return None;
    }
    match &listing.name {
        Some(name) => match &listing.tags {
            Ok(tags) => {
                let stack_matches = tags::contains_tag(
                    tags.as_slice(),
                    BUCKET_TAG_STACK_KEY,
                    stack.as_str(),
                );
                if !stack_matches {
                    None
                } else {
                    bucket::from_tags(name.as_str(), tags.as_slice())
                }
            },
            Err(_) => None,
        },
        None => None,
    }
}

fn judge<F: Fn(&Vec<Tag>) -> bool>(stack: &Stack, listings: &Vec<BucketListing>, found: &F) -> (r:
    Vec<bool>)
    requires
        forall|tags: &Vec<Tag>| call_requires(found, (tags,)),
    ensures
        are_verdicts(r@, *found, listings@, stack@),
{
    let mut verdicts: Vec<bool> = Vec::new();
    let mut i: usize = 0;
    while i < listings.len()
        invariant
            forall|tags: &Vec<Tag>| call_requires(found, (tags,)),
            i <= listings@.len(),
            verdicts@.len() == i,
            forall|j: int|
                0 <= j < i && (#[trigger] listings@[j]).belongs(stack@, FilterView::All)
                    ==> call_ensures(found, (&listings@[j].tags->Ok_0,), verdicts@[j]),
        decreases listings@.len() - i,
    {
        let verdict = if stack_bucket(stack, &listings[i]).is_some() {
            match &listings[i].tags {
                Ok(tags) => found(tags),
                Err(_) => false,
            }
        } else {
            false
        };
        verdicts.push(verdict);
        i += 1;
    }
    verdicts
}

/// Get buckets belonging to a stack (prefix match + stack tag) whose tags `found` lets
/// through, given the listing of the buckets of the account.
pub fn list_for_stack_where<F: Fn(&Vec<Tag>) -> bool>(
    stack: &Stack,
    listings: &Result<Vec<BucketListing>, ServiceError>,
    found: F,
) -> (r: Result<Vec<Bucket>, RequestError>)
    requires
        forall|tags: &Vec<Tag>| call_requires(found, (tags,)),
    ensures
        exists|verdicts: Seq<bool>| #[trigger]
            are_verdicts(verdicts, found, listed(*listings), stack@) && lists_kept(
                r,
                *listings,
                stack@,
                verdicts,
            ),
{
    let all = match listings {
        Ok(all) => all,
        Err(e) => {
            assert(are_verdicts(Seq::empty(), found, listed(*listings), stack@));
            return Err(
                RequestError::S3 {
                    context: String::from_str("failed to list buckets"),
                    source: e.clone(),
                },
            );
        },
    };
    let verdicts = judge(stack, all, &found);
    assert(are_verdicts(verdicts@, found, listed(*listings), stack@));
    let mut buckets: Vec<Bucket> = Vec::new();
    let mut i: usize = 0;
    assert(bucket::bucket_views(buckets@) =~= Seq::<BucketView>::empty());
    while i < all.len()
        invariant
            listings matches Ok(l) && *l == *all,
            are_verdicts(verdicts@, found, listed(*listings), stack@),
            i <= all@.len(),
            kept_buckets(all@.take(i as int), stack@, verdicts@) == Ok::<
                Seq<BucketView>,
                BucketValidationError,
            >(bucket::bucket_views(buckets@)),
        decreases all@.len() - i,
    {
        let ghost before = buckets@;
        assert(all@.take(i + 1).drop_last() =~= all@.take(i as int));
        assert(all@.take(i + 1).last() == all@[i as int]);
        let kept = if verdicts[i] {
            stack_bucket(stack, &all[i])
        } else {
            None
        };
        if let Some(bucket) = kept {
            match &all[i].naming {
                Ok(_) => {
                    buckets.push(bucket);
                    assert(bucket::bucket_views(buckets@) =~= bucket::bucket_views(before).push(
                        bucket@,
                    ));
                },
                Err(e) => {
                    proof {
                        lemma_kept_error(all@, stack@, verdicts@, i + 1);
                    }
                    return Err(RequestError::Bucket(e.clone()));
                },
            }
        }
        i += 1;
    }
    assert(all@.take(i as int) =~= all@);
    Ok(buckets)
}

/// Get buckets belonging to a stack (prefix match + stack tag) with optional filter,
/// given the listing of the buckets of the account.
pub fn list_for_stack(
    stack: &Stack,
    listings: &Result<Vec<BucketListing>, ServiceError>,
    filter: &TagFilter,
) -> (r: Result<Vec<Bucket>, RequestError>)
    ensures
        lists(r, *listings, stack@, filter@),
{
    let found = |tags: &Vec<Tag>| -> (b: bool)
        ensures
            b == filter@.admits(tags@),
        { filter.accepts(tags) };
    let r = list_for_stack_where(stack, listings, found);
    proof {
        let all = listed(*listings);
        let verdicts = choose|verdicts: Seq<bool>| #[trigger]
            are_verdicts(verdicts, found, all, stack@) && lists_kept(
                r,
                *listings,
                stack@,
                verdicts,
            );
        verdicts_stand_for_the_filter(all, stack@, verdicts, filter@);
    }
    r
}

/// Get stack buckets that were created via bucket-request (BucketOrigin=bucket-request).
/// These are the buckets eligible for reconciliation.
pub fn get_requested(
    stack: &Stack,
    listings: &Result<Vec<BucketListing>, ServiceError>,
) -> (r: Result<Vec<Bucket>, RequestError>)
    ensures
        lists(r, *listings, stack@, FilterView::Requested),
{
    list_for_stack(stack, listings, &TagFilter::Requested)
}

/// Get stack buckets filtered by type. Nothing is of any other kind, so that the buckets
/// need not be listed where no kind is asked for.
pub fn list_for_stack_by_type(
    stack: &Stack,
    listings: &Result<Vec<BucketListing>, ServiceError>,
    types: Vec<Type>,
) -> (r: Result<Vec<Bucket>, RequestError>)
    ensures
        if types@.len() == 0 {
            r matches Ok(buckets) && buckets@.len() == 0
        } else {
            lists(r, *listings, stack@, FilterView::OfTypes(types@))
        },
{
    if types.len() == 0 {
        return Ok(Vec::new());
    }
    list_for_stack(stack, listings, &TagFilter::OfTypes(types))
}

/// Every bucket that is listed for a stack is one of the account whose name begins with
/// the name of the stack and that belongs to the stack by its tags.
pub proof fn listed_buckets_belong(
    listings: Seq<BucketListing>,
    stack: Seq<char>,
    filter: FilterView,
    i: int,
)
    requires
        stack_buckets(listings, stack, filter) matches Ok(buckets) && 0 <= i < buckets.len(),
    ensures
        stack::stack_prefix(stack).is_prefix_of(
            stack_buckets(listings, stack, filter)->Ok_0[i].name,
        ),
        exists|j: int|
            0 <= j < listings.len() && (#[trigger] listings[j]).belongs(stack, filter)
                && listings[j].bucket_view() == stack_buckets(listings, stack, filter)->Ok_0[i],
    decreases listings.len(),
{
    let rest = listings.drop_last();
    let buckets = stack_buckets(listings, stack, filter)->Ok_0;
    let earlier = stack_buckets(rest, stack, filter)->Ok_0;
    if i < earlier.len() {
        listed_buckets_belong(rest, stack, filter, i);
        let j = choose|j: int|
            0 <= j < rest.len() && (#[trigger] rest[j]).belongs(stack, filter)
                && rest[j].bucket_view() == earlier[i];
        assert(listings[j] == rest[j]);
    } else {
        let last = listings[listings.len() - 1];
        assert(last.belongs(stack, filter) && last.bucket_view() == buckets[i]);
    }
}

/// Whatever is let through, every bucket that is listed belongs to the stack and was let
/// through.
pub proof fn kept_buckets_belong(
    listings: Seq<BucketListing>,
    stack: Seq<char>,
    verdicts: Seq<bool>,
    i: int,
)
    requires
        kept_buckets(listings, stack, verdicts) matches Ok(buckets) && 0 <= i < buckets.len(),
    ensures
        exists|j: int|
            0 <= j < listings.len() && (#[trigger] listings[j]).belongs(stack, FilterView::All)
                && verdicts[j] && listings[j].bucket_view() == kept_buckets(
                listings,
                stack,
                verdicts,
            )->Ok_0[i],
    decreases listings.len(),
{
    let rest = listings.drop_last();
    let buckets = kept_buckets(listings, stack, verdicts)->Ok_0;
    let earlier = kept_buckets(rest, stack, verdicts)->Ok_0;
    if i < earlier.len() {
        kept_buckets_belong(rest, stack, verdicts, i);
        let j = choose|j: int|
            0 <= j < rest.len() && (#[trigger] rest[j]).belongs(stack, FilterView::All)
                && verdicts[j] && rest[j].bucket_view() == earlier[i];
        assert(listings[j] == rest[j]);
    } else {
        let last = listings[listings.len() - 1];
        assert(last.belongs(stack, FilterView::All) && last.bucket_view() == buckets[i]);
    }
}

/// No bucket that belongs to a stack is left out.
pub proof fn no_bucket_is_left_out(
    listings: Seq<BucketListing>,
    stack: Seq<char>,
    filter: FilterView,
    j: int,
)
    requires
        stack_buckets(listings, stack, filter) is Ok,
        0 <= j < listings.len(),
        listings[j].belongs(stack, filter),
    ensures
        stack_buckets(listings, stack, filter)->Ok_0.contains(listings[j].bucket_view()),
    decreases listings.len(),
{
    let rest = listings.drop_last();
    let buckets = stack_buckets(listings, stack, filter)->Ok_0;
    if j < rest.len() {
        no_bucket_is_left_out(rest, stack, filter, j);
        let earlier = stack_buckets(rest, stack, filter)->Ok_0;
        let i = choose|i: int| 0 <= i < earlier.len() && earlier[i] == rest[j].bucket_view();
        assert(buckets[i] == listings[j].bucket_view());
    } else {
        assert(buckets.last() == listings[j].bucket_view());
    }
}

/// A listing by kind holds buckets of these kinds only.
pub proof fn buckets_listed_by_type_are_of_the_type(
    listings: Seq<BucketListing>,
    stack: Seq<char>,
    types: Seq<Type>,
    i: int,
)
    requires
        stack_buckets(listings, stack, FilterView::OfTypes(types)) matches Ok(buckets) && 0 <= i
            < buckets.len(),
    ensures
        types.contains(
            stack_buckets(listings, stack, FilterView::OfTypes(types))->Ok_0[i].bucket_type,
        ),
{
    listed_buckets_belong(listings, stack, FilterView::OfTypes(types), i);
}

/// The buckets that were created on request are among the buckets of the stack.
pub proof fn requested_buckets_belong_to_the_stack(
    listings: Seq<BucketListing>,
    stack: Seq<char>,
    i: int,
)
    requires
        stack_buckets(listings, stack, FilterView::All) is Ok,
        stack_buckets(listings, stack, FilterView::Requested) matches Ok(buckets) && 0 <= i
            < buckets.len(),
    ensures
        stack_buckets(listings, stack, FilterView::All)->Ok_0.contains(
            stack_buckets(listings, stack, FilterView::Requested)->Ok_0[i],
        ),
{
    let requested = stack_buckets(listings, stack, FilterView::Requested)->Ok_0;
    listed_buckets_belong(listings, stack, FilterView::Requested, i);
    let j = choose|j: int|
        0 <= j < listings.len() && (#[trigger] listings[j]).belongs(stack, FilterView::Requested)
            && listings[j].bucket_view() == requested[i];
    no_bucket_is_left_out(listings, stack, FilterView::All, j);
}

/// A filter lets through what it is named after: all buckets, those with the tag `BucketOrigin`
/// and the value `bucket-request`, or those whose kind is one of the given ones.
pub proof fn filter_goes_by_the_tags(tags: Seq<Tag>, types: Seq<Type>)
    ensures
        FilterView::All.admits(tags),
        FilterView::Requested.admits(tags) <==> exists|i: int|
            0 <= i < tags.len() && (#[trigger] tags[i]).key@ == "BucketOrigin"@ && tags[i].value@
                == "bucket-request"@,
        FilterView::OfTypes(types).admits(tags) <==> bucket::tagged_type(tags) is Some
            && types.contains(bucket::tagged_type(tags)->0),
{
    tags::contained_tag_has_the_key_and_the_value(tags, "BucketOrigin"@, "bucket-request"@);
}

/// A bucket belongs to a stack exactly where its name begins with that of the stack and a hyphen,
/// one of its tags has the key `Stack` and the name of the stack, its tags give its kind, and the
/// filter lets them through. It is then listed under its name and with that kind.
pub proof fn bucket_belongs_by_its_name_and_its_tags(
    listing: BucketListing,
    stack: Seq<char>,
    filter: FilterView,
)
    ensures
        listing.belongs(stack, filter) <==> {
            &&& listing.name is Some
            &&& (stack + "-"@).is_prefix_of(listing.name->0@)
            &&& listing.tags is Ok
            &&& exists|i: int|
                0 <= i < listing.tags->Ok_0@.len() && (
                #[trigger] listing.tags->Ok_0@[i]).key@ == "Stack"@
                    && listing.tags->Ok_0@[i].value@ == stack
            &&& bucket::tagged_type(listing.tags->Ok_0@) is Some
            &&& filter.admits(listing.tags->Ok_0@)
        },
        listing.belongs(stack, filter) ==> listing.bucket_view().name == listing.name->0@,
        listing.belongs(stack, filter) ==> Some(listing.bucket_view().bucket_type)
            == bucket::tagged_type(listing.tags->Ok_0@),
{
    if listing.tags is Ok {
        tags::contained_tag_has_the_key_and_the_value(listing.tags->Ok_0@, "Stack"@, stack);
    }
}

/// The buckets of a stack are all those that belong to it, in the order in which they are listed,
/// and no others.
pub proof fn stack_holds_every_bucket_that_belongs(
    listings: Seq<BucketListing>,
    stack: Seq<char>,
    filter: FilterView,
)
    requires
        stack_buckets(listings, stack, filter) is Ok,
    ensures
        stack_buckets(listings, stack, filter)->Ok_0 == listings.filter(
            |l: BucketListing| l.belongs(stack, filter),
        ).map_values(
            |l: BucketListing|
                BucketView {
                    name: l.name->0@,
                    bucket_type: bucket::tagged_type(l.tags->Ok_0@)->0,
                },
        ),
    decreases listings.len(),
{
    reveal(Seq::filter);
    if listings.len() > 0 {
        stack_holds_every_bucket_that_belongs(listings.drop_last(), stack, filter);
    }
    assert(stack_buckets(listings, stack, filter)->Ok_0 =~= listings.filter(
        |l: BucketListing| l.belongs(stack, filter),
    ).map_values(
        |l: BucketListing|
            BucketView { name: l.name->0@, bucket_type: bucket::tagged_type(l.tags->Ok_0@)->0 },
    ));
}

/// Buckets that do not belong to the stack cannot keep it from being listed: the listing succeeds
/// where every bucket that belongs to it has a name that it can have.
pub proof fn listing_succeeds_where_names_are_valid(
    listings: Seq<BucketListing>,
    stack: Seq<char>,
    filter: FilterView,
)
    requires
        forall|i: int|
            0 <= i < listings.len() && (#[trigger] listings[i]).belongs(stack, filter)
                ==> listings[i].naming is Ok,
    ensures
        stack_buckets(listings, stack, filter) is Ok,
    decreases listings.len(),
{
    if listings.len() > 0 {
        let rest = listings.drop_last();
        assert forall|i: int|
            0 <= i < rest.len() && (#[trigger] rest[i]).belongs(
                stack,
                filter,
            ) implies rest[i].naming is Ok by {
            assert(rest[i] == listings[i]);
        }
        listing_succeeds_where_names_are_valid(rest, stack, filter);
        assert(listings.last() == listings[listings.len() - 1]);
    }
}

/// The first bucket that belongs to the stack under a name that it cannot have stands for the
/// whole listing.
pub proof fn first_refused_name_stands_for_the_listing(
    listings: Seq<BucketListing>,
    stack: Seq<char>,
    filter: FilterView,
    k: int,
)
    requires
        0 <= k < listings.len(),
        listings[k].belongs(stack, filter),
        listings[k].naming is Err,
        forall|i: int|
            0 <= i < k && (#[trigger] listings[i]).belongs(stack, filter)
                ==> listings[i].naming is Ok,
    ensures
        stack_buckets(listings, stack, filter) == Err::<Seq<BucketView>, BucketValidationError>(
            listings[k].naming->Err_0,
        ),
    decreases listings.len(),
{
    let rest = listings.drop_last();
    if k < rest.len() {
        first_refused_name_stands_for_the_listing(rest, stack, filter, k);
    } else {
        listing_succeeds_where_names_are_valid(rest, stack, filter);
    }
}

/// With one more bucket in the account, the listing holds one more bucket at its end exactly where
/// that bucket belongs to the stack and was let through; nothing else changes.
pub proof fn one_more_bucket_is_kept_or_left_out(
    listings: Seq<BucketListing>,
    stack: Seq<char>,
    verdicts: Seq<bool>,
    more: BucketListing,
)
    requires
        kept_buckets(listings, stack, verdicts) is Ok,
    ensures
        !(more.belongs(stack, FilterView::All) && verdicts[listings.len() as int]) ==> kept_buckets(
            listings.push(more),
            stack,
            verdicts,
        ) == kept_buckets(listings, stack, verdicts),
        more.belongs(stack, FilterView::All) && verdicts[listings.len() as int]
            && more.naming is Err ==> kept_buckets(listings.push(more), stack, verdicts) == Err::<
            Seq<BucketView>,
            BucketValidationError,
        >(more.naming->Err_0),
        more.belongs(stack, FilterView::All) && verdicts[listings.len() as int]
            && more.naming is Ok ==> kept_buckets(listings.push(more), stack, verdicts) == Ok::<
            Seq<BucketView>,
            BucketValidationError,
        >(
            kept_buckets(listings, stack, verdicts)->Ok_0.push(
                BucketView {
                    name: more.name->0@,
                    bucket_type: bucket::tagged_type(more.tags->Ok_0@)->0,
                },
            ),
        ),
        kept_buckets(Seq::empty(), stack, verdicts) == Ok::<Seq<BucketView>, BucketValidationError>(
            Seq::empty(),
        ),
{
    assert(listings.push(more).drop_last() =~= listings);
}

} // verus!
