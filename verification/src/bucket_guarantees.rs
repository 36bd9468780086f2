//! What the listing, the pairing and the request of buckets give for what they are given.
use vstd::prelude::*;

use crate::bucket;
use crate::bucket::{Bucket, BucketPair, BucketView, Name, Type};
use crate::bucket_listing;
use crate::bucket_listing::{BucketListing, FilterView, TagFilter};
use crate::bucket_request;
use crate::bucket_request::RequestedName;
use crate::errors::{
    BucketValidationError, ComputeChecksumsError, FileKeyError, RequestError, ServiceError,
};
use crate::file::File;
use crate::pairing;
use crate::reconciliation;
use crate::reconciliation::ReconcileTarget;
use crate::stack::Stack;
use crate::tags::Tag;
use crate::text;
use crate::user_buckets;
use crate::user_buckets::{BucketCache, StackWalk};

verus! {

proof fn lemma_views(buckets: Seq<Bucket>, views: Seq<BucketView>)
    requires
        bucket::bucket_views(buckets) == views,
    ensures
        buckets.len() == views.len(),
        forall|i: int| 0 <= i < buckets.len() ==> (#[trigger] buckets[i])@ == views[i],
{
    assert forall|i: int| 0 <= i < buckets.len() implies (#[trigger] buckets[i])@ == views[i] by {
        assert(bucket::bucket_views(buckets)[i] == buckets[i]@);
    }
}

/// A bucket of the account is in the listing of a stack where its name begins with that of the
/// stack and a hyphen, it has the tag `Stack` with the name of the stack, its tags give its kind,
/// and the filter lets them through. It is listed with its name and that kind.
pub proof fn bucket_of_the_stack_is_listed(
    stack: &Stack,
    listings: &Result<Vec<BucketListing>, ServiceError>,
    filter: &TagFilter,
    r: Result<Vec<Bucket>, RequestError>,
    j: int,
)
    requires
        call_ensures(bucket_listing::list_for_stack, (stack, listings, filter), r),
        r is Ok,
        listings is Ok,
        0 <= j < listings->Ok_0@.len(),
        ({
            let listing = listings->Ok_0@[j];
            &&& listing.name is Some
            &&& (stack@ + "-"@).is_prefix_of(listing.name->0@)
            &&& listing.tags is Ok
            &&& exists|i: int|
                0 <= i < listing.tags->Ok_0@.len() && (
                #[trigger] listing.tags->Ok_0@[i]).key@ == "Stack"@
                    && listing.tags->Ok_0@[i].value@ == stack@
            &&& bucket::tagged_type(listing.tags->Ok_0@) is Some
            &&& filter@.admits(listing.tags->Ok_0@)
        }),
    ensures
        exists|i: int|
            0 <= i < r->Ok_0@.len() && (#[trigger] r->Ok_0@[i])@.name
                == listings->Ok_0@[j].name->0@ && Some(r->Ok_0@[i]@.bucket_type)
                == bucket::tagged_type(listings->Ok_0@[j].tags->Ok_0@),
{
    let all = listings->Ok_0@;
    let found = bucket_listing::stack_buckets(all, stack@, filter@)->Ok_0;
    bucket_listing::bucket_belongs_by_its_name_and_its_tags(all[j], stack@, filter@);
    bucket_listing::no_bucket_is_left_out(all, stack@, filter@, j);
    lemma_views(r->Ok_0@, found);
    let i = choose|i: int| 0 <= i < found.len() && found[i] == all[j].bucket_view();
    assert(r->Ok_0@[i]@ == all[j].bucket_view());
}

/// The listing of a stack holds its buckets only, each as often as the account lists it and in that
/// order, and it says why where the account could not be listed.
pub proof fn listing_holds_buckets_of_the_stack_only(
    stack: &Stack,
    listings: &Result<Vec<BucketListing>, ServiceError>,
    filter: &TagFilter,
    r: Result<Vec<Bucket>, RequestError>,
)
    requires
        call_ensures(bucket_listing::list_for_stack, (stack, listings, filter), r),
    ensures
        listings is Err ==> r is Err && r->Err_0 is S3 && r->Err_0->context@
            == "failed to list buckets"@ && r->Err_0->source == listings->Err_0,
        r is Ok ==> listings is Ok && bucket::bucket_views(r->Ok_0@) == listings->Ok_0@.filter(
            |l: BucketListing| l.belongs(stack@, filter@),
        ).map_values(
            |l: BucketListing|
                BucketView {
                    name: l.name->0@,
                    bucket_type: bucket::tagged_type(l.tags->Ok_0@)->0,
                },
        ),
        listings is Ok && r is Err ==> r->Err_0 is Bucket && exists|k: int|
            0 <= k < listings->Ok_0@.len() && (#[trigger] listings->Ok_0@[k]).belongs(
                stack@,
                filter@,
            ) && listings->Ok_0@[k].naming == Err::<(), BucketValidationError>(
                r->Err_0->Bucket_0,
            ),
{
    if listings is Ok {
        let all = listings->Ok_0@;
        if r is Ok {
            bucket_listing::stack_holds_every_bucket_that_belongs(all, stack@, filter@);
        } else {
            lemma_refused(all, stack@, filter@);
        }
    }
}

proof fn lemma_refused(all: Seq<BucketListing>, stack: Seq<char>, filter: FilterView)
    requires
        bucket_listing::stack_buckets(all, stack, filter) is Err,
    ensures
        exists|k: int|
            0 <= k < all.len() && (#[trigger] all[k]).belongs(stack, filter) && all[k].naming
                == Err::<(), BucketValidationError>(
                bucket_listing::stack_buckets(all, stack, filter)->Err_0,
            ),
    decreases all.len(),
{
    let rest = all.drop_last();
    if bucket_listing::stack_buckets(rest, stack, filter) is Err {
        lemma_refused(rest, stack, filter);
        let k = choose|k: int|
            0 <= k < rest.len() && (#[trigger] rest[k]).belongs(stack, filter) && rest[k].naming
                == Err::<(), BucketValidationError>(
                bucket_listing::stack_buckets(rest, stack, filter)->Err_0,
            );
        assert(all[k] == rest[k]);
    } else {
        assert(all[all.len() - 1] == all.last());
    }
}

/// The requested buckets of a stack are those among its buckets with the tag `BucketOrigin` and
/// the value `bucket-request`.
pub proof fn requested_buckets_have_the_mark(
    stack: &Stack,
    listings: &Result<Vec<BucketListing>, ServiceError>,
    r: Result<Vec<Bucket>, RequestError>,
)
    requires
        call_ensures(bucket_listing::get_requested, (stack, listings), r),
        r is Ok,
    ensures
        listings is Ok,
        bucket::bucket_views(r->Ok_0@) == listings->Ok_0@.filter(
            |l: BucketListing| l.belongs(stack@, FilterView::Requested),
        ).map_values(
            |l: BucketListing|
                BucketView {
                    name: l.name->0@,
                    bucket_type: bucket::tagged_type(l.tags->Ok_0@)->0,
                },
        ),
{
    bucket_listing::stack_holds_every_bucket_that_belongs(
        listings->Ok_0@,
        stack@,
        FilterView::Requested,
    );
}

/// A listing by kind holds the buckets of the stack that are of one of the kinds; without a kind
/// it is empty, whatever the account holds.
pub proof fn listing_by_kind_holds_these_kinds(
    stack: &Stack,
    listings: &Result<Vec<BucketListing>, ServiceError>,
    types: Vec<Type>,
    r: Result<Vec<Bucket>, RequestError>,
)
    requires
        call_ensures(bucket_listing::list_for_stack_by_type, (stack, listings, types), r),
    ensures
        types@.len() == 0 ==> r is Ok && r->Ok_0@.len() == 0,
        types@.len() > 0 && r is Ok ==> listings is Ok && bucket::bucket_views(r->Ok_0@)
            == listings->Ok_0@.filter(
            |l: BucketListing| l.belongs(stack@, FilterView::OfTypes(types@)),
        ).map_values(
            |l: BucketListing|
                BucketView {
                    name: l.name->0@,
                    bucket_type: bucket::tagged_type(l.tags->Ok_0@)->0,
                },
        ),
        types@.len() > 0 && listings is Err ==> r is Err,
{
    if types@.len() > 0 && listings is Ok && r is Ok {
        bucket_listing::stack_holds_every_bucket_that_belongs(
            listings->Ok_0@,
            stack@,
            FilterView::OfTypes(types@),
        );
    }
}

/// The tags of a bucket are read exactly where its name is known and begins with that of the stack
/// and a hyphen.
pub proof fn tags_are_read_of_buckets_with_the_prefix(
    stack: &Stack,
    name: &Option<String>,
    r: bool,
)
    requires
        call_ensures(bucket_listing::reads_tags, (stack, name), r),
    ensures
        r <==> name is Some && (stack@ + "-"@).is_prefix_of(name->0@),
{
}

/// Parting buckets by their role gives every public and every standard bucket as a source and every
/// replication bucket as a replica, in their order.
pub proof fn buckets_are_parted_by_their_kind(
    buckets: &Vec<Bucket>,
    r: (Vec<Bucket>, Vec<Bucket>),
)
    requires
        call_ensures(pairing::split_by_role, (buckets,), r),
    ensures
        bucket::bucket_views(r.0@) == bucket::bucket_views(buckets@).filter(
            |b: BucketView| b.bucket_type == Type::Public || b.bucket_type == Type::Standard,
        ),
        bucket::bucket_views(r.1@) == bucket::bucket_views(buckets@).filter(
            |b: BucketView| b.bucket_type == Type::Replication,
        ),
{
    pairing::parting_keeps_every_bucket_of_a_role(bucket::bucket_views(buckets@));
}

/// Pairing succeeds exactly where every source has a replica under its name and `-repl` and no two
/// sources have the same name. There is then one pair for each source, in their order, with one of
/// the replicas of that name.
pub proof fn sources_are_paired_by_name(
    sources: Vec<Bucket>,
    replicas: Vec<Bucket>,
    r: Result<Vec<BucketPair>, BucketValidationError>,
)
    requires
        call_ensures(pairing::make_pairs, (sources, replicas), r),
    ensures
        r is Ok <==> (forall|i: int|
            0 <= i < sources@.len() ==> exists|k: int|
                0 <= k < replicas@.len() && (#[trigger] replicas@[k])@.name == (
                #[trigger] sources@[i])@.name + "-repl"@) && (forall|i: int, j: int|
            0 <= i < j < sources@.len() ==> (#[trigger] sources@[i])@.name != (
            #[trigger] sources@[j])@.name),
        r is Ok ==> r->Ok_0@.len() == sources@.len(),
        r is Ok ==> forall|i: int|
            0 <= i < sources@.len() ==> (#[trigger] r->Ok_0@[i]).source@ == sources@[i]@
                && r->Ok_0@[i].replication@.name == sources@[i]@.name + "-repl"@ && exists|k: int|
                0 <= k < replicas@.len() && (#[trigger] replicas@[k])@
                    == r->Ok_0@[i].replication@,
{
    let a = bucket::bucket_views(sources@);
    let b = bucket::bucket_views(replicas@);
    lemma_views(sources@, a);
    lemma_views(replicas@, b);
    pairing::sources_pair_where_each_has_a_replica(a, b);
    let has_replicas = forall|i: int|
        0 <= i < sources@.len() ==> exists|k: int|
            0 <= k < replicas@.len() && (#[trigger] replicas@[k])@.name == (
            #[trigger] sources@[i])@.name + "-repl"@;
    let differ = forall|i: int, j: int|
        0 <= i < j < sources@.len() ==> (#[trigger] sources@[i])@.name != (
        #[trigger] sources@[j])@.name;
    if has_replicas && differ {
        assert forall|i: int| 0 <= i < a.len() implies exists|k: int|
            0 <= k < b.len() && (#[trigger] b[k]).name == (#[trigger] a[i]).name + "-repl"@ by {
            assert(a[i] == sources@[i]@);
            let k = choose|k: int|
                0 <= k < replicas@.len() && (#[trigger] replicas@[k])@.name == sources@[i]@.name
                    + "-repl"@;
            assert(b[k].name == a[i].name + "-repl"@);
        }
        assert forall|i: int, j: int| 0 <= i < j < a.len() implies (#[trigger] a[i]).name != (
        #[trigger] a[j]).name by {
            assert(a[i] == sources@[i]@ && a[j] == sources@[j]@);
        }
    }
    if r is Ok {
        assert forall|i: int| 0 <= i < sources@.len() implies exists|k: int|
            0 <= k < replicas@.len() && (#[trigger] replicas@[k])@.name == (
            #[trigger] sources@[i])@.name + "-repl"@ by {
            assert(a[i] == sources@[i]@);
            let k = choose|k: int|
                0 <= k < b.len() && (#[trigger] b[k]).name == a[i].name + "-repl"@;
            assert(replicas@[k]@ == b[k]);
        }
        assert forall|i: int, j: int| 0 <= i < j < sources@.len() implies (
        #[trigger] sources@[i])@.name != (#[trigger] sources@[j])@.name by {
            assert(a[i] == sources@[i]@ && a[j] == sources@[j]@);
        }
        let pairs = pairing::pairs_of(a, b);
        pairing::pairs_match_by_name(a, b);
        assert(bucket::pair_views(r->Ok_0@).len() == r->Ok_0@.len());
        assert forall|i: int| 0 <= i < sources@.len() implies (#[trigger] r->Ok_0@[i]).source@
            == sources@[i]@ && r->Ok_0@[i].replication@.name == sources@[i]@.name + "-repl"@
            && exists|k: int|
            0 <= k < replicas@.len() && (#[trigger] replicas@[k])@ == r->Ok_0@[i].replication@ by {
            assert(bucket::pair_views(r->Ok_0@)[i] == r->Ok_0@[i]@);
            assert(pairs[i] == r->Ok_0@[i]@);
            let k = choose|k: int| 0 <= k < b.len() && b[k] == pairs[i].replication;
            assert(replicas@[k]@ == b[k]);
        }
    }
}

/// Every public and every standard bucket of a stack is the source of exactly one of the pairs
/// that its checksums are computed for, and there are as many pairs as such buckets.
pub proof fn checksums_cover_every_source_bucket(
    stack: &Stack,
    listings: &Result<Vec<BucketListing>, ServiceError>,
    r: Result<Vec<BucketPair>, ComputeChecksumsError>,
    j: int,
)
    requires
        call_ensures(pairing::resolve_all_checksum_pairs, (stack, listings), r),
        r is Ok,
        listings is Ok,
        0 <= j < listings->Ok_0@.len(),
        listings->Ok_0@[j].belongs(stack@, FilterView::All),
        bucket::tagged_type(listings->Ok_0@[j].tags->Ok_0@) == Some(Type::Public)
            || bucket::tagged_type(listings->Ok_0@[j].tags->Ok_0@) == Some(Type::Standard),
    ensures
        exists|i: int|
            0 <= i < r->Ok_0@.len() && (#[trigger] r->Ok_0@[i]).source@.name
                == listings->Ok_0@[j].name->0@ && r->Ok_0@[i].replication@.name
                == listings->Ok_0@[j].name->0@ + "-repl"@,
        forall|i: int, k: int|
            0 <= i < k < r->Ok_0@.len() ==> (#[trigger] r->Ok_0@[i]).source@.name != (
            #[trigger] r->Ok_0@[k]).source@.name,
        r->Ok_0@.len() == listings->Ok_0@.filter(
            |l: BucketListing| l.belongs(stack@, FilterView::All),
        ).map_values(
            |l: BucketListing|
                BucketView {
                    name: l.name->0@,
                    bucket_type: bucket::tagged_type(l.tags->Ok_0@)->0,
                },
        ).filter(
            |b: BucketView| b.bucket_type == Type::Public || b.bucket_type == Type::Standard,
        ).len(),
{
    let all = listings->Ok_0@;
    let buckets = bucket_listing::stack_buckets(all, stack@, FilterView::All)->Ok_0;
    let sources = pairing::sources_among(buckets);
    let replicas = pairing::replicas_among(buckets);
    let pairs = pairing::pairs_of(sources, replicas);
    let b = all[j].bucket_view();
    bucket_listing::stack_holds_every_bucket_that_belongs(all, stack@, FilterView::All);
    bucket_listing::no_bucket_is_left_out(all, stack@, FilterView::All, j);
    pairing::every_source_bucket_is_paired_once(buckets, b);
    pairing::pairs_match_by_name(sources, replicas);
    assert forall|i: int| 0 <= i < pairs.len() implies #[trigger] r->Ok_0@[i]@ == pairs[i] by {
        assert(bucket::pair_views(r->Ok_0@)[i] == r->Ok_0@[i]@);
    }
    assert(bucket::pair_views(r->Ok_0@).len() == r->Ok_0@.len());
    let i = choose|i: int| 0 <= i < pairs.len() && (#[trigger] pairs[i]).source == b;
    assert(r->Ok_0@[i]@ == pairs[i]);
    assert(r->Ok_0@[i].source@.name == b.name);
    assert forall|i: int, k: int| 0 <= i < k < r->Ok_0@.len() implies (
    #[trigger] r->Ok_0@[i]).source@.name != (#[trigger] r->Ok_0@[k]).source@.name by {
        assert(r->Ok_0@[i]@ == pairs[i] && r->Ok_0@[k]@ == pairs[k]);
    }
}

/// Checksum pairs are refused where the buckets cannot be listed, with that reason, and where a
/// source has no replica.
pub proof fn checksums_fail_with_their_reason(
    stack: &Stack,
    listings: &Result<Vec<BucketListing>, ServiceError>,
    r: Result<Vec<BucketPair>, ComputeChecksumsError>,
)
    requires
        call_ensures(pairing::resolve_all_checksum_pairs, (stack, listings), r),
    ensures
        listings is Err ==> r is Err && r->Err_0 is BucketDiscovery,
        listings is Ok && bucket_listing::stack_buckets(
            listings->Ok_0@,
            stack@,
            FilterView::All,
        ) is Err ==> r is Err && r->Err_0 is BucketDiscovery,
        r is Err ==> r->Err_0 is BucketDiscovery || r->Err_0 is PairBuckets,
{
}

/// The pair for a name is that of the bucket that was found under it, where it is public or
/// standard, and of the replica under the name and `-repl`. Every other bucket is refused under
/// the name that was asked for.
pub proof fn pair_by_name_is_that_of_a_source(
    name: &Name,
    found: Result<Option<Bucket>, RequestError>,
    naming: Result<(), BucketValidationError>,
    r: Result<BucketPair, ComputeChecksumsError>,
)
    requires
        call_ensures(pairing::resolve_checksum_pair_by_name, (name, found, naming), r),
    ensures
        r is Ok <==> naming is Ok && found is Ok && found->Ok_0 is Some && (
        found->Ok_0->0@.bucket_type == Type::Public || found->Ok_0->0@.bucket_type
            == Type::Standard),
        r is Ok ==> r->Ok_0.source == found->Ok_0->0 && r->Ok_0.replication@.name == name@
            + "-repl"@ && r->Ok_0.replication@.bucket_type == Type::Replication,
        found is Err ==> r->Err_0 == ComputeChecksumsError::BucketDiscovery(found->Err_0),
        found is Ok && (found->Ok_0 is None || found->Ok_0->0@.bucket_type == Type::Internal
            || found->Ok_0->0@.bucket_type == Type::Replication) ==> r->Err_0 is InvalidBucket
            && r->Err_0->InvalidBucket_0@ == name@,
{
}

/// Every bucket is reconciled: first the public and standard ones, each with its replica, then the
/// others.
pub proof fn targets_are_all_buckets(buckets: &Vec<Bucket>, r: Vec<ReconcileTarget>)
    requires
        call_ensures(reconciliation::reconcile_targets, (buckets,), r),
    ensures
        ({
            let views = bucket::bucket_views(buckets@);
            let replicas = views.filter(|b: BucketView| b.bucket_type == Type::Replication);
            reconciliation::target_views(r@) == views.filter(
                |b: BucketView| b.bucket_type == Type::Public || b.bucket_type == Type::Standard,
            ).map_values(
                |b: BucketView|
                    reconciliation::TargetView {
                        bucket: b,
                        replica: pairing::replica_of(replicas, b.name),
                    },
            ) + views.filter(
                |b: BucketView|
                    b.bucket_type == Type::Replication || b.bucket_type == Type::Internal,
            ).map_values(
                |b: BucketView| reconciliation::TargetView { bucket: b, replica: None },
            )
        }),
        r@.len() == buckets@.len(),
        forall|i: int|
            0 <= i < r@.len() ==> (#[trigger] r@[i]).bucket@ == reconciliation::target_views(
                r@,
            )[i].bucket,
        forall|i: int|
            0 <= i < r@.len() ==> ((#[trigger] r@[i]).replica is Some
                <==> reconciliation::target_views(r@)[i].replica is Some),
        forall|i: int|
            0 <= i < r@.len() && (#[trigger] r@[i]).replica is Some ==> r@[i].replica->0@
                == reconciliation::target_views(r@)[i].replica->0,
{
    let views = bucket::bucket_views(buckets@);
    let replicas = pairing::replicas_among(views);
    pairing::parting_keeps_every_bucket_of_a_role(views);
    reconciliation::all_given_buckets_are_reconciled(views, replicas);
    reconciliation::every_bucket_is_reconciled_once(views, replicas);
    assert(reconciliation::target_views(r@).len() == r@.len());
}

/// The kind of a bucket is parsed from its text and from nothing else.
pub proof fn kind_is_parsed_from_its_text(text: &str, r: Option<Type>)
    requires
        call_ensures(Type::parse, (text,), r),
    ensures
        r == Some(Type::Internal) <==> text@ == "internal"@,
        r == Some(Type::Public) <==> text@ == "public"@,
        r == Some(Type::Replication) <==> text@ == "replication"@,
        r == Some(Type::Standard) <==> text@ == "standard"@,
{
    bucket::text_stands_for_the_kind_it_names(text@, Type::Internal);
    bucket::text_stands_for_the_kind_it_names(text@, Type::Public);
    bucket::text_stands_for_the_kind_it_names(text@, Type::Replication);
    bucket::text_stands_for_the_kind_it_names(text@, Type::Standard);
}

/// A bucket made of its tags has its name and the kind in its first tag with the key `BucketType`.
pub proof fn tags_give_the_kind_of_a_bucket(
    name: &str,
    tags: &[Tag],
    r: Option<Bucket>,
    i: int,
    bucket_type: Type,
)
    requires
        call_ensures(bucket::from_tags, (name, tags), r),
        0 <= i < tags@.len(),
        tags@[i].key@ == "BucketType"@,
        forall|n: int| 0 <= n < i ==> (#[trigger] tags@[n]).key@ != "BucketType"@,
    ensures
        r is Some && r->0@.bucket_type == bucket_type <==> tags@[i].value@ == bucket_type@,
        r is Some ==> r->0@.name == name@,
{
    bucket::kind_is_read_from_the_first_type_tag(tags@, i, bucket_type);
}

/// The bucket and the replica for a name of a stack.
pub proof fn name_of_a_stack_gives_its_bucket(
    stack: &Stack,
    name: &Name,
    primary: Bucket,
    replica: Bucket,
)
    requires
        call_ensures(Bucket::primary, (stack, name), primary),
        call_ensures(Bucket::replication, (stack, name), replica),
    ensures
        primary@.name == stack@ + "-"@ + name@,
        primary@.bucket_type == (if "-public"@.is_suffix_of(stack@ + "-"@ + name@) {
            Type::Public
        } else {
            Type::Standard
        }),
        replica@.name == primary@.name + "-repl"@,
        replica@.bucket_type == Type::Replication,
{
}

/// A request is accepted exactly where every name keeps every rule, and gives a pair for each name,
/// in their order.
pub proof fn request_is_accepted_where_every_name_is(
    stack: &Stack,
    names: &Vec<RequestedName>,
    r: Result<Vec<BucketPair>, BucketValidationError>,
)
    requires
        call_ensures(bucket_request::review_request_names, (stack, names), r),
    ensures
        r is Ok <==> forall|i: int|
            0 <= i < names@.len() ==> (#[trigger] names@[i]).name is Ok && names@[i].primary is Ok
                && names@[i].replication is Ok,
        r is Ok ==> r->Ok_0@.len() == names@.len(),
        r is Ok ==> forall|i: int|
            0 <= i < names@.len() ==> (#[trigger] r->Ok_0@[i]).source@.name == stack@ + "-"@
                + names@[i].text@ && r->Ok_0@[i].replication@.name == stack@ + "-"@
                + names@[i].text@ + "-repl"@ && r->Ok_0@[i].replication@.bucket_type
                == Type::Replication && r->Ok_0@[i].source@.bucket_type == (
            if "-public"@.is_suffix_of(stack@ + "-"@ + names@[i].text@) {
                Type::Public
            } else {
                Type::Standard
            }),
{
    bucket_request::review_gives_a_pair_for_each_name(stack@, names@);
    assert forall|i: int| 0 <= i < names@.len() implies ((
    #[trigger] names@[i]).refusal() is None <==> names@[i].name is Ok && names@[i].primary is Ok
        && names@[i].replication is Ok) by {
        bucket_request::first_broken_rule_refuses_a_name(names@[i]);
    }
    if r is Ok {
        let pairs = bucket_request::reviewed(stack@, names@)->Ok_0;
        assert(bucket::pair_views(r->Ok_0@).len() == r->Ok_0@.len());
        assert forall|i: int| 0 <= i < names@.len() implies #[trigger] r->Ok_0@[i]@
            == pairs[i] by {
            assert(bucket::pair_views(r->Ok_0@)[i] == r->Ok_0@[i]@);
        }
        assert forall|i: int| 0 <= i < names@.len() implies (#[trigger] r->Ok_0@[i]).source@.name
            == stack@ + "-"@ + names@[i].text@ && r->Ok_0@[i].replication@.name == stack@ + "-"@
            + names@[i].text@ + "-repl"@ && r->Ok_0@[i].replication@.bucket_type
            == Type::Replication && r->Ok_0@[i].source@.bucket_type == (
        if "-public"@.is_suffix_of(stack@ + "-"@ + names@[i].text@) {
            Type::Public
        } else {
            Type::Standard
        }) by {
            bucket_request::accepted_names_become_pairs(stack@, names@, i);
            assert(r->Ok_0@[i]@ == pairs[i]);
        }
    }
}

/// A refused request gives the reason of the first name that breaks a rule.
pub proof fn request_is_refused_for_its_first_bad_name(
    stack: &Stack,
    names: &Vec<RequestedName>,
    r: Result<Vec<BucketPair>, BucketValidationError>,
    k: int,
)
    requires
        call_ensures(bucket_request::review_request_names, (stack, names), r),
        0 <= k < names@.len(),
        names@[k].name is Err || names@[k].primary is Err || names@[k].replication is Err,
        forall|i: int|
            0 <= i < k ==> (#[trigger] names@[i]).name is Ok && names@[i].primary is Ok
                && names@[i].replication is Ok,
    ensures
        names@[k].name is Err ==> r == Err::<Vec<BucketPair>, BucketValidationError>(
            names@[k].name->Err_0,
        ),
        names@[k].name is Ok && names@[k].primary is Err ==> r == Err::<
            Vec<BucketPair>,
            BucketValidationError,
        >(names@[k].primary->Err_0),
        names@[k].name is Ok && names@[k].primary is Ok ==> r == Err::<
            Vec<BucketPair>,
            BucketValidationError,
        >(names@[k].replication->Err_0),
{
    bucket_request::first_broken_rule_refuses_a_name(names@[k]);
    assert forall|i: int| 0 <= i < k implies (#[trigger] names@[i]).refusal() is None by {
        bucket_request::first_broken_rule_refuses_a_name(names@[i]);
    }
    bucket_request::first_refused_name_refuses_the_request(stack@, names@, k);
}

/// The names that a text asks for are its first five lines.
pub proof fn names_are_the_first_five_lines(content: &str, r: Vec<String>)
    requires
        call_ensures(bucket_request::parse_request_names, (content,), r),
    ensures
        r@.len() == (if text::lines(content@).len() <= 5 {
            text::lines(content@).len()
        } else {
            5
        }),
        forall|i: int|
            0 <= i < r@.len() ==> (#[trigger] r@[i])@ == text::lines(content@)[i],
{
    bucket_request::first_five_lines_are_requested(content@);
    let names = text::texts(r@);
    assert(names.len() == r@.len());
    assert forall|i: int| 0 <= i < r@.len() implies (#[trigger] r@[i])@ == text::lines(
        content@,
    )[i] by {
        assert(names[i] == r@[i]@);
    }
}

/// A request file can be read where it is plain text, as far as is known, and not longer than 512
/// bytes, as far as is known.
pub proof fn request_file_is_checked(
    content_type: Option<&str>,
    content_length: Option<i64>,
    r: Result<(), RequestError>,
)
    requires
        call_ensures(bucket_request::check_request_file, (content_type, content_length), r),
    ensures
        r is Ok <==> (content_type is None || "text/plain"@.is_prefix_of(content_type->0@)) && (
        content_length is None || content_length->0 <= 512),
        content_type is Some && !"text/plain"@.is_prefix_of(content_type->0@) ==> r->Err_0
            == RequestError::InvalidContentType,
        (content_type is None || "text/plain"@.is_prefix_of(content_type->0@)) && r is Err
            ==> r->Err_0 == (RequestError::FileTooLarge { actual: content_length->0, max: 512 }),
{
}

/// The names in a request file are read exactly where it can be and its content came, and are then
/// the first five lines of its text.
pub proof fn names_are_read_from_a_request_file(
    content_type: Option<&str>,
    content_length: Option<i64>,
    body: Result<Vec<u8>, ServiceError>,
    r: Result<Vec<String>, RequestError>,
)
    requires
        call_ensures(
            bucket_request::read_request_names,
            (content_type, content_length, body),
            r,
        ),
    ensures
        r is Ok <==> (content_type is None || "text/plain"@.is_prefix_of(content_type->0@)) && (
        content_length is None || content_length->0 <= 512) && body is Ok,
        r is Ok && vstd::utf8::valid_utf8(body->Ok_0@) ==> {
            let lines = text::lines(vstd::utf8::decode_utf8(body->Ok_0@));
            &&& r->Ok_0@.len() == (if lines.len() <= 5 {
                lines.len()
            } else {
                5
            })
            &&& forall|i: int| 0 <= i < r->Ok_0@.len() ==> (#[trigger] r->Ok_0@[i])@ == lines[i]
        },
{
    if r is Ok && vstd::utf8::valid_utf8(body->Ok_0@) {
        let content = vstd::utf8::decode_utf8(body->Ok_0@);
        bucket_request::first_five_lines_are_requested(content);
        let names = text::texts(r->Ok_0@);
        assert(names.len() == r->Ok_0@.len());
        assert forall|i: int| 0 <= i < r->Ok_0@.len() implies (#[trigger] r->Ok_0@[i])@
            == text::lines(content)[i] by {
            assert(names[i] == r->Ok_0@[i]@);
        }
    }
}

/// The name in a key is what stands between its last slash and its last dot.
pub proof fn name_stands_between_slash_and_dot(
    file: &File,
    r: Result<&str, FileKeyError>,
    directory: Seq<char>,
    name: Seq<char>,
    extension: Seq<char>,
)
    requires
        call_ensures(bucket_request::name_from_file, (file,), r),
        !name.contains('/'),
        !extension.contains('/'),
        !extension.contains('.'),
        file@.key == directory + seq!['/'] + name + seq!['.'] + extension || file@.key == name
            + seq!['.'] + extension,
    ensures
        r is Ok,
        r->Ok_0@ == name,
{
    bucket_request::name_is_found_in_its_key(directory, name, extension);
}

/// A key without a dot behind its last slash holds no name, and is named in the error.
pub proof fn key_without_a_dot_is_refused(
    file: &File,
    r: Result<&str, FileKeyError>,
    directory: Seq<char>,
    filename: Seq<char>,
)
    requires
        call_ensures(bucket_request::name_from_file, (file,), r),
        !filename.contains('/'),
        !filename.contains('.'),
        file@.key == directory + seq!['/'] + filename || file@.key == filename,
    ensures
        r is Err,
        r->Err_0->MissingExtension_0@ == file@.key,
{
    bucket_request::key_without_an_extension_holds_no_name(directory, filename);
}

/// The way through the stacks of a user begins at the first of the stacks that the groups name,
/// with nothing gathered.
pub proof fn way_leads_through_every_stack(groups: Vec<Option<Stack>>, r: StackWalk)
    requires
        call_ensures(user_buckets::list_for_user_stacks, (groups,), r),
    ensures
        r@.stacks == groups@.filter(|group: Option<Stack>| group is Some).map_values(
            |group: Option<Stack>| group->0@,
        ),
        r@.position == 0,
        r@.buckets.len() == 0,
{
    user_buckets::groups_give_the_stacks_they_name(groups@);
}

/// The way through the stacks of a user stops at a stack whose buckets are not kept, and comes to
/// its end with the buckets of every stack gathered, one stack after the other.
pub proof fn way_gathers_the_buckets_that_are_kept(
    walk: &mut StackWalk,
    cache: &BucketCache,
    r: Option<Stack>,
)
    requires
        call_ensures(StackWalk::pending, (walk, cache), r),
        old(walk)@.agrees(cache@),
    ensures
        final(walk)@.stacks == old(walk)@.stacks,
        r is Some ==> !cache@.contains_key(r->0@),
        r is Some ==> final(walk)@.position < final(walk)@.stacks.len(),
        r is Some ==> r->0@ == final(walk)@.stacks[final(walk)@.position],
        r is None ==> final(walk)@.buckets == old(walk)@.stacks.map_values(
            |stack: Seq<char>| cache@[stack],
        ).flatten(),
{
    let stacks = old(walk)@.stacks;
    user_buckets::user_reaches_the_buckets_of_every_stack(stacks, stacks.len() as int, cache@);
    assert(stacks.take(stacks.len() as int) =~= stacks);
}

/// The buckets that are supplied for a stack are all of its buckets but the replicas; they are kept
/// for it and gathered behind the others. Where they could not be listed, nothing changes.
pub proof fn supplied_buckets_are_kept_and_gathered(
    walk: &mut StackWalk,
    cache: &mut BucketCache,
    listings: &Result<Vec<BucketListing>, ServiceError>,
    r: Result<(), RequestError>,
)
    requires
        call_ensures(StackWalk::supply, (walk, cache, listings), r),
        old(walk)@.position < old(walk)@.stacks.len(),
    ensures
        r is Err ==> final(cache)@ == old(cache)@ && final(walk)@ == old(walk)@,
        r is Ok ==> listings is Ok && final(walk)@.stacks == old(walk)@.stacks,
        r is Ok ==> final(walk)@.position == old(walk)@.position + 1,
        r is Ok ==> {
            let stack = old(walk)@.stacks[old(walk)@.position];
            let buckets = listings->Ok_0@.filter(
                |l: BucketListing|
                    l.belongs(stack, FilterView::OfTypes(user_buckets::reachable_types())),
            ).map_values(
                |l: BucketListing|
                    BucketView {
                        name: l.name->0@,
                        bucket_type: bucket::tagged_type(l.tags->Ok_0@)->0,
                    },
            );
            &&& final(walk)@.buckets == old(walk)@.buckets + buckets
            &&& final(cache)@ == old(cache)@.insert(stack, buckets)
        },
{
    if r is Ok {
        let stack = old(walk)@.stacks[old(walk)@.position];
        bucket_listing::stack_holds_every_bucket_that_belongs(
            listings->Ok_0@,
            stack,
            FilterView::OfTypes(user_buckets::reachable_types()),
        );
    }
}

} // verus!
