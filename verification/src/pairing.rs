//! Which bucket holds the copies of the objects of which other bucket.
use vstd::prelude::*;
use vstd::string::*;

use crate::bucket;
use crate::bucket::{Bucket, BucketPair, BucketView, Name, Type};
use crate::bucket_listing;
use crate::bucket_listing::{BucketListing, FilterView, TagFilter};
use crate::constants::REPLICATION_SUFFIX;
use crate::errors::{BucketValidationError, ComputeChecksumsError, RequestError, ServiceError};
use crate::stack::Stack;
use crate::text;

verus! {

/// The replica of the bucket `source`: the last bucket with its name and the suffix of
/// replicas.
pub open spec fn replica_of(
    replicas: Seq<BucketView>,
    source: Seq<char>,
) -> Option<BucketView>
    decreases replicas.len(),
{
    if replicas.len() == 0 {
        None
    } else if replicas.last().name == bucket::replica_name(source) {
        Some(replicas.last())
    } else {
        replica_of(replicas.drop_last(), source)
    }
}

/// Whether the source at position `i` has a replica that no source before it took.
pub open spec fn can_pair(sources: Seq<BucketView>, replicas: Seq<BucketView>, i: int) -> bool {
    &&& replica_of(replicas, sources[i].name) is Some
    &&& forall|j: int| 0 <= j < i ==> (#[trigger] sources[j]).name != sources[i].name
}

/// Whether every source has a replica of its own.
pub open spec fn all_pair(sources: Seq<BucketView>, replicas: Seq<BucketView>) -> bool {
    forall|i: int| 0 <= i < sources.len() ==> #[trigger] can_pair(sources, replicas, i)
}

/// The pairs of the sources with their replicas, in the order of the sources.
pub open spec fn pairs_of(
    sources: Seq<BucketView>,
    replicas: Seq<BucketView>,
) -> Seq<bucket::BucketPairView> {
    Seq::new(
        sources.len(),
        |i: int|
            bucket::BucketPairView {
                source: sources[i],
                replication: replica_of(replicas, sources[i].name)->0,
            },
    )
}

/// What is said of a source without a replica.
pub open spec fn no_replica_text(source: Seq<char>) -> Seq<char> {
    "no replication bucket found for '"@ + source + "'"@
}

/// Whether `e` is about the first source that has no replica of its own.
pub open spec fn is_pairing_error(
    e: BucketValidationError,
    sources: Seq<BucketView>,
    replicas: Seq<BucketView>,
) -> bool {
    exists|i: int|
        {
            &&& 0 <= i < sources.len()
            &&& !(#[trigger] can_pair(sources, replicas, i))
            &&& forall|j: int| 0 <= j < i ==> #[trigger] can_pair(sources, replicas, j)
            &&& e.text() == no_replica_text(sources[i].name)
        }
}

/// The replica of the bucket `source` among `replicas`.
pub fn find_replica(replicas: &Vec<Bucket>, source: &str) -> (r: Option<Bucket>)
    ensures
        match r {
            Some(b) => replica_of(bucket::bucket_views(replicas@), source@) == Some(b@),
            None => replica_of(bucket::bucket_views(replicas@), source@) is None,
        },
{
    let wanted = bucket::name_of_replica(source);
    let ghost views = bucket::bucket_views(replicas@);
    let mut i: usize = replicas.len();
    assert(views.take(i as int) =~= views);
    while i > 0
        invariant
            views == bucket::bucket_views(replicas@),
            wanted@ == bucket::replica_name(source@),
            i <= replicas@.len(),
            replica_of(views, source@) == replica_of(views.take(i as int), source@),
        decreases i,
    {
        assert(views.take(i as int).drop_last() =~= views.take(i - 1));
        assert(views.take(i as int).last() == replicas@[i - 1]@);
        if text::same(replicas[i - 1].name(), wanted.as_str()) {
            return Some(replicas[i - 1].clone());
        }
        i -= 1;
    }
    None
}

fn occurs_before(buckets: &Vec<Bucket>, n: usize) -> (r: bool)
    requires
        n < buckets@.len(),
    ensures
        r == exists|j: int|
            0 <= j < n && (#[trigger] buckets@[j])@.name == buckets@[n as int]@.name,
{
    let mut j: usize = 0;
    while j < n
        invariant
            j <= n < buckets@.len(),
            forall|k: int|
                0 <= k < j ==> (#[trigger] buckets@[k])@.name != buckets@[n as int]@.name,
        decreases n - j,
    {
        if text::same(buckets[j].name(), buckets[n].name()) {
            return true;
        }
        j += 1;
    }
    false
}

/// Pair source buckets with their replication buckets.
/// Returns an error if any source bucket lacks a matching replication bucket.
pub fn make_pairs(source_buckets: Vec<Bucket>, replication_buckets: Vec<Bucket>) -> (r: Result<
    Vec<BucketPair>,
    BucketValidationError,
>)
    ensures
        match r {
            Ok(pairs) => {
                &&& all_pair(
                    bucket::bucket_views(source_buckets@),
                    bucket::bucket_views(replication_buckets@),
                )
                &&& bucket::pair_views(pairs@) == pairs_of(
                    bucket::bucket_views(source_buckets@),
                    bucket::bucket_views(replication_buckets@),
                )
            },
            Err(e) => is_pairing_error(
                e,
                bucket::bucket_views(source_buckets@),
                bucket::bucket_views(replication_buckets@),
            ),
        },
        r is Ok <==> all_pair(
            bucket::bucket_views(source_buckets@),
            bucket::bucket_views(replication_buckets@),
        ),
{
    let ghost sources = bucket::bucket_views(source_buckets@);
    let ghost replicas = bucket::bucket_views(replication_buckets@);
    let mut pairs: Vec<BucketPair> = Vec::new();
    let mut i: usize = 0;
    while i < source_buckets.len()
        invariant
            sources == bucket::bucket_views(source_buckets@),
            replicas == bucket::bucket_views(replication_buckets@),
            i <= source_buckets@.len(),
            pairs@.len() == i,
            forall|j: int| 0 <= j < i ==> #[trigger] can_pair(sources, replicas, j),
            forall|j: int|
                0 <= j < i ==> (#[trigger] pairs@[j])@ == pairs_of(sources, replicas)[j],
        decreases source_buckets@.len() - i,
    {
        let source = &source_buckets[i];
        assert(sources[i as int] == source@);
        let taken = occurs_before(&source_buckets, i);
        proof {
            if taken {
                let j = choose|j: int|
                    0 <= j < i && (#[trigger] source_buckets@[j])@.name
                        == source_buckets@[i as int]@.name;
                assert(sources[j].name == sources[i as int].name);
            } else {
                assert forall|j: int| 0 <= j < i implies (#[trigger] sources[j]).name
                    != sources[i as int].name by {
                    assert(sources[j] == source_buckets@[j]@);
                }
            }
        }
        let replica = if taken {
            None
        } else {
            find_replica(&replication_buckets, source.name())
        };
        match replica {
            Some(replication) => {
                assert(can_pair(sources, replicas, i as int));
                pairs.push(BucketPair::new(source.clone(), replication));
            },
            None => {
                assert(!can_pair(sources, replicas, i as int));
                let message = text::join3(
                    "no replication bucket found for '",
                    source.name(),
                    "'",
                );
                return Err(BucketValidationError::ValidationError(message));
            },
        }
        i += 1;
    }
    assert(bucket::pair_views(pairs@) =~= pairs_of(sources, replicas));
    Ok(pairs)
}

/// The replica of a bucket has its name and the suffix of replicas, and is one of the
/// replicas that were given.
pub proof fn replica_has_the_name(replicas: Seq<BucketView>, source: Seq<char>)
    ensures
        replica_of(replicas, source) matches Some(replica) ==> replica.name
            == bucket::replica_name(source) && replicas.contains(replica),
        replica_of(replicas, source) is Some <==> exists|i: int|
            0 <= i < replicas.len() && (#[trigger] replicas[i]).name == bucket::replica_name(
                source,
            ),
    decreases replicas.len(),
{
    if replicas.len() > 0 {
        let rest = replicas.drop_last();
        replica_has_the_name(rest, source);
        if replicas.last().name == bucket::replica_name(source) {
            assert(replicas[replicas.len() - 1] == replicas.last());
        } else {
            if replica_of(rest, source) is Some {
                let replica = replica_of(rest, source)->0;
                let i = choose|i: int| 0 <= i < rest.len() && rest[i] == replica;
                assert(replicas[i] == replica);
            }
            if exists|i: int|
                0 <= i < replicas.len() && (#[trigger] replicas[i]).name == bucket::replica_name(
                    source,
                ) {
                let i = choose|i: int|
                    0 <= i < replicas.len() && (#[trigger] replicas[i]).name
                        == bucket::replica_name(source);
                assert(rest[i] == replicas[i]);
            }
        }
    }
}

/// Every pair is made of a source and the replica with its name, and no replica occurs in
/// two pairs.
pub proof fn pairs_match_by_name(sources: Seq<BucketView>, replicas: Seq<BucketView>)
    requires
        all_pair(sources, replicas),
    ensures
        forall|i: int|
            0 <= i < sources.len() ==> (#[trigger] pairs_of(sources, replicas)[i]).source
                == sources[i] && pairs_of(sources, replicas)[i].replication.name
                == bucket::replica_name(sources[i].name) && replicas.contains(
                pairs_of(sources, replicas)[i].replication,
            ),
        forall|i: int, j: int|
            0 <= i < j < sources.len() ==> (#[trigger] pairs_of(
                sources,
                replicas,
            )[i]).replication.name != (#[trigger] pairs_of(sources, replicas)[j]).replication.name,
{
    let pairs = pairs_of(sources, replicas);
    assert forall|i: int| 0 <= i < sources.len() implies (#[trigger] pairs[i]).source == sources[i]
        && pairs[i].replication.name == bucket::replica_name(sources[i].name)
        && replicas.contains(pairs[i].replication) by {
        assert(can_pair(sources, replicas, i));
        replica_has_the_name(replicas, sources[i].name);
    }
    assert forall|i: int, j: int| 0 <= i < j < sources.len() implies (
    #[trigger] pairs[i]).replication.name != (#[trigger] pairs[j]).replication.name by {
        assert(can_pair(sources, replicas, j));
        let a = sources[i].name;
        let b = sources[j].name;
        assert(pairs[i].replication.name == a + REPLICATION_SUFFIX@);
        assert(pairs[j].replication.name == b + REPLICATION_SUFFIX@);
        if a + REPLICATION_SUFFIX@ == b + REPLICATION_SUFFIX@ {
            assert(a =~= (a + REPLICATION_SUFFIX@).take(a.len() as int));
            assert(b =~= (b + REPLICATION_SUFFIX@).take(b.len() as int));
            assert((a + REPLICATION_SUFFIX@).len() == (b + REPLICATION_SUFFIX@).len());
        }
    }
}

/// Whether a bucket takes uploads, so that it has a replica.
pub open spec fn is_source(bucket: BucketView) -> bool {
    bucket.bucket_type == Type::Public || bucket.bucket_type == Type::Standard
}

/// The buckets that take uploads, in their order.
pub open spec fn sources_among(buckets: Seq<BucketView>) -> Seq<BucketView>
    decreases buckets.len(),
{
    if buckets.len() == 0 {
        Seq::empty()
    } else if is_source(buckets.last()) {
        sources_among(buckets.drop_last()).push(buckets.last())
    } else {
        sources_among(buckets.drop_last())
    }
}

/// The replicas, in their order.
pub open spec fn replicas_among(buckets: Seq<BucketView>) -> Seq<BucketView>
    decreases buckets.len(),
{
    if buckets.len() == 0 {
        Seq::empty()
    } else if buckets.last().bucket_type == Type::Replication {
        replicas_among(buckets.drop_last()).push(buckets.last())
    } else {
        replicas_among(buckets.drop_last())
    }
}

/// Parts buckets into those that take uploads and the replicas. Internal buckets are left out.
pub fn split_by_role(buckets: &Vec<Bucket>) -> (r: (Vec<Bucket>, Vec<Bucket>))
    ensures
        bucket::bucket_views(r.0@) == sources_among(bucket::bucket_views(buckets@)),
        bucket::bucket_views(r.1@) == replicas_among(bucket::bucket_views(buckets@)),
{
    let ghost views = bucket::bucket_views(buckets@);
    let mut source_buckets: Vec<Bucket> = Vec::new();
    let mut replication_buckets: Vec<Bucket> = Vec::new();
    let mut i: usize = 0;
    assert(bucket::bucket_views(source_buckets@) =~= Seq::<BucketView>::empty());
    assert(bucket::bucket_views(replication_buckets@) =~= Seq::<BucketView>::empty());
    while i < buckets.len()
        invariant
            views == bucket::bucket_views(buckets@),
            i <= buckets@.len(),
            bucket::bucket_views(source_buckets@) == sources_among(views.take(i as int)),
            bucket::bucket_views(replication_buckets@) == replicas_among(views.take(i as int)),
        decreases buckets@.len() - i,
    {
        let ghost sources = source_buckets@;
        let ghost replicas = replication_buckets@;
        assert(views.take(i + 1).drop_last() =~= views.take(i as int));
        assert(views.take(i + 1).last() == buckets@[i as int]@);
        let bucket = buckets[i].clone();
        match bucket.bucket_type() {
            Type::Public | Type::Standard => {
                source_buckets.push(bucket);
                assert(bucket::bucket_views(source_buckets@) =~= bucket::bucket_views(
                    sources,
                ).push(bucket@));
            },
            Type::Replication => {
                replication_buckets.push(bucket);
                assert(bucket::bucket_views(replication_buckets@) =~= bucket::bucket_views(
                    replicas,
                ).push(bucket@));
            },
            Type::Internal => {},
        }
        i += 1;
    }
    assert(views.take(i as int) =~= views);
    (source_buckets, replication_buckets)
}

/// Resolve all source buckets in a stack into checksum source/replication pairs, given the
/// listing of the buckets of the account.
pub fn resolve_all_checksum_pairs(
    stack: &Stack,
    listings: &Result<Vec<BucketListing>, ServiceError>,
) -> (r: Result<Vec<BucketPair>, ComputeChecksumsError>)
    ensures
        match listings {
            Err(e) => r matches Err(ComputeChecksumsError::BucketDiscovery(error))
                && bucket_listing::lists(Err(error), *listings, stack@, FilterView::All),
            Ok(all) => match bucket_listing::stack_buckets(all@, stack@, FilterView::All) {
                Err(e) => r matches Err(ComputeChecksumsError::BucketDiscovery(error))
                    && bucket_listing::lists(Err(error), *listings, stack@, FilterView::All),
                Ok(buckets) => if all_pair(sources_among(buckets), replicas_among(buckets)) {
                    r matches Ok(pairs) && bucket::pair_views(pairs@) == pairs_of(
                        sources_among(buckets),
                        replicas_among(buckets),
                    )
                } else {
                    r matches Err(ComputeChecksumsError::PairBuckets(error)) && is_pairing_error(
                        error,
                        sources_among(buckets),
                        replicas_among(buckets),
                    )
                },
            },
        },
{
    let all_buckets = match bucket_listing::list_for_stack(stack, listings, &TagFilter::All) {
        Ok(buckets) => buckets,
        Err(e) => {
            return Err(ComputeChecksumsError::BucketDiscovery(e));
        },
    };
    let (source_buckets, replication_buckets) = split_by_role(&all_buckets);
    match make_pairs(source_buckets, replication_buckets) {
        Ok(pairs) => Ok(pairs),
        Err(e) => Err(ComputeChecksumsError::PairBuckets(e)),
    }
}

/// Resolve a single source bucket name into a checksum source/replication pair, given the
/// bucket that was found under the name and whether its replica can have its name.
/// Rejects buckets that aren't `Public` or `Standard` type.
pub fn resolve_checksum_pair_by_name(
    name: &Name,
    found: Result<Option<Bucket>, RequestError>,
    replica_naming: Result<(), BucketValidationError>,
) -> (r: Result<BucketPair, ComputeChecksumsError>)
    ensures
        match found {
            Err(e) => r matches Err(ComputeChecksumsError::BucketDiscovery(error)) && error == e,
            Ok(None) => r matches Err(ComputeChecksumsError::InvalidBucket(bucket)) && bucket@
                == name@,
            Ok(Some(source)) => if !is_source(source@) {
                r matches Err(ComputeChecksumsError::InvalidBucket(bucket)) && bucket@ == name@
            } else {
                match replica_naming {
                    Err(e) => r matches Err(
                        ComputeChecksumsError::ReplicationBucket { bucket, source: error },
                    ) && bucket@ == bucket::replica_name(name@) && error == e,
                    Ok(_) => r matches Ok(pair) && pair.source == source && pair.replication@ == (
                    BucketView {
                        name: bucket::replica_name(name@),
                        bucket_type: Type::Replication,
                    }),
                }
            },
        },
{
    let source_name = name.as_str();
    let replication_name = bucket::name_of_replica(source_name);
    let source = match found {
        Err(e) => {
            return Err(ComputeChecksumsError::BucketDiscovery(e));
        },
        Ok(found) => found,
    };
    let source = match source {
        Some(source) => source,
        None => {
            return Err(ComputeChecksumsError::InvalidBucket(String::from_str(source_name)));
        },
    };
    if *source.bucket_type() != Type::Public && *source.bucket_type() != Type::Standard {
        return Err(ComputeChecksumsError::InvalidBucket(String::from_str(source_name)));
    }
    match replica_naming {
        Err(e) => Err(
            ComputeChecksumsError::ReplicationBucket { bucket: replication_name, source: e },
        ),
        Ok(_) => {
            let replication = Bucket::new(replication_name.as_str(), Type::Replication);
            Ok(BucketPair::new(source, replication))
        },
    }
}

/// Parting buckets by their role keeps all of them: the sources are the public and the standard
/// buckets, the replicas are the replication buckets, each in the order in which they were given.
pub proof fn parting_keeps_every_bucket_of_a_role(buckets: Seq<BucketView>)
    ensures
        sources_among(buckets) == buckets.filter(
            |b: BucketView| b.bucket_type == Type::Public || b.bucket_type == Type::Standard,
        ),
        replicas_among(buckets) == buckets.filter(
            |b: BucketView| b.bucket_type == Type::Replication,
        ),
    decreases buckets.len(),
{
    reveal(Seq::filter);
    if buckets.len() > 0 {
        parting_keeps_every_bucket_of_a_role(buckets.drop_last());
    }
    assert(sources_among(buckets) =~= buckets.filter(
        |b: BucketView| b.bucket_type == Type::Public || b.bucket_type == Type::Standard,
    ));
    assert(replicas_among(buckets) =~= buckets.filter(
        |b: BucketView| b.bucket_type == Type::Replication,
    ));
}

/// A bucket is among the sources exactly where it was given and is public or standard, and among
/// the replicas exactly where it was given and is for replication.
pub proof fn role_of_a_bucket_is_its_kind(buckets: Seq<BucketView>, bucket: BucketView)
    ensures
        sources_among(buckets).contains(bucket) <==> buckets.contains(bucket) && (
        bucket.bucket_type == Type::Public || bucket.bucket_type == Type::Standard),
        replicas_among(buckets).contains(bucket) <==> buckets.contains(bucket)
            && bucket.bucket_type == Type::Replication,
{
    let source = |b: BucketView|
        b.bucket_type == Type::Public || b.bucket_type == Type::Standard;
    let replica = |b: BucketView| b.bucket_type == Type::Replication;
    parting_keeps_every_bucket_of_a_role(buckets);
    lemma_filtered(buckets, source, bucket);
    lemma_filtered(buckets, replica, bucket);
}

proof fn lemma_filtered(
    buckets: Seq<BucketView>,
    keep: spec_fn(BucketView) -> bool,
    bucket: BucketView,
)
    ensures
        buckets.filter(keep).contains(bucket) <==> buckets.contains(bucket) && keep(bucket),
    decreases buckets.len(),
{
    reveal(Seq::filter);
    if buckets.len() > 0 {
        let rest = buckets.drop_last();
        let kept = buckets.filter(keep);
        lemma_filtered(rest, keep, bucket);
        if rest.filter(keep).contains(bucket) {
            let i = choose|i: int| 0 <= i < rest.filter(keep).len() && rest.filter(keep)[i] == bucket;
            assert(kept[i] == bucket);
            let j = choose|j: int| 0 <= j < rest.len() && rest[j] == bucket;
            assert(buckets[j] == bucket);
        }
        if buckets.contains(bucket) && keep(bucket) {
            let j = choose|j: int| 0 <= j < buckets.len() && buckets[j] == bucket;
            if j < rest.len() {
                assert(rest[j] == bucket);
            } else {
                assert(kept[kept.len() - 1] == bucket);
            }
        }
        if kept.contains(bucket) {
            let i = choose|i: int| 0 <= i < kept.len() && kept[i] == bucket;
            if i < rest.filter(keep).len() {
                assert(rest.filter(keep)[i] == bucket);
                let j = choose|j: int| 0 <= j < rest.len() && rest[j] == bucket;
                assert(buckets[j] == bucket);
            } else {
                assert(buckets[buckets.len() - 1] == bucket);
            }
        }
    }
}

/// The replica of a bucket is found by its name, which is that of the bucket and `-repl`: where
/// several buckets have it, the last one is taken.
pub proof fn replica_is_the_last_with_its_name(
    replicas: Seq<BucketView>,
    source: Seq<char>,
    i: int,
)
    requires
        0 <= i < replicas.len(),
        replicas[i].name == source + "-repl"@,
        forall|j: int|
            i < j < replicas.len() ==> (#[trigger] replicas[j]).name != source + "-repl"@,
    ensures
        replica_of(replicas, source) == Some(replicas[i]),
    decreases replicas.len(),
{
    let rest = replicas.drop_last();
    if i < rest.len() {
        assert(replicas[replicas.len() - 1].name != source + "-repl"@);
        replica_is_the_last_with_its_name(rest, source, i);
    }
}

/// There is no replica where no bucket has the name of the bucket and `-repl`.
pub proof fn bucket_without_a_match_has_no_replica(replicas: Seq<BucketView>, source: Seq<char>)
    ensures
        replica_of(replicas, source) is None <==> forall|i: int|
            0 <= i < replicas.len() ==> (#[trigger] replicas[i]).name != source + "-repl"@,
{
    replica_has_the_name(replicas, source);
}

/// All sources pair exactly where each of them has a replica under its name and `-repl`, and no
/// two of them have the same name.
pub proof fn sources_pair_where_each_has_a_replica(
    sources: Seq<BucketView>,
    replicas: Seq<BucketView>,
)
    ensures
        all_pair(sources, replicas) <==> (forall|i: int|
            0 <= i < sources.len() ==> exists|k: int|
                0 <= k < replicas.len() && (#[trigger] replicas[k]).name == (
                #[trigger] sources[i]).name + "-repl"@) && (forall|i: int, j: int|
            0 <= i < j < sources.len() ==> (#[trigger] sources[i]).name != (
            #[trigger] sources[j]).name),
{
    assert forall|i: int| 0 <= i < sources.len() implies (replica_of(
        replicas,
        (#[trigger] sources[i]).name,
    ) is Some <==> exists|k: int|
        0 <= k < replicas.len() && (#[trigger] replicas[k]).name == sources[i].name + "-repl"@) by {
        replica_has_the_name(replicas, sources[i].name);
    }
    if all_pair(sources, replicas) {
        assert forall|i: int| 0 <= i < sources.len() implies exists|k: int|
            0 <= k < replicas.len() && (#[trigger] replicas[k]).name == (
            #[trigger] sources[i]).name + "-repl"@ by {
            assert(can_pair(sources, replicas, i));
        }
        assert forall|i: int, j: int| 0 <= i < j < sources.len() implies (
        #[trigger] sources[i]).name != (#[trigger] sources[j]).name by {
            assert(can_pair(sources, replicas, j));
        }
    }
    if (forall|i: int|
        0 <= i < sources.len() ==> exists|k: int|
            0 <= k < replicas.len() && (#[trigger] replicas[k]).name == (
            #[trigger] sources[i]).name + "-repl"@) && (forall|i: int, j: int|
        0 <= i < j < sources.len() ==> (#[trigger] sources[i]).name != (#[trigger] sources[j]).name) {
        assert forall|i: int| 0 <= i < sources.len() implies #[trigger] can_pair(
            sources,
            replicas,
            i,
        ) by {
            assert(replica_of(replicas, sources[i].name) is Some);
        }
    }
}

/// Where pairing fails, it names a source that has no replica of its own: there is none under its
/// name and `-repl`, or a source before it has the same name. All sources before it have one.
pub proof fn pairing_error_names_a_source_without_a_replica(
    e: BucketValidationError,
    sources: Seq<BucketView>,
    replicas: Seq<BucketView>,
)
    requires
        is_pairing_error(e, sources, replicas),
    ensures
        exists|i: int|
            {
                &&& 0 <= i < sources.len()
                &&& e.text() == "no replication bucket found for '"@ + (
                #[trigger] sources[i]).name + "'"@
                &&& (forall|k: int|
                    0 <= k < replicas.len() ==> (#[trigger] replicas[k]).name != sources[i].name
                        + "-repl"@) || (exists|j: int|
                    0 <= j < i && (#[trigger] sources[j]).name == sources[i].name)
                &&& all_pair(sources.take(i), replicas)
            },
{
    let i = choose|i: int|
        {
            &&& 0 <= i < sources.len()
            &&& !(#[trigger] can_pair(sources, replicas, i))
            &&& forall|j: int| 0 <= j < i ==> #[trigger] can_pair(sources, replicas, j)
            &&& e.text() == no_replica_text(sources[i].name)
        };
    replica_has_the_name(replicas, sources[i].name);
    assert forall|j: int| 0 <= j < i implies #[trigger] can_pair(sources.take(i), replicas, j) by {
        assert(can_pair(sources, replicas, j));
        assert forall|k: int| 0 <= k < j implies (#[trigger] sources.take(i)[k]).name
            != sources.take(i)[j].name by {
            assert(sources[k].name != sources[j].name);
        }
    }
    assert(all_pair(sources.take(i), replicas));
    assert(e.text() == "no replication bucket found for '"@ + sources[i].name + "'"@);
}

/// Every public and every standard bucket of a stack is the source of exactly one pair, whose
/// other bucket is a replication bucket of the stack under its name and `-repl`, and there are
/// no other pairs.
pub proof fn every_source_bucket_is_paired_once(buckets: Seq<BucketView>, b: BucketView)
    requires
        all_pair(sources_among(buckets), replicas_among(buckets)),
        buckets.contains(b),
        b.bucket_type == Type::Public || b.bucket_type == Type::Standard,
    ensures
        exists|i: int|
            {
                &&& 0 <= i < pairs_of(sources_among(buckets), replicas_among(buckets)).len()
                &&& (#[trigger] pairs_of(sources_among(buckets), replicas_among(buckets))[i]).source
                    == b
            },
        forall|i: int, j: int|
            0 <= i < j < pairs_of(sources_among(buckets), replicas_among(buckets)).len() ==> (
            #[trigger] pairs_of(sources_among(buckets), replicas_among(buckets))[i]).source.name != (
            #[trigger] pairs_of(sources_among(buckets), replicas_among(buckets))[j]).source.name,
        pairs_of(sources_among(buckets), replicas_among(buckets)).len() == buckets.filter(
            |b: BucketView| b.bucket_type == Type::Public || b.bucket_type == Type::Standard,
        ).len(),
{
    let sources = sources_among(buckets);
    let replicas = replicas_among(buckets);
    let pairs = pairs_of(sources, replicas);
    parting_keeps_every_bucket_of_a_role(buckets);
    role_of_a_bucket_is_its_kind(buckets, b);
    let i = choose|i: int| 0 <= i < sources.len() && sources[i] == b;
    assert(pairs[i].source == b);
    sources_pair_where_each_has_a_replica(sources, replicas);
    assert forall|i: int, j: int| 0 <= i < j < pairs.len() implies (
    #[trigger] pairs[i]).source.name != (#[trigger] pairs[j]).source.name by {
        assert(sources[i].name != sources[j].name);
    }
}

/// Every pair is made of a public or standard bucket and a replication bucket that were both
/// given, and the name of the second is that of the first and `-repl`.
pub proof fn pairs_are_made_of_given_buckets(buckets: Seq<BucketView>, i: int)
    requires
        all_pair(sources_among(buckets), replicas_among(buckets)),
        0 <= i < pairs_of(sources_among(buckets), replicas_among(buckets)).len(),
    ensures
        ({
            let pair = pairs_of(sources_among(buckets), replicas_among(buckets))[i];
            &&& buckets.contains(pair.source)
            &&& buckets.contains(pair.replication)
            &&& pair.source.bucket_type == Type::Public || pair.source.bucket_type == Type::Standard
            &&& pair.replication.bucket_type == Type::Replication
            &&& pair.replication.name == pair.source.name + "-repl"@
        }),
{
    let sources = sources_among(buckets);
    let replicas = replicas_among(buckets);
    let pair = pairs_of(sources, replicas)[i];
    pairs_match_by_name(sources, replicas);
    assert(sources.contains(pair.source));
    role_of_a_bucket_is_its_kind(buckets, pair.source);
    role_of_a_bucket_is_its_kind(buckets, pair.replication);
}

} // verus!
