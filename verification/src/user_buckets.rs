//! The buckets that a user can reach through the stacks named by their groups.
use vstd::prelude::*;
use vstd::string::*;

use crate::bucket;
use crate::bucket::{Bucket, BucketView, Type};
use crate::bucket_listing;
use crate::bucket_listing::{BucketListing, FilterView};
use crate::errors::{RequestError, ServiceError};
use crate::sorted_map::SortedMap;
use crate::stack::Stack;

verus! {

/// Per-stack bucket list cache for reuse when processing many users.
#[derive(Debug)]
pub struct BucketCache {
    lists: SortedMap<Vec<Bucket>>,
}

/// The buckets of each stack that was listed.
impl View for BucketCache {
    type V = Map<Seq<char>, Seq<BucketView>>;

    closed spec fn view(&self) -> Map<Seq<char>, Seq<BucketView>> {
        self.lists@.map_values(|buckets: Vec<Bucket>| bucket::bucket_views(buckets@))
    }
}

impl BucketCache {
    pub fn new() -> (r: BucketCache)
        ensures
            r@ == Map::<Seq<char>, Seq<BucketView>>::empty(),
    {
        let r = BucketCache { lists: SortedMap::new() };
        assert(r@ =~= Map::<Seq<char>, Seq<BucketView>>::empty());
        r
    }

    /// The buckets of a stack that was listed.
    pub fn get(&self, stack: &str) -> (r: Option<&Vec<Bucket>>)
        ensures
            match r {
                Some(buckets) => self@.contains_key(stack@) && bucket::bucket_views(buckets@)
                    == self@[stack@],
                None => !self@.contains_key(stack@),
            },
    {
        self.lists.get(stack)
    }

    /// Keeps the buckets of a stack.
    pub fn insert(&mut self, stack: String, buckets: Vec<Bucket>)
        ensures
            final(self)@ == old(self)@.insert(stack@, bucket::bucket_views(buckets@)),
    {
        self.lists.insert(stack, buckets);
        assert(self@ =~= old(self)@.insert(stack@, bucket::bucket_views(buckets@)));
    }
}

impl Default for BucketCache {
    fn default() -> (r: Self)
        ensures
            r@ == Map::<Seq<char>, Seq<BucketView>>::empty(),
    {
        BucketCache::new()
    }
}

/// A way through the stacks of a user that gathers their buckets.
#[derive(Debug)]
pub struct StackWalk {
    stacks: Vec<Stack>,
    position: usize,
    buckets: Vec<Bucket>,
}

/// The stacks, how many of them are behind, and the buckets gathered so far.
pub struct WalkView {
    pub stacks: Seq<Seq<char>>,
    pub position: int,
    pub buckets: Seq<BucketView>,
}

/// The names of stacks.
pub open spec fn stack_names(stacks: Seq<Stack>) -> Seq<Seq<char>> {
    stacks.map_values(|stack: Stack| stack@)
}

impl View for StackWalk {
    type V = WalkView;

    closed spec fn view(&self) -> WalkView {
        WalkView {
            stacks: stack_names(self.stacks@),
            position: self.position as int,
            buckets: bucket::bucket_views(self.buckets@),
        }
    }
}

/// The buckets of the first `n` stacks, one stack after the other.
pub open spec fn gathered(
    stacks: Seq<Seq<char>>,
    n: int,
    cache: Map<Seq<char>, Seq<BucketView>>,
) -> Seq<BucketView>
    decreases n,
{
    if n <= 0 {
        Seq::empty()
    } else {
        gathered(stacks, n - 1, cache) + cache[stacks[n - 1]]
    }
}

impl WalkView {
    /// Whether the buckets gathered so far are those that the cache keeps for the stacks
    /// that are behind.
    pub open spec fn agrees(self, cache: Map<Seq<char>, Seq<BucketView>>) -> bool {
        &&& 0 <= self.position <= self.stacks.len()
        &&& forall|i: int|
            0 <= i < self.position ==> cache.contains_key(#[trigger] self.stacks[i])
        &&& self.buckets == gathered(self.stacks, self.position, cache)
    }
}

/// Buckets kept for further stacks do not change what was gathered.
proof fn lemma_gathered_stays(
    stacks: Seq<Seq<char>>,
    n: int,
    cache: Map<Seq<char>, Seq<BucketView>>,
    stack: Seq<char>,
    buckets: Seq<BucketView>,
)
    requires
        0 <= n <= stacks.len(),
        !cache.contains_key(stack),
        forall|i: int| 0 <= i < n ==> cache.contains_key(#[trigger] stacks[i]),
    ensures
        gathered(stacks, n, cache.insert(stack, buckets)) == gathered(stacks, n, cache),
    decreases n,
{
    if n > 0 {
        lemma_gathered_stays(stacks, n - 1, cache, stack, buckets);
        assert(cache.contains_key(stacks[n - 1]));
    }
}

/// The stacks among the groups of a user, in their order.
pub open spec fn stacks_among(groups: Seq<Option<Stack>>) -> Seq<Seq<char>>
    decreases groups.len(),
{
    if groups.len() == 0 {
        Seq::empty()
    } else {
        match groups.last() {
            Some(stack) => stacks_among(groups.drop_last()).push(stack@),
            None => stacks_among(groups.drop_last()),
        }
    }
}

/// The kinds of buckets that a user can reach.
pub open spec fn reachable_types() -> Seq<Type> {
    seq![Type::Internal, Type::Public, Type::Standard]
}

/// List buckets accessible to a user across every stack named by their groups: each of
/// the groups as the stack that it names, where it names one.
///
/// Groups that don't name a stack are skipped.
/// Only `Internal`, `Public`, and `Standard` buckets are returned.
pub fn list_for_user_stacks(groups: Vec<Option<Stack>>) -> (r: StackWalk)
    ensures
        r@ == (WalkView {
            stacks: stacks_among(groups@),
            position: 0,
            buckets: Seq::empty(),
        }),
{
    let mut stacks: Vec<Stack> = Vec::new();
    let mut i: usize = 0;
    assert(stack_names(stacks@) =~= Seq::<Seq<char>>::empty());
    while i < groups.len()
        invariant
            i <= groups@.len(),
            stack_names(stacks@) == stacks_among(groups@.take(i as int)),
        decreases groups@.len() - i,
    {
        let ghost before = stacks@;
        assert(groups@.take(i + 1).drop_last() =~= groups@.take(i as int));
        if let Some(stack) = &groups[i] {
            let stack = stack.clone();
            stacks.push(stack);
            assert(stack_names(stacks@) =~= stack_names(before).push(stack@));
        }
        i += 1;
    }
    assert(groups@.take(i as int) =~= groups@);
    let buckets: Vec<Bucket> = Vec::new();
    assert(bucket::bucket_views(buckets@) =~= Seq::<BucketView>::empty());
    StackWalk { stacks, position: 0, buckets }
}

impl StackWalk {
    /// Goes past the stacks whose buckets are kept, and gives the next whose buckets have
    /// to be listed.
    pub fn pending(&mut self, cache: &BucketCache) -> (r: Option<Stack>)
        requires
            old(self)@.agrees(cache@),
        ensures
            final(self)@.agrees(cache@),
            final(self)@.stacks == old(self)@.stacks,
            old(self)@.position <= final(self)@.position,
            match r {
                Some(stack) => {
                    &&& final(self)@.position < final(self)@.stacks.len()
                    &&& stack@ == final(self)@.stacks[final(self)@.position]
                    &&& !cache@.contains_key(stack@)
                },
                None => final(self)@.buckets == gathered(
                    old(self)@.stacks,
                    old(self)@.stacks.len() as int,
                    cache@,
                ) && final(self)@.position == old(self)@.stacks.len(),
            },
    {
        while self.position < self.stacks.len()
            invariant
                self@.agrees(cache@),
                self@.stacks == old(self)@.stacks,
                old(self)@.position <= self@.position,
            decreases self.stacks@.len() - self.position,
        {
            let ghost before = self@;
            match cache.get(self.stacks[self.position].as_str()) {
                Some(kept) => {
                    let mut more = kept.clone();
                    let ghost kept_views = bucket::bucket_views(kept@);
                    assert(more@ =~= kept@);
                    self.buckets.append(&mut more);
                    self.position = self.position + 1;
                    assert(self@.buckets =~= before.buckets + kept_views);
                },
                None => {
                    return Some(self.stacks[self.position].clone());
                },
            }
        }
        None
    }

    /// Takes the listing of the account for the stack that `pending` gave, keeps its
    /// buckets and goes past it.
    pub fn supply(
        &mut self,
        cache: &mut BucketCache,
        listings: &Result<Vec<BucketListing>, ServiceError>,
    ) -> (r: Result<(), RequestError>)
        requires
            old(self)@.agrees(old(cache)@),
            old(self)@.position < old(self)@.stacks.len(),
            !old(cache)@.contains_key(old(self)@.stacks[old(self)@.position]),
        ensures
            final(self)@.agrees(final(cache)@),
            match listed_for(*listings, old(self)@.stacks[old(self)@.position]) {
                Some(buckets) => {
                    &&& r is Ok
                    &&& final(cache)@ == old(cache)@.insert(
                        old(self)@.stacks[old(self)@.position],
                        buckets,
                    )
                    &&& final(self)@ == (WalkView {
                        stacks: old(self)@.stacks,
                        position: old(self)@.position + 1,
                        buckets: old(self)@.buckets + buckets,
                    })
                },
                None => {
                    &&& r matches Err(e)
                    &&& is_listing_error(
                        e,
                        *listings,
                        old(self)@.stacks[old(self)@.position],
                    )
                    &&& final(cache)@ == old(cache)@
                    &&& final(self)@ == old(self)@
                },
            },
    {
        let mut types: Vec<Type> = Vec::new();
        types.push(Type::Internal);
        types.push(Type::Public);
        types.push(Type::Standard);
        assert(types@ =~= reachable_types());
        assert(self.position < self.stacks.len());
        let stack = &self.stacks[self.position];
        match bucket_listing::list_for_stack_by_type(stack, listings, types) {
            Ok(fetched) => {
                let ghost stack_view = stack@;
                let ghost fetched_views = bucket::bucket_views(fetched@);
                let ghost before = self@;
                let mut more = fetched.clone();
                assert(more@ =~= fetched@);
                let name = String::from_str(stack.as_str());
                cache.insert(name, fetched);
                self.buckets.append(&mut more);
                self.position = self.position + 1;
                proof {
                    assert(self@.buckets =~= before.buckets + fetched_views);
                    lemma_gathered_stays(
                        before.stacks,
                        before.position,
                        old(cache)@,
                        stack_view,
                        fetched_views,
                    );
                }
                Ok(())
            },
            Err(e) => Err(e),
        }
    }

    /// The buckets gathered so far.
    pub fn into_buckets(self) -> (r: Vec<Bucket>)
        ensures
            bucket::bucket_views(r@) == self@.buckets,
    {
        self.buckets
    }
}

/// The buckets that are listed for a stack, where they could be.
pub open spec fn listed_for(
    listings: Result<Vec<BucketListing>, ServiceError>,
    stack: Seq<char>,
) -> Option<Seq<BucketView>> {
    match listings {
        Ok(all) => match bucket_listing::stack_buckets(
            all@,
            stack,
            FilterView::OfTypes(reachable_types()),
        ) {
            Ok(buckets) => Some(buckets),
            Err(_) => None,
        },
        Err(_) => None,
    }
}

/// Whether `e` says why the buckets of a stack could not be listed.
pub open spec fn is_listing_error(
    e: RequestError,
    listings: Result<Vec<BucketListing>, ServiceError>,
    stack: Seq<char>,
) -> bool {
    bucket_listing::lists(
        Err::<Vec<Bucket>, RequestError>(e),
        listings,
        stack,
        FilterView::OfTypes(reachable_types()),
    )
}

/// The stacks of a user are those that their groups name, in the order of the groups; a group that
/// names none is passed over.
pub proof fn groups_give_the_stacks_they_name(groups: Seq<Option<Stack>>)
    ensures
        stacks_among(groups) == groups.filter(|group: Option<Stack>| group is Some).map_values(
            |group: Option<Stack>| group->0@,
        ),
    decreases groups.len(),
{
    reveal(Seq::filter);
    if groups.len() > 0 {
        groups_give_the_stacks_they_name(groups.drop_last());
    }
    assert(stacks_among(groups) =~= groups.filter(
        |group: Option<Stack>| group is Some,
    ).map_values(|group: Option<Stack>| group->0@));
}

/// What a user can reach are the buckets of their stacks, one stack after the other, and none is
/// left out.
pub proof fn user_reaches_the_buckets_of_every_stack(
    stacks: Seq<Seq<char>>,
    n: int,
    cache: Map<Seq<char>, Seq<BucketView>>,
)
    requires
        0 <= n <= stacks.len(),
    ensures
        gathered(stacks, n, cache) == stacks.take(n).map_values(
            |stack: Seq<char>| cache[stack],
        ).flatten(),
    decreases n,
{
    let lists = stacks.take(n).map_values(|stack: Seq<char>| cache[stack]);
    lists.lemma_flatten_and_flatten_alt_are_equivalent();
    if n > 0 {
        user_reaches_the_buckets_of_every_stack(stacks, n - 1, cache);
        let earlier = stacks.take(n - 1).map_values(|stack: Seq<char>| cache[stack]);
        earlier.lemma_flatten_and_flatten_alt_are_equivalent();
        assert(lists.drop_last() =~= earlier);
    }
}

/// Every kind of bucket can be reached but replicas.
pub proof fn replicas_cannot_be_reached(t: Type)
    ensures
        reachable_types().contains(t) <==> t != Type::Replication,
{
    assert(reachable_types()[0] == Type::Internal);
    assert(reachable_types()[1] == Type::Public);
    assert(reachable_types()[2] == Type::Standard);
}

/// Of a stack a user reaches every bucket that belongs to it and is no replica, and no others.
pub proof fn user_reaches_all_but_the_replicas(
    listings: Vec<BucketListing>,
    stack: Seq<char>,
    j: int,
)
    requires
        listed_for(Ok(listings), stack) is Some,
        0 <= j < listings@.len(),
        listings@[j].belongs(stack, FilterView::All),
    ensures
        listings@[j].bucket_view().bucket_type != Type::Replication ==> listed_for(
            Ok(listings),
            stack,
        )->0.contains(listings@[j].bucket_view()),
        forall|i: int|
            0 <= i < listed_for(Ok(listings), stack)->0.len() ==> (#[trigger] listed_for(
                Ok(listings),
                stack,
            )->0[i]).bucket_type != Type::Replication,
{
    let filter = FilterView::OfTypes(reachable_types());
    replicas_cannot_be_reached(listings@[j].bucket_view().bucket_type);
    if listings@[j].bucket_view().bucket_type != Type::Replication {
        bucket_listing::no_bucket_is_left_out(listings@, stack, filter, j);
    }
    assert forall|i: int| 0 <= i < listed_for(Ok(listings), stack)->0.len() implies (
    #[trigger] listed_for(Ok(listings), stack)->0[i]).bucket_type != Type::Replication by {
        bucket_listing::buckets_listed_by_type_are_of_the_type(
            listings@,
            stack,
            reachable_types(),
            i,
        );
        replicas_cannot_be_reached(Type::Replication);
    }
}

} // verus!
