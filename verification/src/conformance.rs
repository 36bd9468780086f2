//! What creation and reconciliation have to do with each other: a bucket that was
//! created and set up is found to be configured as expected.
use vstd::prelude::*;

use crate::bucket;
use crate::bucket::Type;
use crate::bucket_config::{
    BucketVersioningStatus, InventoryConfiguration, InventoryOptionalField, LifecycleRule,
    LoggingEnabled, NotificationConfiguration, PublicAccessBlockConfiguration,
    ReplicationConfiguration,
};
use crate::bucket_creator;
use crate::bucket_creator::{BucketPolicy, BucketRequest, BucketWrite, CreatorView};
use crate::bucket_reconciliator;
use crate::bucket_reconciliator::{
    BucketRead, BucketReplies, LifecycleReply, ReconciliatorView, TaggingReply,
};
use crate::bucket_request;
use crate::bucket_listing::{BucketListing, FilterView};
use crate::constants::{
    BUCKET_TAG_ORIGIN_KEY, BUCKET_TAG_ORIGIN_VAL, BUCKET_TAG_STACK_KEY,
    BUCKET_TAG_TRANSITION_STORAGE_CLASS_KEY, BUCKET_TAG_TYPE_KEY,
};
use crate::pair_creation;
use crate::pair_creation::PairStep;
use crate::reconcile_report::StatusView;
use crate::stack;
use crate::storage_class;
use crate::storage_class::TransitionStorageClass;
use crate::tags;
use crate::tags::Tag;

verus! {

/// What the storage service keeps of the configuration of a bucket.
pub struct BucketState {
    pub tags: Seq<Tag>,
    pub versioning: Option<BucketVersioningStatus>,
    pub lifecycle: Option<Seq<LifecycleRule>>,
    pub notifications: NotificationConfiguration,
    pub logging: Option<LoggingEnabled>,
    pub inventory: Option<InventoryConfiguration>,
    pub public_access_block: Option<PublicAccessBlockConfiguration>,
    pub policy: Option<BucketPolicy>,
    pub replication: Option<ReplicationConfiguration>,
}

/// A bucket of which nothing is configured but its tags.
pub open spec fn bare(tags: Seq<Tag>) -> BucketState {
    BucketState {
        tags,
        versioning: None,
        lifecycle: None,
        notifications: NotificationConfiguration { event_bridge: false },
        logging: None,
        inventory: None,
        public_access_block: None,
        policy: None,
        replication: None,
    }
}

/// What a change makes of the configuration of a bucket. Each change replaces what
/// it is about, and nothing else; nothing is kept of a deleted bucket.
pub open spec fn applied(state: BucketState, write: BucketWrite) -> BucketState {
    match write {
        BucketWrite::Create { tags, location_constraint } => bare(tags@),
        BucketWrite::Delete => bare(Seq::empty()),
        BucketWrite::PutPolicy(policy) => BucketState { policy: Some(policy), ..state },
        BucketWrite::DeletePolicy => BucketState { policy: None, ..state },
        BucketWrite::PutVersioning(status) => BucketState { versioning: Some(status), ..state },
        BucketWrite::PutLifecycle(rules) => BucketState { lifecycle: Some(rules@), ..state },
        BucketWrite::PutNotifications(notifications) => BucketState { notifications, ..state },
        BucketWrite::PutLogging(logging) => BucketState { logging: Some(logging), ..state },
        BucketWrite::PutInventory { id, configuration } => BucketState {
            inventory: Some(configuration),
            ..state
        },
        BucketWrite::PutPublicAccessBlock(block) => BucketState {
            public_access_block: Some(block),
            ..state
        },
        BucketWrite::PutReplication(configuration) => BucketState {
            replication: Some(configuration),
            ..state
        },
    }
}

/// What requests make of the configuration of a bucket, one after the other.
pub open spec fn applied_all(state: BucketState, requests: Seq<BucketRequest>) -> BucketState
    decreases requests.len(),
{
    if requests.len() == 0 {
        state
    } else {
        applied(applied_all(state, requests.drop_last()), requests.last().write)
    }
}

/// Whether the replies tell what is kept of the bucket. The policy that lets everybody
/// read is recognised as such.
pub open spec fn tells(replies: BucketReplies, state: BucketState) -> bool {
    &&& replies.tagging matches Ok(tags)
    &&& tags@ == state.tags
    &&& replies.versioning matches Ok(versioning)
    &&& versioning == state.versioning
    &&& state.lifecycle matches Some(kept) ==> (replies.lifecycle matches Ok(rules) && rules@ == kept)
    &&& replies.notifications matches Ok(notifications)
    &&& notifications == state.notifications
    &&& replies.logging matches Ok(logging)
    &&& logging == state.logging
    &&& state.inventory is Some ==> (replies.inventory matches Ok(inventory) && inventory
        == state.inventory)
    &&& state.public_access_block is Some ==> (replies.public_access_block matches Ok(block)
        && block == state.public_access_block)
    &&& state.policy == Some(BucketPolicy::PublicRead) ==> (replies.policy matches Ok(Some(Ok(b)))
        && b)
    &&& state.replication is Some ==> (replies.replication matches Ok(replication) && replication
        == state.replication)
}

/// Whether creation and reconciliation are about the same bucket of the same installation.
pub open spec fn same_subject(c: CreatorView, v: ReconciliatorView) -> bool {
    &&& c.account_id == v.account_id
    &&& c.bucket == v.bucket
    &&& c.replication_role_arn == v.replication_role_arn
    &&& c.stack == v.stack
}

proof fn lemma_applied_next(state: BucketState, requests: Seq<BucketRequest>, n: int)
    requires
        0 <= n < requests.len(),
    ensures
        applied_all(state, requests.take(n + 1)) == applied(
            applied_all(state, requests.take(n)),
            requests[n].write,
        ),
{
    assert(requests.take(n + 1).drop_last() =~= requests.take(n));
}

/// Nobody can store objects between the first request of the setup and the last one
/// that configures the bucket; afterwards a standard bucket has no policy and a public
/// bucket has only the one that lets everybody read.
pub proof fn uploads_are_denied_during_setup(
    c: CreatorView,
    state: BucketState,
    requests: Seq<BucketRequest>,
)
    requires
        bucket_creator::sets_up(c, requests),
        c.bucket.bucket_type != Type::Replication,
    ensures
        forall|n: int|
            1 <= n <= 6 ==> (#[trigger] applied_all(state, requests.take(n))).policy == Some(
                BucketPolicy::DenyUploads,
            ),
        c.bucket.bucket_type == Type::Standard ==> applied_all(state, requests).policy is None,
        c.bucket.bucket_type == Type::Public ==> applied_all(state, requests).policy == Some(
            BucketPolicy::PublicRead,
        ),
{
    lemma_setup_state(c, state, requests);
}

/// What the setup makes of a bucket that takes uploads.
pub open spec fn configured(c: CreatorView, before: BucketState, after: BucketState) -> bool {
    &&& after.tags == before.tags
    &&& after.replication == before.replication
    &&& after.versioning == Some(BucketVersioningStatus::Enabled)
    &&& after.lifecycle matches Some(rules)
    &&& bucket_creator::are_managed_rules(rules, c.storage_tier)
    &&& c.bucket.bucket_type != Type::Replication ==> {
        &&& after.notifications.event_bridge
        &&& after.logging matches Some(logging)
        &&& logging.target_bucket@ == stack::logging_location(c.stack, c.bucket.name).bucket
        &&& logging.target_prefix@ == stack::logging_location(c.stack, c.bucket.name).key
        &&& after.inventory matches Some(inventory)
        &&& bucket_creator::is_managed_inventory(c, inventory)
    }
    &&& c.bucket.bucket_type == Type::Public ==> {
        &&& after.policy == Some(BucketPolicy::PublicRead)
        &&& after.public_access_block matches Some(block)
        &&& bucket_reconciliator::public_access_conforms(block)
    }
}

proof fn lemma_setup_state(c: CreatorView, state: BucketState, requests: Seq<BucketRequest>)
    requires
        bucket_creator::sets_up(c, requests),
    ensures
        configured(c, state, applied_all(state, requests)),
        c.bucket.bucket_type != Type::Replication ==> forall|n: int|
            1 <= n <= 6 ==> (#[trigger] applied_all(state, requests.take(n))).policy == Some(
                BucketPolicy::DenyUploads,
            ),
        c.bucket.bucket_type == Type::Standard ==> applied_all(state, requests).policy is None,
{
    assert(requests.take(0).len() == 0);
    assert(requests.take(requests.len() as int) =~= requests);
    lemma_applied_next(state, requests, 0);
    lemma_applied_next(state, requests, 1);
    if c.bucket.bucket_type != Type::Replication {
        lemma_applied_next(state, requests, 2);
        lemma_applied_next(state, requests, 3);
        lemma_applied_next(state, requests, 4);
        lemma_applied_next(state, requests, 5);
        lemma_applied_next(state, requests, 6);
        assert forall|n: int| 1 <= n <= 6 implies (#[trigger] applied_all(
            state,
            requests.take(n),
        )).policy == Some(BucketPolicy::DenyUploads) by {
            assert(n == 1 || n == 2 || n == 3 || n == 4 || n == 5 || n == 6);
        }
        if c.bucket.bucket_type == Type::Public {
            lemma_applied_next(state, requests, 7);
            lemma_applied_next(state, requests, 8);
        }
    }
}

proof fn lemma_creation_keys(c: CreatorView, tags: Seq<Tag>)
    requires
        bucket_creator::creation_tags(c, tags),
    ensures
        tags::tag_value(tags, BUCKET_TAG_TYPE_KEY@) == Some(c.bucket.bucket_type@),
        tags::tag_value(tags, BUCKET_TAG_TRANSITION_STORAGE_CLASS_KEY@) == Some(c.storage_tier@),
{
    reveal_strlit("TransitionStorageClass");
    reveal_strlit("BucketOrigin");
    reveal_strlit("Stack");
    reveal_strlit("BucketType");
    assert(BUCKET_TAG_TRANSITION_STORAGE_CLASS_KEY@.len() == 22);
    assert(BUCKET_TAG_ORIGIN_KEY@.len() == 12 && BUCKET_TAG_STACK_KEY@.len() == 5);
    assert(BUCKET_TAG_TYPE_KEY@.len() == 10);
    reveal_with_fuel(tags::tag_value, 4);
    assert(tags.skip(1)[0] == tags[1] && tags.skip(1).skip(1)[0] == tags[2]);
    assert(tags.skip(1).skip(1).skip(1)[0] == tags[3]);
    assert(tags[0].key@ == tags[0]@.0 && tags[1].key@ == tags[1]@.0);
    assert(tags[2].key@ == tags[2]@.0 && tags[3].key@ == tags[3]@.0);
    assert(tags[2].value@ == tags[2]@.1 && tags[3].value@ == tags[3]@.1);
}

/// The tags of a new bucket name its kind and its storage class.
pub proof fn creation_tags_are_read_back(c: CreatorView, tags: Seq<Tag>)
    requires
        bucket_creator::creation_tags(c, tags),
    ensures
        bucket::tagged_type(tags) == Some(c.bucket.bucket_type),
        c.storage_tier.is_known() ==> bucket_reconciliator::tagged_class(tags) == Some(
            c.storage_tier,
        ),
        tags::has_tag(tags, BUCKET_TAG_ORIGIN_KEY@, BUCKET_TAG_ORIGIN_VAL@),
        tags::has_tag(tags, BUCKET_TAG_STACK_KEY@, c.stack),
{
    lemma_creation_keys(c, tags);
    bucket::type_is_found_by_its_text(c.bucket.bucket_type);
    assert(tags[0]@ == (BUCKET_TAG_ORIGIN_KEY@, BUCKET_TAG_ORIGIN_VAL@));
    assert(tags[1]@ == (BUCKET_TAG_STACK_KEY@, c.stack));
    if c.storage_tier.is_known() {
        storage_class::storage_class_is_found_by_its_name(c.storage_tier);
    }
}

/// The managed lifecycle rules show the class that objects move to.
pub proof fn managed_rules_show_the_class(
    rules: Seq<LifecycleRule>,
    class: TransitionStorageClass,
)
    requires
        bucket_creator::are_managed_rules(rules, class),
        class.is_known(),
    ensures
        bucket_reconciliator::inferred_class(rules) == Some(class),
{
    reveal_strlit("ExpireOldVersions");
    reveal_strlit("DEEP_ARCHIVE");
    reveal_strlit("GLACIER");
    reveal_strlit("GLACIER_IR");
    reveal_strlit("INTELLIGENT_TIERING");
    reveal_strlit("ONEZONE_IA");
    reveal_strlit("STANDARD_IA");
    assert(bucket_creator::EXPIRE_RULE_ID@.len() == 17);
    assert(class@ != bucket_creator::EXPIRE_RULE_ID@);
    storage_class::storage_class_is_found_by_its_name(class);
    reveal_with_fuel(bucket_reconciliator::inferred_class, 2);
    assert(rules.skip(1)[0] == rules[1]);
}

/// A bucket that lost the tag with its storage class differs, but the class that was
/// set up is still the one to expect.
pub proof fn lost_tag_keeps_the_class(
    bucket_type: Type,
    tagging: TaggingReply,
    inference: LifecycleReply,
    class: TransitionStorageClass,
)
    requires
        bucket_reconciliator::infers(tagging),
        inference matches Ok(rules) && bucket_creator::are_managed_rules(rules@, class),
        class.is_known(),
    ensures
        bucket_reconciliator::resolution(bucket_type, tagging, inference) == (
            StatusView::Drift,
            class,
        ),
{
    managed_rules_show_the_class(inference->Ok_0@, class);
}

/// The managed lifecycle rules are the expected ones for the class that objects move to, and
/// differ from those for every other class.
pub proof fn managed_rules_conform_for_their_class_only(
    rules: Vec<LifecycleRule>,
    class: TransitionStorageClass,
    expected: TransitionStorageClass,
)
    requires
        bucket_creator::are_managed_rules(rules@, class),
    ensures
        expected@ == class@ ==> bucket_reconciliator::lifecycle_status(Ok(rules), expected)
            == StatusView::Conforms,
        expected@ != class@ ==> bucket_reconciliator::lifecycle_status(Ok(rules), expected)
            == StatusView::Drift,
{
    assert(bucket_reconciliator::expires_old_versions(rules@[0]));
    assert(bucket_reconciliator::moves_objects_to(rules@[1], class@));
    if expected@ != class@ {
        assert forall|i: int|
            0 <= i < rules@.len() implies !bucket_reconciliator::moves_objects_to(
            #[trigger] rules@[i],
            expected@,
        ) by {
            assert(i == 0 || i == 1 || i == 2);
        }
    }
}

proof fn lemma_managed_inventory_conforms(
    c: CreatorView,
    v: ReconciliatorView,
    inventory: InventoryConfiguration,
)
    requires
        bucket_creator::is_managed_inventory(c, inventory),
        same_subject(c, v),
    ensures
        bucket_reconciliator::inventory_conforms(v, inventory),
{
    let fields = inventory.optional_fields@;
    assert(fields[0] == InventoryOptionalField::Size);
    assert(fields[1] == InventoryOptionalField::LastModifiedDate);
    assert(fields[2] == InventoryOptionalField::StorageClass);
    assert(fields[3] == InventoryOptionalField::ReplicationStatus);
}

/// The requests for a new bucket: it is created, set up and, unless it is a replica
/// itself, replicated.
pub open spec fn builds(
    c: CreatorView,
    region: Seq<char>,
    replica: Option<Seq<char>>,
    create: BucketRequest,
    setup: Seq<BucketRequest>,
    replicate: Seq<BucketRequest>,
) -> bool {
    &&& bucket_creator::creates(c, region, create)
    &&& bucket_creator::sets_up(c, setup)
    &&& if c.bucket.bucket_type == Type::Replication {
        replicate.len() == 0
    } else {
        &&& replicate.len() == 1
        &&& replica matches Some(name)
        &&& bucket_creator::enables_replication_to(c, name, replicate[0])
    }
}

/// What is kept of a bucket after the requests for a new one.
pub open spec fn built(
    create: BucketRequest,
    setup: Seq<BucketRequest>,
    replicate: Seq<BucketRequest>,
) -> BucketState {
    applied_all(
        applied_all(applied(bare(Seq::empty()), create.write), setup),
        replicate,
    )
}

/// A bucket that was created, set up and replicated is configured as expected: every
/// step of its reconciliation finds what it should, whatever its kind. The storage class
/// has to be one that the service knows.
pub proof fn new_bucket_conforms(
    c: CreatorView,
    v: ReconciliatorView,
    region: Seq<char>,
    create: BucketRequest,
    setup: Seq<BucketRequest>,
    replicate: Seq<BucketRequest>,
    replies: BucketReplies,
)
    requires
        builds(c, region, v.replica, create, setup, replicate),
        same_subject(c, v),
        c.storage_tier.is_known(),
        tells(replies, built(create, setup, replicate)),
    ensures
        forall|i: int|
            0 <= i < bucket_reconciliator::reconciled_steps(v, replies).len() ==> (
            #[trigger] bucket_reconciliator::reconciled_steps(v, replies)[i]).status
                == StatusView::Conforms,
        c.bucket.bucket_type != Type::Internal,
{
    let created = applied(bare(Seq::empty()), create.write);
    let ready = applied_all(created, setup);
    let state = built(create, setup, replicate);
    creation_tags_are_read_back(c, created.tags);
    lemma_setup_state(c, created, setup);
    if c.bucket.bucket_type != Type::Replication {
        reveal_with_fuel(applied_all, 2);
        assert(state == applied(ready, replicate[0].write));
        lemma_managed_inventory_conforms(c, v, state.inventory->0);
    }
    managed_rules_conform_for_their_class_only(
        replies.lifecycle->Ok_0,
        c.storage_tier,
        c.storage_tier,
    );
    let steps = bucket_reconciliator::reconciled_steps(v, replies);
    let common = bucket_reconciliator::common_steps(v, replies);
    assert(bucket_reconciliator::resolution(
        v.bucket.bucket_type,
        replies.tagging,
        replies.inference,
    ) == (StatusView::Conforms, c.storage_tier));
    assert(common[0].status == StatusView::Conforms);
    assert(common[1].status == StatusView::Conforms);
    assert(common[2].status == StatusView::Conforms);
    if c.bucket.bucket_type != Type::Replication {
        let upload = bucket_reconciliator::upload_steps(v, replies);
        assert(upload[0].status == StatusView::Conforms);
        assert(upload[1].status == StatusView::Conforms);
        assert(upload[2].status == StatusView::Conforms);
        assert(upload[3].status == StatusView::Conforms);
        if c.bucket.bucket_type == Type::Public {
            let public = bucket_reconciliator::public_steps(replies);
            assert(public[0].status == StatusView::Conforms);
            assert(public[1].status == StatusView::Conforms);
        }
    }
}

/// The creation of a pair builds both buckets: what it sends to each of them are the
/// requests for a new bucket.
pub proof fn created_pair_is_built(
    primary: CreatorView,
    replica: CreatorView,
    region: Seq<char>,
    steps: Seq<PairStep>,
)
    requires
        pair_creation::creates_pair(primary, replica, region, steps),
        primary.bucket.bucket_type == Type::Standard || primary.bucket.bucket_type == Type::Public,
        replica.bucket.bucket_type == Type::Replication,
    ensures
        ({
            let a = 1 + pair_creation::setup_len(primary.bucket.bucket_type);
            builds(
                primary,
                region,
                Some(replica.bucket.name),
                steps[0].action->Send_0,
                pair_creation::sent(steps.subrange(1, a)),
                seq![steps[steps.len() - 1].action->Send_0],
            ) && builds(
                replica,
                region,
                None,
                steps[a].action->Send_0,
                pair_creation::sent(steps.subrange(a + 1, steps.len() - 1)),
                Seq::empty(),
            )
        }),
{
}

/// A replica receives what every bucket receives and nothing else: its events, its access
/// logs and its inventory go nowhere, and it has no policy.
pub proof fn replica_is_left_plain(c: CreatorView, tags: Seq<Tag>, requests: Seq<BucketRequest>)
    requires
        bucket_creator::sets_up(c, requests),
        c.bucket.bucket_type == Type::Replication,
    ensures
        ({
            let state = applied_all(bare(tags), requests);
            &&& state == (BucketState {
                versioning: state.versioning,
                lifecycle: state.lifecycle,
                ..bare(tags)
            })
            &&& configured(c, bare(tags), state)
        }),
{
    lemma_setup_state(c, bare(tags), requests);
    assert(requests.take(0).len() == 0);
    assert(requests.take(2) =~= requests);
    lemma_applied_next(bare(tags), requests, 0);
    lemma_applied_next(bare(tags), requests, 1);
}

/// The buckets for a requested name carry the name of the stack as their prefix, and the
/// replica carries the name of its source.
pub proof fn requested_buckets_carry_the_prefix(stack: Seq<char>, name: Seq<char>)
    ensures
        ({
            let pair = bucket_request::pair_for(stack, name);
            &&& stack::stack_prefix(stack).is_prefix_of(pair.source.name)
            &&& stack::stack_prefix(stack).is_prefix_of(pair.replication.name)
            &&& pair.replication.name == bucket::replica_name(pair.source.name)
        }),
{
    let prefix = stack::stack_prefix(stack);
    let pair = bucket_request::pair_for(stack, name);
    assert(prefix =~= pair.source.name.take(prefix.len() as int));
    assert(prefix =~= pair.replication.name.take(prefix.len() as int));
}

/// A bucket with the tags of a new bucket and a name that begins with the name of its stack
/// is listed among the requested buckets of the stack, as the bucket that it is.
pub proof fn created_bucket_is_listed(c: CreatorView, listing: BucketListing)
    requires
        listing.name matches Some(name) && name@ == c.bucket.name,
        stack::stack_prefix(c.stack).is_prefix_of(c.bucket.name),
        listing.tags matches Ok(tags) && bucket_creator::creation_tags(c, tags@),
    ensures
        listing.belongs(c.stack, FilterView::Requested),
        listing.bucket_view() == c.bucket,
{
    creation_tags_are_read_back(c, listing.tags->Ok_0@);
}

/// Replies to reads that are not made have no influence: two sets of replies that agree
/// on every read of the bucket give the same steps.
pub proof fn only_reads_matter(v: ReconciliatorView, a: BucketReplies, b: BucketReplies)
    requires
        forall|i: int|
            0 <= i < bucket_reconciliator::reads_for(v).len() ==> same_reply(
                a,
                b,
                #[trigger] bucket_reconciliator::reads_for(v)[i],
            ),
        bucket_reconciliator::infers(a.tagging) ==> a.inference == b.inference,
    ensures
        bucket_reconciliator::reconciled_steps(v, a) == bucket_reconciliator::reconciled_steps(
            v,
            b,
        ),
{
    let reads = bucket_reconciliator::reads_for(v);
    if v.bucket.bucket_type != Type::Internal {
        assert(reads[0] == BucketRead::Tagging && reads[1] == BucketRead::Versioning);
        assert(reads[2] == BucketRead::Lifecycle);
        if v.bucket.bucket_type != Type::Replication {
            let n: int = if v.replica is Some {
                4
            } else {
                3
            };
            assert(v.replica is Some ==> reads[3] == BucketRead::Replication);
            assert(reads[n] == BucketRead::Notifications);
            assert(reads[n + 1] == BucketRead::Logging);
            assert(reads[n + 2] == BucketRead::Inventory);
            if v.bucket.bucket_type == Type::Public {
                assert(reads[n + 3] == BucketRead::PublicAccessBlock);
                assert(reads[n + 4] == BucketRead::Policy);
            }
        }
    }
}

/// Whether two sets of replies agree on a read.
pub open spec fn same_reply(a: BucketReplies, b: BucketReplies, read: BucketRead) -> bool {
    match read {
        BucketRead::Tagging => a.tagging == b.tagging,
        BucketRead::Versioning => a.versioning == b.versioning,
        BucketRead::Lifecycle => a.lifecycle == b.lifecycle,
        BucketRead::Replication => a.replication == b.replication,
        BucketRead::Notifications => a.notifications == b.notifications,
        BucketRead::Logging => a.logging == b.logging,
        BucketRead::Inventory => a.inventory == b.inventory,
        BucketRead::PublicAccessBlock => a.public_access_block == b.public_access_block,
        BucketRead::Policy => a.policy == b.policy,
    }
}

} // verus!
