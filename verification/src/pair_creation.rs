//! How a bucket and its replica are created, and what is undone where that fails.
use vstd::prelude::*;
use vstd::string::*;

use crate::bucket::{Bucket, BucketPair, Type};
use crate::bucket_creator;
use crate::bucket_creator::{BucketCreator, BucketCreatorParams, BucketRequest, CreatorView};
use crate::errors::{RequestError, ServiceError};
use crate::storage_class::TransitionStorageClass;
use crate::text;

verus! {

/// What a step does.
#[derive(Debug)]
pub enum PairAction {
    /// Sends a request.
    Send(BucketRequest),
    /// Fails, because the operation does not exist.
    Refuse(String),
}

/// A step of the creation of a pair.
#[derive(Debug)]
pub struct PairStep {
    pub action: PairAction,
    /// What is sent, one after the other, where the step fails.
    pub rollback: Vec<BucketRequest>,
}

/// The requests that steps send.
pub open spec fn sent(steps: Seq<PairStep>) -> Seq<BucketRequest> {
    steps.map_values(|step: PairStep| step.action->Send_0)
}

/// How many steps set a bucket up.
pub open spec fn setup_len(bucket_type: Type) -> int {
    match bucket_type {
        Type::Internal => 1,
        Type::Replication => 2,
        Type::Standard => 7,
        Type::Public => 9,
    }
}

/// Whether the steps set a bucket up, or fail where it cannot be.
pub open spec fn set_up(c: CreatorView, steps: Seq<PairStep>) -> bool {
    if c.bucket.bucket_type == Type::Internal {
        &&& steps.len() == 1
        &&& steps[0].action matches PairAction::Refuse(message)
        &&& message@ == "setup not supported for "@ + Type::Internal@ + " buckets"@
    } else {
        &&& bucket_creator::sets_up(c, sent(steps))
        &&& forall|i: int| 0 <= i < steps.len() ==> (#[trigger] steps[i]).action is Send
    }
}

/// Whether the requests delete nothing.
pub open spec fn undoes_nothing(rollback: Seq<BucketRequest>) -> bool {
    rollback.len() == 0
}

/// Whether the requests delete the one bucket.
pub open spec fn undoes_one(rollback: Seq<BucketRequest>, c: CreatorView) -> bool {
    rollback.len() == 1 && bucket_creator::deletes(c, rollback[0])
}

/// Whether the requests delete both buckets, the first before the second.
pub open spec fn undoes_both(
    rollback: Seq<BucketRequest>,
    first: CreatorView,
    second: CreatorView,
) -> bool {
    &&& rollback.len() == 2
    &&& bucket_creator::deletes(first, rollback[0])
    &&& bucket_creator::deletes(second, rollback[1])
}

/// The steps for a pair: the primary bucket is created and set up, then the replica, and
/// then the primary bucket is replicated. Where a step fails, the buckets that were created
/// before it are deleted.
pub open spec fn creates_pair(
    primary: CreatorView,
    replica: CreatorView,
    region: Seq<char>,
    steps: Seq<PairStep>,
) -> bool {
    let a = 1 + setup_len(primary.bucket.bucket_type);
    let b = a + 1 + setup_len(replica.bucket.bucket_type);
    &&& steps.len() == b + 1
    &&& steps[0].action matches PairAction::Send(create)
    &&& bucket_creator::creates(primary, region, create)
    &&& undoes_nothing(steps[0].rollback@)
    &&& set_up(primary, steps.subrange(1, a))
    &&& forall|i: int| 1 <= i < a ==> undoes_one((#[trigger] steps[i]).rollback@, primary)
    &&& steps[a].action matches PairAction::Send(create)
    &&& bucket_creator::creates(replica, region, create)
    &&& undoes_one(steps[a].rollback@, primary)
    &&& set_up(replica, steps.subrange(a + 1, b))
    &&& forall|i: int|
        a < i < b ==> undoes_both((#[trigger] steps[i]).rollback@, replica, primary)
    &&& steps[b].action matches PairAction::Send(replicate)
    &&& bucket_creator::enables_replication_to(primary, replica.bucket.name, replicate)
    &&& undoes_both(steps[b].rollback@, primary, replica)
}

fn rollback_of(
    first: Option<&BucketCreator<'_>>,
    second: Option<&BucketCreator<'_>>,
) -> (r: Vec<BucketRequest>)
    requires
        first is None ==> second is None,
    ensures
        match first {
            None => undoes_nothing(r@),
            Some(a) => match second {
                None => undoes_one(r@, a@),
                Some(b) => undoes_both(r@, a@, b@),
            },
        },
{
    let mut requests: Vec<BucketRequest> = Vec::new();
    if let Some(creator) = first {
        requests.push(creator.rollback());
    }
    if let Some(creator) = second {
        requests.push(creator.rollback());
    }
    requests
}

/// The steps that set a bucket up, each with the rollback of `first` and `second`.
fn setup_steps(
    creator: &BucketCreator<'_>,
    first: &BucketCreator<'_>,
    second: Option<&BucketCreator<'_>>,
) -> (r: Vec<PairStep>)
    ensures
        set_up(creator@, r@),
        r@.len() == setup_len(creator@.bucket.bucket_type),
        forall|i: int|
            0 <= i < r@.len() ==> match second {
                None => undoes_one((#[trigger] r@[i]).rollback@, first@),
                Some(b) => undoes_both(r@[i].rollback@, first@, b@),
            },
{
    let mut steps: Vec<PairStep> = Vec::new();
    match creator.setup() {
        Ok(requests) => {
            let ghost all = requests@;
            let ghost mut n: int = 0;
            let mut rest = requests;
            assert(all.skip(0) =~= all);
            while rest.len() > 0
                invariant
                    0 <= n <= all.len(),
                    n == steps@.len(),
                    rest@ == all.skip(n),
                    forall|i: int|
                        0 <= i < n ==> (#[trigger] steps@[i]).action == PairAction::Send(all[i]),
                    forall|i: int|
                        0 <= i < n ==> match second {
                            None => undoes_one((#[trigger] steps@[i]).rollback@, first@),
                            Some(b) => undoes_both(steps@[i].rollback@, first@, b@),
                        },
                decreases rest@.len(),
            {
                let request = rest.remove(0);
                proof {
                    assert(request == all[n]);
                    assert(all.skip(n).remove(0) =~= all.skip(n + 1));
                    n = n + 1;
                }
                let rollback = rollback_of(Some(first), second);
                steps.push(PairStep { action: PairAction::Send(request), rollback });
            }
            assert(sent(steps@) =~= all);
        },
        Err(e) => {
            let message = match e {
                RequestError::UnsupportedOperation(message) => message,
                _ => String::new(),
            };
            let rollback = rollback_of(Some(first), second);
            steps.push(PairStep { action: PairAction::Refuse(message), rollback });
        },
    }
    steps
}

/// The creation of a pair under way: which step is next, and after a failure, how much
/// was undone.
#[derive(Debug)]
pub struct PairCreation {
    steps: Vec<PairStep>,
    position: usize,
    failure: Option<RequestError>,
    undone: usize,
}

/// Where the creation of a pair stands.
pub struct CreationView {
    pub steps: Seq<PairStep>,
    /// The step that is next, or that failed.
    pub position: int,
    pub failure: Option<RequestError>,
    /// How many requests of the rollback are behind.
    pub undone: int,
}

impl View for PairCreation {
    type V = CreationView;

    closed spec fn view(&self) -> CreationView {
        CreationView {
            steps: self.steps@,
            position: self.position as int,
            failure: self.failure,
            undone: self.undone as int,
        }
    }
}

impl CreationView {
    /// Whether the state can be reached: a step that cannot succeed has failed as soon as it
    /// is next.
    pub open spec fn valid(self) -> bool {
        &&& 0 <= self.position <= self.steps.len()
        &&& self.failure is None ==> self.undone == 0 && (self.position < self.steps.len()
            ==> self.steps[self.position].action is Send)
        &&& self.failure is Some ==> self.position < self.steps.len() && 0 <= self.undone
            <= self.steps[self.position].rollback@.len()
    }

    /// The request to send next.
    pub open spec fn next_request(self) -> Option<BucketRequest> {
        if self.failure is None {
            if self.position < self.steps.len() {
                Some(self.steps[self.position].action->Send_0)
            } else {
                None
            }
        } else if self.undone < self.steps[self.position].rollback@.len() {
            Some(self.steps[self.position].rollback@[self.undone])
        } else {
            None
        }
    }

    /// The state after a step succeeded.
    pub open spec fn advanced(self, next: CreationView) -> bool {
        &&& next.steps == self.steps
        &&& next.position == self.position + 1
        &&& next.undone == 0
        &&& if next.position < self.steps.len() && self.steps[next.position].action is Refuse {
            &&& next.failure matches Some(RequestError::UnsupportedOperation(message))
            &&& message@ == self.steps[next.position].action->Refuse_0@
        } else {
            next.failure is None
        }
    }

    /// The state after a step failed.
    pub open spec fn failed(self, e: ServiceError, next: CreationView) -> bool {
        &&& next.steps == self.steps
        &&& next.position == self.position
        &&& next.undone == 0
        &&& next.failure matches Some(RequestError::S3 { context, source })
        &&& context@ == self.steps[self.position].action->Send_0.context@
        &&& source == e
    }

    /// The state after a request of the rollback was answered, whatever the answer.
    pub open spec fn undid(self, next: CreationView) -> bool {
        &&& next.steps == self.steps
        &&& next.position == self.position
        &&& next.failure == self.failure
        &&& next.undone == self.undone + 1
    }
}

/// Create a primary bucket and its replication bucket, then enable replication.
pub fn create_pair(
    params: BucketCreatorParams<'_>,
    primary: &Bucket,
    replication: &Bucket,
    primary_storage_tier_override: Option<TransitionStorageClass>,
    replication_storage_tier_override: Option<TransitionStorageClass>,
    region: &str,
) -> (r: PairCreation)
    ensures
        r@.valid(),
        r@.position == 0,
        r@.failure is None,
        creates_pair(
            creator_view(params, primary, primary_storage_tier_override),
            creator_view(params, replication, replication_storage_tier_override),
            region@,
            r@.steps,
        ),
{
    let ghost p = creator_view(params, primary, primary_storage_tier_override);
    let ghost q = creator_view(params, replication, replication_storage_tier_override);
    let creator = BucketCreator::new(params, primary, primary_storage_tier_override);
    let repl_creator = BucketCreator::new(
        params,
        replication,
        replication_storage_tier_override,
    );
    let mut steps: Vec<PairStep> = Vec::new();
    steps.push(
        PairStep {
            action: PairAction::Send(creator.create(region)),
            rollback: rollback_of(None, None),
        },
    );
    let ghost s0 = steps@;
    let mut primary_setup = setup_steps(&creator, &creator, None);
    let ghost s1 = primary_setup@;
    steps.append(&mut primary_setup);
    steps.push(
        PairStep {
            action: PairAction::Send(repl_creator.create(region)),
            rollback: rollback_of(Some(&creator), None),
        },
    );
    let ghost s2 = steps@;
    let mut replica_setup = setup_steps(&repl_creator, &repl_creator, Some(&creator));
    let ghost s3 = replica_setup@;
    steps.append(&mut replica_setup);
    steps.push(
        PairStep {
            action: PairAction::Send(creator.enable_replication(replication)),
            rollback: rollback_of(Some(&creator), Some(&repl_creator)),
        },
    );
    proof {
        let a = 1 + setup_len(p.bucket.bucket_type);
        let b = a + 1 + setup_len(q.bucket.bucket_type);
        assert(steps@.subrange(1, a) =~= s1);
        assert(steps@.subrange(a + 1, b) =~= s3);
        assert forall|i: int| 1 <= i < a implies undoes_one(
            (#[trigger] steps@[i]).rollback@,
            p,
        ) by {
            assert(steps@[i] == s1[i - 1]);
        }
        assert forall|i: int| a < i < b implies undoes_both(
            (#[trigger] steps@[i]).rollback@,
            q,
            p,
        ) by {
            assert(steps@[i] == s3[i - a - 1]);
        }
    }
    PairCreation { steps, position: 0, failure: None, undone: 0 }
}

/// What decides the requests for a bucket.
pub open spec fn creator_view(
    params: BucketCreatorParams<'_>,
    bucket: &Bucket,
    storage_tier_override: Option<TransitionStorageClass>,
) -> CreatorView {
    CreatorView {
        account_id: params.account_id@,
        bucket: bucket@,
        replication_role_arn: params.replication_role_arn@,
        stack: params.stack@,
        storage_tier: match storage_tier_override {
            Some(class) => class,
            None => bucket_creator::default_class(bucket@.bucket_type),
        },
    }
}

impl PairCreation {
    #[verifier::type_invariant]
    spec fn well_formed(self) -> bool {
        self@.valid()
    }

    /// The request to send next; nothing where the creation has come to its end.
    pub fn pending(&self) -> (r: Option<&BucketRequest>)
        ensures
            match r {
                Some(request) => self@.next_request() == Some(*request),
                None => self@.next_request() is None,
            },
    {
        proof {
            use_type_invariant(&*self);
        }
        if self.failure.is_none() {
            if self.position < self.steps.len() {
                match &self.steps[self.position].action {
                    PairAction::Send(request) => Some(request),
                    PairAction::Refuse(_) => None,
                }
            } else {
                None
            }
        } else if self.undone < self.steps[self.position].rollback.len() {
            Some(&self.steps[self.position].rollback[self.undone])
        } else {
            None
        }
    }

    /// Takes the answer to the request that `pending` gave.
    pub fn record(&mut self, outcome: Result<(), ServiceError>)
        requires
            old(self)@.next_request() is Some,
        ensures
            if old(self)@.failure is Some {
                old(self)@.undid(final(self)@)
            } else {
                match outcome {
                    Ok(_) => old(self)@.advanced(final(self)@),
                    Err(e) => old(self)@.failed(e, final(self)@),
                }
            },
    {
        proof {
            use_type_invariant(&*self);
        }
        if self.failure.is_some() {
            assert(self.undone < self.steps@[self.position as int].rollback.len());
            self.undone = self.undone + 1;
            return ;
        }
        assert(self.position < self.steps.len());
        match outcome {
            Ok(_) => {
                let next = self.position + 1;
                if next < self.steps.len() {
                    if let PairAction::Refuse(message) = &self.steps[next].action {
                        let message = message.clone();
                        self.failure = Some(RequestError::UnsupportedOperation(message));
                    }
                }
                self.position = next;
            },
            Err(e) => {
                let context = match &self.steps[self.position].action {
                    PairAction::Send(request) => request.context.clone(),
                    PairAction::Refuse(message) => message.clone(),
                };
                self.failure = Some(RequestError::S3 { context, source: e });
            },
        }
    }

    /// How the creation ended.
    pub fn finish(self) -> (r: Result<(), RequestError>)
        requires
            self@.next_request() is None,
        ensures
            match self@.failure {
                None => r is Ok && self@.position == self@.steps.len(),
                Some(e) => r == Err::<(), RequestError>(e),
            },
    {
        proof {
            use_type_invariant(&self);
        }
        match self.failure {
            None => Ok(()),
            Some(e) => Err(e),
        }
    }
}

/// Whether a request creates the bucket `name`.
pub open spec fn creates_bucket(action: PairAction, name: Seq<char>) -> bool {
    action matches PairAction::Send(request) && request.write is Create && request.bucket@ == name
}

/// Whether a rollback deletes the bucket `name`.
pub open spec fn deletes_bucket(rollback: Seq<BucketRequest>, name: Seq<char>) -> bool {
    exists|i: int|
        0 <= i < rollback.len() && (#[trigger] rollback[i]).write is Delete && rollback[i].bucket@
            == name
}

/// Whether a step before `k` creates the bucket `name`.
pub open spec fn created_before(steps: Seq<PairStep>, k: int, name: Seq<char>) -> bool {
    exists|i: int| 0 <= i < k && creates_bucket((#[trigger] steps[i]).action, name)
}

proof fn lemma_setup_creates_nothing(c: CreatorView, steps: Seq<PairStep>, i: int)
    requires
        set_up(c, steps),
        0 <= i < steps.len(),
    ensures
        forall|name: Seq<char>| !creates_bucket(steps[i].action, name),
{
    if c.bucket.bucket_type != Type::Internal {
        assert(sent(steps)[i] == steps[i].action->Send_0);
        assert(i == 0 || i == 1 || i == 2 || i == 3 || i == 4 || i == 5 || i == 6 || i == 7 || i
            == 8);
    }
}

/// A failure leaves nothing behind: whichever step fails, its rollback deletes exactly the
/// buckets that the steps before it created.
pub proof fn rollback_deletes_what_was_created(
    primary: CreatorView,
    replica: CreatorView,
    region: Seq<char>,
    steps: Seq<PairStep>,
    k: int,
    name: Seq<char>,
)
    requires
        creates_pair(primary, replica, region, steps),
        0 <= k < steps.len(),
    ensures
        deletes_bucket(steps[k].rollback@, name) <==> created_before(steps, k, name),
{
    let a = 1 + setup_len(primary.bucket.bucket_type);
    let b = a + 1 + setup_len(replica.bucket.bucket_type);
    let p = primary.bucket.name;
    let q = replica.bucket.name;
    let rollback = steps[k].rollback@;
    assert(creates_bucket(steps[0].action, p));
    assert(creates_bucket(steps[a].action, q));
    assert forall|i: int| 0 <= i < k && creates_bucket((#[trigger] steps[i]).action, name) implies (
    i == 0 && name == p) || (i == a && name == q) by {
        if 1 <= i < a {
            assert(steps[i] == steps.subrange(1, a)[i - 1]);
            lemma_setup_creates_nothing(primary, steps.subrange(1, a), i - 1);
        } else if a < i < b {
            assert(steps[i] == steps.subrange(a + 1, b)[i - a - 1]);
            lemma_setup_creates_nothing(replica, steps.subrange(a + 1, b), i - a - 1);
        }
    }
    if k == 0 {
        assert(!deletes_bucket(rollback, name));
    } else if k <= a {
        assert(undoes_one(rollback, primary));
        assert(rollback[0].write is Delete && rollback[0].bucket@ == p);
    } else {
        assert(undoes_both(rollback, replica, primary) || undoes_both(rollback, primary, replica));
        assert(rollback[0].write is Delete && rollback[1].write is Delete);
        assert(rollback[0].bucket@ == p || rollback[1].bucket@ == p);
        assert(rollback[0].bucket@ == q || rollback[1].bucket@ == q);
        if name == p {
            assert(created_before(steps, k, name));
        }
        if name == q {
            assert(created_before(steps, k, name));
        }
    }
}

/// The class that the objects of a primary bucket move to, where it is not the default.
/// For now only standard buckets allow another one.
pub open spec fn tier_for(
    bucket_type: Type,
    standard_storage_tier: TransitionStorageClass,
) -> Option<TransitionStorageClass> {
    if bucket_type == Type::Standard {
        Some(standard_storage_tier)
    } else {
        None
    }
}

/// The creation of a requested pair. Only standard buckets take `standard_storage_tier`.
pub fn create_requested_pair(
    params: BucketCreatorParams<'_>,
    pair: &BucketPair,
    standard_storage_tier: &TransitionStorageClass,
    region: &str,
) -> (r: PairCreation)
    ensures
        r@.valid(),
        r@.position == 0,
        r@.failure is None,
        creates_pair(
            creator_view(
                params,
                &pair.source,
                tier_for(pair.source@.bucket_type, *standard_storage_tier),
            ),
            creator_view(params, &pair.replication, None),
            region@,
            r@.steps,
        ),
{
    let primary_override = match pair.source.bucket_type() {
        Type::Standard => Some(standard_storage_tier.clone()),
        _ => None,
    };
    create_pair(params, &pair.source, &pair.replication, primary_override, None, region)
}

/// What went wrong, in order.
pub open spec fn issues_of(outcomes: Seq<Result<(), String>>) -> Seq<Seq<char>>
    decreases outcomes.len(),
{
    if outcomes.len() == 0 {
        Seq::empty()
    } else {
        match outcomes.last() {
            Ok(_) => issues_of(outcomes.drop_last()),
            Err(message) => issues_of(outcomes.drop_last()).push(message@),
        }
    }
}

/// Arrange creation of primary and replication buckets: the issues, given how the creation
/// of each pair ended. No failure keeps the pairs behind it from being created.
pub fn create_pairs(outcomes: &Vec<Result<(), String>>) -> (r: Vec<String>)
    ensures
        text::texts(r@) == issues_of(outcomes@),
{
    let mut issues: Vec<String> = Vec::new();
    let mut i: usize = 0;
    assert(text::texts(issues@) =~= Seq::<Seq<char>>::empty());
    while i < outcomes.len()
        invariant
            i <= outcomes@.len(),
            text::texts(issues@) == issues_of(outcomes@.take(i as int)),
        decreases outcomes@.len() - i,
    {
        let ghost before = issues@;
        assert(outcomes@.take(i + 1).drop_last() =~= outcomes@.take(i as int));
        assert(outcomes@.take(i + 1).last() == outcomes@[i as int]);
        if let Err(message) = &outcomes[i] {
            let message = message.clone();
            issues.push(message);
            assert(text::texts(issues@) =~= text::texts(before).push(message@));
        }
        i += 1;
    }
    assert(outcomes@.take(i as int) =~= outcomes@);
    issues
}

/// The creation of a pair begins with the primary bucket: it is created and set up, then its
/// replica is created and set up, and only then are objects copied from the one to the other. No
/// other step creates, deletes or replicates a bucket.
pub proof fn pair_is_created_in_order(
    primary: CreatorView,
    replica: CreatorView,
    region: Seq<char>,
    steps: Seq<PairStep>,
)
    requires
        creates_pair(primary, replica, region, steps),
        primary.bucket.bucket_type == Type::Standard || primary.bucket.bucket_type == Type::Public,
        replica.bucket.bucket_type == Type::Replication,
    ensures
        ({
            let n: int = if primary.bucket.bucket_type == Type::Public {
                9
            } else {
                7
            };
            &&& steps.len() == n + 5
            &&& forall|i: int| 0 <= i < steps.len() ==> (#[trigger] steps[i]).action is Send
            &&& bucket_creator::creates(primary, region, steps[0].action->Send_0)
            &&& bucket_creator::sets_up(
                primary,
                Seq::new(n as nat, |i: int| steps[i + 1].action->Send_0),
            )
            &&& bucket_creator::creates(replica, region, steps[n + 1].action->Send_0)
            &&& bucket_creator::sets_up(
                replica,
                Seq::new(2, |i: int| steps[i + n + 2].action->Send_0),
            )
            &&& bucket_creator::enables_replication_to(
                primary,
                replica.bucket.name,
                steps[n + 4].action->Send_0,
            )
        }),
{
    let n: int = if primary.bucket.bucket_type == Type::Public {
        9
    } else {
        7
    };
    let first = steps.subrange(1, n + 1);
    let second = steps.subrange(n + 2, n + 4);
    assert(sent(first) =~= Seq::new(n as nat, |i: int| steps[i + 1].action->Send_0));
    assert(sent(second) =~= Seq::new(2, |i: int| steps[i + n + 2].action->Send_0));
    assert forall|i: int| 0 <= i < steps.len() implies (#[trigger] steps[i]).action is Send by {
        if 1 <= i <= n {
            assert(steps[i] == first[i - 1]);
        } else if n + 2 <= i < n + 4 {
            assert(steps[i] == second[i - n - 2]);
        }
    }
}

/// An internal bucket cannot be set up: behind its creation the pair fails with the reason.
pub proof fn internal_bucket_is_refused(
    primary: CreatorView,
    replica: CreatorView,
    region: Seq<char>,
    steps: Seq<PairStep>,
)
    requires
        creates_pair(primary, replica, region, steps),
        primary.bucket.bucket_type == Type::Internal,
    ensures
        steps[1].action is Refuse,
        steps[1].action->Refuse_0@ == "setup not supported for "@ + "internal"@ + " buckets"@,
{
    let setup = steps.subrange(1, 2);
    assert(setup[0] == steps[1]);
}

/// Where a step fails, nothing is deleted before the first bucket was created, the primary bucket
/// up to the creation of the replica, and from then on both: the replica first while it is set up,
/// the primary bucket first where replication fails.
pub proof fn rollback_has_its_order(
    primary: CreatorView,
    replica: CreatorView,
    region: Seq<char>,
    steps: Seq<PairStep>,
    k: int,
)
    requires
        creates_pair(primary, replica, region, steps),
        primary.bucket.bucket_type == Type::Standard || primary.bucket.bucket_type == Type::Public,
        replica.bucket.bucket_type == Type::Replication,
        0 <= k < steps.len(),
    ensures
        ({
            let n: int = if primary.bucket.bucket_type == Type::Public {
                9
            } else {
                7
            };
            let rollback = steps[k].rollback@;
            &&& forall|i: int| 0 <= i < rollback.len() ==> (#[trigger] rollback[i]).write is Delete
            &&& k == 0 ==> rollback.len() == 0
            &&& 1 <= k <= n + 1 ==> rollback.len() == 1 && rollback[0].bucket@
                == primary.bucket.name
            &&& n + 2 <= k < n + 4 ==> rollback.len() == 2 && rollback[0].bucket@
                == replica.bucket.name && rollback[1].bucket@ == primary.bucket.name
            &&& k == n + 4 ==> rollback.len() == 2 && rollback[0].bucket@ == primary.bucket.name
                && rollback[1].bucket@ == replica.bucket.name
        }),
{
}

/// While nothing failed, the creation sends the request of one step after the other, and ends when
/// every step was answered.
pub proof fn success_leads_to_the_next_step(now: CreationView, next: CreationView)
    requires
        now.valid(),
        now.failure is None,
        now.position < now.steps.len(),
        now.advanced(next),
    ensures
        next.valid(),
        next.steps == now.steps,
        now.next_request() == Some(now.steps[now.position].action->Send_0),
        now.position + 1 < now.steps.len() && now.steps[now.position + 1].action is Send
            ==> next.failure is None && next.next_request() == Some(
            now.steps[now.position + 1].action->Send_0,
        ),
        now.position + 1 < now.steps.len() && now.steps[now.position + 1].action is Refuse ==> (
        next.failure matches Some(RequestError::UnsupportedOperation(message)) && message@
            == now.steps[now.position + 1].action->Refuse_0@),
        now.position + 1 == now.steps.len() ==> next.failure is None
            && next.next_request() is None,
{
}

/// Where the storage service refuses a request, the creation fails with what the request was to
/// report and the reason, and goes on with the first request of the rollback of that step.
pub proof fn failure_leads_to_the_rollback(now: CreationView, e: ServiceError, next: CreationView)
    requires
        now.valid(),
        now.failure is None,
        now.position < now.steps.len(),
        now.failed(e, next),
    ensures
        next.valid(),
        next.failure is Some,
        next.failure->0 is S3,
        next.failure->0->context@ == now.steps[now.position].action->Send_0.context@,
        next.failure->0->source == e,
        now.steps[now.position].rollback@.len() == 0 ==> next.next_request() is None,
        now.steps[now.position].rollback@.len() > 0 ==> next.next_request() == Some(
            now.steps[now.position].rollback@[0],
        ),
{
}

/// The rollback sends its requests one after the other, whatever the answers, and the creation
/// keeps the failure that caused it.
pub proof fn rollback_goes_on_to_its_end(now: CreationView, next: CreationView)
    requires
        now.valid(),
        now.failure is Some,
        now.undone < now.steps[now.position].rollback@.len(),
        now.undid(next),
    ensures
        next.valid(),
        next.failure == now.failure,
        now.next_request() == Some(now.steps[now.position].rollback@[now.undone]),
        now.undone + 1 < now.steps[now.position].rollback@.len() ==> next.next_request() == Some(
            now.steps[now.position].rollback@[now.undone + 1],
        ),
        now.undone + 1 == now.steps[now.position].rollback@.len() ==> next.next_request() is None,
{
}

/// Only a standard bucket takes the storage class that was asked for; a public bucket moves its
/// objects to intelligent tiering and a replica to deep archive, whatever was asked for.
pub proof fn only_standard_buckets_take_the_tier(
    params: BucketCreatorParams<'_>,
    pair: BucketPair,
    tier: TransitionStorageClass,
)
    requires
        pair.replication@.bucket_type == Type::Replication,
    ensures
        creator_view(
            params,
            &pair.source,
            tier_for(pair.source@.bucket_type, tier),
        ).storage_tier == (if pair.source@.bucket_type == Type::Standard {
            tier
        } else if pair.source@.bucket_type == Type::Replication {
            TransitionStorageClass::DeepArchive
        } else {
            TransitionStorageClass::IntelligentTiering
        }),
        creator_view(params, &pair.replication, None).storage_tier
            == TransitionStorageClass::DeepArchive,
{
}

/// What decides the requests for a bucket is the bucket, the installation, and the storage class
/// that was asked for where one was.
pub proof fn requests_are_decided_by_the_installation(
    params: BucketCreatorParams<'_>,
    bucket: Bucket,
    tier: TransitionStorageClass,
)
    ensures
        creator_view(params, &bucket, Some(tier)) == (CreatorView {
            account_id: params.account_id@,
            bucket: bucket@,
            replication_role_arn: params.replication_role_arn@,
            stack: params.stack@,
            storage_tier: tier,
        }),
        creator_view(params, &bucket, None).account_id == params.account_id@,
        creator_view(params, &bucket, None).bucket == bucket@,
        creator_view(params, &bucket, None).replication_role_arn == params.replication_role_arn@,
        creator_view(params, &bucket, None).stack == params.stack@,
{
}

/// Every pair that failed is reported, in the order of the pairs, and nothing else is.
pub proof fn every_failed_pair_is_reported(outcomes: Seq<Result<(), String>>)
    ensures
        issues_of(outcomes) == outcomes.filter(
            |outcome: Result<(), String>| outcome is Err,
        ).map_values(|outcome: Result<(), String>| outcome->Err_0@),
    decreases outcomes.len(),
{
    reveal(Seq::filter);
    if outcomes.len() > 0 {
        every_failed_pair_is_reported(outcomes.drop_last());
    }
    assert(issues_of(outcomes) =~= outcomes.filter(
        |outcome: Result<(), String>| outcome is Err,
    ).map_values(|outcome: Result<(), String>| outcome->Err_0@));
}

} // verus!
