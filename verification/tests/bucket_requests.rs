use dcp::bucket::{Bucket, Name, Type};
use dcp::bucket_listing::{
    get_requested, list_for_stack, list_for_stack_by_type, list_for_stack_where, reads_tags,
    BucketListing, TagFilter,
};
use dcp::bucket_request::{
    check_request_file, name_from_file, parse_request_names, read_request_names,
    review_request_names, RequestedName,
};
use dcp::constants::{
    APPLICATION_JSON, DISALLOWED_AFFIXES, MAX_BUCKETS_PER_REQUEST, MAX_REQUEST_FILE_SIZE,
    TEXT_PLAIN,
};
use dcp::errors::{
    BucketValidationError, ComputeChecksumsError, FileKeyError, RequestError, ServiceError,
    StorageReportError,
};
use dcp::file::File;
use dcp::inventory_stats::{fetch_latest_inventory_stats, stats_reply, BucketStats, StatsReply};
use dcp::pairing::{make_pairs, resolve_all_checksum_pairs, resolve_checksum_pair_by_name};
use dcp::stack::Stack;
use dcp::tags::Tag;
use dcp::user_buckets::{list_for_user_stacks, BucketCache, StackWalk};

fn listing(name: &str, tags: &[(&str, &str)]) -> BucketListing {
    BucketListing {
        name: Some(name.to_string()),
        tags: Ok(tags.iter().map(|(k, v)| Tag::new(k, v)).collect()),
        naming: Ok(()),
    }
}

fn denied(name: &str) -> BucketListing {
    BucketListing {
        name: Some(name.to_string()),
        tags: Err(ServiceError {
            code: Some("AccessDenied".to_string()),
            message: Some("tagging denied".to_string()),
        }),
        naming: Ok(()),
    }
}

fn test_stack() -> Stack {
    Stack::named("test-stack")
}

fn refusal(text: &str) -> BucketValidationError {
    BucketValidationError::ValidationError(text.to_string())
}

fn names(buckets: &[Bucket]) -> Vec<&str> {
    buckets.iter().map(|b| b.name()).collect()
}

#[test]
fn test_get_requested_filters_by_origin_tag() {
    let stack = test_stack();
    let listings = Ok(vec![
        // alpha: bucket-request origin (included)
        listing(
            "test-stack-alpha",
            &[
                ("Stack", "test-stack"),
                ("BucketType", "standard"),
                ("BucketOrigin", "bucket-request"),
            ],
        ),
        // bravo: terraform origin (excluded)
        listing(
            "test-stack-bravo",
            &[("Stack", "test-stack"), ("BucketType", "standard"), ("BucketOrigin", "terraform")],
        ),
        // managed: no origin tag (excluded)
        listing("test-stack-managed", &[("Stack", "test-stack"), ("BucketType", "internal")]),
    ]);

    let buckets = get_requested(&stack, &listings).unwrap();

    assert_eq!(buckets.len(), 1);
    assert_eq!(buckets[0].name(), "test-stack-alpha");
    assert_eq!(buckets[0].bucket_type(), &Type::Standard);
}

#[test]
fn test_get_requested_includes_multiple_types() {
    let stack = test_stack();
    let requested = |name: &str, kind: &str| {
        listing(
            name,
            &[("Stack", "test-stack"), ("BucketType", kind), ("BucketOrigin", "bucket-request")],
        )
    };
    let listings = Ok(vec![
        requested("test-stack-data", "standard"),
        requested("test-stack-data-public", "public"),
        requested("test-stack-data-repl", "replication"),
    ]);

    let buckets = get_requested(&stack, &listings).unwrap();

    assert_eq!(buckets.len(), 3);
    let types: Vec<&Type> = buckets.iter().map(|b| b.bucket_type()).collect();
    assert!(types.contains(&&Type::Standard));
    assert!(types.contains(&&Type::Public));
    assert!(types.contains(&&Type::Replication));
}

#[test]
fn test_get_requested_skips_tag_errors() {
    let stack = test_stack();
    let listings = Ok(vec![
        denied("test-stack-alpha"),
        listing(
            "test-stack-bravo",
            &[
                ("Stack", "test-stack"),
                ("BucketType", "standard"),
                ("BucketOrigin", "bucket-request"),
            ],
        ),
    ]);

    let buckets = get_requested(&stack, &listings).unwrap();

    assert_eq!(buckets.len(), 1);
    assert_eq!(buckets[0].name(), "test-stack-bravo");
}

#[test]
fn test_list_for_stack_by_type_empty_types_short_circuits() {
    let stack = test_stack();
    let unread = Err(ServiceError { code: None, message: None });

    let buckets = list_for_stack_by_type(&stack, &unread, vec![]).unwrap();

    assert!(buckets.is_empty());
}

#[test]
fn test_list_for_stack_by_type_filters_results() {
    let stack = test_stack();
    let listings = Ok(vec![
        listing("test-stack-public", &[("Stack", "test-stack"), ("BucketType", "public")]),
        listing("test-stack-repl", &[("Stack", "test-stack"), ("BucketType", "replication")]),
    ]);

    let buckets = list_for_stack_by_type(&stack, &listings, vec![Type::Public]).unwrap();

    assert_eq!(buckets.len(), 1);
    assert_eq!(buckets[0].name(), "test-stack-public");
    assert_eq!(buckets[0].bucket_type(), &Type::Public);
}

#[test]
fn test_list_for_stack_excludes_missing_or_invalid_bucket_type() {
    let stack = test_stack();
    let listings = Ok(vec![
        listing("test-stack-alpha", &[("Stack", "test-stack")]),
        listing(
            "test-stack-bravo",
            &[("Stack", "test-stack"), ("BucketType", "not-a-supported-type")],
        ),
    ]);

    let buckets = list_for_stack(&stack, &listings, &TagFilter::All).unwrap();
    assert!(buckets.is_empty());
}

#[test]
fn test_list_for_stack_excludes_non_matching_stack_tag() {
    let stack = test_stack();
    let listings = Ok(vec![listing(
        "test-stack-alpha",
        &[("Stack", "other-stack"), ("BucketType", "standard")],
    )]);

    let buckets = list_for_stack(&stack, &listings, &TagFilter::All).unwrap();
    assert!(buckets.is_empty());
}

#[test]
fn test_list_for_stack_skips_tag_lookup_failures() {
    let stack = test_stack();
    let listings = Ok(vec![
        denied("test-stack-alpha"),
        listing("test-stack-bravo", &[("Stack", "test-stack"), ("BucketType", "standard")]),
    ]);

    let buckets = list_for_stack(&stack, &listings, &TagFilter::All).unwrap();

    assert_eq!(buckets.len(), 1);
    assert_eq!(buckets[0].name(), "test-stack-bravo");
    assert_eq!(buckets[0].bucket_type(), &Type::Standard);
}

#[test]
fn any_filter_on_tags_can_be_asked_for() {
    let stack = test_stack();
    let bucket = |name: &str, owner: &str| {
        listing(name, &[("Stack", "test-stack"), ("BucketType", "standard"), ("Owner", owner)])
    };
    let listings = Ok(vec![
        bucket("test-stack-a", "x"),
        bucket("test-stack-b", "y"),
        denied("test-stack-c"),
        bucket("test-stack-d", "x"),
    ]);
    let owned_by_x =
        |tags: &Vec<Tag>| tags.iter().any(|tag| tag.key == "Owner" && tag.value == "x");
    let buckets = list_for_stack_where(&stack, &listings, owned_by_x).unwrap();
    assert_eq!(names(&buckets), ["test-stack-a", "test-stack-d"]);
    let failed = Err(ServiceError { code: None, message: None });
    assert!(list_for_stack_where(&stack, &failed, owned_by_x).is_err());
    // A bad name is of no concern where the filter keeps the bucket out.
    let mut bad = bucket("test-stack-x.", "y");
    bad.naming = Err(refusal("no dots"));
    assert!(list_for_stack_where(&stack, &Ok(vec![bad]), owned_by_x).unwrap().is_empty());
    let mut bad = bucket("test-stack-x.", "x");
    bad.naming = Err(refusal("no dots"));
    assert!(list_for_stack_where(&stack, &Ok(vec![bad]), owned_by_x).is_err());
}

#[test]
fn other_prefixes_and_missing_names_are_not_listed() {
    let stack = test_stack();
    let tags = [("Stack", "test-stack"), ("BucketType", "standard")];
    let mut nameless = listing("", &tags);
    nameless.name = None;
    let listings = Ok(vec![
        nameless,
        listing("test-stackalpha", &tags),
        listing("other-alpha", &tags),
        listing("test-stack-alpha", &tags),
    ]);
    let buckets = list_for_stack(&stack, &listings, &TagFilter::All).unwrap();
    assert_eq!(names(&buckets), ["test-stack-alpha"]);
    assert!(!reads_tags(&stack, &None));
    assert!(!reads_tags(&stack, &Some("test-stackalpha".to_string())));
    assert!(reads_tags(&stack, &Some("test-stack-alpha".to_string())));
}

#[test]
fn a_failed_listing_and_a_bad_name_are_errors() {
    let stack = test_stack();
    let failed = Err(ServiceError { code: Some("AccessDenied".to_string()), message: None });
    match list_for_stack(&stack, &failed, &TagFilter::All) {
        Err(RequestError::S3 { context, source }) => {
            assert_eq!(context, "failed to list buckets");
            assert_eq!(source.code.as_deref(), Some("AccessDenied"));
        }
        other => panic!("{other:?}"),
    }
    let tags = [("Stack", "test-stack"), ("BucketType", "standard")];
    let mut bad = listing("test-stack-x.", &tags);
    bad.naming = Err(refusal("no dots"));
    match list_for_stack(&stack, &Ok(vec![bad]), &TagFilter::All) {
        Err(RequestError::Bucket(e)) => assert_eq!(e.message(), "no dots"),
        other => panic!("{other:?}"),
    }
}

#[test]
fn test_make_pairs() {
    let source_buckets =
        vec![Bucket::new("alpha", Type::Standard), Bucket::new("beta", Type::Public)];
    let replication_buckets = vec![
        Bucket::new("beta-repl", Type::Replication),
        Bucket::new("alpha-repl", Type::Replication),
    ];

    let pairs = make_pairs(source_buckets, replication_buckets).unwrap();

    assert_eq!(pairs.len(), 2);
    assert_eq!(pairs[0].source.name(), "alpha");
    assert_eq!(pairs[0].replication.name(), "alpha-repl");
    assert_eq!(pairs[1].source.name(), "beta");
    assert_eq!(pairs[1].replication.name(), "beta-repl");
}

#[test]
fn test_make_pairs_missing_replication() {
    let source_buckets =
        vec![Bucket::new("alpha", Type::Standard), Bucket::new("beta", Type::Public)];
    let replication_buckets = vec![
        Bucket::new("alpha-repl", Type::Replication),
        // missing beta-repl
    ];

    let result = make_pairs(source_buckets, replication_buckets);

    assert!(result.is_err());
    let err = result.unwrap_err();
    assert!(matches!(err, BucketValidationError::ValidationError(_)));
    assert!(err.message().contains("beta"));
    assert_eq!(err.message(), "no replication bucket found for 'beta'");
}

#[test]
fn a_replica_is_taken_once_and_the_last_one_counts() {
    let twice = vec![Bucket::new("alpha", Type::Standard), Bucket::new("alpha", Type::Public)];
    let err = make_pairs(twice, vec![Bucket::new("alpha-repl", Type::Replication)]).unwrap_err();
    assert_eq!(err.message(), "no replication bucket found for 'alpha'");
    let pairs = make_pairs(
        vec![Bucket::new("alpha", Type::Standard)],
        vec![
            Bucket::new("alpha-repl", Type::Internal),
            Bucket::new("alpha-repl", Type::Replication),
            Bucket::new("alpha", Type::Replication),
        ],
    )
    .unwrap();
    assert_eq!(pairs[0].replication.bucket_type(), &Type::Replication);
}

#[test]
fn test_name_from_file() {
    let file = File::new("managed", "reports/0000-00-00-LATEST/manifests/my-bucket.csv");
    assert_eq!(name_from_file(&file).unwrap(), "my-bucket");
}

#[test]
fn test_name_from_file_invalid() {
    let file = File::new("managed", "reports/0000-00-00-LATEST/manifests/no-extension");
    assert!(name_from_file(&file).is_err());
    match name_from_file(&file) {
        Err(FileKeyError::MissingExtension(key)) => {
            assert_eq!(key, "reports/0000-00-00-LATEST/manifests/no-extension");
        }
        other => panic!("{other:?}"),
    }
}

#[test]
fn names_are_found_in_keys_of_any_shape() {
    let name = |key: &str| name_from_file(&File::new("managed", key)).map(str::to_string).ok();
    assert_eq!(name("my.bucket.csv").as_deref(), Some("my.bucket"));
    assert_eq!(name("a.b/.csv").as_deref(), Some(""));
    assert_eq!(name("a.b/c"), None);
    assert_eq!(name(""), None);
}

fn text_file(content: &str) -> Result<Vec<String>, RequestError> {
    read_request_names(
        Some(TEXT_PLAIN),
        Some(content.len() as i64),
        Ok(content.as_bytes().to_vec()),
    )
}

#[test]
fn test_read_request_names() {
    let names = text_file("123\n456\n789\n234\n567\n890").unwrap();

    assert_eq!(names.len(), 5);
    assert_eq!(names[0], "123");
    assert_eq!(names[1], "456");
    assert_eq!(names[2], "789");
    assert_eq!(names[3], "234");
}

#[test]
fn test_read_request_names_content_type_with_charset() {
    let names = text_file("bucket1\nbucket2").unwrap();

    assert_eq!(names.len(), 2);
    assert_eq!(names[0], "bucket1");
    assert_eq!(names[1], "bucket2");
    let content = b"bucket1".to_vec();
    assert!(read_request_names(Some("text/plain; charset=utf-8"), None, Ok(content)).is_ok());
}

#[test]
fn test_read_request_names_exceeds_size_limit() {
    let content = "a".repeat((MAX_REQUEST_FILE_SIZE + 1) as usize);
    let result = text_file(&content);

    assert!(result.is_err());
    match result {
        Err(RequestError::FileTooLarge { actual, max }) => {
            assert_eq!(actual, (MAX_REQUEST_FILE_SIZE + 1) as i64);
            assert_eq!(max, MAX_REQUEST_FILE_SIZE as i64);
        }
        _ => panic!("Expected FileTooLarge error"),
    }
}

#[test]
fn test_read_request_names_invalid_content_type() {
    let result =
        read_request_names(Some(APPLICATION_JSON), None, Ok(b"bucket1\nbucket2".to_vec()));

    assert!(result.is_err());
    assert!(matches!(result, Err(RequestError::InvalidContentType)));
}

#[test]
fn test_read_request_names_truncates_at_max() {
    let names = text_file("a\nb\nc\nd\ne\nf\ng").unwrap();

    assert_eq!(names.len(), MAX_BUCKETS_PER_REQUEST as usize);
}

#[test]
fn request_files_at_the_limits() {
    assert!(check_request_file(None, None).is_ok());
    assert!(check_request_file(Some("text/plain"), Some(512)).is_ok());
    assert!(matches!(
        check_request_file(Some("text/html"), Some(513)),
        Err(RequestError::InvalidContentType)
    ));
    let failed = Err(ServiceError { code: Some("Reset".to_string()), message: None });
    match read_request_names(None, None, failed) {
        Err(RequestError::S3 { context, source }) => {
            assert_eq!(context, "failed to read response body");
            assert_eq!(source.code.as_deref(), Some("Reset"));
        }
        other => panic!("{other:?}"),
    }
}

#[test]
fn bytes_are_read_as_text() {
    let names = read_request_names(None, None, Ok("caf\u{e9}\r\nb\n".as_bytes().to_vec())).unwrap();
    assert_eq!(names, ["caf\u{e9}", "b"]);
    let names = read_request_names(None, None, Ok(vec![b'a', 0xff, b'\n', b'b'])).unwrap();
    assert_eq!(names, ["a\u{fffd}", "b"]);
}

#[test]
fn lines_are_read_like_lines() {
    for content in ["", "\n", "a", "a\n", "a\r\nb", "a\n\nb", "\r", "a\r", "\n\n\n"] {
        let expected: Vec<&str> = content.lines().take(5).collect();
        assert_eq!(parse_request_names(content), expected, "{content:?}");
    }
}

#[test]
fn test_review_request_names() {
    let stack = test_stack();

    let names = vec![RequestedName::accepted("example"), RequestedName::accepted("data-public")];

    let result = review_request_names(&stack, &names).unwrap();

    assert_eq!(result.len(), 2);

    // First bucket pair (standard)
    assert_eq!(result[0].source.name(), "test-stack-example");
    assert_eq!(result[0].source.bucket_type(), &Type::Standard);
    assert_eq!(result[0].replication.name(), "test-stack-example-repl");
    assert_eq!(result[0].replication.bucket_type(), &Type::Replication);

    // Second bucket pair (public)
    assert_eq!(result[1].source.name(), "test-stack-data-public");
    assert_eq!(result[1].source.bucket_type(), &Type::Public);
    assert_eq!(result[1].replication.name(), "test-stack-data-public-repl");
    assert_eq!(result[1].replication.bucket_type(), &Type::Replication);

    // The buckets pair again.
    let sources = result.iter().map(|p| p.source.clone()).collect();
    let replicas = result.iter().map(|p| p.replication.clone()).collect();
    let again = make_pairs(sources, replicas).unwrap();
    for (a, b) in result.iter().zip(&again) {
        assert_eq!(a.source.name(), b.source.name());
        assert_eq!(a.replication.name(), b.replication.name());
    }
}

#[test]
fn the_first_broken_rule_refuses_a_request() {
    let stack = test_stack();
    let mut first = RequestedName::accepted("a");
    let mut second = RequestedName::accepted("b");
    first.replication = Err(refusal("too long"));
    second.name = Err(refusal("bad name"));
    let review = |names: Vec<RequestedName>| {
        review_request_names(&stack, &names).unwrap_err().message().to_string()
    };
    assert_eq!(review(vec![first, second]), "too long");
    let mut name = RequestedName::accepted("a");
    name.primary = Err(refusal("primary"));
    name.replication = Err(refusal("replication"));
    assert_eq!(review(vec![RequestedName::accepted("ok"), name]), "primary");
    assert!(review_request_names(&stack, &vec![]).unwrap().is_empty());
}

#[test]
fn checksum_pairs_leave_out_internal_buckets() {
    let stack = test_stack();
    let bucket = |name: &str, kind: &str| {
        listing(name, &[("Stack", "test-stack"), ("BucketType", kind)])
    };
    let listings = Ok(vec![
        bucket("test-stack-a-repl", "replication"),
        bucket("test-stack-managed", "internal"),
        bucket("test-stack-a", "standard"),
    ]);
    let pairs = resolve_all_checksum_pairs(&stack, &listings).unwrap();
    assert_eq!(pairs.len(), 1);
    assert_eq!(pairs[0].source.name(), "test-stack-a");
    assert_eq!(pairs[0].replication.name(), "test-stack-a-repl");

    let listings = Ok(vec![bucket("test-stack-a", "public")]);
    match resolve_all_checksum_pairs(&stack, &listings) {
        Err(ComputeChecksumsError::PairBuckets(e)) => {
            assert_eq!(e.message(), "no replication bucket found for 'test-stack-a'");
        }
        other => panic!("{other:?}"),
    }
    let failed = Err(ServiceError { code: None, message: None });
    assert!(matches!(
        resolve_all_checksum_pairs(&stack, &failed),
        Err(ComputeChecksumsError::BucketDiscovery(RequestError::S3 { .. }))
    ));
}

#[test]
fn a_checksum_pair_is_resolved_by_name() {
    let name = Name::accepted("s-a");
    let standard = || Ok(Some(Bucket::new("s-a", Type::Standard)));
    let pair = resolve_checksum_pair_by_name(&name, standard(), Ok(())).unwrap();
    assert_eq!(pair.source.name(), "s-a");
    assert_eq!(pair.replication.name(), "s-a-repl");
    assert_eq!(pair.replication.bucket_type(), &Type::Replication);
    for found in [Ok(None), Ok(Some(Bucket::new("s-a", Type::Internal)))] {
        match resolve_checksum_pair_by_name(&name, found, Ok(())) {
            Err(ComputeChecksumsError::InvalidBucket(bucket)) => assert_eq!(bucket, "s-a"),
            other => panic!("{other:?}"),
        }
    }
    assert!(matches!(
        resolve_checksum_pair_by_name(&name, Err(RequestError::InvalidContentType), Ok(())),
        Err(ComputeChecksumsError::BucketDiscovery(RequestError::InvalidContentType))
    ));
    match resolve_checksum_pair_by_name(&name, standard(), Err(refusal("too long"))) {
        Err(ComputeChecksumsError::ReplicationBucket { bucket, source }) => {
            assert_eq!(bucket, "s-a-repl");
            assert_eq!(source.message(), "too long");
        }
        other => panic!("{other:?}"),
    }
}

fn account() -> Result<Vec<BucketListing>, ServiceError> {
    let bucket = |name: &str, stack: &str, kind: &str| {
        listing(name, &[("Stack", stack), ("BucketType", kind)])
    };
    Ok(vec![
        bucket("one-a", "one", "standard"),
        bucket("one-a-repl", "one", "replication"),
        bucket("one-managed", "one", "internal"),
        bucket("two-p-public", "two", "public"),
    ])
}

fn walk_all(walk: &mut StackWalk, cache: &mut BucketCache) -> Vec<String> {
    let mut listed = Vec::new();
    while let Some(stack) = walk.pending(cache) {
        listed.push(stack.as_str().to_string());
        walk.supply(cache, &account()).unwrap();
    }
    listed
}

#[test]
fn stacks_of_users_are_listed_once() {
    let mut cache = BucketCache::default();
    let groups = vec![
        Some(Stack::named("two")),
        None,
        Some(Stack::named("one")),
        Some(Stack::named("two")),
    ];
    let mut walk = list_for_user_stacks(groups);
    assert_eq!(walk_all(&mut walk, &mut cache), ["two", "one"]);
    assert_eq!(
        names(&walk.into_buckets()),
        ["two-p-public", "one-a", "one-managed", "two-p-public"]
    );
    assert_eq!(names(cache.get("one").unwrap()), ["one-a", "one-managed"]);
    assert!(cache.get("three").is_none());

    let mut walk = list_for_user_stacks(vec![Some(Stack::named("one"))]);
    assert!(walk_all(&mut walk, &mut cache).is_empty());
    assert_eq!(names(&walk.into_buckets()), ["one-a", "one-managed"]);
}

#[test]
fn a_failed_listing_is_not_kept() {
    let mut cache = BucketCache::new();
    let mut walk = list_for_user_stacks(vec![Some(Stack::named("one"))]);
    assert!(walk.pending(&cache).is_some());
    let failed = Err(ServiceError { code: None, message: None });
    assert!(walk.supply(&mut cache, &failed).is_err());
    assert!(cache.get("one").is_none());
    cache.insert("one".to_string(), vec![Bucket::new("one-x", Type::Standard)]);
    assert!(walk.pending(&cache).is_none());
    assert_eq!(names(&walk.into_buckets()), ["one-x"]);
}

fn stats(name: &str, reply: StatsReply<u64>) -> BucketStats<u64> {
    BucketStats { bucket: Bucket::new(name, Type::Standard), reply }
}

#[test]
fn statistics_are_collected_by_name() {
    let entries = fetch_latest_inventory_stats(vec![
        stats("b", StatsReply::Decoded(2)),
        stats("c", StatsReply::Missing),
        stats("a", StatsReply::Decoded(1)),
        stats("b", StatsReply::Decoded(3)),
    ])
    .unwrap();
    let found: Vec<(&str, u64)> = entries.iter().map(|e| (e.key.as_str(), e.value)).collect();
    assert_eq!(found, [("a", 1), ("b", 3)]);
}

#[test]
fn statistics_are_read_where_there_are_any() {
    let absent = || Ok(Err(String::new()));
    assert!(matches!(stats_reply::<u64>(Ok(false), absent()), StatsReply::Missing));
    assert!(matches!(
        stats_reply::<u64>(Err(RequestError::InvalidContentType), absent()),
        StatsReply::Unreadable(RequestError::InvalidContentType)
    ));
    assert!(matches!(stats_reply(Ok(true), Ok(Ok(7u64))), StatsReply::Decoded(7)));
    assert!(!stats_reply(Ok(true), Ok(Ok(7u64))).is_failure());
    assert!(!stats_reply::<u64>(Ok(false), absent()).is_failure());
    assert!(stats_reply::<u64>(Ok(true), absent()).is_failure());
    assert!(matches!(stats_reply::<u64>(Ok(true), Ok(Err("bad".to_string()))),
        StatsReply::Malformed(m) if m == "bad"));
    assert!(matches!(
        stats_reply::<u64>(Ok(true), Err(RequestError::InvalidContentType)),
        StatsReply::Unreadable(_)
    ));
}

#[test]
fn unreadable_statistics_are_errors() {
    let result = fetch_latest_inventory_stats(vec![
        stats("a", StatsReply::Decoded(1)),
        stats("b", StatsReply::Unreadable(RequestError::InvalidContentType)),
        stats("c", StatsReply::Malformed("not JSON".to_string())),
    ]);
    assert!(matches!(result,
        Err(StorageReportError::DownloadStats { bucket, source: RequestError::InvalidContentType })
            if bucket == "b"));
    let result =
        fetch_latest_inventory_stats(vec![stats("c", StatsReply::Malformed("bad".to_string()))]);
    assert!(matches!(result,
        Err(StorageReportError::ParseStats { bucket, source }) if bucket == "c" && source == "bad"));
}

#[test]
fn disallowed_affixes_are_the_dot_and_the_hyphen() {
    assert_eq!(DISALLOWED_AFFIXES, [".", "-"]);
}
