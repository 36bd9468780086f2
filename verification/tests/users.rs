use dcp::errors::ServiceError;
use dcp::tags::{find_tag, Tag};
use dcp::users::{
    ends_search, get_user_tag, list_all_users, list_group_names_for_user,
    list_users_with_email_and_groups, reads_email, UserInfo, UserReplies,
};

fn texts(items: &[&str]) -> Vec<String> {
    items.iter().map(|s| s.to_string()).collect()
}

fn denied() -> ServiceError {
    ServiceError {
        code: Some("AccessDenied".to_string()),
        message: Some("not authorized".to_string()),
    }
}

#[test]
fn test_find_tag_returns_none_when_missing() {
    let tags = [Tag::new("Department", "Eng")];
    assert!(find_tag(&tags, "Email").is_none());
}

#[test]
fn test_find_tag_returns_value_when_present() {
    let tags = [Tag::new("Department", "Eng"), Tag::new("Email", "alice@example.com")];
    assert_eq!(find_tag(&tags, "Email"), Some("alice@example.com"));
}

#[test]
fn test_get_user_tag_finds_value_on_second_page() {
    let pages =
        vec![Ok(vec![Tag::new("Department", "Eng")]), Ok(vec![Tag::new("Email", "alice@example.com")])];

    let result = get_user_tag(&pages, "Email").expect("get_user_tag should succeed");

    assert_eq!(result.as_deref(), Some("alice@example.com"));
    assert!(!ends_search(&pages[0], "Email"));
    assert!(ends_search(&pages[1], "Email"));
}

#[test]
fn test_get_user_tag_returns_none_when_missing() {
    let pages = vec![Ok(vec![Tag::new("Department", "Eng")])];

    let result = get_user_tag(&pages, "Email").expect("get_user_tag should succeed");

    assert_eq!(result, None);
}

#[test]
fn test_get_user_tag_returns_value_when_present() {
    let pages = vec![Ok(vec![Tag::new("Email", "alice@example.com")])];

    let result = get_user_tag(&pages, "Email").expect("get_user_tag should succeed");

    assert_eq!(result.as_deref(), Some("alice@example.com"));
}

#[test]
fn the_first_deciding_page_ends_the_search() {
    let found = Ok(vec![Tag::new("Email", "a"), Tag::new("Email", "b")]);
    let pages = vec![found, Err(denied())];
    assert_eq!(get_user_tag(&pages, "Email").unwrap().as_deref(), Some("a"));
    let pages = vec![Err(denied()), Ok(vec![Tag::new("Email", "a")])];
    assert!(ends_search(&pages[0], "Email"));
    assert_eq!(get_user_tag(&pages, "Email").unwrap_err().code.as_deref(), Some("AccessDenied"));
}

#[test]
fn test_list_all_users_maps_iam_failures_to_error() {
    let err = list_all_users(vec![Err(denied())]).expect_err("list_all_users should fail");

    assert!(err.code.unwrap().to_lowercase().contains("access"));
}

#[test]
fn test_list_all_users_paginates_across_pages() {
    let users = list_all_users(vec![Ok(texts(&["alice"])), Ok(texts(&["bob"]))])
        .expect("list_all_users should succeed");

    assert_eq!(users, vec!["alice", "bob"]);
}

#[test]
fn test_list_all_users_returns_users() {
    let users = list_all_users(vec![Ok(texts(&["alice", "bob"]))])
        .expect("list_all_users should succeed");

    assert_eq!(users, vec!["alice", "bob"]);
}

#[test]
fn test_list_group_names_for_user_paginates_across_pages() {
    let groups = list_group_names_for_user(vec![Ok(texts(&["admins"])), Ok(texts(&["users"]))])
        .expect("list_group_names_for_user should succeed");

    assert_eq!(groups, vec!["admins", "users"]);
}

#[test]
fn test_list_group_names_for_user_returns_sorted_names() {
    let groups = list_group_names_for_user(vec![Ok(texts(&["zzz", "admins", "mmm"]))])
        .expect("list_group_names_for_user should succeed");

    assert_eq!(groups, vec!["admins", "mmm", "zzz"]);
}

#[test]
fn names_are_sorted_like_strings() {
    let names = ["b", "", "ab", "a", "\u{e9}", "B", "a", "\u{10000}", "\u{fffd}", "abc"];
    let mut expected = texts(&names);
    expected.sort();
    assert_eq!(list_group_names_for_user(vec![Ok(texts(&names))]).unwrap(), expected);
    assert!(list_group_names_for_user(vec![Ok(texts(&names)), Err(denied())]).is_err());
}

#[test]
fn test_list_users_with_email_and_groups_returns_populated_user() {
    let result = list_users_with_email_and_groups(vec![UserReplies {
        user_name: "alice".to_string(),
        groups: Ok(texts(&["admins"])),
        email: Ok(Some("alice@example.com".to_string())),
    }])
    .expect("orchestration should succeed");

    assert_eq!(
        result,
        vec![UserInfo {
            user_name: "alice".to_string(),
            email: "alice@example.com".to_string(),
            groups: vec!["admins".to_string()],
        }]
    );
}

#[test]
fn test_list_users_with_email_and_groups_skips_users_without_groups_or_email() {
    let result = list_users_with_email_and_groups(vec![
        UserReplies { user_name: "carol".to_string(), groups: Ok(vec![]), email: Ok(None) },
        UserReplies {
            user_name: "dave".to_string(),
            groups: Ok(texts(&["users"])),
            email: Ok(None),
        },
    ])
    .expect("orchestration should succeed");

    assert!(result.is_empty());
}

#[test]
fn users_keep_their_order_and_failures_stand_for_all() {
    let user = |name: &str| UserReplies {
        user_name: name.to_string(),
        groups: Ok(texts(&["g"])),
        email: Ok(Some(format!("{name}@example.com"))),
    };
    let infos = list_users_with_email_and_groups(vec![user("b"), user("a")]).unwrap();
    let names: Vec<&str> = infos.iter().map(|i| i.user_name.as_str()).collect();
    assert_eq!(names, ["b", "a"]);
    let mut failed = user("c");
    failed.email = Err(denied());
    assert!(list_users_with_email_and_groups(vec![user("b"), failed]).is_err());
    let mut failed = user("c");
    failed.groups = Err(denied());
    assert!(list_users_with_email_and_groups(vec![failed, user("b")]).is_err());
    assert!(reads_email(&Ok(texts(&["g"]))));
    assert!(!reads_email(&Ok(vec![])));
    assert!(!reads_email(&Err(denied())));
}
