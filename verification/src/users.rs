//! The users of the account: their groups and their e-mail addresses.
use vstd::prelude::*;
use vstd::string::*;

use crate::errors::ServiceError;
use crate::sorting;
use crate::tags;
use crate::tags::Tag;

verus! {

/// How many users are looked up at the same time.
pub const MAX_USER_CONCURRENCY: usize = 5;

/// The key of the tag with the e-mail address of a user.
pub const EMAIL_TAG_KEY: &'static str = "Email";

/// A user with an e-mail address and the groups they belong to.
#[derive(Debug, PartialEq, Eq)]
pub struct UserInfo {
    pub user_name: String,
    pub email: String,
    pub groups: Vec<String>,
}

impl Clone for UserInfo {
    fn clone(&self) -> (r: Self)
        ensures
            r.user_name == self.user_name,
            r.email == self.email,
            r.groups@ == self.groups@,
    {
        UserInfo {
            user_name: self.user_name.clone(),
            email: self.email.clone(),
            groups: self.groups.clone(),
        }
    }
}

/// What the account service replied about a user.
#[derive(Debug)]
pub struct UserReplies {
    pub user_name: String,
    /// The names of the groups of the user.
    pub groups: Result<Vec<String>, ServiceError>,
    /// The e-mail address of the user, where there is one.
    pub email: Result<Option<String>, ServiceError>,
}

/// The items of all pages, in order; the first page that failed stands for all.
pub open spec fn joined<T>(pages: Seq<Result<Vec<T>, ServiceError>>) -> Result<Seq<T>, ServiceError>
    decreases pages.len(),
{
    if pages.len() == 0 {
        Ok(Seq::empty())
    } else {
        match joined(pages.drop_last()) {
            Err(e) => Err(e),
            Ok(items) => match pages.last() {
                Ok(page) => Ok(items + page@),
                Err(e) => Err(e),
            },
        }
    }
}

proof fn lemma_joined_error<T>(pages: Seq<Result<Vec<T>, ServiceError>>, n: int)
    requires
        0 <= n <= pages.len(),
        joined(pages.take(n)) is Err,
    ensures
        joined(pages) == joined(pages.take(n)),
    decreases pages.len() - n,
{
    if n < pages.len() {
        assert(pages.take(n + 1).drop_last() =~= pages.take(n));
        lemma_joined_error(pages, n + 1);
    } else {
        assert(pages.take(n) =~= pages);
    }
}

/// Puts the pages of a listing together.
pub fn collect_pages<T>(pages: Vec<Result<Vec<T>, ServiceError>>) -> (r: Result<
    Vec<T>,
    ServiceError,
>)
    ensures
        match r {
            Ok(items) => joined(pages@) == Ok::<Seq<T>, ServiceError>(items@),
            Err(e) => joined(pages@) == Err::<Seq<T>, ServiceError>(e),
        },
{
    let ghost all = pages@;
    let ghost mut n: int = 0;
    let mut rest = pages;
    let mut out: Vec<T> = Vec::new();
    assert(all.skip(0) =~= all);
    while rest.len() > 0
        invariant
            all == pages@,
            0 <= n <= all.len(),
            rest@ == all.skip(n),
            joined(all.take(n)) == Ok::<Seq<T>, ServiceError>(out@),
        decreases rest@.len(),
    {
        let page = rest.remove(0);
        proof {
            assert(page == all[n]);
            assert(all.take(n + 1).drop_last() =~= all.take(n));
            assert(all.take(n + 1).last() == page);
            assert(all.skip(n).remove(0) =~= all.skip(n + 1));
            n = n + 1;
        }
        match page {
            Ok(mut items) => {
                out.append(&mut items);
            },
            Err(e) => {
                proof {
                    lemma_joined_error(all, n);
                }
                return Err(e);
            },
        }
    }
    assert(all.take(n) =~= all);
    Ok(out)
}

/// The names of all users, given the pages of their listing.
pub fn list_all_users(pages: Vec<Result<Vec<String>, ServiceError>>) -> (r: Result<
    Vec<String>,
    ServiceError,
>)
    ensures
        match r {
            Ok(users) => joined(pages@) == Ok::<Seq<String>, ServiceError>(users@),
            Err(e) => joined(pages@) == Err::<Seq<String>, ServiceError>(e),
        },
{
    collect_pages(pages)
}

/// The names of the groups of a user in order, given the pages of their listing.
pub fn list_group_names_for_user(pages: Vec<Result<Vec<String>, ServiceError>>) -> (r: Result<
    Vec<String>,
    ServiceError,
>)
    ensures
        match r {
            Ok(groups) => sorting::sorted(groups@) && (joined(pages@) matches Ok(listed)
                && groups@.to_multiset() == listed.to_multiset()),
            Err(e) => joined(pages@) == Err::<Seq<String>, ServiceError>(e),
        },
{
    match collect_pages(pages) {
        Ok(groups) => Ok(sorting::sort_by_name(groups)),
        Err(e) => Err(e),
    }
}

/// The value of a tag in the first page that decides: one with the tag, or one that failed.
pub open spec fn tag_in_pages(
    pages: Seq<Result<Vec<Tag>, ServiceError>>,
    key: Seq<char>,
) -> Result<Option<Seq<char>>, ServiceError>
    decreases pages.len(),
{
    if pages.len() == 0 {
        Ok(None)
    } else {
        match pages[0] {
            Err(e) => Err(e),
            Ok(page) => match tags::tag_value(page@, key) {
                Some(value) => Ok(Some(value)),
                None => tag_in_pages(pages.skip(1), key),
            },
        }
    }
}

/// Whether nothing behind a page is of interest in the search for a tag.
pub open spec fn decides(page: Result<Vec<Tag>, ServiceError>, key: Seq<char>) -> bool {
    match page {
        Err(e) => true,
        Ok(page) => tags::tag_value(page@, key) is Some,
    }
}

/// Whether the search for a tag ends with this page.
pub fn ends_search(page: &Result<Vec<Tag>, ServiceError>, key: &str) -> (r: bool)
    ensures
        r == decides(*page, key@),
{
    match page {
        Err(_) => true,
        Ok(page) => tags::find_tag(page.as_slice(), key).is_some(),
    }
}

/// The value of a tag of a user, given the pages of the listing of their tags.
pub fn get_user_tag(pages: &Vec<Result<Vec<Tag>, ServiceError>>, key: &str) -> (r: Result<
    Option<String>,
    ServiceError,
>)
    ensures
        match r {
            Ok(Some(value)) => tag_in_pages(pages@, key@) == Ok::<
                Option<Seq<char>>,
                ServiceError,
            >(Some(value@)),
            Ok(None) => tag_in_pages(pages@, key@) == Ok::<Option<Seq<char>>, ServiceError>(None),
            Err(e) => tag_in_pages(pages@, key@) == Err::<Option<Seq<char>>, ServiceError>(e),
        },
{
    let mut i: usize = 0;
    assert(pages@.skip(0) =~= pages@);
    while i < pages.len()
        invariant
            i <= pages@.len(),
            tag_in_pages(pages@, key@) == tag_in_pages(pages@.skip(i as int), key@),
        decreases pages@.len() - i,
    {
        assert(pages@.skip(i as int).skip(1) =~= pages@.skip(i + 1));
        match &pages[i] {
            Err(e) => {
                return Err(e.clone());
            },
            Ok(page) => {
                if let Some(value) = tags::find_tag(page.as_slice(), key) {
                    return Ok(Some(String::from_str(value)));
                }
            },
        }
        i += 1;
    }
    Ok(None)
}

/// Pages behind the one that ends the search for a tag have no influence on it.
pub proof fn search_ends_with_the_deciding_page(
    pages: Seq<Result<Vec<Tag>, ServiceError>>,
    key: Seq<char>,
    n: int,
)
    requires
        0 <= n < pages.len(),
        decides(pages[n], key),
    ensures
        tag_in_pages(pages, key) == tag_in_pages(pages.take(n + 1), key),
    decreases pages.len(),
{
    let read = pages.take(n + 1);
    assert(read[0] == pages[0]);
    if !decides(pages[0], key) {
        search_ends_with_the_deciding_page(pages.skip(1), key, n - 1);
        assert(read.skip(1) =~= pages.skip(1).take(n));
    }
}

/// Whether the e-mail address is of interest: only that of a user with groups is.
pub fn reads_email(groups: &Result<Vec<String>, ServiceError>) -> (r: bool)
    ensures
        r == (groups matches Ok(names) && names@.len() > 0),
{
    match groups {
        Ok(names) => names.len() > 0,
        Err(_) => false,
    }
}

/// What is listed of a user: nothing without groups, and nothing without an address.
pub open spec fn described(user: UserReplies) -> Result<Option<UserInfo>, ServiceError> {
    match user.groups {
        Err(e) => Err(e),
        Ok(groups) => if groups@.len() == 0 {
            Ok(None)
        } else {
            match user.email {
                Err(e) => Err(e),
                Ok(None) => Ok(None),
                Ok(Some(email)) => Ok(
                    Some(UserInfo { user_name: user.user_name, email, groups }),
                ),
            }
        },
    }
}

/// What is listed of a user.
pub fn process_user(user: UserReplies) -> (r: Result<Option<UserInfo>, ServiceError>)
    ensures
        r == described(user),
{
    let groups = match user.groups {
        Ok(groups) => groups,
        Err(e) => {
            return Err(e);
        },
    };
    if groups.len() == 0 {
        return Ok(None);
    }
    match user.email {
        Err(e) => Err(e),
        Ok(None) => Ok(None),
        Ok(Some(email)) => Ok(Some(UserInfo { user_name: user.user_name, email, groups })),
    }
}

/// What is listed of the users, in their order; the first failure stands for all.
pub open spec fn listed(users: Seq<UserReplies>) -> Result<Seq<UserInfo>, ServiceError>
    decreases users.len(),
{
    if users.len() == 0 {
        Ok(Seq::empty())
    } else {
        match listed(users.drop_last()) {
            Err(e) => Err(e),
            Ok(infos) => match described(users.last()) {
                Err(e) => Err(e),
                Ok(None) => Ok(infos),
                Ok(Some(info)) => Ok(infos.push(info)),
            },
        }
    }
}

proof fn lemma_listed_error(users: Seq<UserReplies>, n: int)
    requires
        0 <= n <= users.len(),
        listed(users.take(n)) is Err,
    ensures
        listed(users) == listed(users.take(n)),
    decreases users.len() - n,
{
    if n < users.len() {
        assert(users.take(n + 1).drop_last() =~= users.take(n));
        lemma_listed_error(users, n + 1);
    } else {
        assert(users.take(n) =~= users);
    }
}

/// List users with their group memberships and `Email` tag value.
///
/// Users with no group memberships or without an `Email` tag are filtered out of
/// the result; this is intentional and not a partial listing.
pub fn list_users_with_email_and_groups(users: Vec<UserReplies>) -> (r: Result<
    Vec<UserInfo>,
    ServiceError,
>)
    ensures
        match r {
            Ok(infos) => listed(users@) == Ok::<Seq<UserInfo>, ServiceError>(infos@),
            Err(e) => listed(users@) == Err::<Seq<UserInfo>, ServiceError>(e),
        },
{
    let ghost all = users@;
    let ghost mut n: int = 0;
    let mut rest = users;
    let mut out: Vec<UserInfo> = Vec::new();
    assert(all.skip(0) =~= all);
    while rest.len() > 0
        invariant
            all == users@,
            0 <= n <= all.len(),
            rest@ == all.skip(n),
            listed(all.take(n)) == Ok::<Seq<UserInfo>, ServiceError>(out@),
        decreases rest@.len(),
    {
        let user = rest.remove(0);
        proof {
            assert(user == all[n]);
            assert(all.take(n + 1).drop_last() =~= all.take(n));
            assert(all.take(n + 1).last() == user);
            assert(all.skip(n).remove(0) =~= all.skip(n + 1));
            n = n + 1;
        }
        match process_user(user) {
            Ok(Some(info)) => {
                out.push(info);
            },
            Ok(None) => {},
            Err(e) => {
                proof {
                    lemma_listed_error(all, n);
                }
                return Err(e);
            },
        }
    }
    assert(all.take(n) =~= all);
    Ok(out)
}

/// Every user in a listing has groups and is one of those that were looked up, with the
/// groups and the address that were found.
pub proof fn listed_users_have_groups(users: Seq<UserReplies>, i: int)
    requires
        listed(users) matches Ok(infos) && 0 <= i < infos.len(),
    ensures
        listed(users)->Ok_0[i].groups@.len() > 0,
        exists|j: int|
            0 <= j < users.len() && described(#[trigger] users[j]) == Ok::<
                Option<UserInfo>,
                ServiceError,
            >(Some(listed(users)->Ok_0[i])),
    decreases users.len(),
{
    let rest = users.drop_last();
    let infos = listed(users)->Ok_0;
    let earlier = listed(rest)->Ok_0;
    if i < earlier.len() {
        listed_users_have_groups(rest, i);
        let j = choose|j: int|
            0 <= j < rest.len() && described(#[trigger] rest[j]) == Ok::<
                Option<UserInfo>,
                ServiceError,
            >(Some(earlier[i]));
        assert(users[j] == rest[j]);
    } else {
        assert(described(users[users.len() - 1]) == Ok::<Option<UserInfo>, ServiceError>(
            Some(infos[i]),
        ));
    }
}

/// No user with groups and an address is left out of a listing.
pub proof fn no_described_user_is_left_out(users: Seq<UserReplies>, j: int)
    requires
        listed(users) is Ok,
        0 <= j < users.len(),
        described(users[j]) matches Ok(Some(info)),
    ensures
        listed(users)->Ok_0.contains(described(users[j])->Ok_0->0),
    decreases users.len(),
{
    let rest = users.drop_last();
    let infos = listed(users)->Ok_0;
    let info = described(users[j])->Ok_0->0;
    if j < rest.len() {
        no_described_user_is_left_out(rest, j);
        let earlier = listed(rest)->Ok_0;
        let i = choose|i: int| 0 <= i < earlier.len() && earlier[i] == info;
        assert(infos[i] == info);
    } else {
        assert(infos.last() == info);
    }
}

/// What is listed of a user is decided by the groups first: without a group the address has no
/// influence, and with one the user is listed under their name exactly where there is an address.
pub proof fn groups_and_address_decide_on_a_user(user: UserReplies, e: ServiceError, info: UserInfo)
    ensures
        described(user) == Err::<Option<UserInfo>, ServiceError>(e) <==> (user.groups == Err::<
            Vec<String>,
            ServiceError,
        >(e) || (user.groups is Ok && user.groups->Ok_0@.len() > 0 && user.email == Err::<
            Option<String>,
            ServiceError,
        >(e))),
        described(user) == Ok::<Option<UserInfo>, ServiceError>(Some(info)) <==> (user.groups
            == Ok::<Vec<String>, ServiceError>(info.groups) && info.groups@.len() > 0 && user.email
            == Ok::<Option<String>, ServiceError>(Some(info.email)) && user.user_name
            == info.user_name),
        described(user) == Ok::<Option<UserInfo>, ServiceError>(None) <==> (user.groups is Ok && (
        user.groups->Ok_0@.len() == 0 || user.email == Ok::<Option<String>, ServiceError>(None))),
{
}

/// A listing holds the users with at least one group and with an address, and no others: in the
/// order in which they were looked up, each with the name, the address and the groups that were
/// read.
pub proof fn listing_holds_the_users_with_groups_and_address(users: Seq<UserReplies>)
    requires
        listed(users) is Ok,
    ensures
        listed(users)->Ok_0 == users.filter(
            |u: UserReplies|
                u.groups is Ok && u.groups->Ok_0@.len() > 0 && u.email is Ok
                    && u.email->Ok_0 is Some,
        ).map_values(
            |u: UserReplies|
                UserInfo {
                    user_name: u.user_name,
                    email: u.email->Ok_0->0,
                    groups: u.groups->Ok_0,
                },
        ),
    decreases users.len(),
{
    reveal(Seq::filter);
    if users.len() > 0 {
        listing_holds_the_users_with_groups_and_address(users.drop_last());
    }
    assert(listed(users)->Ok_0 =~= users.filter(
        |u: UserReplies|
            u.groups is Ok && u.groups->Ok_0@.len() > 0 && u.email is Ok && u.email->Ok_0 is Some,
    ).map_values(
        |u: UserReplies|
            UserInfo { user_name: u.user_name, email: u.email->Ok_0->0, groups: u.groups->Ok_0 },
    ));
}

/// A user whose groups were read, with at least one group, and who has an address is in the
/// listing with that name, address and groups.
pub proof fn user_with_groups_and_address_is_listed(users: Seq<UserReplies>, j: int)
    requires
        listed(users) is Ok,
        0 <= j < users.len(),
        users[j].groups is Ok,
        users[j].groups->Ok_0@.len() > 0,
        users[j].email is Ok,
        users[j].email->Ok_0 is Some,
    ensures
        listed(users)->Ok_0.contains(
            UserInfo {
                user_name: users[j].user_name,
                email: users[j].email->Ok_0->0,
                groups: users[j].groups->Ok_0,
            },
        ),
{
    no_described_user_is_left_out(users, j);
}

/// A listing fails exactly where the groups of a user, or the address of a user with groups,
/// could not be read, and it fails with the error of the first such user.
pub proof fn listing_fails_with_the_first_error(users: Seq<UserReplies>, k: int, e: ServiceError)
    requires
        0 <= k < users.len(),
        users[k].groups == Err::<Vec<String>, ServiceError>(e) || (users[k].groups is Ok
            && users[k].groups->Ok_0@.len() > 0 && users[k].email == Err::<
            Option<String>,
            ServiceError,
        >(e)),
        forall|j: int|
            0 <= j < k ==> (#[trigger] users[j]).groups is Ok && (users[j].groups->Ok_0@.len() == 0
                || users[j].email is Ok),
    ensures
        listed(users) == Err::<Seq<UserInfo>, ServiceError>(e),
{
    listing_succeeds_where_everything_was_read(users.take(k));
    assert(users.take(k + 1).drop_last() =~= users.take(k));
    assert(users.take(k + 1).last() == users[k]);
    lemma_listed_error(users, k + 1);
}

/// A listing succeeds where the groups of every user, and the address of every user with groups,
/// could be read.
pub proof fn listing_succeeds_where_everything_was_read(users: Seq<UserReplies>)
    requires
        forall|j: int|
            0 <= j < users.len() ==> (#[trigger] users[j]).groups is Ok && (
            users[j].groups->Ok_0@.len() == 0 || users[j].email is Ok),
    ensures
        listed(users) is Ok,
    decreases users.len(),
{
    if users.len() > 0 {
        let rest = users.drop_last();
        assert forall|j: int| 0 <= j < rest.len() implies (#[trigger] rest[j]).groups is Ok && (
        rest[j].groups->Ok_0@.len() == 0 || rest[j].email is Ok) by {
            assert(rest[j] == users[j]);
        }
        listing_succeeds_where_everything_was_read(rest);
        assert(users.last() == users[users.len() - 1]);
    }
}

/// The pages of a listing make up one list: where every page was read it holds their items, one
/// page after the other.
pub proof fn pages_follow_one_another<T>(pages: Seq<Result<Vec<T>, ServiceError>>)
    requires
        forall|i: int| 0 <= i < pages.len() ==> (#[trigger] pages[i]) is Ok,
    ensures
        joined(pages) == Ok::<Seq<T>, ServiceError>(
            pages.map_values(|page: Result<Vec<T>, ServiceError>| page->Ok_0@).flatten(),
        ),
    decreases pages.len(),
{
    let items = pages.map_values(|page: Result<Vec<T>, ServiceError>| page->Ok_0@);
    items.lemma_flatten_and_flatten_alt_are_equivalent();
    if pages.len() > 0 {
        let rest = pages.drop_last();
        assert forall|i: int| 0 <= i < rest.len() implies (#[trigger] rest[i]) is Ok by {
            assert(rest[i] == pages[i]);
        }
        pages_follow_one_another(rest);
        let earlier = rest.map_values(|page: Result<Vec<T>, ServiceError>| page->Ok_0@);
        earlier.lemma_flatten_and_flatten_alt_are_equivalent();
        assert(items.drop_last() =~= earlier);
        assert(pages.last() == pages[pages.len() - 1]);
        assert(items.flatten_alt() == earlier.flatten_alt() + pages.last()->Ok_0@);
    }
}

/// A page that could not be read stands for the whole listing, and the first such page does.
pub proof fn first_failed_page_stands_for_all<T>(
    pages: Seq<Result<Vec<T>, ServiceError>>,
    k: int,
)
    requires
        0 <= k < pages.len(),
        pages[k] is Err,
        forall|j: int| 0 <= j < k ==> (#[trigger] pages[j]) is Ok,
    ensures
        joined(pages) == Err::<Seq<T>, ServiceError>(pages[k]->Err_0),
{
    let before = pages.take(k);
    assert forall|i: int| 0 <= i < before.len() implies (#[trigger] before[i]) is Ok by {
        assert(before[i] == pages[i]);
    }
    pages_follow_one_another(before);
    assert(pages.take(k + 1).drop_last() =~= before);
    assert(pages.take(k + 1).last() == pages[k]);
    lemma_joined_error(pages, k + 1);
}

/// The tag of a user is the first one with the key, however the tags are spread over pages; a
/// page that could not be read stands for the search unless the tag stands before it.
pub proof fn first_tag_with_the_key_is_found(
    pages: Seq<Result<Vec<Tag>, ServiceError>>,
    key: Seq<char>,
    k: int,
)
    requires
        0 <= k < pages.len(),
        forall|j: int| 0 <= j < k ==> (#[trigger] pages[j]) is Ok,
        forall|j: int, i: int|
            0 <= j < k && 0 <= i < pages[j]->Ok_0@.len() ==> (
            #[trigger] pages[j]->Ok_0@[i]).key@ != key,
    ensures
        pages[k] is Err ==> tag_in_pages(pages, key) == Err::<Option<Seq<char>>, ServiceError>(
            pages[k]->Err_0,
        ),
        forall|i: int|
            pages[k] is Ok && 0 <= i < pages[k]->Ok_0@.len() && (
            #[trigger] pages[k]->Ok_0@[i]).key@ == key && (forall|n: int|
                0 <= n < i ==> (#[trigger] pages[k]->Ok_0@[n]).key@ != key) ==> tag_in_pages(
                pages,
                key,
            ) == Ok::<Option<Seq<char>>, ServiceError>(Some(pages[k]->Ok_0@[i].value@)),
    decreases k,
{
    if k > 0 {
        assert(pages[0] is Ok);
        tags::tag_value_is_a_tag(pages[0]->Ok_0@, key);
        let rest = pages.skip(1);
        assert(rest[k - 1] == pages[k]);
        assert forall|j: int| 0 <= j < k - 1 implies (#[trigger] rest[j]) is Ok by {
            assert(rest[j] == pages[j + 1]);
        }
        assert forall|j: int, i: int| 0 <= j < k - 1 && 0 <= i < rest[j]->Ok_0@.len() implies (
        #[trigger] rest[j]->Ok_0@[i]).key@ != key by {
            assert(rest[j]->Ok_0@[i] == pages[j + 1]->Ok_0@[i]);
        }
        first_tag_with_the_key_is_found(rest, key, k - 1);
    } else if pages[0] is Ok {
        tags::first_tag_is_found(pages[0]->Ok_0@, key);
    }
}

/// Where every page was read and none holds the tag, there is none.
pub proof fn absent_tag_is_not_found(pages: Seq<Result<Vec<Tag>, ServiceError>>, key: Seq<char>)
    requires
        forall|j: int| 0 <= j < pages.len() ==> (#[trigger] pages[j]) is Ok,
        forall|j: int, i: int|
            0 <= j < pages.len() && 0 <= i < pages[j]->Ok_0@.len() ==> (
            #[trigger] pages[j]->Ok_0@[i]).key@ != key,
    ensures
        tag_in_pages(pages, key) == Ok::<Option<Seq<char>>, ServiceError>(None),
    decreases pages.len(),
{
    if pages.len() > 0 {
        assert(pages[0] is Ok);
        tags::tag_value_is_a_tag(pages[0]->Ok_0@, key);
        let rest = pages.skip(1);
        assert forall|j: int| 0 <= j < rest.len() implies (#[trigger] rest[j]) is Ok by {
            assert(rest[j] == pages[j + 1]);
        }
        assert forall|j: int, i: int|
            0 <= j < rest.len() && 0 <= i < rest[j]->Ok_0@.len() implies (
        #[trigger] rest[j]->Ok_0@[i]).key@ != key by {
            assert(rest[j]->Ok_0@[i] == pages[j + 1]->Ok_0@[i]);
        }
        absent_tag_is_not_found(rest, key);
    }
}

/// The address of a user is asked for exactly where it can be listed, so that what was not asked
/// for has no influence.
pub proof fn address_of_a_user_without_groups_has_no_influence(a: UserReplies, b: UserReplies)
    requires
        a.user_name == b.user_name,
        a.groups == b.groups,
        a.groups is Ok && a.groups->Ok_0@.len() > 0 ==> a.email == b.email,
    ensures
        described(a) == described(b),
{
}

} // verus!
