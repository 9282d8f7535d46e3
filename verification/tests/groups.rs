use iap_auth::groups::{
    get_groups, get_slug_from_email, map_groups_response_to_groups, membership_query, slugs_of,
    strip_suffix, DirectoryReply,
};
use iap_auth::models::{EntityKey, Group, GroupRelation, SearchTransitiveGroupsResponse};

fn relation(id: &str, name: &str) -> GroupRelation {
    GroupRelation { group_key: EntityKey { id: id.to_string() }, display_name: name.to_string() }
}

#[test]
fn slug_drops_the_committee_ending() {
    assert_eq!(get_slug_from_email("alice-commissie@org.example".to_string(), "org.example"), "alice");
}

#[test]
fn slug_drops_the_group_ending() {
    assert_eq!(get_slug_from_email("bob-group@org.example".to_string(), "org.example"), "bob");
}

#[test]
fn slug_drops_the_plain_domain() {
    assert_eq!(get_slug_from_email("carol@org.example".to_string(), "org.example"), "carol");
}

#[test]
fn slug_of_a_foreign_address_is_the_address() {
    assert_eq!(
        get_slug_from_email("dave@elsewhere.example".to_string(), "org.example"),
        "dave@elsewhere.example"
    );
    assert_eq!(get_slug_from_email(String::new(), "org.example"), "");
}

#[test]
fn slug_only_looks_at_the_end() {
    assert_eq!(
        get_slug_from_email("erin-group@org.example.net".to_string(), "org.example"),
        "erin-group@org.example.net"
    );
    assert_eq!(
        get_slug_from_email("a@org.example-group@org.example".to_string(), "org.example"),
        "a@org.example"
    );
}

#[test]
fn slug_takes_the_first_ending_that_fits() {
    assert_eq!(
        get_slug_from_email("x-group-commissie@org.example".to_string(), "org.example"),
        "x-group"
    );
    assert_eq!(get_slug_from_email("@org.example".to_string(), "org.example"), "");
    assert_eq!(get_slug_from_email("-group@org.example".to_string(), "org.example"), "");
}

#[test]
fn slug_counts_characters_not_bytes() {
    assert_eq!(get_slug_from_email("zo\u{eb}-group@org.example".to_string(), "org.example"), "zo\u{eb}");
}

#[test]
fn strip_suffix_gives_the_rest_or_nothing() {
    assert_eq!(strip_suffix("hello world", " world"), Some("hello".to_string()));
    assert_eq!(strip_suffix("hello", "hello"), Some(String::new()));
    assert_eq!(strip_suffix("hello", ""), Some("hello".to_string()));
    assert_eq!(strip_suffix("hello", "help"), None);
    assert_eq!(strip_suffix("lo", "hello"), None);
}

#[test]
fn query_names_member_label_and_customer() {
    assert_eq!(
        membership_query("alice@org.example", Some("C123")),
        "member_key_id == 'alice@org.example' && 'cloudidentity.googleapis.com/groups.discussion_forum' in labels && parent == 'customers/C123'"
    );
}

#[test]
fn query_without_customer_stops_at_the_label() {
    assert_eq!(
        membership_query("alice@org.example", None),
        "member_key_id == 'alice@org.example' && 'cloudidentity.googleapis.com/groups.discussion_forum' in labels"
    );
}

#[test]
fn memberships_become_groups_in_order() {
    let response = SearchTransitiveGroupsResponse {
        memberships: vec![
            relation("board-commissie@org.example", "Board"),
            relation("staff-group@org.example", "Staff"),
            relation("all@org.example", "Everyone"),
            relation("guests@other.example", "Guests"),
        ],
    };
    let groups = map_groups_response_to_groups(response, "org.example");
    assert_eq!(groups.len(), 4);
    assert_eq!(groups[0].email, "board-commissie@org.example");
    assert_eq!(groups[0].slug, "board");
    assert_eq!(groups[0].name, "Board");
    assert_eq!(groups[1].slug, "staff");
    assert_eq!(groups[1].name, "Staff");
    assert_eq!(groups[2].slug, "all");
    assert_eq!(groups[3].slug, "guests@other.example");
    assert_eq!(groups[3].email, "guests@other.example");
}

#[test]
fn no_memberships_no_groups() {
    let groups = map_groups_response_to_groups(
        SearchTransitiveGroupsResponse { memberships: vec![] },
        "org.example",
    );
    assert!(groups.is_empty());
}

#[test]
fn unreadable_reply_gives_no_groups_and_a_reason() {
    let resolved = get_groups(DirectoryReply::Unreadable("expected value at line 1".to_string()), "org.example");
    assert!(resolved.groups.is_empty());
    assert_eq!(resolved.failure, Some("expected value at line 1".to_string()));
}

#[test]
fn unreachable_directory_gives_no_groups_and_a_reason() {
    let resolved = get_groups(DirectoryReply::Unreachable("connection refused".to_string()), "org.example");
    assert!(resolved.groups.is_empty());
    assert_eq!(resolved.failure, Some("connection refused".to_string()));
}

#[test]
fn readable_reply_gives_its_groups_without_a_reason() {
    let reply = DirectoryReply::Memberships(SearchTransitiveGroupsResponse {
        memberships: vec![relation("board-commissie@org.example", "Board")],
    });
    let resolved = get_groups(reply, "org.example");
    assert_eq!(resolved.failure, None);
    assert_eq!(resolved.groups.len(), 1);
    assert_eq!(resolved.groups[0].slug, "board");
}

#[test]
fn slugs_come_out_in_order() {
    let groups = vec![
        Group { email: "a@org.example".to_string(), slug: "a".to_string(), name: "A".to_string() },
        Group { email: "b@org.example".to_string(), slug: "b".to_string(), name: "B".to_string() },
    ];
    assert_eq!(slugs_of(&groups), vec!["a".to_string(), "b".to_string()]);
    assert!(slugs_of(&Vec::new()).is_empty());
}

#[test]
fn a_duplicate_group_is_equal_in_every_field() {
    let group = Group { email: "a@org.example".to_string(), slug: "a".to_string(), name: "A".to_string() };
    let copy = group.duplicate();
    assert_eq!(copy.email, group.email);
    assert_eq!(copy.slug, group.slug);
    assert_eq!(copy.name, group.name);
}

#[test]
fn responses_carry_the_email_and_the_groups() {
    let context = iap_auth::iap_verification::IapContext { email: "alice@org.example".to_string(), verified: true };
    let groups = vec![
        Group { email: "a@org.example".to_string(), slug: "a".to_string(), name: "A".to_string() },
        Group { email: "b-group@org.example".to_string(), slug: "b".to_string(), name: "B".to_string() },
    ];
    let full = iap_auth::groups::groups_response(context.clone(), groups.clone());
    assert_eq!(full.email, "alice@org.example");
    assert_eq!(full.groups.len(), 2);
    assert_eq!(full.groups[1].email, "b-group@org.example");
    let short = iap_auth::groups::slugs_response(context, groups);
    assert_eq!(short.email, "alice@org.example");
    assert_eq!(short.groups, vec!["a".to_string(), "b".to_string()]);
}

#[test]
fn a_duplicate_list_is_equal_in_order() {
    let groups = vec![
        Group { email: "a@org.example".to_string(), slug: "a".to_string(), name: "A".to_string() },
        Group { email: "b@org.example".to_string(), slug: "b".to_string(), name: "B".to_string() },
    ];
    let copy = iap_auth::models::duplicate_groups(&groups);
    assert_eq!(copy.len(), 2);
    assert_eq!(copy[0].email, "a@org.example");
    assert_eq!(copy[1].name, "B");
}
