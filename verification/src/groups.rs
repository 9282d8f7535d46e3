//! Group membership as the directory reports it: the query that asks for it,
//! the short identifier of each group, and what becomes of each kind of reply.

use vstd::prelude::*;
use vstd::string::*;
use crate::iap_verification::IapContext;
use crate::models::{
    Group, GroupRelation, GroupView, SearchTransitiveGroupsResponse, VerifiedResponseGroups,
    VerifiedResponseGroupsSlug, group_views,
};

verus! {

/// The label by which the directory marks the groups that count.
pub open spec fn forum_label() -> Seq<char> {
    "cloudidentity.googleapis.com/groups.discussion_forum"@
}

/// `s` without `suffix` at its end, where it ends in `suffix`.
pub open spec fn without_suffix(s: Seq<char>, suffix: Seq<char>) -> Option<Seq<char>> {
    if suffix.len() <= s.len() && s.subrange(s.len() - suffix.len(), s.len() as int) == suffix {
        Some(s.subrange(0, s.len() - suffix.len()))
    } else {
        None
    }
}

/// The short identifier of the group at `email`: the address without the
/// first of the three organisational endings that it ends in, or the whole
/// address where it ends in none.
pub open spec fn slug_of(email: Seq<char>, org_domain: Seq<char>) -> Seq<char> {
    if without_suffix(email, "-commissie@"@ + org_domain) is Some {
        without_suffix(email, "-commissie@"@ + org_domain).unwrap()
    } else if without_suffix(email, "-group@"@ + org_domain) is Some {
        without_suffix(email, "-group@"@ + org_domain).unwrap()
    } else if without_suffix(email, "@"@ + org_domain) is Some {
        without_suffix(email, "@"@ + org_domain).unwrap()
    } else {
        email
    }
}

/// The group that a reported membership stands for.
pub open spec fn group_of(relation: GroupRelation, org_domain: Seq<char>) -> GroupView {
    GroupView {
        email: relation.group_key.id@,
        slug: slug_of(relation.group_key.id@, org_domain),
        name: relation.display_name@,
    }
}

/// The search expression for the groups that `member_email` belongs to.
pub open spec fn query_of(member_email: Seq<char>, customer_id: Option<Seq<char>>) -> Seq<char> {
    let base = "member_key_id == '"@ + member_email + "' && '"@ + forum_label() + "' in labels"@;
    match customer_id {
        Some(id) => base + " && parent == 'customers/"@ + id + "'"@,
        None => base,
    }
}

/// Removes `suffix` from the end of `s`, where `s` ends in it.
pub fn strip_suffix(s: &str, suffix: &str) -> (r: Option<String>)
    ensures
        match r {
            Some(rest) => without_suffix(s@, suffix@) == Some(rest@),
            None => without_suffix(s@, suffix@) is None,
        },
{
    let n: usize = s.unicode_len();
    let m: usize = suffix.unicode_len();
    if m > n {
        return None;
    }
    let start: usize = n - m;
    let mut i: usize = 0;
    while i < m
        invariant
            i <= m,
            m <= n,
            start == n - m,
            n == s@.len(),
            m == suffix@.len(),
            forall|j: int| 0 <= j < i ==> s@[start + j] == suffix@[j],
        decreases m - i,
    {
        if s.get_char(start + i) != suffix.get_char(i) {
            assert(s@.subrange(start as int, n as int)[i as int] != suffix@[i as int]);
            return None;
        }
        i += 1;
    }
    assert(s@.subrange(start as int, n as int) =~= suffix@);
    Some(s.substring_char(0, start).to_owned())
}

/// The short identifier of the group at `email`.
pub fn get_slug_from_email(email: String, org_domain: &str) -> (slug: String)
    ensures
        slug@ == slug_of(email@, org_domain@),
{
    let committee = String::from_str("-commissie@").concat(org_domain);
    if let Some(rest) = strip_suffix(email.as_str(), committee.as_str()) {
        return rest;
    }
    let group = String::from_str("-group@").concat(org_domain);
    if let Some(rest) = strip_suffix(email.as_str(), group.as_str()) {
        return rest;
    }
    let plain = String::from_str("@").concat(org_domain);
    if let Some(rest) = strip_suffix(email.as_str(), plain.as_str()) {
        return rest;
    }
    email
}

/// The groups that the directory's answer reports, in its order.
pub fn map_groups_response_to_groups(
    response: SearchTransitiveGroupsResponse,
    org_domain: &str,
) -> (groups: Vec<Group>)
    ensures
        group_views(groups@) == Seq::new(
            response.memberships@.len(),
            |i: int| group_of(response.memberships@[i], org_domain@),
        ),
{
    let mut groups: Vec<Group> = Vec::new();
    let mut i: usize = 0;
    while i < response.memberships.len()
        invariant
            i <= response.memberships@.len(),
            groups@.len() == i,
            forall|j: int|
                0 <= j < i ==> (#[trigger] groups@[j])@ == group_of(
                    response.memberships@[j],
                    org_domain@,
                ),
        decreases response.memberships@.len() - i,
    {
        let relation = &response.memberships[i];
        let group = Group {
            name: relation.display_name.clone(),
            email: relation.group_key.id.clone(),
            slug: get_slug_from_email(relation.group_key.id.clone(), org_domain),
        };
        groups.push(group);
        i += 1;
    }
    assert(group_views(groups@) =~= Seq::new(
        response.memberships@.len(),
        |i: int| group_of(response.memberships@[i], org_domain@),
    ));
    groups
}

/// The search expression that asks the directory for the groups of
/// `member_email`, within one customer where `customer_id` names it.
pub fn membership_query(member_email: &str, customer_id: Option<&str>) -> (query: String)
    ensures
        query@ == query_of(
            member_email@,
            match customer_id {
                Some(id) => Some(id@),
                None => None,
            },
        ),
{
    let mut query = String::from_str("member_key_id == '");
    query.append(member_email);
    query.append("' && '");
    query.append("cloudidentity.googleapis.com/groups.discussion_forum");
    query.append("' in labels");
    if let Some(id) = customer_id {
        query.append(" && parent == 'customers/");
        query.append(id);
        query.append("'");
    }
    query
}

/// What came of one call to the directory.
pub enum DirectoryReply {
    /// The call itself failed; the text says how.
    Unreachable(String),
    /// An answer came that is not of the expected shape; the text says how.
    Unreadable(String),
    /// An answer of the expected shape.
    Memberships(SearchTransitiveGroupsResponse),
}

/// The groups found for one member, and why none could be found where the
/// directory gave no usable answer.
pub struct Resolved {
    pub groups: Vec<Group>,
    pub failure: Option<String>,
}

/// The groups that a reply stands for: those it reports, or none where the
/// call failed or the answer could not be read.
pub open spec fn groups_of_reply(reply: DirectoryReply, org_domain: Seq<char>) -> Seq<GroupView> {
    match reply {
        DirectoryReply::Memberships(response) => Seq::new(
            response.memberships@.len(),
            |i: int| group_of(response.memberships@[i], org_domain),
        ),
        _ => Seq::empty(),
    }
}

/// The failure that a reply stands for, if it stands for one.
pub open spec fn failure_of_reply(reply: DirectoryReply) -> Option<String> {
    match reply {
        DirectoryReply::Unreachable(why) => Some(why),
        DirectoryReply::Unreadable(why) => Some(why),
        DirectoryReply::Memberships(_) => None,
    }
}

/// Turns the directory's reply into the member's groups. A failed call and an
/// unreadable answer both give no groups, with the reason beside them; neither
/// is an error to the caller.
pub fn get_groups(reply: DirectoryReply, org_domain: &str) -> (resolved: Resolved)
    ensures
        group_views(resolved.groups@) == groups_of_reply(reply, org_domain@),
        resolved.failure == failure_of_reply(reply),
{
    match reply {
        DirectoryReply::Memberships(response) => Resolved {
            groups: map_groups_response_to_groups(response, org_domain),
            failure: None,
        },
        DirectoryReply::Unreachable(why) => {
            let groups: Vec<Group> = Vec::new();
            assert(group_views(groups@) =~= Seq::empty());
            Resolved { groups, failure: Some(why) }
        },
        DirectoryReply::Unreadable(why) => {
            let groups: Vec<Group> = Vec::new();
            assert(group_views(groups@) =~= Seq::empty());
            Resolved { groups, failure: Some(why) }
        },
    }
}

/// The short identifiers of `groups`, in order.
pub fn slugs_of(groups: &Vec<Group>) -> (slugs: Vec<String>)
    ensures
        slugs@.len() == groups@.len(),
        forall|i: int| 0 <= i < groups@.len() ==> slugs@[i] == groups@[i].slug,
{
    let mut slugs: Vec<String> = Vec::new();
    let mut i: usize = 0;
    while i < groups.len()
        invariant
            i <= groups@.len(),
            slugs@.len() == i,
            forall|j: int| 0 <= j < i ==> slugs@[j] == groups@[j].slug,
        decreases groups@.len() - i,
    {
        slugs.push(groups[i].slug.clone());
        i += 1;
    }
    slugs
}

/// The answer to a verified caller who asked for their groups: their email
/// and the groups as they are.
pub fn groups_response(context: IapContext, groups: Vec<Group>) -> (response:
    VerifiedResponseGroups)
    ensures
        response.email == context.email,
        response.groups == groups,
{
    VerifiedResponseGroups { email: context.email, groups }
}

/// The answer to a verified caller who asked for the short identifiers of
/// their groups: their email and the identifiers, in the order of the groups.
pub fn slugs_response(context: IapContext, groups: Vec<Group>) -> (response:
    VerifiedResponseGroupsSlug)
    ensures
        response.email == context.email,
        response.groups@.len() == groups@.len(),
        forall|i: int| 0 <= i < groups@.len() ==> response.groups@[i] == groups@[i].slug,
{
    VerifiedResponseGroupsSlug { email: context.email, groups: slugs_of(&groups) }
}

} // verus!
