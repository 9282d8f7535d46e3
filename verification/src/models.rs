//! The plain data that moves between the directory, the cache and the handlers.

use vstd::prelude::*;

verus! {

/// A directory group: its address, its short identifier and its display name.
#[derive(Clone, Debug)]
pub struct Group {
    pub email: String,
    pub slug: String,
    pub name: String,
}

/// What a `Group` is, as three texts.
pub struct GroupView {
    pub email: Seq<char>,
    pub slug: Seq<char>,
    pub name: Seq<char>,
}

impl View for Group {
    type V = GroupView;

    open spec fn view(&self) -> GroupView {
        GroupView { email: self.email@, slug: self.slug@, name: self.name@ }
    }
}

/// The views of a list of groups, in order.
pub open spec fn group_views(groups: Seq<Group>) -> Seq<GroupView> {
    Seq::new(groups.len(), |i: int| groups[i]@)
}

impl Group {
    /// A copy of this group.
    pub fn duplicate(&self) -> (g: Group)
        ensures
            g == *self,
    {
        Group { email: self.email.clone(), slug: self.slug.clone(), name: self.name.clone() }
    }
}

/// A copy of a list of groups, in the same order.
pub fn duplicate_groups(groups: &Vec<Group>) -> (copy: Vec<Group>)
    ensures
        copy@ == groups@,
{
    let mut copy: Vec<Group> = Vec::new();
    let mut i: usize = 0;
    while i < groups.len()
        invariant
            i <= groups@.len(),
            copy@ == groups@.subrange(0, i as int),
        decreases groups@.len() - i,
    {
        copy.push(groups[i].duplicate());
        assert(copy@ =~= groups@.subrange(0, i + 1));
        i += 1;
    }
    assert(copy@ =~= groups@);
    copy
}

/// The answer to a caller who asked for their groups.
#[derive(Clone, Debug)]
pub struct VerifiedResponseGroups {
    pub email: String,
    pub groups: Vec<Group>,
}

/// The answer to a caller who asked for the short identifiers of their groups.
#[derive(Clone, Debug)]
pub struct VerifiedResponseGroupsSlug {
    pub email: String,
    pub groups: Vec<String>,
}

/// The key of an entity in the directory.
#[derive(Clone, Debug)]
pub struct EntityKey {
    pub id: String,
}

/// One membership as the directory reports it.
#[derive(Clone, Debug)]
pub struct GroupRelation {
    pub group_key: EntityKey,
    pub display_name: String,
}

/// The directory's answer to a search for transitive memberships.
#[derive(Clone, Debug)]
pub struct SearchTransitiveGroupsResponse {
    pub memberships: Vec<GroupRelation>,
}

/// The registered claims of a service token.
#[derive(Clone, Debug)]
pub struct Claims {
    pub exp: usize,
    pub iat: usize,
    pub iss: String,
    pub aud: String,
}

/// The claims that an assertion carries about its bearer.
#[derive(Clone, Debug)]
pub struct TokenClaims {
    pub email: String,
    pub aud: String,
    pub iss: String,
    pub exp: u64,
}

/// What a `TokenClaims` is, as plain values.
pub struct TokenClaimsView {
    pub email: Seq<char>,
    pub aud: Seq<char>,
    pub iss: Seq<char>,
    pub exp: u64,
}

impl View for TokenClaims {
    type V = TokenClaimsView;

    open spec fn view(&self) -> TokenClaimsView {
        TokenClaimsView { email: self.email@, aud: self.aud@, iss: self.iss@, exp: self.exp }
    }
}

} // verus!
