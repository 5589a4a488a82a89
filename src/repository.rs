use vstd::prelude::*;

use crate::labels::{
    decode_user, decode_view, find_label, has_marker, is_marked, label_map, labels_view,
    tier_key, tier_key_string, version_key, version_key_string, Label, Resource, ResourceView,
};
use crate::model::{
    lower_of, lowercase, upgrade_target, version_of_text, version_text, User, UserView, VmsVersion,
};

verus! {

/// The failures a caller of the directory can see.
#[derive(Debug, Clone, Copy, PartialEq, Eq, Structural)]
pub enum UserError {
    UserNotFound,
    UserUpgradeFailure,
    UserCreationFailure,
    BadUserRequest,
}

impl UserError {
    /// The HTTP status code that stands for the failure.
    pub fn status_code(&self) -> (r: u16)
        ensures
            r == match *self {
                UserError::UserNotFound => 404u16,
                UserError::UserUpgradeFailure => 424u16,
                UserError::UserCreationFailure => 424u16,
                UserError::BadUserRequest => 400u16,
            },
    {
        match self {
            UserError::UserNotFound => 404,
            UserError::UserUpgradeFailure => 424,
            UserError::UserCreationFailure => 424,
            UserError::BadUserRequest => 400,
        }
    }
}

/// The views of a sequence of resources.
pub open spec fn resources_view(v: Seq<Resource>) -> Seq<ResourceView> {
    v.map_values(|r: Resource| r@)
}

/// The views of a sequence of users.
pub open spec fn users_view(v: Seq<User>) -> Seq<UserView> {
    v.map_values(|u: User| u@)
}

/// The tenants a listing stands for, in the listing's order: each resource that
/// carries the marker and decodes; the others are skipped.
pub open spec fn listed_users(s: Seq<ResourceView>) -> Seq<UserView>
    decreases s.len(),
{
    if s.len() == 0 {
        Seq::empty()
    } else if is_marked(s.last()) && decode_view(s.last()) is Some {
        listed_users(s.drop_last()).push(decode_view(s.last())->Some_0)
    } else {
        listed_users(s.drop_last())
    }
}

/// The first user named `id`, if any.
pub open spec fn find_user(us: Seq<UserView>, id: Seq<char>) -> Option<UserView>
    decreases us.len(),
{
    if us.len() == 0 {
        None
    } else if us[0].user_name == id {
        Some(us[0])
    } else {
        find_user(us.skip(1), id)
    }
}

/// The outcome of looking up `id` in a listing: identifiers are lower-cased
/// before they are compared with user names.
pub open spec fn lookup(s: Seq<ResourceView>, id: Seq<char>) -> Result<UserView, UserError> {
    match find_user(listed_users(s), lower_of(id)) {
        Some(u) => Ok(u),
        None => Err(UserError::UserNotFound),
    }
}

/// The tenants of a listing, or `UserNotFound` where none is there.
pub fn users_from_listing(resources: &Vec<Resource>) -> (r: Result<Vec<User>, UserError>)
    ensures
        match r {
            Ok(v) => users_view(v@) == listed_users(resources_view(resources@)) && v@.len() > 0,
            Err(e) => e == UserError::UserNotFound && listed_users(
                resources_view(resources@),
            ).len() == 0,
        },
{
    let ghost s = resources_view(resources@);
    let mut result: Vec<User> = Vec::new();
    let mut i: usize = 0;
    while i < resources.len()
        invariant
            i <= resources.len(),
            s == resources_view(resources@),
            users_view(result@) =~= listed_users(s.take(i as int)),
        decreases resources.len() - i,
    {
        assert(s.take(i + 1).drop_last() =~= s.take(i as int));
        assert(s.take(i + 1).last() == resources@[i as int]@);
        if has_marker(&resources[i]) {
            match decode_user(&resources[i]) {
                Some(u) => {
                    result.push(u);
                },
                None => {},
            }
        }
        i = i + 1;
    }
    assert(s.take(i as int) =~= s);
    if result.len() > 0 {
        Ok(result)
    } else {
        Err(UserError::UserNotFound)
    }
}

/// The first user in `users` whose name is `id`.
pub fn find_by_name(users: Vec<User>, id: &String) -> (r: Option<User>)
    ensures
        match r {
            Some(u) => find_user(users_view(users@), id@) == Some(u@),
            None => find_user(users_view(users@), id@) is None,
        },
{
    let ghost us = users_view(users@);
    let mut list = users;
    let mut i: usize = 0;
    assert(us.skip(0) =~= us);
    while i < list.len()
        invariant
            i <= list.len(),
            us == users_view(list@),
            us == users_view(users@),
            find_user(us, id@) == find_user(us.skip(i as int), id@),
        decreases list.len() - i,
    {
        assert(us.skip(i as int)[0] == list@[i as int]@);
        assert(us.skip(i as int).skip(1) =~= us.skip(i + 1));
        if list[i].user_name == *id {
            assert(find_user(us.skip(i as int), id@) == Some(list@[i as int]@));
            let u = list.swap_remove(i);
            return Some(u);
        }
        i = i + 1;
    }
    assert(us.skip(i as int) =~= Seq::<UserView>::empty());
    None
}

/// Looks `id` up in a listing: the first tenant whose name is `id` lower-cased.
pub fn user_from_listing(resources: &Vec<Resource>, id: &str) -> (r: Result<User, UserError>)
    ensures
        match r {
            Ok(u) => lookup(resources_view(resources@), id@) == Ok::<UserView, UserError>(u@),
            Err(e) => lookup(resources_view(resources@), id@) == Err::<UserView, UserError>(e),
        },
{
    let key = lowercase(id);
    match users_from_listing(resources) {
        Ok(users) => match find_by_name(users, &key) {
            Some(u) => Ok(u),
            None => Err(UserError::UserNotFound),
        },
        Err(e) => Err(e),
    }
}

/// The tenant a patched resource reports after an upgrade: its name, the upgrade
/// target, and the tier label of the response.
pub open spec fn upgraded_view(r: ResourceView) -> Option<UserView> {
    if r.labels.contains_key(tier_key()) {
        Some(
            UserView {
                user_name: r.name,
                vms_version: upgrade_target(),
                server_type: r.labels[tier_key()],
            },
        )
    } else {
        None
    }
}

/// The labels an upgrade patch sets: the version label, to the upgrade target.
pub open spec fn upgrade_patch() -> Map<Seq<char>, Seq<char>> {
    map![version_key() => version_text(upgrade_target())]
}

/// The label list of an upgrade patch.
pub fn upgrade_patch_labels() -> (r: Vec<Label>)
    ensures
        label_map(labels_view(r@)) == upgrade_patch(),
{
    let mut r: Vec<Label> = Vec::new();
    r.push(Label { key: version_key_string(), value: VmsVersion::upgrade_target().as_string() });
    proof {
        let s = labels_view(r@);
        let e = Seq::<(Seq<char>, Seq<char>)>::empty();
        assert(s.drop_last() =~= e);
        assert(s.last() == r@[0]@);
        assert(label_map(s) == label_map(e).insert(version_key(), version_text(upgrade_target())));
        assert(label_map(s) =~= upgrade_patch());
    }
    r
}

/// The outcome of an upgrade from the patch response, `None` where the patch
/// failed.
pub fn upgrade_outcome(patched: Option<Resource>) -> (r: Result<User, UserError>)
    ensures
        match patched {
            Some(p) => match upgraded_view(p@) {
                Some(u) => r is Ok && r->Ok_0@ == u,
                None => r == Err::<User, UserError>(UserError::UserNotFound),
            },
            None => r == Err::<User, UserError>(UserError::UserNotFound),
        },
{
    match patched {
        Some(p) => match find_label(&p.labels, &tier_key_string()) {
            Some(tier) => Ok(
                User {
                    user_name: p.name,
                    vms_version: VmsVersion::upgrade_target(),
                    server_type: tier,
                },
            ),
            None => Err(UserError::UserNotFound),
        },
        None => Err(UserError::UserNotFound),
    }
}

/// What a delete call reports back.
#[derive(Debug)]
pub enum DeleteReply {
    /// The resource was removed at once; its state before the removal.
    Removed(Resource),
    /// Removal goes on in the background; no snapshot of the resource was given.
    Pending,
}

/// The outcome of a delete from the reply, `None` where the call failed.
pub fn delete_outcome(reply: Option<DeleteReply>) -> (r: Result<User, UserError>)
    ensures
        match reply {
            Some(DeleteReply::Removed(p)) => match decode_view(p@) {
                Some(u) => r is Ok && r->Ok_0@ == u,
                None => r == Err::<User, UserError>(UserError::UserNotFound),
            },
            _ => r == Err::<User, UserError>(UserError::UserNotFound),
        },
{
    match reply {
        Some(DeleteReply::Removed(p)) => match decode_user(&p) {
            Some(u) => Ok(u),
            None => Err(UserError::UserNotFound),
        },
        _ => Err(UserError::UserNotFound),
    }
}

/// A create call that the control plane refused, for whatever reason.
#[derive(Debug, Clone, Copy, PartialEq, Eq, Structural)]
pub struct KubeError;

/// The outcome of a create call for `user`: the user as given where the call
/// succeeded, `KubeError` whatever the reason where it did not.
pub fn creation_outcome(user: User, created: bool) -> (r: Result<User, KubeError>)
    ensures
        created ==> r is Ok && r->Ok_0@ == user@,
        !created ==> r is Err,
{
    if created {
        Ok(user)
    } else {
        Err(KubeError)
    }
}

/// The user a create request asks for: its name as given, its version parsed;
/// `BadUserRequest` where the version is not a known one.
pub fn user_from_request(user_name: String, vms_version: &str) -> (r: Result<User, UserError>)
    ensures
        match version_of_text(vms_version@) {
            Some(v) => r is Ok && r->Ok_0@ == (UserView {
                user_name: user_name@,
                vms_version: v,
                server_type: crate::model::default_server_type(),
            }),
            None => r == Err::<User, UserError>(UserError::BadUserRequest),
        },
{
    match VmsVersion::parse(vms_version) {
        Some(v) => Ok(User::new(user_name, v)),
        None => Err(UserError::BadUserRequest),
    }
}

} // verus!
