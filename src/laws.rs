use vstd::prelude::*;

use crate::directory::{
    after_create, after_delete, after_patch, create_result, delete_result, has_name, index_of,
    list_result, names_unique, patched_resource, upgrade_result,
};
use crate::labels::{
    decode_view, is_marked, lemma_decode_tenant_resource, lemma_keys_distinct, marker_key,
    tenant_resource, tier_key, version_key, ResourceView,
};
use crate::model::{
    default_server_type, global_id_of, lemma_version_text_round_trip, lower_of, upgrade_target,
    UserView, VmsVersion,
};
use crate::repository::{find_user, listed_users, lookup, upgrade_patch, UserError};

verus! {

/// How many users of `us` are named `n`.
pub open spec fn count_named(us: Seq<UserView>, n: Seq<char>) -> nat
    decreases us.len(),
{
    if us.len() == 0 {
        0
    } else {
        count_named(us.drop_last(), n) + if us.last().user_name == n {
            1nat
        } else {
            0nat
        }
    }
}

/// Looking a name up after one more user is appended.
pub proof fn lemma_find_push(us: Seq<UserView>, x: UserView, n: Seq<char>)
    ensures
        find_user(us.push(x), n) == if find_user(us, n) is Some {
            find_user(us, n)
        } else if x.user_name == n {
            Some(x)
        } else {
            None
        },
    decreases us.len(),
{
    if us.len() > 0 {
        assert(us.push(x)[0] == us[0]);
        assert(us.push(x).skip(1) =~= us.skip(1).push(x));
        lemma_find_push(us.skip(1), x, n);
    } else {
        assert(us.push(x)[0] == x);
        assert(us.push(x).skip(1) =~= Seq::<UserView>::empty());
        assert(find_user(Seq::<UserView>::empty(), n) is None);
    }
}

/// A name that no resource has is not among the listed users.
pub proof fn lemma_listed_absent(s: Seq<ResourceView>, n: Seq<char>)
    requires
        !has_name(s, n),
    ensures
        find_user(listed_users(s), n) is None,
        count_named(listed_users(s), n) == 0,
    decreases s.len(),
{
    if s.len() > 0 {
        let t = s.drop_last();
        assert(!has_name(t, n)) by {
            if has_name(t, n) {
                let i = choose|i: int| 0 <= i < t.len() && t[i].name == n;
                assert(s[i].name == n);
            }
        }
        lemma_listed_absent(t, n);
        assert(s[s.len() - 1].name != n);
        if is_marked(s.last()) && decode_view(s.last()) is Some {
            let x = decode_view(s.last())->Some_0;
            lemma_find_push(listed_users(t), x, n);
            assert(listed_users(s).drop_last() =~= listed_users(t));
        }
    }
}

/// Where names are unique, looking up a resource's name finds that resource's
/// tenant if it is listed, and nothing otherwise.
pub proof fn lemma_find_listed(s: Seq<ResourceView>, n: Seq<char>)
    requires
        names_unique(s),
        has_name(s, n),
    ensures
        find_user(listed_users(s), n) == if is_marked(s[index_of(s, n)]) && decode_view(
            s[index_of(s, n)],
        ) is Some {
            decode_view(s[index_of(s, n)])
        } else {
            None
        },
    decreases s.len(),
{
    let k = index_of(s, n);
    let t = s.drop_last();
    let last = s.last();
    if k == s.len() - 1 {
        assert(!has_name(t, n)) by {
            if has_name(t, n) {
                let i = choose|i: int| 0 <= i < t.len() && t[i].name == n;
                assert(s[i].name == n);
            }
        }
        lemma_listed_absent(t, n);
        if is_marked(last) && decode_view(last) is Some {
            lemma_find_push(listed_users(t), decode_view(last)->Some_0, n);
        }
    } else {
        assert(t[k].name == n);
        assert(names_unique(t));
        assert(has_name(t, n));
        assert(index_of(t, n) == k);
        lemma_find_listed(t, n);
        assert(last.name != n);
        if is_marked(last) && decode_view(last) is Some {
            lemma_find_push(listed_users(t), decode_view(last)->Some_0, n);
        }
    }
}

/// Creating a tenant and then looking up its global identifier gives the tenant
/// back, named by that identifier, with the version it was created with and the
/// default tier; this holds wherever no resource has that name yet and lower-casing
/// the identifier again leaves it as it is.
pub proof fn law_create_then_get(s: Seq<ResourceView>, name: Seq<char>, version: VmsVersion)
    requires
        names_unique(s),
        !has_name(s, global_id_of(name)),
        lower_of(global_id_of(name)) == global_id_of(name),
    ensures
        ({
            let u = UserView { user_name: name, vms_version: version, server_type: default_server_type() };
            let id = global_id_of(name);
            &&& create_result(s, u) == Ok::<UserView, UserError>(u)
            &&& lookup(after_create(s, tenant_resource(id, u)), id) == Ok::<UserView, UserError>(
                UserView { user_name: id, vms_version: version, server_type: default_server_type() },
            )
        }),
{
    let u = UserView { user_name: name, vms_version: version, server_type: default_server_type() };
    let id = global_id_of(name);
    let r = tenant_resource(id, u);
    let s2 = after_create(s, r);
    lemma_decode_tenant_resource(id, u);
    assert(s2.drop_last() =~= s);
    assert(s2.last() == r);
    lemma_listed_absent(s, id);
    lemma_find_push(listed_users(s), decode_view(r)->Some_0, id);
}

/// Deleting an identifier that no resource has gives `UserNotFound` and changes
/// nothing.
pub proof fn law_delete_absent(s: Seq<ResourceView>, id: Seq<char>)
    requires
        !has_name(s, id),
    ensures
        delete_result(s, id) == Err::<UserView, UserError>(UserError::UserNotFound),
        after_delete(s, id) == s,
{
}

/// Upgrading a listed tenant, whatever its version, reports the upgrade target with
/// the tenant's name and tier unchanged, and a later lookup of the identifier
/// reports the same.
pub proof fn law_upgrade_then_get(s: Seq<ResourceView>, id: Seq<char>)
    requires
        names_unique(s),
        has_name(s, id),
        lower_of(id) == id,
        is_marked(s[index_of(s, id)]),
        decode_view(s[index_of(s, id)]) is Some,
    ensures
        ({
            let before = decode_view(s[index_of(s, id)])->Some_0;
            let after = UserView {
                user_name: before.user_name,
                vms_version: upgrade_target(),
                server_type: before.server_type,
            };
            &&& before.user_name == id
            &&& upgrade_result(s, id) == Ok::<UserView, UserError>(after)
            &&& lookup(after_patch(s, id, upgrade_patch()), id) == Ok::<UserView, UserError>(after)
        }),
{
    let k = index_of(s, id);
    let p = patched_resource(s, id, upgrade_patch());
    let s2 = after_patch(s, id, upgrade_patch());
    lemma_keys_distinct();
    lemma_version_text_round_trip(upgrade_target());
    assert(p.labels.contains_key(marker_key()));
    assert(p.labels[marker_key()] == s[k].labels[marker_key()]);
    assert(p.labels[version_key()] == crate::model::version_text(upgrade_target()));
    assert(p.labels[tier_key()] == s[k].labels[tier_key()]);
    assert(s2[k] == p);
    assert(names_unique(s2));
    assert(has_name(s2, id));
    assert(index_of(s2, id) == k);
    lemma_find_listed(s2, id);
}

/// A resource without the managed-tenant marker never shows in a listing,
/// whatever other labels it carries and wherever it stands among the others.
pub proof fn law_listing_ignores_unmarked(s: Seq<ResourceView>, i: int, r: ResourceView)
    requires
        0 <= i <= s.len(),
        !is_marked(r),
    ensures
        listed_users(s.insert(i, r)) == listed_users(s),
        list_result(s.insert(i, r)) == list_result(s),
    decreases s.len(),
{
    if i == s.len() {
        assert(s.insert(i, r).drop_last() =~= s);
        assert(s.insert(i, r).last() == r);
    } else {
        let t = s.drop_last();
        law_listing_ignores_unmarked(t, i, r);
        assert(s.insert(i, r).drop_last() =~= t.insert(i, r));
        assert(s.insert(i, r).last() == s.last());
    }
}

/// Two creates with the same global identifier, where none existed: the first
/// succeeds, the second fails with `UserCreationFailure` and changes nothing, and
/// the listing then holds exactly one user of that name.
pub proof fn law_create_twice(s: Seq<ResourceView>, u1: UserView, u2: UserView)
    requires
        names_unique(s),
        global_id_of(u1.user_name) == global_id_of(u2.user_name),
        !has_name(s, global_id_of(u1.user_name)),
    ensures
        ({
            let id = global_id_of(u1.user_name);
            let s1 = after_create(s, tenant_resource(id, u1));
            &&& create_result(s, u1) == Ok::<UserView, UserError>(u1)
            &&& create_result(s1, u2) == Err::<UserView, UserError>(UserError::UserCreationFailure)
            &&& after_create(s1, tenant_resource(id, u2)) == s1
            &&& count_named(listed_users(s1), id) == 1
        }),
{
    let id = global_id_of(u1.user_name);
    let r = tenant_resource(id, u1);
    let s1 = after_create(s, r);
    lemma_decode_tenant_resource(id, u1);
    assert(s1.drop_last() =~= s);
    assert(s1.last() == r);
    assert(s1[s.len() as int].name == id);
    assert(has_name(s1, id));
    lemma_listed_absent(s, id);
    let us = listed_users(s1);
    assert(us.drop_last() =~= listed_users(s));
}

} // verus!
