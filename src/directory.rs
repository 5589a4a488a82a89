use vstd::prelude::*;

use crate::labels::{
    copy_labels, decode_view, has_marker, is_marked, label_map, labels_view, lemma_label_map_split,
    tenant_resource, tenant_resource_of, Label, Resource, ResourceView,
};
use crate::model::{global_id_of, User, UserView};
use crate::repository::{
    creation_outcome, delete_outcome, listed_users, lookup, resources_view, upgrade_outcome,
    upgrade_patch, upgrade_patch_labels, upgraded_view, user_from_listing, users_from_listing,
    users_view, DeleteReply, UserError,
};

verus! {

/// No two resources of the state share a name.
pub open spec fn names_unique(s: Seq<ResourceView>) -> bool {
    forall|i: int, j: int|
        0 <= i < s.len() && 0 <= j < s.len() && i != j ==> s[i].name != s[j].name
}

/// Whether a resource named `n` exists.
pub open spec fn has_name(s: Seq<ResourceView>, n: Seq<char>) -> bool {
    exists|i: int| 0 <= i < s.len() && s[i].name == n
}

/// The position of the resource named `n`.
pub open spec fn index_of(s: Seq<ResourceView>, n: Seq<char>) -> int {
    choose|i: int| 0 <= i < s.len() && s[i].name == n
}

/// The resources that carry the managed-tenant marker, in order.
pub open spec fn marked(s: Seq<ResourceView>) -> Seq<ResourceView>
    decreases s.len(),
{
    if s.len() == 0 {
        Seq::empty()
    } else if is_marked(s.last()) {
        marked(s.drop_last()).push(s.last())
    } else {
        marked(s.drop_last())
    }
}

/// The state after a create of `r`: refused where the name is taken.
pub open spec fn after_create(s: Seq<ResourceView>, r: ResourceView) -> Seq<ResourceView> {
    if has_name(s, r.name) {
        s
    } else {
        s.push(r)
    }
}

/// The resource named `n` with `patch` merged into its labels.
pub open spec fn patched_resource(
    s: Seq<ResourceView>,
    n: Seq<char>,
    patch: Map<Seq<char>, Seq<char>>,
) -> ResourceView {
    ResourceView {
        name: s[index_of(s, n)].name,
        labels: s[index_of(s, n)].labels.union_prefer_right(patch),
    }
}

/// The state after a merge patch of the labels of `n`; unchanged where `n` is absent.
pub open spec fn after_patch(
    s: Seq<ResourceView>,
    n: Seq<char>,
    patch: Map<Seq<char>, Seq<char>>,
) -> Seq<ResourceView> {
    if has_name(s, n) {
        s.update(index_of(s, n), patched_resource(s, n, patch))
    } else {
        s
    }
}

/// The state after an immediate delete of `n`; unchanged where `n` is absent.
pub open spec fn after_delete(s: Seq<ResourceView>, n: Seq<char>) -> Seq<ResourceView> {
    if has_name(s, n) {
        s.remove(index_of(s, n))
    } else {
        s
    }
}

/// What `create_user` returns on state `s`.
pub open spec fn create_result(s: Seq<ResourceView>, u: UserView) -> Result<UserView, UserError> {
    if has_name(s, global_id_of(u.user_name)) {
        Err(UserError::UserCreationFailure)
    } else {
        Ok(u)
    }
}

/// What `upgrade_user` returns on state `s`.
pub open spec fn upgrade_result(s: Seq<ResourceView>, id: Seq<char>) -> Result<
    UserView,
    UserError,
> {
    if has_name(s, id) {
        match upgraded_view(patched_resource(s, id, upgrade_patch())) {
            Some(u) => Ok(u),
            None => Err(UserError::UserNotFound),
        }
    } else {
        Err(UserError::UserNotFound)
    }
}

/// What `delete_user` returns on state `s`.
pub open spec fn delete_result(s: Seq<ResourceView>, id: Seq<char>) -> Result<
    UserView,
    UserError,
> {
    if has_name(s, id) {
        match decode_view(s[index_of(s, id)]) {
            Some(u) => Ok(u),
            None => Err(UserError::UserNotFound),
        }
    } else {
        Err(UserError::UserNotFound)
    }
}

/// What `get_users` returns on state `s`.
pub open spec fn list_result(s: Seq<ResourceView>) -> Result<Seq<UserView>, UserError> {
    if listed_users(s).len() == 0 {
        Err(UserError::UserNotFound)
    } else {
        Ok(listed_users(s))
    }
}

/// Selecting the marked resources first changes no listing.
pub proof fn lemma_listed_marked(s: Seq<ResourceView>)
    ensures
        listed_users(marked(s)) == listed_users(s),
    decreases s.len(),
{
    if s.len() > 0 {
        lemma_listed_marked(s.drop_last());
        if is_marked(s.last()) {
            assert(marked(s).drop_last() =~= marked(s.drop_last()));
            assert(marked(s).last() == s.last());
        }
    }
}

/// The merged label list stands for the old labels overridden by the patch.
pub proof fn lemma_label_map_concat(a: Seq<(Seq<char>, Seq<char>)>, b: Seq<(Seq<char>, Seq<char>)>)
    ensures
        label_map(a + b) == label_map(a).union_prefer_right(label_map(b)),
{
    lemma_label_map_split(a + b, a.len() as int);
    assert((a + b).take(a.len() as int) =~= a);
    assert((a + b).skip(a.len() as int) =~= b);
}

/// An in-memory control plane holding tenant resources, with the directory's
/// operations on it. Names are unique, as the control plane enforces.
pub struct MemoryRepository {
    resources: Vec<Resource>,
}

impl View for MemoryRepository {
    type V = Seq<ResourceView>;

    closed spec fn view(&self) -> Seq<ResourceView> {
        resources_view(self.resources@)
    }
}

impl MemoryRepository {
    /// Well-formedness: resource names are unique.
    pub open spec fn wf(&self) -> bool {
        names_unique(self@)
    }

    /// An empty control plane.
    pub fn new() -> (r: MemoryRepository)
        ensures
            r.wf(),
            r@ == Seq::<ResourceView>::empty(),
    {
        let r = MemoryRepository { resources: Vec::new() };
        assert(r@ =~= Seq::<ResourceView>::empty());
        r
    }

    /// The position of the resource named `name`.
    fn position(&self, name: &String) -> (r: Option<usize>)
        ensures
            match r {
                Some(i) => i < self@.len() && self@[i as int].name == name@,
                None => !has_name(self@, name@),
            },
    {
        let mut i: usize = 0;
        while i < self.resources.len()
            invariant
                i <= self.resources.len(),
                forall|j: int| 0 <= j < i ==> self@[j].name != name@,
            decreases self.resources.len() - i,
        {
            if self.resources[i].name == *name {
                return Some(i);
            }
            i = i + 1;
        }
        None
    }

    /// The resources that carry the managed-tenant marker, as a label-selector
    /// listing returns them.
    pub fn list_marked(&self) -> (r: Vec<Resource>)
        ensures
            resources_view(r@) == marked(self@),
    {
        let mut r: Vec<Resource> = Vec::new();
        let mut i: usize = 0;
        while i < self.resources.len()
            invariant
                i <= self.resources.len(),
                resources_view(r@) =~= marked(self@.take(i as int)),
            decreases self.resources.len() - i,
        {
            assert(self@.take(i + 1).drop_last() =~= self@.take(i as int));
            assert(self@.take(i + 1).last() == self@[i as int]);
            if has_marker(&self.resources[i]) {
                r.push(self.resources[i].duplicate());
            }
            i = i + 1;
        }
        assert(self@.take(i as int) =~= self@);
        r
    }

    /// Creates `res`; refused, with nothing changed, where its name is taken.
    pub fn create(&mut self, res: Resource) -> (r: bool)
        requires
            old(self).wf(),
        ensures
            final(self).wf(),
            r == !has_name(old(self)@, res@.name),
            final(self)@ == after_create(old(self)@, res@),
    {
        match self.position(&res.name) {
            Some(_) => false,
            None => {
                let ghost s = self@;
                self.resources.push(res);
                assert(self@ =~= s.push(res@));
                true
            },
        }
    }

    /// Merges `patch` into the labels of the resource named `name` and returns the
    /// patched resource; `None`, with nothing changed, where there is none.
    pub fn patch_labels(&mut self, name: &String, patch: &Vec<Label>) -> (r: Option<Resource>)
        requires
            old(self).wf(),
        ensures
            final(self).wf(),
            final(self)@ == after_patch(old(self)@, name@, label_map(labels_view(patch@))),
            match r {
                Some(p) => has_name(old(self)@, name@) && p@ == patched_resource(
                    old(self)@,
                    name@,
                    label_map(labels_view(patch@)),
                ),
                None => !has_name(old(self)@, name@),
            },
    {
        match self.position(name) {
            None => None,
            Some(i) => {
                let ghost s = self@;
                let mut labels = copy_labels(&self.resources[i].labels);
                let ghost front = labels_view(labels@);
                let mut k: usize = 0;
                while k < patch.len()
                    invariant
                        k <= patch.len(),
                        labels@.len() == front.len() + k,
                        forall|j: int| 0 <= j < front.len() ==> #[trigger] labels@[j]@ == front[j],
                        forall|j: int|
                            0 <= j < k ==> #[trigger] labels@[front.len() + j]@ == patch@[j]@,
                    decreases patch.len() - k,
                {
                    labels.push(Label { key: patch[k].key.clone(), value: patch[k].value.clone() });
                    k = k + 1;
                }
                assert forall|j: int| 0 <= j < labels@.len() implies labels_view(labels@)[j] == (
                front + labels_view(patch@))[j] by {
                    if j >= front.len() {
                        assert(labels@[front.len() + (j - front.len())]@ == patch@[j - front.len()]@);
                    }
                }
                assert(labels_view(labels@) =~= front + labels_view(patch@));
                proof {
                    lemma_label_map_concat(front, labels_view(patch@));
                    assert(index_of(s, name@) == i as int);
                }
                let p = Resource { name: self.resources[i].name.clone(), labels };
                let out = p.duplicate();
                self.resources.set(i, p);
                assert(self@ =~= s.update(i as int, out@));
                Some(out)
            },
        }
    }

    /// Removes the resource named `name` at once and returns it; `None`, with
    /// nothing changed, where there is none.
    pub fn delete(&mut self, name: &String) -> (r: Option<Resource>)
        requires
            old(self).wf(),
        ensures
            final(self).wf(),
            final(self)@ == after_delete(old(self)@, name@),
            match r {
                Some(p) => has_name(old(self)@, name@) && p@ == old(self)@[index_of(
                    old(self)@,
                    name@,
                )],
                None => !has_name(old(self)@, name@),
            },
    {
        match self.position(name) {
            None => None,
            Some(i) => {
                let ghost s = self@;
                let p = self.resources.remove(i);
                assert(index_of(s, name@) == i as int);
                assert(self@ =~= s.remove(i as int));
                Some(p)
            },
        }
    }

    /// Every tenant, in listing order; `UserNotFound` where there is none.
    pub fn get_users(&self) -> (r: Result<Vec<User>, UserError>)
        ensures
            match r {
                Ok(v) => list_result(self@) == Ok::<Seq<UserView>, UserError>(users_view(v@)),
                Err(e) => list_result(self@) == Err::<Seq<UserView>, UserError>(e),
            },
    {
        let listing = self.list_marked();
        proof {
            lemma_listed_marked(self@);
        }
        users_from_listing(&listing)
    }

    /// The tenant whose name is `id` lower-cased; `UserNotFound` where none is listed.
    pub fn get_user(&self, id: &str) -> (r: Result<User, UserError>)
        ensures
            match r {
                Ok(u) => lookup(self@, id@) == Ok::<UserView, UserError>(u@),
                Err(e) => lookup(self@, id@) == Err::<UserView, UserError>(e),
            },
    {
        let listing = self.list_marked();
        proof {
            lemma_listed_marked(self@);
        }
        user_from_listing(&listing, id)
    }

    /// Creates the resource of `user`, named by its global identifier; any refusal
    /// is `UserCreationFailure`.
    pub fn create_user(&mut self, user: User) -> (r: Result<User, UserError>)
        requires
            old(self).wf(),
        ensures
            final(self).wf(),
            final(self)@ == after_create(
                old(self)@,
                tenant_resource(global_id_of(user@.user_name), user@),
            ),
            match r {
                Ok(u) => create_result(old(self)@, user@) == Ok::<UserView, UserError>(u@),
                Err(e) => create_result(old(self)@, user@) == Err::<UserView, UserError>(e),
            },
    {
        let res = tenant_resource_of(&user);
        let created = self.create(res);
        match creation_outcome(user, created) {
            Ok(u) => Ok(u),
            Err(_) => Err(UserError::UserCreationFailure),
        }
    }

    /// Moves the tenant `id` to the upgrade target by a merge patch of its version
    /// label; `UserNotFound` where there is no such resource.
    pub fn upgrade_user(&mut self, id: &str) -> (r: Result<User, UserError>)
        requires
            old(self).wf(),
        ensures
            final(self).wf(),
            final(self)@ == after_patch(old(self)@, id@, upgrade_patch()),
            match r {
                Ok(u) => upgrade_result(old(self)@, id@) == Ok::<UserView, UserError>(u@),
                Err(e) => upgrade_result(old(self)@, id@) == Err::<UserView, UserError>(e),
            },
    {
        let name = id.to_owned();
        let patch = upgrade_patch_labels();
        let patched = self.patch_labels(&name, &patch);
        upgrade_outcome(patched)
    }

    /// Removes the tenant `id` at once and returns its record from before the
    /// removal; `UserNotFound` where there is no such resource.
    pub fn delete_user(&mut self, id: &str) -> (r: Result<User, UserError>)
        requires
            old(self).wf(),
        ensures
            final(self).wf(),
            final(self)@ == after_delete(old(self)@, id@),
            match r {
                Ok(u) => delete_result(old(self)@, id@) == Ok::<UserView, UserError>(u@),
                Err(e) => delete_result(old(self)@, id@) == Err::<UserView, UserError>(e),
            },
    {
        let name = id.to_owned();
        match self.delete(&name) {
            Some(p) => delete_outcome(Some(DeleteReply::Removed(p))),
            None => delete_outcome(None),
        }
    }
}

} // verus!
