use vstd::prelude::*;

use crate::model::{
    lemma_version_text_round_trip, version_of_text, version_text, User, UserView, VmsVersion,
};

verus! {

/// Key of the label that marks a resource as a managed tenant record.
pub open spec fn marker_key() -> Seq<char> {
    "vms.myenv.cloud/user-namespace"@
}

/// Key of the label that holds the tenant's product version.
pub open spec fn version_key() -> Seq<char> {
    "vms.myenv.cloud/vms-version"@
}

/// Key of the label that holds the tenant's service tier.
pub open spec fn tier_key() -> Seq<char> {
    "vms.myenv.cloud/server-type"@
}

/// Value of the marker label on a managed tenant record.
pub open spec fn marker_value() -> Seq<char> {
    "true"@
}

/// The three label keys are pairwise different.
pub proof fn lemma_keys_distinct()
    ensures
        marker_key() != version_key(),
        marker_key() != tier_key(),
        version_key() != tier_key(),
{
    reveal_strlit("vms.myenv.cloud/user-namespace");
    reveal_strlit("vms.myenv.cloud/vms-version");
    reveal_strlit("vms.myenv.cloud/server-type");
    assert(marker_key()[16] != version_key()[16]);
    assert(marker_key()[16] != tier_key()[16]);
    assert(version_key()[16] != tier_key()[16]);
}

/// One key/value label of a backing resource.
#[derive(Debug)]
pub struct Label {
    pub key: String,
    pub value: String,
}

impl View for Label {
    type V = (Seq<char>, Seq<char>);

    open spec fn view(&self) -> (Seq<char>, Seq<char>) {
        (self.key@, self.value@)
    }
}

/// The mapping that a label list stands for: a later entry for a key overrides
/// an earlier one.
pub open spec fn label_map(s: Seq<(Seq<char>, Seq<char>)>) -> Map<Seq<char>, Seq<char>>
    decreases s.len(),
{
    if s.len() == 0 {
        Map::empty()
    } else {
        label_map(s.drop_last()).insert(s.last().0, s.last().1)
    }
}

/// The views of a list of labels.
pub open spec fn labels_view(v: Seq<Label>) -> Seq<(Seq<char>, Seq<char>)> {
    v.map_values(|l: Label| l@)
}

/// A backing resource as the library reasons about it: its name and its labels.
pub struct ResourceView {
    pub name: Seq<char>,
    pub labels: Map<Seq<char>, Seq<char>>,
}

/// A backing resource: a name and its labels; no other field is read or written.
#[derive(Debug)]
pub struct Resource {
    pub name: String,
    pub labels: Vec<Label>,
}

impl View for Resource {
    type V = ResourceView;

    open spec fn view(&self) -> ResourceView {
        ResourceView { name: self.name@, labels: label_map(labels_view(self.labels@)) }
    }
}

/// Whether a resource matches the selector that enumerates managed tenants.
pub open spec fn is_marked(r: ResourceView) -> bool {
    r.labels.contains_key(marker_key()) && r.labels[marker_key()] == marker_value()
}

/// The tenant a resource stands for, if its labels decode.
pub open spec fn decode_view(r: ResourceView) -> Option<UserView> {
    if r.labels.contains_key(version_key()) && r.labels.contains_key(tier_key())
        && version_of_text(r.labels[version_key()]) is Some {
        Some(
            UserView {
                user_name: r.name,
                vms_version: version_of_text(r.labels[version_key()])->Some_0,
                server_type: r.labels[tier_key()],
            },
        )
    } else {
        None
    }
}

/// The labels a tenant's resource is created with.
pub open spec fn tenant_labels(u: UserView) -> Map<Seq<char>, Seq<char>> {
    map![
        marker_key() => marker_value(),
        version_key() => version_text(u.vms_version),
        tier_key() => u.server_type,
    ]
}

/// The resource that stands for a tenant.
pub open spec fn tenant_resource(id: Seq<char>, u: UserView) -> ResourceView {
    ResourceView { name: id, labels: tenant_labels(u) }
}

/// Decoding the resource built for a tenant gives the tenant back, under the
/// resource's name.
pub proof fn lemma_decode_tenant_resource(id: Seq<char>, u: UserView)
    ensures
        is_marked(tenant_resource(id, u)),
        decode_view(tenant_resource(id, u)) == Some(
            UserView { user_name: id, vms_version: u.vms_version, server_type: u.server_type },
        ),
{
    lemma_keys_distinct();
    lemma_version_text_round_trip(u.vms_version);
}

/// The value under `key` in the labels, searching from the last entry back.
pub fn find_label(labels: &Vec<Label>, key: &String) -> (r: Option<String>)
    ensures
        r is Some <==> label_map(labels_view(labels@)).contains_key(key@),
        r is Some ==> r->Some_0@ == label_map(labels_view(labels@))[key@],
{
    let ghost s = labels_view(labels@);
    let mut i: usize = labels.len();
    proof {
        lemma_label_map_split(s, i as int);
        assert(s.skip(i as int) =~= Seq::<(Seq<char>, Seq<char>)>::empty());
    }
    while i > 0
        invariant
            i <= labels.len(),
            s == labels_view(labels@),
            label_map(s) == label_map(s.take(i as int)).union_prefer_right(
                label_map(s.skip(i as int)),
            ),
            !label_map(s.skip(i as int)).contains_key(key@),
        decreases i,
    {
        let ghost before = s.take(i as int);
        assert(before.drop_last() =~= s.take(i - 1));
        assert(before.last() == labels@[i - 1]@);
        if labels[i - 1].key == *key {
            return Some(labels[i - 1].value.clone());
        }
        proof {
            lemma_label_map_split(s, i - 1);
            lemma_label_map_cons(s[i - 1], s.skip(i as int));
            assert(s.skip(i - 1) =~= seq![s[i - 1]] + s.skip(i as int));
        }
        i = i - 1;
    }
    assert(s.take(0) =~= Seq::<(Seq<char>, Seq<char>)>::empty());
    assert(label_map(s) =~= label_map(s.skip(0)));
    assert(s.skip(0) =~= s);
    None
}

/// Splitting a label list at `i`: the map of the whole is the map of the front,
/// overridden by the map of the back.
pub proof fn lemma_label_map_split(s: Seq<(Seq<char>, Seq<char>)>, i: int)
    requires
        0 <= i <= s.len(),
    ensures
        label_map(s) == label_map(s.take(i)).union_prefer_right(label_map(s.skip(i))),
    decreases s.len() - i,
{
    if i == s.len() {
        assert(s.take(i) =~= s);
        assert(s.skip(i) =~= Seq::<(Seq<char>, Seq<char>)>::empty());
        assert(label_map(s) =~= label_map(s).union_prefer_right(Map::empty()));
    } else {
        lemma_label_map_split(s, i + 1);
        lemma_label_map_cons(s[i], s.skip(i + 1));
        assert(s.skip(i) =~= seq![s[i]] + s.skip(i + 1));
        assert(s.take(i + 1).drop_last() =~= s.take(i));
        assert(s.take(i + 1).last() == s[i]);
        assert(label_map(s) =~= label_map(s.take(i)).union_prefer_right(label_map(s.skip(i))));
    }
}

/// The map of an entry put in front of a list.
pub proof fn lemma_label_map_cons(x: (Seq<char>, Seq<char>), t: Seq<(Seq<char>, Seq<char>)>)
    ensures
        label_map(seq![x] + t) == map![x.0 => x.1].union_prefer_right(label_map(t)),
    decreases t.len(),
{
    if t.len() == 0 {
        assert(seq![x] + t =~= seq![x]);
        let e = Seq::<(Seq<char>, Seq<char>)>::empty();
        assert(seq![x].drop_last() =~= e);
        assert(label_map(seq![x]) == label_map(e).insert(x.0, x.1));
        assert(label_map(t) == Map::<Seq<char>, Seq<char>>::empty());
        assert(label_map(seq![x] + t) =~= map![x.0 => x.1].union_prefer_right(label_map(t)));
    } else {
        lemma_label_map_cons(x, t.drop_last());
        assert((seq![x] + t).drop_last() =~= seq![x] + t.drop_last());
        assert((seq![x] + t).last() == t.last());
        assert(label_map(seq![x] + t) =~= map![x.0 => x.1].union_prefer_right(label_map(t)));
    }
}

/// The marker label key as a string.
pub fn marker_key_string() -> (r: String)
    ensures
        r@ == marker_key(),
{
    "vms.myenv.cloud/user-namespace".to_owned()
}

/// The version label key as a string.
pub fn version_key_string() -> (r: String)
    ensures
        r@ == version_key(),
{
    "vms.myenv.cloud/vms-version".to_owned()
}

/// The tier label key as a string.
pub fn tier_key_string() -> (r: String)
    ensures
        r@ == tier_key(),
{
    "vms.myenv.cloud/server-type".to_owned()
}

/// The label selector that enumerates managed tenants: the marker key, `=`, and
/// the marker value.
pub open spec fn marker_selector() -> Seq<char> {
    "vms.myenv.cloud/user-namespace=true"@
}

/// The label selector that enumerates managed tenants, as a string.
pub fn marker_selector_string() -> (r: String)
    ensures
        r@ == marker_selector(),
        r@ == marker_key() + "="@ + marker_value(),
{
    proof {
        reveal_strlit("vms.myenv.cloud/user-namespace=true");
        reveal_strlit("vms.myenv.cloud/user-namespace");
        reveal_strlit("=");
        reveal_strlit("true");
        assert(marker_selector() =~= marker_key() + "="@ + marker_value());
    }
    "vms.myenv.cloud/user-namespace=true".to_owned()
}

/// The labels of the resource that stands for `user`.
pub fn tenant_label_list(user: &User) -> (r: Vec<Label>)
    ensures
        label_map(labels_view(r@)) == tenant_labels(user@),
{
    let mut r: Vec<Label> = Vec::new();
    r.push(Label { key: marker_key_string(), value: "true".to_owned() });
    r.push(Label { key: version_key_string(), value: user.vms_version.as_string() });
    r.push(Label { key: tier_key_string(), value: user.server_type.clone() });
    proof {
        let s = labels_view(r@);
        let e = Seq::<(Seq<char>, Seq<char>)>::empty();
        assert(s.drop_last().drop_last().drop_last() =~= e);
        assert(s.drop_last().drop_last().last() == r@[0]@);
        assert(s.drop_last().last() == r@[1]@);
        assert(s.last() == r@[2]@);
        let m0 = label_map(s.drop_last().drop_last());
        assert(m0 == label_map(e).insert(marker_key(), marker_value()));
        let m1 = label_map(s.drop_last());
        assert(m1 == m0.insert(version_key(), version_text(user.vms_version)));
        assert(label_map(s) == m1.insert(tier_key(), user.server_type@));
        assert(label_map(s) =~= tenant_labels(user@));
    }
    r
}

/// The resource that stands for `user`, named by its global identifier.
pub fn tenant_resource_of(user: &User) -> (r: Resource)
    ensures
        r@ == tenant_resource(crate::model::global_id_of(user.user_name@), user@),
{
    Resource { name: user.get_global_id(), labels: tenant_label_list(user) }
}

/// Whether the resource carries the managed-tenant marker label.
pub fn has_marker(res: &Resource) -> (r: bool)
    ensures
        r == is_marked(res@),
{
    match find_label(&res.labels, &marker_key_string()) {
        Some(v) => v == "true".to_owned(),
        None => false,
    }
}

/// Decodes a resource into the tenant it stands for; `None` where the version or
/// tier label is missing or the version does not parse.
pub fn decode_user(res: &Resource) -> (r: Option<User>)
    ensures
        match r {
            Some(u) => decode_view(res@) == Some(u@),
            None => decode_view(res@) is None,
        },
{
    let version = match find_label(&res.labels, &version_key_string()) {
        Some(v) => v,
        None => return None,
    };
    let tier = match find_label(&res.labels, &tier_key_string()) {
        Some(t) => t,
        None => return None,
    };
    match VmsVersion::parse(version.as_str()) {
        Some(vms_version) => Some(
            User { user_name: res.name.clone(), vms_version, server_type: tier },
        ),
        None => None,
    }
}

/// A copy of a label list.
pub fn copy_labels(labels: &Vec<Label>) -> (r: Vec<Label>)
    ensures
        labels_view(r@) == labels_view(labels@),
{
    let mut r: Vec<Label> = Vec::new();
    let mut i: usize = 0;
    while i < labels.len()
        invariant
            i <= labels.len(),
            r@.len() == i,
            forall|j: int| 0 <= j < i ==> #[trigger] r@[j]@ == labels@[j]@,
        decreases labels.len() - i,
    {
        let l = Label { key: labels[i].key.clone(), value: labels[i].value.clone() };
        r.push(l);
        i = i + 1;
    }
    assert(labels_view(r@) =~= labels_view(labels@));
    r
}

impl Resource {
    /// A copy of the resource.
    pub fn duplicate(&self) -> (r: Resource)
        ensures
            r@ == self@,
            labels_view(r.labels@) == labels_view(self.labels@),
    {
        Resource { name: self.name.clone(), labels: copy_labels(&self.labels) }
    }
}

} // verus!
