use vstd::prelude::*;

verus! {

/// The known product versions, ordered as declared.
#[derive(Debug, Clone, Copy, PartialEq, Eq, Structural, PartialOrd, Ord, Hash)]
pub enum VmsVersion {
    XProtect2023R1,
    XProtect2023R2,
    XProtect2023R3,
    XProtect2024R1,
}

/// Canonical string form of a version.
pub open spec fn version_text(v: VmsVersion) -> Seq<char> {
    match v {
        VmsVersion::XProtect2023R1 => "XProtect2023R1"@,
        VmsVersion::XProtect2023R2 => "XProtect2023R2"@,
        VmsVersion::XProtect2023R3 => "XProtect2023R3"@,
        VmsVersion::XProtect2024R1 => "XProtect2024R1"@,
    }
}

/// The version whose canonical form is `s`, if any.
pub open spec fn version_of_text(s: Seq<char>) -> Option<VmsVersion> {
    if s == version_text(VmsVersion::XProtect2023R1) {
        Some(VmsVersion::XProtect2023R1)
    } else if s == version_text(VmsVersion::XProtect2023R2) {
        Some(VmsVersion::XProtect2023R2)
    } else if s == version_text(VmsVersion::XProtect2023R3) {
        Some(VmsVersion::XProtect2023R3)
    } else if s == version_text(VmsVersion::XProtect2024R1) {
        Some(VmsVersion::XProtect2024R1)
    } else {
        None
    }
}

/// The four canonical forms are pairwise different.
pub proof fn lemma_version_texts_distinct()
    ensures
        forall|a: VmsVersion, b: VmsVersion| version_text(a) == version_text(b) ==> a == b,
{
    reveal_strlit("XProtect2023R1");
    reveal_strlit("XProtect2023R2");
    reveal_strlit("XProtect2023R3");
    reveal_strlit("XProtect2024R1");
    assert("XProtect2023R1"@[13] != "XProtect2023R2"@[13]);
    assert("XProtect2023R1"@[13] != "XProtect2023R3"@[13]);
    assert("XProtect2023R2"@[13] != "XProtect2023R3"@[13]);
    assert("XProtect2023R1"@[11] != "XProtect2024R1"@[11]);
    assert("XProtect2023R2"@[11] != "XProtect2024R1"@[11]);
    assert("XProtect2023R3"@[11] != "XProtect2024R1"@[11]);
}

/// Parsing the rendered form of a version gives the version back.
pub proof fn lemma_version_text_round_trip(v: VmsVersion)
    ensures
        version_of_text(version_text(v)) == Some(v),
{
    lemma_version_texts_distinct();
}

/// The version every upgrade moves a tenant to.
pub open spec fn upgrade_target() -> VmsVersion {
    VmsVersion::XProtect2024R1
}

impl VmsVersion {
    /// Renders the canonical string form.
    pub fn as_string(&self) -> (r: String)
        ensures
            r@ == version_text(*self),
    {
        match self {
            VmsVersion::XProtect2023R1 => "XProtect2023R1".to_owned(),
            VmsVersion::XProtect2023R2 => "XProtect2023R2".to_owned(),
            VmsVersion::XProtect2023R3 => "XProtect2023R3".to_owned(),
            VmsVersion::XProtect2024R1 => "XProtect2024R1".to_owned(),
        }
    }

    /// Parses the canonical string form; any other string is rejected.
    pub fn parse(s: &str) -> (r: Option<VmsVersion>)
        ensures
            r == version_of_text(s@),
    {
        let t = s.to_owned();
        if t == "XProtect2023R1".to_owned() {
            Some(VmsVersion::XProtect2023R1)
        } else if t == "XProtect2023R2".to_owned() {
            Some(VmsVersion::XProtect2023R2)
        } else if t == "XProtect2023R3".to_owned() {
            Some(VmsVersion::XProtect2023R3)
        } else if t == "XProtect2024R1".to_owned() {
            Some(VmsVersion::XProtect2024R1)
        } else {
            None
        }
    }

    /// The single version that an upgrade moves any tenant to.
    pub fn upgrade_target() -> (r: VmsVersion)
        ensures
            r == upgrade_target(),
    {
        VmsVersion::XProtect2024R1
    }
}

/// The service tier every tenant is created with.
pub open spec fn default_server_type() -> Seq<char> {
    "vms"@
}

/// What `str::to_lowercase` returns for the characters `s`.
pub uninterp spec fn lower_of(s: Seq<char>) -> Seq<char>;

/// Relies on `str::to_lowercase`: the result depends on the characters alone.
#[verifier::external_body]
pub(crate) fn lowercase(s: &str) -> (r: String)
    ensures
        r@ == lower_of(s@),
{
    s.to_lowercase()
}

/// A tenant record as the library reasons about it.
pub struct UserView {
    pub user_name: Seq<char>,
    pub vms_version: VmsVersion,
    pub server_type: Seq<char>,
}

/// A tenant of the managed product.
#[derive(Debug)]
pub struct User {
    pub user_name: String,
    pub vms_version: VmsVersion,
    pub server_type: String,
}

impl View for User {
    type V = UserView;

    open spec fn view(&self) -> UserView {
        UserView {
            user_name: self.user_name@,
            vms_version: self.vms_version,
            server_type: self.server_type@,
        }
    }
}

/// The identifier of the backing resource of a tenant named `name`.
pub open spec fn global_id_of(name: Seq<char>) -> Seq<char> {
    lower_of(name)
}

impl User {
    /// A tenant with the given name and version and the default service tier;
    /// the name is kept as given.
    pub fn new(user_name: String, vms_version: VmsVersion) -> (r: User)
        ensures
            r@ == (UserView {
                user_name: user_name@,
                vms_version,
                server_type: default_server_type(),
            }),
    {
        User { user_name, vms_version, server_type: "vms".to_owned() }
    }

    /// The tenant's primary key: its name lower-cased.
    pub fn get_global_id(&self) -> (r: String)
        ensures
            r@ == global_id_of(self.user_name@),
    {
        lowercase(self.user_name.as_str())
    }
}

} // verus!
