use tenant_directory::labels::{decode_user, marker_selector_string, tenant_resource_of};
use tenant_directory::repository::{
    creation_outcome, delete_outcome, upgrade_outcome, upgrade_patch_labels, user_from_listing,
    user_from_request, users_from_listing,
};
use tenant_directory::{DeleteReply, Label, MemoryRepository, Resource, User, UserError, VmsVersion};

fn label(key: &str, value: &str) -> Label {
    Label { key: key.to_string(), value: value.to_string() }
}

fn resource(name: &str, labels: Vec<Label>) -> Resource {
    Resource { name: name.to_string(), labels }
}

fn tenant_labels(version: &str, tier: &str) -> Vec<Label> {
    vec![
        label("vms.myenv.cloud/user-namespace", "true"),
        label("vms.myenv.cloud/vms-version", version),
        label("vms.myenv.cloud/server-type", tier),
    ]
}

fn check_user(u: &User, name: &str, version: VmsVersion, tier: &str) {
    assert_eq!(u.user_name, name);
    assert_eq!(u.vms_version, version);
    assert_eq!(u.server_type, tier);
}

#[test]
fn acme_lifecycle() {
    let mut repo = MemoryRepository::new();
    let version = VmsVersion::parse("XProtect2023R1").unwrap();
    let created = repo.create_user(User::new("Acme".to_string(), version)).unwrap();
    check_user(&created, "Acme", VmsVersion::XProtect2023R1, "vms");

    let got = repo.get_user("acme").unwrap();
    check_user(&got, "acme", VmsVersion::XProtect2023R1, "vms");

    let upgraded = repo.upgrade_user("acme").unwrap();
    check_user(&upgraded, "acme", VmsVersion::XProtect2024R1, "vms");

    let deleted = repo.delete_user("acme").unwrap();
    check_user(&deleted, "acme", VmsVersion::XProtect2024R1, "vms");

    assert_eq!(repo.get_user("acme").unwrap_err(), UserError::UserNotFound);
}

#[test]
fn create_then_get_by_any_case() {
    let mut repo = MemoryRepository::new();
    repo.create_user(User::new("MixedCase".to_string(), VmsVersion::XProtect2023R3)).unwrap();
    let by_lower = repo.get_user("mixedcase").unwrap();
    check_user(&by_lower, "mixedcase", VmsVersion::XProtect2023R3, "vms");
    let by_given = repo.get_user("MixedCase").unwrap();
    check_user(&by_given, "mixedcase", VmsVersion::XProtect2023R3, "vms");
}

#[test]
fn delete_of_absent_id_is_not_found() {
    let mut repo = MemoryRepository::new();
    assert_eq!(repo.delete_user("ghost").unwrap_err(), UserError::UserNotFound);
    repo.create_user(User::new("Present".to_string(), VmsVersion::XProtect2023R1)).unwrap();
    assert_eq!(repo.delete_user("ghost").unwrap_err(), UserError::UserNotFound);
    assert_eq!(repo.get_users().unwrap().len(), 1);
}

#[test]
fn upgrade_converges_from_every_version() {
    let versions = [
        VmsVersion::XProtect2023R1,
        VmsVersion::XProtect2023R2,
        VmsVersion::XProtect2023R3,
        VmsVersion::XProtect2024R1,
    ];
    let mut repo = MemoryRepository::new();
    let names = ["t1", "t2", "t3", "t4"];
    for (name, v) in names.iter().zip(versions.iter()) {
        repo.create_user(User::new(name.to_string(), *v)).unwrap();
    }
    for name in names.iter() {
        let up = repo.upgrade_user(name).unwrap();
        check_user(&up, name, VmsVersion::XProtect2024R1, "vms");
        let got = repo.get_user(name).unwrap();
        check_user(&got, name, VmsVersion::XProtect2024R1, "vms");
    }
}

#[test]
fn upgrade_of_absent_id_is_not_found() {
    let mut repo = MemoryRepository::new();
    assert_eq!(repo.upgrade_user("nobody").unwrap_err(), UserError::UserNotFound);
}

#[test]
fn listing_skips_resources_without_marker() {
    let mut repo = MemoryRepository::new();
    let unmarked = vec![
        label("vms.myenv.cloud/vms-version", "XProtect2023R1"),
        label("vms.myenv.cloud/server-type", "vms"),
        label("vms.myenv.cloud/user-namespace", "false"),
    ];
    assert!(repo.create(resource("kube-system", unmarked)));
    assert_eq!(repo.get_users().unwrap_err(), UserError::UserNotFound);
    assert_eq!(repo.get_user("kube-system").unwrap_err(), UserError::UserNotFound);
    repo.create_user(User::new("Acme".to_string(), VmsVersion::XProtect2023R2)).unwrap();
    let users = repo.get_users().unwrap();
    assert_eq!(users.len(), 1);
    check_user(&users[0], "acme", VmsVersion::XProtect2023R2, "vms");
}

#[test]
fn second_create_with_same_id_fails() {
    let mut repo = MemoryRepository::new();
    repo.create_user(User::new("Acme".to_string(), VmsVersion::XProtect2023R1)).unwrap();
    let second = repo.create_user(User::new("ACME".to_string(), VmsVersion::XProtect2023R2));
    assert_eq!(second.unwrap_err(), UserError::UserCreationFailure);
    let users = repo.get_users().unwrap();
    assert_eq!(users.iter().filter(|u| u.user_name == "acme").count(), 1);
    check_user(&users[0], "acme", VmsVersion::XProtect2023R1, "vms");
}

#[test]
fn empty_directory_lists_not_found() {
    let repo = MemoryRepository::new();
    assert_eq!(repo.get_users().unwrap_err(), UserError::UserNotFound);
}

#[test]
fn listing_keeps_order_and_skips_malformed() {
    let listing = vec![
        resource("alpha", tenant_labels("XProtect2023R2", "vms")),
        resource("broken", tenant_labels("XProtect1999", "vms")),
        resource("notier", vec![
            label("vms.myenv.cloud/user-namespace", "true"),
            label("vms.myenv.cloud/vms-version", "XProtect2023R1"),
        ]),
        resource("beta", tenant_labels("XProtect2024R1", "premium")),
    ];
    let users = users_from_listing(&listing).unwrap();
    assert_eq!(users.len(), 2);
    check_user(&users[0], "alpha", VmsVersion::XProtect2023R2, "vms");
    check_user(&users[1], "beta", VmsVersion::XProtect2024R1, "premium");
    let beta = user_from_listing(&listing, "BETA").unwrap();
    check_user(&beta, "beta", VmsVersion::XProtect2024R1, "premium");
    assert_eq!(user_from_listing(&listing, "broken").unwrap_err(), UserError::UserNotFound);
}

#[test]
fn version_parse_and_render() {
    assert_eq!(VmsVersion::parse("XProtect2023R1"), Some(VmsVersion::XProtect2023R1));
    assert_eq!(VmsVersion::parse("XProtect2023R2"), Some(VmsVersion::XProtect2023R2));
    assert_eq!(VmsVersion::parse("XProtect2023R3"), Some(VmsVersion::XProtect2023R3));
    assert_eq!(VmsVersion::parse("XProtect2024R1"), Some(VmsVersion::XProtect2024R1));
    assert_eq!(VmsVersion::parse("xprotect2024r1"), None);
    assert_eq!(VmsVersion::parse(""), None);
    assert_eq!(VmsVersion::XProtect2023R2.as_string(), "XProtect2023R2");
    assert_eq!(VmsVersion::upgrade_target(), VmsVersion::XProtect2024R1);
    assert!(VmsVersion::XProtect2023R1 < VmsVersion::XProtect2023R3);
    assert!(VmsVersion::XProtect2023R3 < VmsVersion::XProtect2024R1);
}

#[test]
fn request_with_unknown_version_is_bad_request() {
    let err = user_from_request("Acme".to_string(), "XProtect2030R9").unwrap_err();
    assert_eq!(err, UserError::BadUserRequest);
    let ok = user_from_request("Acme".to_string(), "XProtect2023R3").unwrap();
    check_user(&ok, "Acme", VmsVersion::XProtect2023R3, "vms");
}

#[test]
fn status_codes() {
    assert_eq!(UserError::UserNotFound.status_code(), 404);
    assert_eq!(UserError::UserUpgradeFailure.status_code(), 424);
    assert_eq!(UserError::UserCreationFailure.status_code(), 424);
    assert_eq!(UserError::BadUserRequest.status_code(), 400);
}

#[test]
fn global_id_is_lower_case() {
    let u = User::new("AcMe Corp".to_string(), VmsVersion::XProtect2023R1);
    assert_eq!(u.get_global_id(), "acme corp");
    assert_eq!(u.user_name, "AcMe Corp");
}

#[test]
fn resource_of_user_carries_schema() {
    let u = User::new("Acme".to_string(), VmsVersion::XProtect2023R3);
    let r = tenant_resource_of(&u);
    assert_eq!(r.name, "acme");
    let pairs: Vec<(String, String)> =
        r.labels.iter().map(|l| (l.key.clone(), l.value.clone())).collect();
    assert_eq!(pairs, vec![
        ("vms.myenv.cloud/user-namespace".to_string(), "true".to_string()),
        ("vms.myenv.cloud/vms-version".to_string(), "XProtect2023R3".to_string()),
        ("vms.myenv.cloud/server-type".to_string(), "vms".to_string()),
    ]);
    let back = decode_user(&r).unwrap();
    check_user(&back, "acme", VmsVersion::XProtect2023R3, "vms");
    assert_eq!(marker_selector_string(), "vms.myenv.cloud/user-namespace=true");
}

#[test]
fn upgrade_patch_sets_only_version() {
    let patch = upgrade_patch_labels();
    assert_eq!(patch.len(), 1);
    assert_eq!(patch[0].key, "vms.myenv.cloud/vms-version");
    assert_eq!(patch[0].value, "XProtect2024R1");
}

#[test]
fn outcomes_of_failed_calls() {
    assert_eq!(upgrade_outcome(None).unwrap_err(), UserError::UserNotFound);
    let no_tier = resource("acme", vec![label("vms.myenv.cloud/vms-version", "XProtect2024R1")]);
    assert_eq!(upgrade_outcome(Some(no_tier)).unwrap_err(), UserError::UserNotFound);
    let ok = upgrade_outcome(Some(resource("acme", tenant_labels("XProtect2023R1", "gold"))));
    check_user(&ok.unwrap(), "acme", VmsVersion::XProtect2024R1, "gold");

    assert_eq!(delete_outcome(None).unwrap_err(), UserError::UserNotFound);
    assert_eq!(delete_outcome(Some(DeleteReply::Pending)).unwrap_err(), UserError::UserNotFound);
    let removed = delete_outcome(Some(DeleteReply::Removed(resource(
        "acme",
        tenant_labels("XProtect2023R2", "vms"),
    ))));
    check_user(&removed.unwrap(), "acme", VmsVersion::XProtect2023R2, "vms");

    let u = User::new("Acme".to_string(), VmsVersion::XProtect2023R1);
    assert!(creation_outcome(u, false).is_err());
    let u = User::new("Acme".to_string(), VmsVersion::XProtect2023R1);
    check_user(&creation_outcome(u, true).unwrap(), "Acme", VmsVersion::XProtect2023R1, "vms");
}

#[test]
fn later_label_overrides_earlier() {
    let r = resource("acme", vec![
        label("vms.myenv.cloud/vms-version", "XProtect2023R1"),
        label("vms.myenv.cloud/server-type", "vms"),
        label("vms.myenv.cloud/vms-version", "XProtect2023R3"),
    ]);
    check_user(&decode_user(&r).unwrap(), "acme", VmsVersion::XProtect2023R3, "vms");
}
