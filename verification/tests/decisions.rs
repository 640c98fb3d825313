use gateway_bot::access::{is_admin, is_moderator, GuildAccess, RoleGrant};
use gateway_bot::interaction::{
    classify_button, gate, init_requested, plan_verification, Button, ChannelSummary, Gate, Overwrite,
    OverwriteTarget, VerificationPlan,
};

fn guild() -> GuildAccess {
    GuildAccess {
        owner_id: 1,
        roles: vec![
            RoleGrant { id: 10, permissions: 0x8 },
            RoleGrant { id: 11, permissions: 0x400 | 0x800 },
            RoleGrant { id: 12, permissions: 0x8 | 0x10 },
        ],
    }
}

#[test]
fn owner_is_admin_without_roles() {
    let g = guild();
    assert!(is_admin(Some(&g), Some(&vec![]), 1));
}

#[test]
fn administrator_role_makes_admin() {
    let g = guild();
    assert!(is_admin(Some(&g), Some(&vec![11, 10]), 2));
    assert!(is_admin(Some(&g), Some(&vec![12]), 2));
    assert!(!is_admin(Some(&g), Some(&vec![11]), 2));
    assert!(!is_admin(Some(&g), Some(&vec![99]), 2));
}

#[test]
fn admin_needs_guild_and_member() {
    let g = guild();
    assert!(!is_admin(None, Some(&vec![10]), 1));
    assert!(!is_admin(Some(&g), None, 1));
}

#[test]
fn moderators_are_found_by_role() {
    let mods = vec![5u64, 6];
    assert!(is_moderator(&mods, Some(&vec![1, 6])));
    assert!(!is_moderator(&mods, Some(&vec![1, 2])));
    assert!(!is_moderator(&mods, Some(&vec![])));
    assert!(!is_moderator(&mods, None));
    assert!(!is_moderator(&vec![], Some(&vec![5])));
}

#[test]
fn init_command_needs_admin() {
    let g = guild();
    assert!(init_requested(&"!init".to_string(), Some(&g), Some(&vec![]), 1));
    assert!(!init_requested(&"!init".to_string(), Some(&g), Some(&vec![]), 2));
    assert!(!init_requested(&"!init ".to_string(), Some(&g), Some(&vec![]), 1));
    assert!(!init_requested(&"!help".to_string(), Some(&g), Some(&vec![10]), 2));
}

#[test]
fn buttons_are_classified_by_custom_id() {
    assert!(classify_button(&"verify_button".to_string()) == Button::Verify);
    assert!(classify_button(&"accept_button".to_string()) == Button::Accept);
    assert!(classify_button(&"deny_button".to_string()) == Button::Deny);
    assert!(classify_button(&"initiate_delete_button".to_string()) == Button::InitiateDelete);
    assert!(classify_button(&"delete_now_button".to_string()) == Button::DeleteNow);
    assert!(classify_button(&"cancel_delete_button".to_string()) == Button::CancelDelete);
    assert!(classify_button(&"something".to_string()) == Button::Other);
    assert!(classify_button(&"".to_string()) == Button::Other);
}

#[test]
fn only_moderators_pass_the_gate() {
    assert!(gate(Button::Verify, false) == Gate::Open);
    assert!(gate(Button::Other, true) == Gate::Ignored);
    for b in [Button::Accept, Button::Deny, Button::InitiateDelete, Button::DeleteNow, Button::CancelDelete] {
        assert!(gate(b, true) == Gate::Open);
        assert!(gate(b, false) == Gate::Refused);
    }
}

fn role_overwrite(role: u64) -> Overwrite {
    Overwrite { allow: 0, deny: 0x400, target: OverwriteTarget::Role(role) }
}

fn channels() -> Vec<ChannelSummary> {
    vec![
        ChannelSummary { id: 100, parent_id: None, name: "verification".to_string(), overwrites: vec![role_overwrite(7)] },
        ChannelSummary { id: 200, parent_id: Some(100), name: "bob-2".to_string(), overwrites: vec![] },
        ChannelSummary { id: 300, parent_id: None, name: "alice-1".to_string(), overwrites: vec![] },
    ]
}

#[test]
fn verification_refused_when_channel_exists() {
    let chs = channels();
    assert!(matches!(plan_verification(Some(&chs), 100, "bob", 2), VerificationPlan::AlreadyOpen));
}

#[test]
fn verification_copies_category_overwrites() {
    let chs = channels();
    match plan_verification(Some(&chs), 100, "alice", 1) {
        VerificationPlan::Create { name, overwrites } => {
            assert_eq!(name, "alice-1");
            assert_eq!(overwrites.len(), 2);
            assert!(overwrites[0] == role_overwrite(7));
            assert!(overwrites[1] == Overwrite { allow: 68608, deny: 0, target: OverwriteTarget::Member(1) });
        }
        VerificationPlan::AlreadyOpen => panic!("expected a new channel"),
    }
}

#[test]
fn verification_without_channel_list() {
    match plan_verification(None, 100, "bob", 2) {
        VerificationPlan::Create { name, overwrites } => {
            assert_eq!(name, "bob-2");
            assert_eq!(overwrites.len(), 1);
            assert!(overwrites[0] == Overwrite { allow: 68608, deny: 0, target: OverwriteTarget::Member(2) });
        }
        VerificationPlan::AlreadyOpen => panic!("expected a new channel"),
    }
}

#[test]
fn second_request_after_creation_is_refused() {
    let mut chs = channels();
    let name = match plan_verification(Some(&chs), 100, "carol", 3) {
        VerificationPlan::Create { name, .. } => name,
        VerificationPlan::AlreadyOpen => panic!("expected a new channel"),
    };
    chs.push(ChannelSummary { id: 400, parent_id: Some(100), name, overwrites: vec![] });
    assert!(matches!(plan_verification(Some(&chs), 100, "carol", 3), VerificationPlan::AlreadyOpen));
}
