use permcore::overwrite::Overwrite;
use permcore::permission::Permissions;
use permcore::role::{Role, RoleFlags};
use permcore::user::{
    ElevationLevel, ExtraUserProfileBits, UserFlags, UserProfile, UserProfileBits, UserRelationship,
};

#[test]
fn test_user_elevation_flags() {
    let f = UserFlags::from_bits_truncate(UserFlags::ELEVATION_3);
    assert_eq!(f.elevation(), ElevationLevel::System);

    for &ev in &[ElevationLevel::Normal, ElevationLevel::Bot, ElevationLevel::Staff, ElevationLevel::System] {
        assert_eq!(UserFlags::empty().with_elevation(ev).elevation(), ev);
        assert_eq!(UserFlags::all().with_elevation(ev).elevation(), ev);
    }

    println!("SYSTEM {}", f.bits());
    println!("BOT: {}", f.with_elevation(ElevationLevel::Bot).bits());
}

#[test]
fn elevation_codes() {
    assert_eq!(UserFlags::from_bits_truncate(1 << 6).elevation(), ElevationLevel::Bot);
    assert_eq!(UserFlags::from_bits_truncate(3 << 6).elevation(), ElevationLevel::Staff);
    assert_eq!(UserFlags::from_bits_truncate(2 << 6).elevation(), ElevationLevel::Normal);
    assert_eq!(UserFlags::from_bits_truncate(7 << 6).elevation(), ElevationLevel::Normal);
    assert_eq!(UserFlags::empty().with_elevation(ElevationLevel::Reserved).bits(), 2 << 6);
    assert_eq!(UserFlags::empty().with_elevation(ElevationLevel::Bot).bits(), 64);
    assert_eq!(UserFlags::all().with_elevation(ElevationLevel::Normal).bits(), 0xffff & !(7 << 6));
}

#[test]
fn levels_and_tiers() {
    let f = UserFlags::from_bits_truncate(UserFlags::PREMIUM_1 | UserFlags::PREMIUM_3 | UserFlags::EXTRA_STORAGE_2);
    assert_eq!(f.premium_level(), 5);
    assert_eq!(f.extra_storage_tier(), 2);
    assert_eq!(UserFlags::all().premium_level(), 7);
    assert_eq!(UserFlags::all().extra_storage_tier(), 3);
    assert_eq!(UserFlags::empty().premium_level(), 0);
}

#[test]
fn public_flags_drop_private_and_unknown_bits() {
    assert_eq!(UserFlags::from_bits_truncate_public(-1).bits(), UserFlags::ELEVATION | UserFlags::PREMIUM);
    assert_eq!(UserFlags::from_bits_truncate(-1), UserFlags::all());
    assert_eq!(UserFlags::PRIVATE_FLAGS, 0xf03f);
    let f = UserFlags::from_bits_truncate(UserFlags::BANNED);
    assert!(f.contains(UserFlags::from_bits_truncate(UserFlags::BANNED)));
    assert_eq!(f.union(UserFlags::from_bits_truncate(UserFlags::VERIFIED)).bits(), 3);
    assert_eq!(UserFlags::all().difference(UserFlags::from_bits_truncate(UserFlags::RESERVED)).bits(), 0x6fcf);
}

#[test]
fn profile_bits() {
    let mut p = UserProfile::default();
    assert!(!p.override_color());
    assert_eq!(p.color(), 0);
    p.bits = UserProfileBits::from_bits_truncate(0x12_34_56_00u32 as i32 | 0x80 | 0x40);
    assert!(p.override_color());
    assert_eq!(p.color(), 0x12_34_56);
    assert_eq!(p.avatar_roundness(), 0x40);
    p.bits = UserProfileBits::from_bits_truncate(-1);
    assert_eq!(p.color(), 0xff_ff_ff);
    assert_eq!(p.avatar_roundness(), 127);
    assert_eq!(ExtraUserProfileBits::from_bits_truncate(0x7f).bits(), 0);
    assert!(ExtraUserProfileBits::empty().is_empty());
}

#[test]
fn relationship_codes() {
    assert_eq!(UserRelationship::from_code(100), Some(UserRelationship::Blocked));
    assert_eq!(UserRelationship::from_code(2), None);
    assert_eq!(UserRelationship::BlockedDangerous.code(), 101);
    assert_eq!(UserRelationship::default(), UserRelationship::NoRelation);
}

#[test]
fn role_flags_and_admin() {
    let role = Role {
        id: 1,
        party_id: 2,
        avatar: None,
        name: "mods".to_string(),
        desc: None,
        permissions: Permissions::from_bits_truncate(Permissions::ADMINISTRATOR | Permissions::SPEAK),
        color: None,
        position: 0,
        flags: RoleFlags::from_bits_truncate(RoleFlags::MENTIONABLE | 0x40),
    };
    assert!(role.is_admin());
    assert!(role.is_mentionable());
    assert_eq!(role.flags.bits(), RoleFlags::MENTIONABLE);
    let plain = Role { permissions: Permissions::default(), flags: RoleFlags::empty(), ..role };
    assert!(!plain.is_admin());
    assert!(!plain.is_mentionable());
    let o = Overwrite { id: plain.id, allow: Permissions::empty(), deny: Permissions::empty() };
    assert_eq!(o.apply(plain.permissions), plain.permissions);
}
