use permcore::overwrite::Overwrite;
use permcore::permission::Permissions;

fn perms(bits: u128) -> Permissions {
    Permissions::from_bits_truncate(bits)
}

fn ow(id: u64, allow: u128, deny: u128) -> Overwrite {
    Overwrite { id, allow: perms(allow), deny: perms(deny) }
}

const ROLE_A: u64 = 10;
const ROLE_B: u64 = 11;
const USER: u64 = 99;

#[test]
fn admin_ignores_overwrites() {
    let base = perms(Permissions::ADMINISTRATOR);
    let overwrites = [ow(ROLE_A, 0, u128::MAX), ow(USER, 0, u128::MAX)];
    assert_eq!(base.compute_overwrites(&overwrites, &[ROLE_A], USER), Permissions::all());
    assert_eq!(base.compute_overwrites(&[], &[], USER), Permissions::all());
}

#[test]
fn role_allow_and_deny_of_one_bit_are_merged_then_allow_is_added() {
    let overwrites = [ow(ROLE_A, Permissions::SEND_MESSAGES, 0), ow(ROLE_B, 0, Permissions::SEND_MESSAGES)];
    let r = perms(Permissions::VIEW_ROOM).compute_overwrites(&overwrites, &[ROLE_A, ROLE_B], USER);
    assert_eq!(r.bits(), Permissions::SEND_MESSAGES);
}

#[test]
fn role_deny_alone_removes_the_bit() {
    let overwrites = [ow(ROLE_B, 0, 1u128 << 32)];
    let base = perms(Permissions::SEND_MESSAGES);
    let r = base.compute_overwrites(&overwrites, &[ROLE_A, ROLE_B], USER);
    assert_eq!(r.bits(), Permissions::VIEW_ROOM);
}

#[test]
fn user_overwrite_wins_over_roles() {
    let overwrites = [ow(ROLE_A, 0, Permissions::SEND_MESSAGES), ow(USER, Permissions::SEND_MESSAGES, 0)];
    let base = perms(Permissions::VIEW_ROOM);
    let r = base.compute_overwrites(&overwrites, &[ROLE_A], USER);
    assert!(r.contains(perms(Permissions::SEND_MESSAGES)));
    assert_eq!(r.bits(), Permissions::SEND_MESSAGES);
}

#[test]
fn user_deny_wins_over_role_allow() {
    let overwrites = [ow(ROLE_A, Permissions::SPEAK, 0), ow(USER, 0, Permissions::SPEAK)];
    let r = perms(Permissions::CONNECT).compute_overwrites(&overwrites, &[ROLE_A], USER);
    assert_eq!(r.bits(), Permissions::CONNECT);
}

#[test]
fn entries_after_the_user_entry_are_not_read() {
    let overwrites = [ow(USER, Permissions::SPEAK, 0), ow(ROLE_A, 0, Permissions::SPEAK | Permissions::CONNECT)];
    let r = perms(Permissions::CONNECT).compute_overwrites(&overwrites, &[ROLE_A], USER);
    assert_eq!(r.bits(), Permissions::CONNECT | Permissions::SPEAK);
}

#[test]
fn entries_of_other_subjects_are_skipped() {
    let overwrites = [ow(12345, 0, u128::MAX), ow(ROLE_B, Permissions::STREAM, 0)];
    let r = perms(Permissions::CONNECT).compute_overwrites(&overwrites, &[ROLE_A], USER);
    assert_eq!(r.bits(), Permissions::CONNECT);
}

#[test]
fn no_overwrites_keeps_base() {
    let base = Permissions::default();
    assert_eq!(base.compute_overwrites(&[], &[ROLE_A], USER), base);
}

#[test]
fn apply_allow_beats_deny_of_same_entry() {
    let x = Permissions::SEND_MESSAGES;
    let o = ow(ROLE_A, x, x);
    assert!(o.apply(Permissions::empty()).contains(perms(x)));
    assert!(o.apply(Permissions::all()).contains(perms(x)));
    assert_eq!(o.apply(Permissions::empty()).bits(), x);
}

#[test]
fn apply_denies_then_allows() {
    let o = ow(ROLE_A, Permissions::SPEAK, Permissions::CONNECT | Permissions::STREAM);
    let base = perms(Permissions::CONNECT | Permissions::VIEW_ROOM);
    assert_eq!(o.apply(base).bits(), Permissions::VIEW_ROOM | Permissions::SPEAK);
}

#[test]
fn combine_is_commutative_in_sets() {
    let a = ow(ROLE_A, Permissions::SPEAK, Permissions::STREAM);
    let b = ow(ROLE_B, Permissions::CONNECT, Permissions::ATTACH_FILES);
    let ab = a.combine(b);
    let ba = b.combine(a);
    assert_eq!(ab.allow, ba.allow);
    assert_eq!(ab.deny, ba.deny);
    assert_eq!(ab.id, ROLE_A);
    assert_eq!(ba.id, ROLE_B);
    assert_eq!(ab.allow.bits(), Permissions::SPEAK | Permissions::CONNECT);
    assert_eq!(ab.deny.bits(), Permissions::STREAM | Permissions::ATTACH_FILES);
}
