use permcore::encoding::{FormatError, RawPermissions};
use permcore::permission::{Permissions, ALL_BITS};

#[test]
fn test_print_admin() {
    println!("{:?}", Permissions::default().to_i64());
    println!("{:?}", Permissions::from_bits_truncate(Permissions::ADMINISTRATOR).to_i64());
}

#[test]
fn test_perm_cast() {
    let [low, high] = Permissions::all().to_i64();
    assert_eq!(Permissions::from_i64(low, high), Permissions::all());
}

#[test]
fn halves_round_trip_for_named_sets() {
    for bits in [0u128, ALL_BITS, Permissions::DEFAULT, Permissions::ADMINISTRATOR, Permissions::PRIORITY_SPEAKER] {
        let p = Permissions::from_bits_truncate(bits);
        let [low, high] = p.to_i64();
        assert_eq!(Permissions::from_i64(low, high), p);
    }
}

#[test]
fn halves_of_all_and_default() {
    assert_eq!(Permissions::all().to_i64(), [0xf000_0fff_c000_7fffu64 as i64, 0]);
    assert_eq!(Permissions::default().to_i64(), [6917535494788096000, 0]);
    assert!(Permissions::all().to_i64()[0] < 0);
}

#[test]
fn from_i64_drops_unknown_bits() {
    assert_eq!(Permissions::from_i64(-1, -1), Permissions::all());
    assert_eq!(Permissions::from_i64(1 << 20, 7), Permissions::empty());
    assert_eq!(Permissions::from_i64(1, 0).bits(), Permissions::ADMINISTRATOR);
}

#[test]
fn from_i64_opt_reads_missing_halves_as_zero() {
    assert_eq!(Permissions::from_i64_opt(None, None), Permissions::empty());
    assert_eq!(Permissions::from_i64_opt(Some(1 << 13), None).bits(), Permissions::CHANGE_NICKNAME);
    assert_eq!(Permissions::from_i64_opt(Some(-1), Some(5)), Permissions::all());
}

#[test]
fn from_bits_truncate_keeps_only_defined_bits() {
    assert_eq!(Permissions::from_bits_truncate(u128::MAX), Permissions::all());
    assert_eq!(Permissions::from_bits_truncate(1u128 << 127), Permissions::empty());
    assert_eq!(Permissions::from_bits_truncate((1u128 << 20) | 1).bits(), 1);
    assert_eq!(Permissions::from_bits(1u128 << 20), None);
    assert_eq!(Permissions::from_bits(1).map(|p| p.bits()), Some(1));
    let p = Permissions::from_bits_truncate(0x1234_5678_9abc_def0_1234_5678_9abc_def0);
    assert!(Permissions::all().contains(p));
}

#[test]
fn composite_constants_are_unions_of_their_members() {
    assert_eq!(Permissions::READ_MESSAGE_HISTORY, (1u128 << 31) | (1u128 << 30));
    assert_eq!(Permissions::SEND_MESSAGES, (1u128 << 32) | (1u128 << 30));
    assert_eq!(Permissions::DEFAULT, 0x6000_05e1_c000_2000);
    assert_eq!(Permissions::default().bits(), Permissions::DEFAULT);
    assert!(!Permissions::default().is_all());
}

#[test]
fn set_algebra() {
    let a = Permissions::from_bits_truncate(Permissions::SEND_MESSAGES | Permissions::SPEAK);
    let b = Permissions::from_bits_truncate(Permissions::VIEW_ROOM | Permissions::CONNECT);
    assert_eq!(a.union(b).bits(), Permissions::SEND_MESSAGES | Permissions::SPEAK | Permissions::CONNECT);
    assert_eq!(a.intersection(b).bits(), Permissions::VIEW_ROOM);
    assert_eq!(a.difference(b).bits(), (1u128 << 32) | Permissions::SPEAK);
    assert_eq!(a.symmetric_difference(b).bits(), (1u128 << 32) | Permissions::SPEAK | Permissions::CONNECT);
    assert_eq!(Permissions::empty().complement(), Permissions::all());
    assert_eq!(a.complement().union(a), Permissions::all());
    assert!(a.contains(Permissions::from_bits_truncate(Permissions::VIEW_ROOM)));
    assert!(!a.contains(b));
    assert!(a.intersects(b));
    assert!(Permissions::empty().is_empty());
    assert!(Permissions::all().is_all());
    assert!(Permissions::all().is_admin());
    assert!(!Permissions::default().is_admin());
}

#[test]
fn decimal_text_round_trip() {
    for p in [Permissions::empty(), Permissions::all(), Permissions::default()] {
        let text = p.to_decimal_string();
        assert_eq!(Permissions::from_decimal_str(&text), Ok(p));
    }
    assert_eq!(Permissions::empty().to_decimal_string(), "0");
    assert_eq!(Permissions::default().to_decimal_string(), "6917535494788096000");
    assert_eq!(Permissions::all().to_decimal_string(), "17293840160215039999");
}

#[test]
fn decimal_text_errors() {
    for bad in ["", "+", "-1", "12a", " 1", "340282366920938463463374607431768211456"] {
        assert_eq!(Permissions::from_decimal_str(bad), Err(FormatError));
    }
    assert_eq!(Permissions::from_decimal_str("+5").map(|p| p.bits()), Ok(5));
    assert_eq!(Permissions::from_decimal_str("562949953421312"), Ok(Permissions::empty()));
    assert_eq!(Permissions::from_decimal_str("340282366920938463463374607431768211455"), Ok(Permissions::all()));
}

#[test]
fn decode_accepts_every_integer_form() {
    let all = Permissions::all();
    assert_eq!(Permissions::decode(&RawPermissions::U128(u128::MAX)), Ok(all));
    assert_eq!(Permissions::decode(&RawPermissions::U64(u64::MAX)), Ok(all));
    assert_eq!(Permissions::decode(&RawPermissions::I128(-1)), Ok(all));
    assert_eq!(Permissions::decode(&RawPermissions::I64(-1)), Ok(all));
    assert_eq!(Permissions::decode(&RawPermissions::I64(1 << 30)).map(|p| p.bits()), Ok(Permissions::VIEW_ROOM));
    assert_eq!(Permissions::decode(&RawPermissions::Text("8192".to_string())).map(|p| p.bits()), Ok(Permissions::CHANGE_NICKNAME));
    assert_eq!(Permissions::decode(&RawPermissions::Text("eight".to_string())), Err(FormatError));
}

#[test]
fn encode_by_format_kind() {
    let p = Permissions::default();
    match p.encode(true) {
        RawPermissions::Text(s) => assert_eq!(s, "6917535494788096000"),
        other => panic!("expected text, got {:?}", other),
    }
    match p.encode(false) {
        RawPermissions::U128(v) => assert_eq!(v, Permissions::DEFAULT),
        other => panic!("expected an integer, got {:?}", other),
    }
    assert_eq!(Permissions::decode(&p.encode(true)), Ok(p));
    assert_eq!(Permissions::decode(&p.encode(false)), Ok(p));
}
