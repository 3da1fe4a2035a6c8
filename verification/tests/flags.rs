use packet_protocol::hex::hex_string;
use packet_protocol::message::StatusFlags;

fn all_named() -> Vec<(&'static str, StatusFlags, u16)> {
    vec![
        ("CATCH_MOVE", StatusFlags::catch_move(), StatusFlags::CATCH_MOVE),
        ("SILENCE", StatusFlags::silence(), StatusFlags::SILENCE),
        ("REST_SENSING", StatusFlags::rest_sensing(), StatusFlags::REST_SENSING),
        ("AWAKE_SENSING", StatusFlags::awake_sensing(), StatusFlags::AWAKE_SENSING),
        ("START_DEVICE", StatusFlags::start_device(), StatusFlags::START_DEVICE),
        ("REST_PUSH", StatusFlags::rest_push(), StatusFlags::REST_PUSH),
        ("ORDER_PASS", StatusFlags::order_pass(), StatusFlags::ORDER_PASS),
        ("ORDER_ERROR", StatusFlags::order_error(), StatusFlags::ORDER_ERROR),
        ("TRANSE_EDGE", StatusFlags::transe_edge(), StatusFlags::TRANSE_EDGE),
        ("TRANSE_DIFF", StatusFlags::transe_diff(), StatusFlags::TRANSE_DIFF),
        ("TRANSE_CON", StatusFlags::transe_con(), StatusFlags::TRANSE_CON),
        ("TRY_RESTART", StatusFlags::try_restart(), StatusFlags::TRY_RESTART),
        ("UNWORK_CAMERA", StatusFlags::unwork_camera(), StatusFlags::UNWORK_CAMERA),
        ("DISCONNECT", StatusFlags::disconnect(), StatusFlags::DISCONNECT),
        ("CONNECT", StatusFlags::connect(), StatusFlags::CONNECT),
    ]
}

#[test]
fn flag_composition() {
    assert_eq!(
        (StatusFlags::catch_move() | StatusFlags::transe_edge()).as_u16(),
        0b0000_0001_0000_0001
    );
    assert_eq!(
        (StatusFlags::catch_move() & StatusFlags::transe_edge()).as_u16(),
        0
    );
}

#[test]
fn or_and_and_work_bit_by_bit() {
    let a = StatusFlags(0b1100);
    let b = StatusFlags(0b1010);
    assert_eq!((a | b).as_u16(), 0b1110);
    assert_eq!((a & b).as_u16(), 0b1000);
    assert_eq!(a | a, a);
    assert_eq!(a & a, a);
    assert_eq!((a | StatusFlags(0)).as_u16(), 0b1100);
    assert_eq!((a & StatusFlags(0)).as_u16(), 0);
    assert_eq!((a | StatusFlags(0xffff)).as_u16(), 0xffff);
}

#[test]
fn flag_testing_with_and() {
    let state = StatusFlags::silence() | StatusFlags::order_error() | StatusFlags::connect();
    assert!((state & StatusFlags::order_error()).as_u16() != 0);
    assert!((state & StatusFlags::connect()) == StatusFlags::connect());
    assert!((state & StatusFlags::catch_move()).as_u16() == 0);
}

#[test]
fn equality_compares_the_raw_value() {
    assert_eq!(StatusFlags(0x0101), StatusFlags::catch_move() | StatusFlags::transe_edge());
    assert_ne!(StatusFlags(0x0101), StatusFlags(0x0100));
}

#[test]
fn named_flags_are_bits_0_to_14_in_order() {
    let flags = all_named();
    assert_eq!(flags.len(), 15);
    for (bit, (_, flag, value)) in flags.iter().enumerate() {
        assert_eq!(flag.as_u16(), 1u16 << bit);
        assert_eq!(*value, 1u16 << bit);
    }
    let all = flags.iter().fold(0u16, |acc, (_, f, _)| acc | f.as_u16());
    assert_eq!(all, StatusFlags::KNOWN);
    assert_eq!(StatusFlags::KNOWN, 0x7fff);
}

#[test]
fn no_named_flag_is_a_reserved_combination() {
    let roots = [StatusFlags::catch_move(), StatusFlags::silence()];
    let targets = [
        StatusFlags::transe_edge(),
        StatusFlags::transe_diff(),
        StatusFlags::transe_con(),
        StatusFlags::order_pass(),
        StatusFlags::order_error(),
    ];
    for (name, flag, _) in all_named() {
        for root in roots {
            for target in targets {
                assert!(flag != (root | target), "{} collides", name);
            }
        }
    }
}

#[test]
fn each_named_flag_renders_as_its_name() {
    for (name, flag, _) in all_named() {
        assert_eq!(flag.to_debug_string(), format!("StatusFlags({})", name));
    }
}

#[test]
fn two_flags_are_joined_by_a_pipe() {
    let state = StatusFlags::catch_move() | StatusFlags::transe_edge();
    assert_eq!(state.to_debug_string(), "StatusFlags(CATCH_MOVE | TRANSE_EDGE)");
}

#[test]
fn names_come_lowest_bit_first() {
    let state = StatusFlags::connect() | StatusFlags::try_restart() | StatusFlags::silence();
    assert_eq!(
        state.to_debug_string(),
        "StatusFlags(SILENCE | TRY_RESTART | CONNECT)"
    );
}

#[test]
fn no_bit_set_renders_as_hex_zero() {
    assert_eq!(StatusFlags(0).to_debug_string(), "StatusFlags(0x0)");
}

#[test]
fn reserved_bit_alone_renders_as_hex() {
    assert_eq!(StatusFlags(0x8000).to_debug_string(), "StatusFlags(0x8000)");
}

#[test]
fn reserved_bit_beside_names_renders_as_residual() {
    assert_eq!(
        StatusFlags(0x8101).to_debug_string(),
        "StatusFlags(CATCH_MOVE | TRANSE_EDGE | 0x8000)"
    );
}

#[test]
fn every_bit_set() {
    assert_eq!(
        StatusFlags(0xffff).to_debug_string(),
        "StatusFlags(CATCH_MOVE | SILENCE | REST_SENSING | AWAKE_SENSING | START_DEVICE | \
         REST_PUSH | ORDER_PASS | ORDER_ERROR | TRANSE_EDGE | TRANSE_DIFF | TRANSE_CON | \
         TRY_RESTART | UNWORK_CAMERA | DISCONNECT | CONNECT | 0x8000)"
    );
}

#[test]
fn hex_string_matches_the_standard_format() {
    for v in [0u16, 1, 9, 10, 15, 16, 0x1f, 0xff, 0x100, 0xabc, 0xfff, 0x1000, 0x8000, 0xbeef, 0xffff]
    {
        assert_eq!(hex_string(v), format!("{:#x}", v));
    }
    assert_eq!(hex_string(0), "0x0");
    assert_eq!(hex_string(0x0a0), "0xa0");
    assert_eq!(hex_string(0xbeef), "0xbeef");
}

#[test]
fn hex_string_on_every_value() {
    for v in 0..=u16::MAX {
        assert_eq!(hex_string(v), format!("{:#x}", v));
    }
}
