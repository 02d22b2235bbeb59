use mwc_swap::codec::{frame_bytes, unframe_bytes};
use mwc_swap::foreign::{
    check_version, cur_time_at, get_cur_time, get_receive_account, reset_testing_cur_time,
    set_receive_account, set_testing_cur_time, ReceiveConfig, SlateVersion, SwapClock, TxWrapper,
};
use mwc_swap::ErrorKind;

#[test]
fn frame_has_big_endian_length_prefix() {
    let framed = frame_bytes(&b"{\"id\":1}".to_vec());
    assert_eq!(&framed[..8], &[0, 0, 0, 0, 0, 0, 0, 8]);
    assert_eq!(&framed[8..], b"{\"id\":1}");
    let long = vec![0x41u8; 300];
    let framed = frame_bytes(&long);
    assert_eq!(&framed[..8], &[0, 0, 0, 0, 0, 0, 1, 44]);
}

#[test]
fn frame_round_trip() {
    for payload in [vec![], b"abc".to_vec(), vec![7u8; 1000]] {
        assert_eq!(unframe_bytes(&frame_bytes(&payload)), Ok(payload));
    }
}

#[test]
fn unframe_rejects_truncated_data() {
    assert_eq!(unframe_bytes(&vec![0, 0, 0]), Err(ErrorKind::Serialization));
    assert_eq!(unframe_bytes(&vec![0, 0, 0, 0, 0, 0, 0, 5, 1, 2]), Err(ErrorKind::Serialization));
    assert_eq!(unframe_bytes(&vec![0, 0, 0, 0, 0, 0, 0, 2, 1, 2, 3]), Ok(vec![1, 2]));
}

#[test]
fn receive_account_is_configurable() {
    let mut config = ReceiveConfig { recv_account: None };
    assert_eq!(get_receive_account(&config), None);
    set_receive_account(&mut config, "savings".to_string());
    assert_eq!(get_receive_account(&config), Some("savings".to_string()));
}

#[test]
fn version_info() {
    let v = check_version();
    assert_eq!(v.foreign_api_version, 2);
    assert_eq!(v.supported_slate_versions, vec![SlateVersion::V3, SlateVersion::V2]);
    let w = TxWrapper { tx_hex: "00ff".to_string() };
    assert_eq!(w.tx_hex.len(), 4);
}

#[test]
fn testing_clock_overrides_system_time() {
    let mut clock = SwapClock { test_time: None };
    assert_eq!(cur_time_at(&clock, 42), 42);
    assert!(get_cur_time(&clock) > 1_500_000_000);
    set_testing_cur_time(&mut clock, 1_234);
    assert_eq!(get_cur_time(&clock), 1_234);
    assert_eq!(cur_time_at(&clock, 42), 1_234);
    reset_testing_cur_time(&mut clock);
    assert_eq!(clock.test_time, None);
}
