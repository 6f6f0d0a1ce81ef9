use aplin::codec::anc_byte;
use aplin::codec::anc_command_byte;
use aplin::codec::anc_of_byte;
use aplin::codec::apply_battery_frame;
use aplin::codec::battery_level;
use aplin::codec::clamped_charge;
use aplin::codec::cover_state;
use aplin::codec::encode_anc_command;
use aplin::codec::handshake_ack_request;
use aplin::codec::handshake_open;
use aplin::codec::slot_of_byte;
use aplin::ABBattery;
use aplin::ABBatteryState;
use aplin::Anc;
use aplin::BatterySlot;
use aplin::EarCoverState;

fn empty_battery() -> ABBattery {
    ABBattery { single: None, left: None, right: None, case: None }
}

#[test]
fn charging_flag_full_boundary() {
    assert_eq!(battery_level(0x01, 99), ABBatteryState::Full);
    assert_eq!(battery_level(0x01, 100), ABBatteryState::Full);
    assert_eq!(battery_level(0x01, 98), ABBatteryState::Charging);
    assert_eq!(battery_level(0x01, 0), ABBatteryState::Charging);
    assert_eq!(battery_level(0x01, 50), ABBatteryState::Charging);
}

#[test]
fn discharging_flag_levels() {
    assert_eq!(battery_level(0x02, 10), ABBatteryState::Low10);
    assert_eq!(battery_level(0x02, 25), ABBatteryState::Low25);
    assert_eq!(battery_level(0x02, 11), ABBatteryState::Discharging);
    assert_eq!(battery_level(0x02, 24), ABBatteryState::Discharging);
    assert_eq!(battery_level(0x02, 99), ABBatteryState::Discharging);
    assert_eq!(battery_level(0x02, 0), ABBatteryState::Discharging);
}

#[test]
fn other_flags() {
    assert_eq!(battery_level(0x04, 42), ABBatteryState::Disconnected);
    assert_eq!(battery_level(0x03, 42), ABBatteryState::Unknown);
    assert_eq!(battery_level(0x00, 42), ABBatteryState::Unknown);
    assert_eq!(battery_level(0xff, 42), ABBatteryState::Unknown);
}

#[test]
fn charge_clamping() {
    assert_eq!(clamped_charge(0), 0);
    assert_eq!(clamped_charge(100), 100);
    assert_eq!(clamped_charge(101), 0);
    assert_eq!(clamped_charge(255), 0);
}

#[test]
fn slot_bytes() {
    assert_eq!(slot_of_byte(0x01), Some(BatterySlot::Single));
    assert_eq!(slot_of_byte(0x02), Some(BatterySlot::Right));
    assert_eq!(slot_of_byte(0x04), Some(BatterySlot::Left));
    assert_eq!(slot_of_byte(0x08), Some(BatterySlot::Case));
    assert_eq!(slot_of_byte(0x03), None);
    assert_eq!(slot_of_byte(0x00), None);
}

#[test]
fn cover_bytes() {
    assert_eq!(cover_state(0, 0), EarCoverState::Both);
    assert_eq!(cover_state(0, 1), EarCoverState::Single);
    assert_eq!(cover_state(1, 0), EarCoverState::Single);
    assert_eq!(cover_state(1, 1), EarCoverState::NoneCovered);
    assert_eq!(cover_state(0xff, 0), EarCoverState::Single);
}

#[test]
fn anc_byte_round_trip() {
    for m in [Anc::Off, Anc::NoiseCancelling, Anc::Transparency, Anc::Adaptive] {
        assert_eq!(anc_of_byte(anc_byte(m)), Some(m));
    }
    assert_eq!(anc_byte(Anc::Off), 0x01);
    assert_eq!(anc_byte(Anc::NoiseCancelling), 0x02);
    assert_eq!(anc_byte(Anc::Transparency), 0x03);
    assert_eq!(anc_byte(Anc::Adaptive), 0x04);
    assert_eq!(anc_of_byte(0x00), None);
    assert_eq!(anc_of_byte(0x05), None);
    assert_eq!(anc_command_byte(None), 0x03);
    assert_eq!(anc_command_byte(Some(Anc::Off)), 0x01);
}

#[test]
fn anc_command_bytes() {
    assert_eq!(
        encode_anc_command(Some(Anc::NoiseCancelling)),
        vec![0x04, 0x00, 0x04, 0x00, 0x09, 0x00, 0x0d, 0x02, 0x00, 0x00, 0x00]
    );
    assert_eq!(
        encode_anc_command(None),
        vec![0x04, 0x00, 0x04, 0x00, 0x09, 0x00, 0x0d, 0x03, 0x00, 0x00, 0x00]
    );
}

#[test]
fn handshake_bytes() {
    assert_eq!(
        handshake_open(),
        vec![
            0x00, 0x00, 0x04, 0x00, 0x01, 0x00, 0x02, 0x00, 0x00, 0x00, 0x00, 0x00, 0x00, 0x00,
            0x00, 0x00
        ]
    );
    assert_eq!(
        handshake_ack_request(),
        vec![0x04, 0x00, 0x04, 0x00, 0x0f, 0x00, 0xff, 0xff, 0xff, 0xff]
    );
}

#[test]
fn battery_frame_two_records() {
    // Two 5-byte records: right at 50% discharging, case at 80% charging.
    let frame = [
        0x00, 0x00, 0x00, 0x00, 0x04, 0x00, 0x02, // two sectors
        0x02, 0x00, 50, 0x02, 0x00, // right, discharging
        0x08, 0x00, 80, 0x01, 0x00, // case, charging
    ];
    let b = apply_battery_frame(empty_battery(), &frame);
    assert_eq!(b.right, Some((ABBatteryState::Discharging, 50)));
    assert_eq!(b.case, Some((ABBatteryState::Charging, 80)));
    assert_eq!(b.single, None);
    assert_eq!(b.left, None);
}

#[test]
fn battery_frame_overrange_charge_forced_to_zero() {
    let frame = [0x00, 0x00, 0x00, 0x00, 0x04, 0x00, 0x01, 0x01, 0x00, 200, 0x02, 0x00];
    let b = apply_battery_frame(empty_battery(), &frame);
    // Charge 200 is invalid: forced to 0, record still assigned.
    assert_eq!(b.single, Some((ABBatteryState::Discharging, 0)));
}

#[test]
fn battery_frame_unknown_slot_skipped() {
    let frame = [
        0x00, 0x00, 0x00, 0x00, 0x04, 0x00, 0x02, //
        0x03, 0x00, 50, 0x02, 0x00, // unknown slot byte: skipped
        0x04, 0x00, 60, 0x02, 0x00, // left, discharging
    ];
    let b = apply_battery_frame(empty_battery(), &frame);
    assert_eq!(b.left, Some((ABBatteryState::Discharging, 60)));
    assert_eq!(b.single, None);
    assert_eq!(b.right, None);
    assert_eq!(b.case, None);
}

#[test]
fn battery_frame_truncated_record_skipped() {
    // Claims two sectors but holds only one: the second is out of bounds.
    let frame = [0x00, 0x00, 0x00, 0x00, 0x04, 0x00, 0x02, 0x01, 0x00, 40, 0x01, 0x00];
    let b = apply_battery_frame(empty_battery(), &frame);
    assert_eq!(b.single, Some((ABBatteryState::Charging, 40)));
    assert_eq!(b.right, None);
}

#[test]
fn battery_frame_too_short_is_noop() {
    let prior = ABBattery {
        single: Some((ABBatteryState::Charging, 40)),
        left: None,
        right: None,
        case: None,
    };
    let b = apply_battery_frame(prior, &[0x00, 0x00, 0x00, 0x00, 0x04, 0x00]);
    assert_eq!(b, prior);
}

#[test]
fn battery_frame_keeps_other_slots() {
    let prior = ABBattery {
        single: None,
        left: Some((ABBatteryState::Discharging, 70)),
        right: Some((ABBatteryState::Discharging, 71)),
        case: None,
    };
    // One record overwrites only the right slot.
    let frame = [0x00, 0x00, 0x00, 0x00, 0x04, 0x00, 0x01, 0x02, 0x00, 25, 0x02, 0x00];
    let b = apply_battery_frame(prior, &frame);
    assert_eq!(b.left, Some((ABBatteryState::Discharging, 70)));
    assert_eq!(b.right, Some((ABBatteryState::Low25, 25)));
}
