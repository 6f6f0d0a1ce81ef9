//! The binary protocol codec.
//!
//! Inbound frames are variable-length byte sequences. Byte 4 selects the
//! report type: `0x04` battery, `0x06` ear-cover, `0x09` settings (noise
//! control when byte 6 is `0x0d`). A frame shorter than 5 bytes carries no
//! information, and every field is bounds-checked before it is read, so a
//! malformed frame is skipped rather than aborting anything.
//!
//! Outbound frames are the two fixed handshake commands and the
//! noise-control write command.

use vstd::prelude::*;
use crate::state::ABBattery;
use crate::state::ABBatteryState;
use crate::state::Anc;
use crate::state::BatterySlot;
use crate::state::EarCoverState;

verus! {

/// Report type selector values (byte 4 of a frame).
pub const REPORT_BATTERY: u8 = 0x04;

pub const REPORT_EAR_COVER: u8 = 0x06;

pub const REPORT_SETTINGS: u8 = 0x09;

/// Settings sub-type (byte 6 of a settings frame) carrying noise control.
pub const SETTING_NOISE_CONTROL: u8 = 0x0d;

/// A raw charge percentage above 100 is invalid and is replaced by 0.
pub open spec fn spec_clamped_charge(raw: u8) -> u8 {
    if raw <= 100 {
        raw
    } else {
        0
    }
}

pub fn clamped_charge(raw: u8) -> (r: u8)
    ensures
        r == spec_clamped_charge(raw),
{
    if raw <= 100 {
        raw
    } else {
        0
    }
}

/// Level state derived from the raw charging flag and the (already clamped)
/// charge. A charging-class flag with a charge of at least 99 reads as
/// `Full`: worn units never report 100 once in use, so 99 is the practical
/// ceiling.
pub open spec fn spec_battery_level(flag: u8, charge: u8) -> ABBatteryState {
    if flag == 0x01 {
        if charge >= 99 {
            ABBatteryState::Full
        } else {
            ABBatteryState::Charging
        }
    } else if flag == 0x02 {
        if charge == 10 {
            ABBatteryState::Low10
        } else if charge == 25 {
            ABBatteryState::Low25
        } else {
            ABBatteryState::Discharging
        }
    } else if flag == 0x04 {
        ABBatteryState::Disconnected
    } else {
        ABBatteryState::Unknown
    }
}

pub fn battery_level(flag: u8, charge: u8) -> (r: ABBatteryState)
    ensures
        r == spec_battery_level(flag, charge),
{
    match flag {
        0x01 => if charge >= 99 {
            ABBatteryState::Full
        } else {
            ABBatteryState::Charging
        },
        0x02 => if charge == 10 {
            ABBatteryState::Low10
        } else if charge == 25 {
            ABBatteryState::Low25
        } else {
            ABBatteryState::Discharging
        },
        0x04 => ABBatteryState::Disconnected,
        _ => ABBatteryState::Unknown,
    }
}

/// Which physical battery a record's slot byte names, if any.
pub open spec fn spec_slot_of_byte(b: u8) -> Option<BatterySlot> {
    if b == 0x01 {
        Some(BatterySlot::Single)
    } else if b == 0x02 {
        Some(BatterySlot::Right)
    } else if b == 0x04 {
        Some(BatterySlot::Left)
    } else if b == 0x08 {
        Some(BatterySlot::Case)
    } else {
        None
    }
}

pub fn slot_of_byte(b: u8) -> (r: Option<BatterySlot>)
    ensures
        r == spec_slot_of_byte(b),
{
    match b {
        0x01 => Some(BatterySlot::Single),
        0x02 => Some(BatterySlot::Right),
        0x04 => Some(BatterySlot::Left),
        0x08 => Some(BatterySlot::Case),
        _ => None,
    }
}

/// Ear-cover state from the two raw cover bytes. A value of 0 means
/// "covered"; this inversion is part of the wire format.
pub open spec fn spec_cover_state(left: u8, right: u8) -> EarCoverState {
    if left == 0 && right == 0 {
        EarCoverState::Both
    } else if left != 0 && right != 0 {
        EarCoverState::NoneCovered
    } else {
        EarCoverState::Single
    }
}

pub fn cover_state(left: u8, right: u8) -> (r: EarCoverState)
    ensures
        r == spec_cover_state(left, right),
{
    match (left == 0, right == 0) {
        (true, true) => EarCoverState::Both,
        (false, false) => EarCoverState::NoneCovered,
        _ => EarCoverState::Single,
    }
}

/// Noise-control mode named by a settings-report byte, if any.
pub open spec fn spec_anc_of_byte(b: u8) -> Option<Anc> {
    if b == 0x01 {
        Some(Anc::Off)
    } else if b == 0x02 {
        Some(Anc::NoiseCancelling)
    } else if b == 0x03 {
        Some(Anc::Transparency)
    } else if b == 0x04 {
        Some(Anc::Adaptive)
    } else {
        None
    }
}

pub fn anc_of_byte(b: u8) -> (r: Option<Anc>)
    ensures
        r == spec_anc_of_byte(b),
{
    match b {
        0x01 => Some(Anc::Off),
        0x02 => Some(Anc::NoiseCancelling),
        0x03 => Some(Anc::Transparency),
        0x04 => Some(Anc::Adaptive),
        _ => None,
    }
}

/// Wire byte of a noise-control mode: the inverse of `spec_anc_of_byte`.
pub open spec fn spec_anc_byte(m: Anc) -> u8 {
    match m {
        Anc::Off => 0x01,
        Anc::NoiseCancelling => 0x02,
        Anc::Transparency => 0x03,
        Anc::Adaptive => 0x04,
    }
}

pub fn anc_byte(m: Anc) -> (r: u8)
    ensures
        r == spec_anc_byte(m),
{
    match m {
        Anc::Off => 0x01,
        Anc::NoiseCancelling => 0x02,
        Anc::Transparency => 0x03,
        Anc::Adaptive => 0x04,
    }
}

/// Byte written by the noise-control command: the requested mode, or
/// transparency when no mode was ever recorded.
pub open spec fn spec_anc_command_byte(m: Option<Anc>) -> u8 {
    match m {
        Some(a) => spec_anc_byte(a),
        None => 0x03,
    }
}

pub fn anc_command_byte(m: Option<Anc>) -> (r: u8)
    ensures
        r == spec_anc_command_byte(m),
{
    match m {
        Some(a) => anc_byte(a),
        None => 0x03,
    }
}

/// Encoding a mode and decoding the accessory's settings-report echo of the
/// same byte yields the mode back.
pub proof fn lemma_anc_round_trip(m: Anc)
    ensures
        spec_anc_of_byte(spec_anc_byte(m)) == Some(m),
        spec_anc_of_byte(spec_anc_command_byte(Some(m))) == Some(m),
{
}

/// The 11-byte noise-control write command.
pub open spec fn spec_anc_command(m: Option<Anc>) -> Seq<u8> {
    seq![0x04u8, 0x00, 0x04, 0x00, 0x09, 0x00, 0x0d, spec_anc_command_byte(m), 0x00, 0x00, 0x00]
}

pub fn encode_anc_command(m: Option<Anc>) -> (r: Vec<u8>)
    ensures
        r@ == spec_anc_command(m),
        r@.len() == 11,
{
    let b = anc_command_byte(m);
    let mut r: Vec<u8> = Vec::new();
    r.push(0x04);
    r.push(0x00);
    r.push(0x04);
    r.push(0x00);
    r.push(0x09);
    r.push(0x00);
    r.push(0x0d);
    r.push(b);
    r.push(0x00);
    r.push(0x00);
    r.push(0x00);
    proof {
        assert(r@ =~= spec_anc_command(m));
    }
    r
}

/// The 16-byte session-open handshake command, sent first after the channel
/// opens.
pub open spec fn spec_handshake_open() -> Seq<u8> {
    seq![0x00u8, 0x00, 0x04, 0x00, 0x01, 0x00, 0x02, 0x00, 0x00, 0x00, 0x00, 0x00, 0x00, 0x00, 0x00, 0x00]
}

pub fn handshake_open() -> (r: Vec<u8>)
    ensures
        r@ == spec_handshake_open(),
{
    let mut r: Vec<u8> = Vec::new();
    r.push(0x00);
    r.push(0x00);
    r.push(0x04);
    r.push(0x00);
    r.push(0x01);
    r.push(0x00);
    r.push(0x02);
    r.push(0x00);
    r.push(0x00);
    r.push(0x00);
    r.push(0x00);
    r.push(0x00);
    r.push(0x00);
    r.push(0x00);
    r.push(0x00);
    r.push(0x00);
    proof {
        assert(r@ =~= spec_handshake_open());
    }
    r
}

/// The 10-byte init-acknowledgement request, sent second.
pub open spec fn spec_handshake_ack_request() -> Seq<u8> {
    seq![0x04u8, 0x00, 0x04, 0x00, 0x0f, 0x00, 0xff, 0xff, 0xff, 0xff]
}

pub fn handshake_ack_request() -> (r: Vec<u8>)
    ensures
        r@ == spec_handshake_ack_request(),
{
    let mut r: Vec<u8> = Vec::new();
    r.push(0x04);
    r.push(0x00);
    r.push(0x04);
    r.push(0x00);
    r.push(0x0f);
    r.push(0x00);
    r.push(0xff);
    r.push(0xff);
    r.push(0xff);
    r.push(0xff);
    proof {
        assert(r@ =~= spec_handshake_ack_request());
    }
    r
}

/// Offset of battery record `i` within a battery frame: 5-byte records
/// starting at byte 7.
pub open spec fn spec_record_base(i: int) -> int {
    7 + 5 * i
}

/// Battery reading after applying record `i` of a battery frame. Only the
/// slot byte and the bytes at offsets 2 and 3 of the 5-byte record are
/// read; a record whose read bytes do not all lie within the frame is
/// skipped, as is one whose slot byte names no battery; otherwise the named
/// slot is overwritten with the decoded level state and clamped charge.
pub open spec fn spec_apply_record(b: ABBattery, f: Seq<u8>, i: int) -> ABBattery {
    let base = spec_record_base(i);
    if 0 <= i && base + 4 <= f.len() {
        match spec_slot_of_byte(f[base]) {
            Some(slot) => {
                let charge = spec_clamped_charge(f[base + 2]);
                b.spec_with_slot(slot, Some((spec_battery_level(f[base + 3], charge), charge)))
            },
            None => b,
        }
    } else {
        b
    }
}

/// Battery reading after applying the first `n` records in order.
pub open spec fn spec_battery_after_records(b: ABBattery, f: Seq<u8>, n: int) -> ABBattery
    decreases n,
{
    if n <= 0 {
        b
    } else {
        spec_apply_record(spec_battery_after_records(b, f, n - 1), f, n - 1)
    }
}

/// Battery reading after a whole battery frame: byte 6 gives the record
/// count; a frame too short to hold even that byte changes nothing.
pub open spec fn spec_battery_after_frame(b: ABBattery, f: Seq<u8>) -> ABBattery {
    if f.len() >= 7 {
        spec_battery_after_records(b, f, f[6] as int)
    } else {
        b
    }
}

/// Apply a battery frame to a battery reading.
pub fn apply_battery_frame(b: ABBattery, frame: &[u8]) -> (r: ABBattery)
    ensures
        r == spec_battery_after_frame(b, frame@),
{
    if frame.len() < 7 {
        return b;
    }
    let n: usize = frame[6] as usize;
    let mut cur: ABBattery = b;
    let mut i: usize = 0;
    while i < n
        invariant
            i <= n,
            n <= 255,
            frame@.len() >= 7,
            n == frame@[6],
            cur == spec_battery_after_records(b, frame@, i as int),
        decreases n - i,
    {
        let base: usize = 7 + 5 * i;
        if base + 4 <= frame.len() {
            let slot_byte = frame[base];
            let charge = clamped_charge(frame[base + 2]);
            let level = battery_level(frame[base + 3], charge);
            match slot_of_byte(slot_byte) {
                Some(BatterySlot::Single) => {
                    cur.single = Some((level, charge));
                },
                Some(BatterySlot::Right) => {
                    cur.right = Some((level, charge));
                },
                Some(BatterySlot::Left) => {
                    cur.left = Some((level, charge));
                },
                Some(BatterySlot::Case) => {
                    cur.case = Some((level, charge));
                },
                None => {},
            }
        }
        i = i + 1;
    }
    cur
}

/// A charging-class record reads `Full` from 99 up and `Charging` below.
pub proof fn lemma_charging_full_boundary(charge: u8)
    ensures
        charge >= 99 ==> spec_battery_level(0x01, charge) == ABBatteryState::Full,
        charge <= 98 ==> spec_battery_level(0x01, charge) == ABBatteryState::Charging,
{
}

/// A discharging-class record reads `Low10` at exactly 10, `Low25` at
/// exactly 25, and `Discharging` at any other charge.
pub proof fn lemma_discharging_levels(charge: u8)
    ensures
        charge == 10 ==> spec_battery_level(0x02, charge) == ABBatteryState::Low10,
        charge == 25 ==> spec_battery_level(0x02, charge) == ABBatteryState::Low25,
        charge != 10 && charge != 25 ==> spec_battery_level(0x02, charge)
            == ABBatteryState::Discharging,
{
}

/// An out-of-range charge byte is forced to 0, and the record is still
/// assigned a level state in its slot: a bad charge never aborts the frame.
pub proof fn lemma_overrange_charge_still_assigned(b: ABBattery, f: Seq<u8>, i: int, slot: BatterySlot)
    requires
        0 <= i,
        spec_record_base(i) + 4 <= f.len(),
        spec_slot_of_byte(f[spec_record_base(i)]) == Some(slot),
        f[spec_record_base(i) + 2] > 100,
    ensures
        spec_apply_record(b, f, i).spec_slot(slot) == Some(
            (spec_battery_level(f[spec_record_base(i) + 3], 0), 0u8),
        ),
{
}

} // verus!
