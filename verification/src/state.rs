//! Core data model: the per-accessory device state, its battery slots, the
//! noise-control and ear-cover enumerations, and the model-capability lookups.

use vstd::prelude::*;
use vstd::string::StringExecFns;

verus! {

/// Noise-control mode of an accessory.
#[derive(Debug, Copy, Clone, PartialEq, Eq, Structural)]
pub enum Anc {
    Off,
    NoiseCancelling,
    Transparency,
    Adaptive,
}

/// How many ears the accessory reports as covered.
#[derive(Debug, Copy, Clone, PartialEq, Eq, Structural)]
pub enum EarCoverState {
    Both,
    Single,
    NoneCovered,
}

/// Level state of one battery. `Full` is never signalled by the wire format
/// directly; it is derived from a charging flag with a charge of at least 99.
#[derive(Debug, Copy, Clone, PartialEq, Eq, Structural)]
pub enum ABBatteryState {
    Charging,
    Discharging,
    Low10,
    Low25,
    Full,
    Disconnected,
    Unknown,
}

/// The four physical batteries an accessory can report on.
#[derive(Debug, Copy, Clone, PartialEq, Eq, Structural)]
pub enum BatterySlot {
    Single,
    Left,
    Right,
    Case,
}

/// Battery readings, one optional `(level state, percentage)` pair per slot.
/// Slots absent from a report keep their previous value.
#[derive(Debug, Copy, Clone, PartialEq)]
pub struct ABBattery {
    pub single: Option<(ABBatteryState, u8)>,
    pub left: Option<(ABBatteryState, u8)>,
    pub right: Option<(ABBatteryState, u8)>,
    pub case: Option<(ABBatteryState, u8)>,
}

/// Decoded state of one monitored accessory.
#[derive(Debug, Clone, PartialEq)]
pub struct ABDevice {
    pub model: String,
    pub model_id: u32,
    pub anc_state: Anc,
    pub last_anc_state: Option<Anc>,
    pub ear_cover_state: EarCoverState,
    pub last_ear_cover_state: Option<EarCoverState>,
    pub battery_state: ABBattery,
}

impl Anc {
    /// Human-readable name of the mode.
    pub open spec fn spec_name(self) -> Seq<char> {
        match self {
            Anc::Off => "Off"@,
            Anc::NoiseCancelling => "Noise Cancelling"@,
            Anc::Transparency => "Transparency"@,
            Anc::Adaptive => "Adaptive"@,
        }
    }

    pub fn get_name(&self) -> (r: &str)
        ensures
            r@ == self.spec_name(),
    {
        match self {
            Anc::Off => "Off",
            Anc::NoiseCancelling => "Noise Cancelling",
            Anc::Transparency => "Transparency",
            Anc::Adaptive => "Adaptive",
        }
    }
}

/// The empty battery reading: nothing known about any slot.
pub open spec fn spec_empty_battery() -> ABBattery {
    ABBattery { single: None, left: None, right: None, case: None }
}

impl ABBattery {
    /// The value held by one slot.
    pub open spec fn spec_slot(self, slot: BatterySlot) -> Option<(ABBatteryState, u8)> {
        match slot {
            BatterySlot::Single => self.single,
            BatterySlot::Left => self.left,
            BatterySlot::Right => self.right,
            BatterySlot::Case => self.case,
        }
    }

    /// The same reading with one slot overwritten.
    pub open spec fn spec_with_slot(self, slot: BatterySlot, v: Option<(ABBatteryState, u8)>) -> ABBattery {
        match slot {
            BatterySlot::Single => ABBattery { single: v, ..self },
            BatterySlot::Left => ABBattery { left: v, ..self },
            BatterySlot::Right => ABBattery { right: v, ..self },
            BatterySlot::Case => ABBattery { case: v, ..self },
        }
    }

    /// The four slots with their display labels, in the fixed order
    /// single, left, right, case.
    pub fn iter(&self) -> (r: Vec<(String, Option<(ABBatteryState, u8)>)>)
        ensures
            r@.len() == 4,
            r@[0].0@ == "    "@ && r@[0].1 == self.single,
            r@[1].0@ == "  L󱡒  "@ && r@[1].1 == self.left,
            r@[2].0@ == "  R󱡒  "@ && r@[2].1 == self.right,
            r@[3].0@ == "    "@ && r@[3].1 == self.case,
    {
        let mut r: Vec<(String, Option<(ABBatteryState, u8)>)> = Vec::new();
        r.push((String::from_str("    "), self.single));
        r.push((String::from_str("  L󱡒  "), self.left));
        r.push((String::from_str("  R󱡒  "), self.right));
        r.push((String::from_str("    "), self.case));
        r
    }
}

impl ABDevice {
    /// A fresh device: unknown model, noise control off, no ears covered,
    /// nothing known about batteries.
    pub fn new() -> (r: ABDevice)
        ensures
            r.model@ == "Unknown"@,
            r.model_id == 0,
            r.anc_state == Anc::Off,
            r.last_anc_state is None,
            r.ear_cover_state == EarCoverState::NoneCovered,
            r.last_ear_cover_state is None,
            r.battery_state == spec_empty_battery(),
    {
        ABDevice {
            model: String::from_str("Unknown"),
            model_id: 0,
            anc_state: Anc::Off,
            last_anc_state: None,
            ear_cover_state: EarCoverState::NoneCovered,
            last_ear_cover_state: None,
            battery_state: ABBattery { single: None, left: None, right: None, case: None },
        }
    }

    /// Vendor product codes that support the adaptive noise-control mode.
    pub open spec fn spec_adaptive_capable(model_id: u32) -> bool {
        model_id == 0x2014 || model_id == 0x2024
    }

    pub fn adaptive_capable(&self) -> (r: bool)
        ensures
            r == Self::spec_adaptive_capable(self.model_id),
    {
        match self.model_id {
            0x2014 => true,
            0x2024 => true,
            _ => false,
        }
    }

    /// Vendor product codes with an over-ear form factor.
    pub open spec fn spec_is_monitors(model_id: u32) -> bool {
        model_id == 0x200A
    }

    pub fn is_monitors(&self) -> (r: bool)
        ensures
            r == Self::spec_is_monitors(self.model_id),
    {
        match self.model_id {
            0x200A => true,
            _ => false,
        }
    }
}

} // verus!
