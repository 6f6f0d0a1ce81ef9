//! Configuration values and the notification rules that read them.
//!
//! `ConfigRead` mirrors the on-disk file, every field optional; turning it
//! into a `Config` fills each missing field with its default. Loading and
//! parsing the file are the surroundings' concern: the library only defines
//! what the merged configuration is and which battery notifications a
//! snapshot triggers.

use vstd::prelude::*;
use crate::state::ABBattery;
use crate::state::ABBatteryState;
use crate::state::BatterySlot;

verus! {

/// Configuration as read from disk: every field optional.
#[derive(Debug, Clone)]
pub struct ConfigRead {
    pub command_both: Option<String>,
    pub command_single: Option<String>,
    pub command_none: Option<String>,
    pub notification_timeout: Option<u32>,
    pub disconnect_timeout: Option<u64>,
    pub notify_on_full_charge: Option<bool>,
    pub notify_on_25_percent: Option<bool>,
    pub notify_on_10_percent: Option<bool>,
    pub notify_on_anc_change: Option<bool>,
}

/// The daemon's effective configuration.
#[derive(Debug, Clone)]
pub struct Config {
    pub command_both: Option<String>,
    pub command_single: Option<String>,
    pub command_none: Option<String>,
    /// Notification display time, in seconds.
    pub notification_timeout: u32,
    /// Idle-disconnect countdown, in seconds.
    pub disconnect_timeout: u64,
    pub notify_on_full_charge: bool,
    pub notify_on_25_percent: bool,
    pub notify_on_10_percent: bool,
    pub notify_on_anc_change: bool,
}

/// The default configuration: no commands, 5 s notifications, 60 s
/// idle-disconnect, battery notifications on, mode-change notifications
/// off.
pub open spec fn spec_is_default_config(c: Config) -> bool {
    &&& c.command_both is None
    &&& c.command_single is None
    &&& c.command_none is None
    &&& c.notification_timeout == 5u32
    &&& c.disconnect_timeout == 60u64
    &&& c.notify_on_full_charge == true
    &&& c.notify_on_25_percent == true
    &&& c.notify_on_10_percent == true
    &&& c.notify_on_anc_change == false
}

impl Default for Config {
    fn default() -> (r: Config)
        ensures
            spec_is_default_config(r),
    {
        Config {
            command_both: None,
            command_single: None,
            command_none: None,
            notification_timeout: 5,
            disconnect_timeout: 60,
            notify_on_full_charge: true,
            notify_on_25_percent: true,
            notify_on_10_percent: true,
            notify_on_anc_change: false,
        }
    }
}

impl ConfigRead {
    /// Merge the file's values with the defaults: every present field is
    /// kept, every absent one takes its default.
    pub fn into_config(self) -> (r: Config)
        ensures
            r.command_both == self.command_both,
            r.command_single == self.command_single,
            r.command_none == self.command_none,
            r.notification_timeout == self.notification_timeout.unwrap_or(5u32),
            r.disconnect_timeout == self.disconnect_timeout.unwrap_or(60u64),
            r.notify_on_full_charge == self.notify_on_full_charge.unwrap_or(true),
            r.notify_on_25_percent == self.notify_on_25_percent.unwrap_or(true),
            r.notify_on_10_percent == self.notify_on_10_percent.unwrap_or(true),
            r.notify_on_anc_change == self.notify_on_anc_change.unwrap_or(false),
    {
        let default_config = Config::default();
        Config {
            command_both: self.command_both,
            command_single: self.command_single,
            command_none: self.command_none,
            notification_timeout: self.notification_timeout.unwrap_or(
                default_config.notification_timeout,
            ),
            disconnect_timeout: self.disconnect_timeout.unwrap_or(
                default_config.disconnect_timeout,
            ),
            notify_on_full_charge: self.notify_on_full_charge.unwrap_or(
                default_config.notify_on_full_charge,
            ),
            notify_on_25_percent: self.notify_on_25_percent.unwrap_or(
                default_config.notify_on_25_percent,
            ),
            notify_on_10_percent: self.notify_on_10_percent.unwrap_or(
                default_config.notify_on_10_percent,
            ),
            notify_on_anc_change: self.notify_on_anc_change.unwrap_or(
                default_config.notify_on_anc_change,
            ),
        }
    }
}

/// The notification one battery slot's reading triggers under the given
/// configuration flags, if any: low-battery levels and full charge, each
/// gated by its own flag.
pub open spec fn spec_slot_alert(
    v: Option<(ABBatteryState, u8)>,
    full: bool,
    p25: bool,
    p10: bool,
) -> Option<ABBatteryState> {
    match v {
        Some(p) => if p.0 == ABBatteryState::Low25 && p25 {
            Some(ABBatteryState::Low25)
        } else if p.0 == ABBatteryState::Low10 && p10 {
            Some(ABBatteryState::Low10)
        } else if p.0 == ABBatteryState::Full && full {
            Some(ABBatteryState::Full)
        } else {
            None
        },
        None => None,
    }
}

/// One slot's contribution to the notification list.
pub open spec fn spec_alert_entry(slot: BatterySlot, o: Option<ABBatteryState>) -> Seq<
    (BatterySlot, ABBatteryState),
> {
    match o {
        Some(st) => seq![(slot, st)],
        None => Seq::empty(),
    }
}

/// The notifications one battery snapshot triggers, in the fixed slot order
/// single, left, right, case.
pub open spec fn spec_battery_alerts(b: ABBattery, full: bool, p25: bool, p10: bool) -> Seq<
    (BatterySlot, ABBatteryState),
> {
    spec_alert_entry(BatterySlot::Single, spec_slot_alert(b.single, full, p25, p10))
        + spec_alert_entry(BatterySlot::Left, spec_slot_alert(b.left, full, p25, p10))
        + spec_alert_entry(BatterySlot::Right, spec_slot_alert(b.right, full, p25, p10))
        + spec_alert_entry(BatterySlot::Case, spec_slot_alert(b.case, full, p25, p10))
}

fn push_slot_alert(
    out: &mut Vec<(BatterySlot, ABBatteryState)>,
    slot: BatterySlot,
    v: Option<(ABBatteryState, u8)>,
    config: &Config,
)
    ensures
        final(out)@ == old(out)@ + spec_alert_entry(
            slot,
            spec_slot_alert(
                v,
                config.notify_on_full_charge,
                config.notify_on_25_percent,
                config.notify_on_10_percent,
            ),
        ),
{
    match v {
        Some((st, _charge)) => {
            if st == ABBatteryState::Low25 && config.notify_on_25_percent {
                out.push((slot, ABBatteryState::Low25));
            } else if st == ABBatteryState::Low10 && config.notify_on_10_percent {
                out.push((slot, ABBatteryState::Low10));
            } else if st == ABBatteryState::Full && config.notify_on_full_charge {
                out.push((slot, ABBatteryState::Full));
            }
        },
        None => {},
    }
    proof {
        assert(out@ =~= old(out)@ + spec_alert_entry(
            slot,
            spec_slot_alert(
                v,
                config.notify_on_full_charge,
                config.notify_on_25_percent,
                config.notify_on_10_percent,
            ),
        ));
    }
}

/// The battery notifications a snapshot triggers under a configuration: one
/// entry per slot whose level state is flagged for notification, in the
/// fixed slot order.
pub fn battery_alerts(b: &ABBattery, config: &Config) -> (r: Vec<(BatterySlot, ABBatteryState)>)
    ensures
        r@ == spec_battery_alerts(
            *b,
            config.notify_on_full_charge,
            config.notify_on_25_percent,
            config.notify_on_10_percent,
        ),
{
    let mut r: Vec<(BatterySlot, ABBatteryState)> = Vec::new();
    push_slot_alert(&mut r, BatterySlot::Single, b.single, config);
    push_slot_alert(&mut r, BatterySlot::Left, b.left, config);
    push_slot_alert(&mut r, BatterySlot::Right, b.right, config);
    push_slot_alert(&mut r, BatterySlot::Case, b.case, config);
    proof {
        assert(r@ =~= spec_battery_alerts(
            *b,
            config.notify_on_full_charge,
            config.notify_on_25_percent,
            config.notify_on_10_percent,
        ));
    }
    r
}

} // verus!
