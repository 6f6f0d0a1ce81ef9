//! Per-device session state machine.
//!
//! A session owns one accessory's decoded state together with the
//! idle-disconnect bookkeeping. Each received frame is handed to
//! [`Session::handle_frame`], which updates the state and returns the side
//! effects the surroundings must perform: timer arming and cancellation,
//! outbound noise-control resends, and notification events. The transport
//! loop that reads frames and performs the actions lives outside the
//! library.

use vstd::prelude::*;
use crate::codec::spec_anc_command;
use crate::codec::spec_anc_of_byte;
use crate::codec::spec_battery_after_frame;
use crate::codec::spec_cover_state;
use crate::codec::anc_of_byte;
use crate::codec::apply_battery_frame;
use crate::codec::cover_state;
use crate::codec::REPORT_BATTERY;
use crate::codec::REPORT_EAR_COVER;
use crate::codec::REPORT_SETTINGS;
use crate::codec::SETTING_NOISE_CONTROL;
use crate::state::ABDevice;
use crate::state::ABBattery;
use crate::state::Anc;
use crate::state::EarCoverState;

verus! {

/// A side effect the session asks its surroundings to perform. Actions are
/// returned in the order they must happen; all are fire-and-forget for the
/// session, whose own state never depends on their outcome.
#[derive(Debug, Clone, PartialEq)]
pub enum SessionAction {
    /// Cancel any pending idle-disconnect timer.
    CancelIdleTimer,
    /// Start a fresh idle-disconnect timer, superseding any earlier one.
    StartIdleTimer,
    /// Send the noise-control write command for this mode to the accessory.
    SendAnc(Option<Anc>),
    /// Publish a battery snapshot for threshold-based notification.
    NotifyBattery(ABBattery),
    /// Publish a noise-control-mode notification.
    NotifyAnc(Anc),
}

/// One accessory's live session: its decoded state plus whether an
/// idle-disconnect timer is currently pending.
#[derive(Debug, Clone)]
pub struct Session {
    pub device: ABDevice,
    pub idle_timer_pending: bool,
}

/// A cover report triggers a noise-control resend exactly when it moves the
/// device into `Both` and the previous report was not already `Both`:
/// edge-triggered, not level-triggered.
pub open spec fn spec_cover_resend(d: ABDevice, c: EarCoverState) -> bool {
    c == EarCoverState::Both && d.last_ear_cover_state != Some(EarCoverState::Both)
}

/// Device state after one ear-cover report. On the transition out of `Both`
/// into `NoneCovered` the current mode is snapshotted into
/// `last_anc_state`; it is the value restored on the next re-cover edge.
pub open spec fn spec_device_after_cover(d: ABDevice, c: EarCoverState) -> ABDevice {
    ABDevice {
        ear_cover_state: c,
        last_ear_cover_state: Some(c),
        last_anc_state: if c == EarCoverState::NoneCovered && d.last_ear_cover_state == Some(
            EarCoverState::Both,
        ) {
            Some(d.anc_state)
        } else {
            d.last_anc_state
        },
        ..d
    }
}

/// Device state after one noise-control settings byte: a known byte sets the
/// mode, an unknown byte leaves the known state untouched.
pub open spec fn spec_device_after_anc(d: ABDevice, b: u8) -> ABDevice {
    match spec_anc_of_byte(b) {
        Some(m) => ABDevice { anc_state: m, ..d },
        None => d,
    }
}

/// A frame long enough to carry the ear-cover report's two cover bytes.
pub open spec fn spec_is_cover_frame(f: Seq<u8>) -> bool {
    f.len() >= 8 && f[4] == REPORT_EAR_COVER
}

/// A frame long enough to carry a noise-control settings byte.
pub open spec fn spec_is_anc_frame(f: Seq<u8>) -> bool {
    f.len() >= 8 && f[4] == REPORT_SETTINGS && f[6] == SETTING_NOISE_CONTROL
}

/// Session state after one received frame. A frame shorter than 5 bytes, a
/// report type outside the known set, an unknown settings sub-type, or a
/// known report whose fields fall outside the frame all leave the session
/// unchanged: one bad frame never corrupts the state. A cover report
/// cancels the pending timer and arms a fresh one exactly when no ear is
/// covered.
pub open spec fn spec_session_after_frame(s: Session, f: Seq<u8>) -> Session {
    if f.len() < 5 {
        s
    } else if f[4] == REPORT_BATTERY {
        Session {
            device: ABDevice {
                battery_state: spec_battery_after_frame(s.device.battery_state, f),
                ..s.device
            },
            ..s
        }
    } else if spec_is_cover_frame(f) {
        let d = spec_device_after_cover(s.device, spec_cover_state(f[6], f[7]));
        Session { device: d, idle_timer_pending: d.ear_cover_state == EarCoverState::NoneCovered }
    } else if spec_is_anc_frame(f) {
        Session { device: spec_device_after_anc(s.device, f[7]), ..s }
    } else {
        s
    }
}

/// The actions one received frame triggers, in order. A battery frame
/// publishes the updated snapshot; a cover frame cancels the timer, resends
/// the remembered mode on the re-cover edge, and arms the timer when no ear
/// is covered; a noise-control frame publishes a notification when the
/// configuration asks for one.
pub open spec fn spec_frame_actions(s: Session, f: Seq<u8>, notify_anc: bool) -> Seq<
    SessionAction,
> {
    if f.len() < 5 {
        Seq::empty()
    } else if f[4] == REPORT_BATTERY {
        if f.len() >= 7 {
            seq![
                SessionAction::NotifyBattery(spec_battery_after_frame(s.device.battery_state, f)),
            ]
        } else {
            Seq::empty()
        }
    } else if spec_is_cover_frame(f) {
        let c = spec_cover_state(f[6], f[7]);
        seq![SessionAction::CancelIdleTimer] + (if spec_cover_resend(s.device, c) {
            seq![SessionAction::SendAnc(s.device.last_anc_state)]
        } else {
            Seq::empty()
        }) + (if c == EarCoverState::NoneCovered {
            seq![SessionAction::StartIdleTimer]
        } else {
            Seq::empty()
        })
    } else if spec_is_anc_frame(f) {
        if notify_anc {
            seq![SessionAction::NotifyAnc(spec_device_after_anc(s.device, f[7]).anc_state)]
        } else {
            Seq::empty()
        }
    } else {
        Seq::empty()
    }
}

impl ABDevice {
    /// Apply one ear-cover report's two raw cover bytes. Returns whether
    /// the remembered noise-control mode must be resent: exactly on the
    /// edge into `Both` from any other previous report.
    pub fn cover_event(&mut self, left_cover: u8, right_cover: u8) -> (resend: bool)
        ensures
            *final(self) == spec_device_after_cover(
                *old(self),
                spec_cover_state(left_cover, right_cover),
            ),
            resend == spec_cover_resend(*old(self), spec_cover_state(left_cover, right_cover)),
    {
        let c = cover_state(left_cover, right_cover);
        let was_both = is_some_both(&self.last_ear_cover_state);
        let resend = c == EarCoverState::Both && !was_both;
        if c == EarCoverState::NoneCovered && was_both {
            self.last_anc_state = Some(self.anc_state);
        }
        self.last_ear_cover_state = Some(c);
        self.ear_cover_state = c;
        resend
    }

    /// Apply one noise-control settings byte: a known byte sets the mode,
    /// an unknown byte leaves the known state untouched.
    pub fn anc_event(&mut self, anc_byte: u8)
        ensures
            *final(self) == spec_device_after_anc(*old(self), anc_byte),
    {
        match anc_of_byte(anc_byte) {
            Some(m) => {
                self.anc_state = m;
            },
            None => {},
        }
    }
}

impl Session {
    /// A fresh session around a device, with no timer pending.
    pub fn new(device: ABDevice) -> (r: Session)
        ensures
            r.device == device,
            !r.idle_timer_pending,
    {
        Session { device, idle_timer_pending: false }
    }

    /// Process one received frame: update the decoded state and return the
    /// side effects to perform, in order.
    pub fn handle_frame(&mut self, frame: &[u8], notify_on_anc_change: bool) -> (actions: Vec<
        SessionAction,
    >)
        ensures
            *final(self) == spec_session_after_frame(*old(self), frame@),
            actions@ == spec_frame_actions(*old(self), frame@, notify_on_anc_change),
    {
        let mut actions: Vec<SessionAction> = Vec::new();
        if frame.len() < 5 {
            assert(actions@ =~= spec_frame_actions(*old(self), frame@, notify_on_anc_change));
            return actions;
        }
        let report = frame[4];
        if report == REPORT_BATTERY {
            self.device.battery_state = apply_battery_frame(self.device.battery_state, frame);
            if frame.len() >= 7 {
                actions.push(SessionAction::NotifyBattery(self.device.battery_state));
            }
            assert(actions@ =~= spec_frame_actions(*old(self), frame@, notify_on_anc_change));
        } else if report == REPORT_EAR_COVER {
            if frame.len() >= 8 {
                actions.push(SessionAction::CancelIdleTimer);
                let prior_last_anc = self.device.last_anc_state;
                let resend = self.device.cover_event(frame[6], frame[7]);
                if resend {
                    actions.push(SessionAction::SendAnc(prior_last_anc));
                }
                if self.device.ear_cover_state == EarCoverState::NoneCovered {
                    actions.push(SessionAction::StartIdleTimer);
                    self.idle_timer_pending = true;
                } else {
                    self.idle_timer_pending = false;
                }
            }
            assert(actions@ =~= spec_frame_actions(*old(self), frame@, notify_on_anc_change));
        } else if report == REPORT_SETTINGS {
            if frame.len() >= 8 && frame[6] == SETTING_NOISE_CONTROL {
                self.device.anc_event(frame[7]);
                if notify_on_anc_change {
                    actions.push(SessionAction::NotifyAnc(self.device.anc_state));
                }
            }
            assert(actions@ =~= spec_frame_actions(*old(self), frame@, notify_on_anc_change));
        } else {
            assert(actions@ =~= spec_frame_actions(*old(self), frame@, notify_on_anc_change));
        }
        actions
    }

    /// The idle-disconnect timer fired: the session must force the channel
    /// closed exactly when the timer was still pending, and no timer is
    /// pending afterwards.
    pub fn idle_timer_elapsed(&mut self) -> (force_close: bool)
        ensures
            force_close == old(self).idle_timer_pending,
            final(self).device == old(self).device,
            !final(self).idle_timer_pending,
    {
        let r = self.idle_timer_pending;
        self.idle_timer_pending = false;
        r
    }
}

fn is_some_both(x: &Option<EarCoverState>) -> (r: bool)
    ensures
        r == (*x == Some(EarCoverState::Both)),
{
    match x {
        Some(EarCoverState::Both) => true,
        _ => false,
    }
}

/// A frame shorter than 5 bytes is a no-op: the session is unchanged and no
/// action is triggered.
pub proof fn lemma_short_frame_is_noop(s: Session, f: Seq<u8>, notify_anc: bool)
    requires
        f.len() < 5,
    ensures
        spec_session_after_frame(s, f) == s,
        spec_frame_actions(s, f, notify_anc) == Seq::<SessionAction>::empty(),
{
}

/// Ear-cover edge law: from a worn accessory, the report sequence
/// `Both -> NoneCovered -> Both` triggers exactly one noise-control resend,
/// on the re-cover edge, restoring the mode captured when the ears were
/// uncovered; a further `Both` report while covered resends nothing.
pub proof fn lemma_cover_edge_single_resend(
    s: Session,
    f_none: Seq<u8>,
    f_both: Seq<u8>,
    notify_anc: bool,
)
    requires
        s.device.last_ear_cover_state == Some(EarCoverState::Both),
        spec_is_cover_frame(f_none),
        spec_cover_state(f_none[6], f_none[7]) == EarCoverState::NoneCovered,
        spec_is_cover_frame(f_both),
        spec_cover_state(f_both[6], f_both[7]) == EarCoverState::Both,
    ensures
        ({
            let s1 = spec_session_after_frame(s, f_none);
            let s2 = spec_session_after_frame(s1, f_both);
            &&& spec_frame_actions(s, f_none, notify_anc) =~= seq![
                SessionAction::CancelIdleTimer,
                SessionAction::StartIdleTimer,
            ]
            &&& spec_frame_actions(s1, f_both, notify_anc) =~= seq![
                SessionAction::CancelIdleTimer,
                SessionAction::SendAnc(Some(s.device.anc_state)),
            ]
            &&& s2.device.last_ear_cover_state == Some(EarCoverState::Both)
            &&& spec_frame_actions(s2, f_both, notify_anc) =~= seq![
                SessionAction::CancelIdleTimer,
            ]
        }),
{
}

/// Round-trip law: the noise-control write command for a mode has exactly
/// the shape of the settings report the accessory echoes back, and decoding
/// that echo sets the session's mode to the one that was sent.
pub proof fn lemma_noise_control_round_trip(s: Session, m: Anc)
    ensures
        spec_is_anc_frame(spec_anc_command(Some(m))),
        spec_session_after_frame(s, spec_anc_command(Some(m))).device.anc_state == m,
{
}

/// Idle-timer law: any well-formed ear-cover report cancels the pending
/// disconnect first, and a timer is pending afterwards exactly when the
/// report says no ear is covered.
pub proof fn lemma_cover_report_cancels_idle_timer(s: Session, f: Seq<u8>, notify_anc: bool)
    requires
        spec_is_cover_frame(f),
    ensures
        spec_frame_actions(s, f, notify_anc).len() >= 1,
        spec_frame_actions(s, f, notify_anc)[0] == SessionAction::CancelIdleTimer,
        spec_session_after_frame(s, f).idle_timer_pending <==> spec_cover_state(f[6], f[7])
            == EarCoverState::NoneCovered,
{
}

} // verus!
