//! Device descriptors: the externally visible per-controller record, built
//! once from plain values read off the native handle, plus the fingerprint
//! derivation and the power-status classification.

use vstd::prelude::*;
use crate::ev_code::{EvCode, EvCodeKind};

verus! {

/// Bus-type code of a wired (USB) controller in the fingerprint.
pub const BUS_USB: u8 = 0x03;

/// Bus-type code of a wireless (Bluetooth) controller in the fingerprint.
pub const BUS_BLUETOOTH: u8 = 0x05;

/// Battery status code: no battery present.
pub const BATTERY_STATUS_NOT_PRESENT: i32 = 0;

/// Battery status code: discharging.
pub const BATTERY_STATUS_DISCHARGING: i32 = 1;

/// Battery status code: idle (full and not in use).
pub const BATTERY_STATUS_IDLE: i32 = 2;

/// Battery status code: charging.
pub const BATTERY_STATUS_CHARGING: i32 = 3;

/// Power state of a controller, classified on demand and never cached.
#[derive(Copy, Clone, Debug, PartialEq, Eq, Structural)]
pub enum PowerInfo {
    Unknown,
    Wired,
    Discharging(u8),
    Charging(u8),
    Charged,
}

/// A battery report already reduced to plain values by the query layer:
/// the native status code and the charge percentage computed from the
/// remaining and full capacities.
#[derive(Copy, Clone, Debug, PartialEq, Eq, Structural)]
pub struct BatteryReading {
    pub status: i32,
    pub percent: u8,
}

/// Metadata for one axis: the signed range of reported values and the
/// default deadzone (unset; left to the consumer or mapping layer).
#[derive(Copy, Clone, Debug, PartialEq, Eq, Structural)]
pub struct AxisInfo {
    pub min: i32,
    pub max: i32,
    pub deadzone: Option<u32>,
}

/// The 128-bit fingerprint of a controller, byte for byte: the bus-type
/// code chosen by the wireless flag in the first byte, then the vendor id
/// and, after a reserved zero field, the product id, each in little-endian
/// byte order, with the version field fixed at zero. This layout mirrors
/// the convention of community controller-mapping databases and must not
/// change.
pub open spec fn fingerprint_spec(wireless: bool, vendor_id: u16, product_id: u16) -> Seq<u8> {
    seq![
        if wireless {
            BUS_BLUETOOTH
        } else {
            BUS_USB
        },
        0u8,
        0u8,
        0u8,
        (vendor_id & 0xFF) as u8,
        (vendor_id >> 8) as u8,
        0u8,
        0u8,
        (product_id & 0xFF) as u8,
        (product_id >> 8) as u8,
        0u8,
        0u8,
        0u8,
        0u8,
        0u8,
        0u8,
    ]
}

/// Derive the fingerprint identifier. Its bytes are a function of the
/// wireless flag, vendor id and product id alone, so repeated
/// constructions for the same controller are byte-identical.
pub fn fingerprint(wireless: bool, vendor_id: u16, product_id: u16) -> (r: [u8; 16])
    ensures
        r@ == fingerprint_spec(wireless, vendor_id, product_id),
{
    let bus: u8 = if wireless {
        BUS_BLUETOOTH
    } else {
        BUS_USB
    };
    let r: [u8; 16] = [
        bus,
        0u8,
        0u8,
        0u8,
        (vendor_id & 0xFF) as u8,
        (vendor_id >> 8) as u8,
        0u8,
        0u8,
        (product_id & 0xFF) as u8,
        (product_id >> 8) as u8,
        0u8,
        0u8,
        0u8,
        0u8,
        0u8,
        0u8,
    ];
    proof {
        assert(r@ =~= fingerprint_spec(wireless, vendor_id, product_id));
    }
    r
}

/// How a battery status code and charge percentage classify: a full or
/// idle battery reports Charged, an absent one Wired, charging and
/// discharging carry the percentage, and an unrecognized code is Unknown.
pub open spec fn classify_battery_spec(status: i32, percent: u8) -> PowerInfo {
    if status == BATTERY_STATUS_DISCHARGING || status == BATTERY_STATUS_CHARGING {
        if percent == 100 {
            PowerInfo::Charged
        } else if status == BATTERY_STATUS_DISCHARGING {
            PowerInfo::Discharging(percent)
        } else {
            PowerInfo::Charging(percent)
        }
    } else if status == BATTERY_STATUS_NOT_PRESENT {
        PowerInfo::Wired
    } else if status == BATTERY_STATUS_IDLE {
        PowerInfo::Charged
    } else {
        PowerInfo::Unknown
    }
}

pub fn classify_battery(status: i32, percent: u8) -> (p: PowerInfo)
    ensures
        p == classify_battery_spec(status, percent),
{
    if status == BATTERY_STATUS_DISCHARGING || status == BATTERY_STATUS_CHARGING {
        if percent == 100 {
            PowerInfo::Charged
        } else if status == BATTERY_STATUS_DISCHARGING {
            PowerInfo::Discharging(percent)
        } else {
            PowerInfo::Charging(percent)
        }
    } else if status == BATTERY_STATUS_NOT_PRESENT {
        PowerInfo::Wired
    } else if status == BATTERY_STATUS_IDLE {
        PowerInfo::Charged
    } else {
        PowerInfo::Unknown
    }
}

/// The full power classification: wired controllers report Wired without a
/// battery query; for wireless ones a failed query (None) collapses to
/// Unknown, and a successful one classifies by status and percentage.
pub open spec fn power_info_spec(wireless: bool, battery: Option<BatteryReading>) -> PowerInfo {
    if !wireless {
        PowerInfo::Wired
    } else {
        match battery {
            Option::None => PowerInfo::Unknown,
            Option::Some(b) => classify_battery_spec(b.status, b.percent),
        }
    }
}

/// What the construction layer reads off the native handle for a newly
/// observed controller, as plain values. Native query failures are already
/// recovered there with the documented defaults: a placeholder name, zero
/// vendor and product ids, and the wired assumption.
#[derive(Debug)]
pub struct GamepadInfo {
    pub name: String,
    pub wireless: bool,
    pub vendor_id: u16,
    pub product_id: u16,
    pub has_mapped_gamepad: bool,
    pub has_ff_motor: bool,
    pub axis_count: u32,
    pub button_count: u32,
}

/// Mathematical image of a [`GamepadInfo`].
#[verifier::ext_equal]
pub ghost struct GamepadInfoView {
    pub name: Seq<char>,
    pub wireless: bool,
    pub vendor_id: u16,
    pub product_id: u16,
    pub has_mapped_gamepad: bool,
    pub has_ff_motor: bool,
    pub axis_count: u32,
    pub button_count: u32,
}

impl View for GamepadInfo {
    type V = GamepadInfoView;

    open spec fn view(&self) -> GamepadInfoView {
        GamepadInfoView {
            name: self.name@,
            wireless: self.wireless,
            vendor_id: self.vendor_id,
            product_id: self.product_id,
            has_mapped_gamepad: self.has_mapped_gamepad,
            has_ff_motor: self.has_ff_motor,
            axis_count: self.axis_count,
            button_count: self.button_count,
        }
    }
}

/// The ordered code list of one kind: codes (kind, 0) through
/// (kind, count - 1).
pub open spec fn code_list_spec(kind: EvCodeKind, count: int) -> Seq<EvCode> {
    Seq::new(count as nat, |i: int| EvCode { kind, index: i as u32 })
}

/// Mathematical image of a [`Gamepad`] descriptor.
#[verifier::ext_equal]
pub ghost struct GamepadView {
    pub id: u32,
    pub name: Seq<char>,
    pub uuid: Seq<u8>,
    pub is_connected: bool,
    pub non_roamable_id: Seq<u16>,
    pub wireless: bool,
    pub has_mapped_gamepad: bool,
    pub has_ff_motor: bool,
    pub axes: Seq<EvCode>,
    pub buttons: Seq<EvCode>,
}

/// The externally visible per-controller record. Built once the first time
/// a controller is observed and never removed from the session's table;
/// only the connection flag changes afterwards, on connection-state
/// events. The persistent native identifier survives disconnects (though
/// not port changes) and is what reconnecting controllers are recognized
/// by; the session id is the record's stable position in the table.
#[derive(Debug)]
pub struct Gamepad {
    pub id: u32,
    pub name: String,
    pub uuid: [u8; 16],
    pub is_connected: bool,
    pub non_roamable_id: Vec<u16>,
    pub wireless: bool,
    pub has_mapped_gamepad: bool,
    pub has_ff_motor: bool,
    pub axes: Vec<EvCode>,
    pub buttons: Vec<EvCode>,
}

impl View for Gamepad {
    type V = GamepadView;

    open spec fn view(&self) -> GamepadView {
        GamepadView {
            id: self.id,
            name: self.name@,
            uuid: self.uuid@,
            is_connected: self.is_connected,
            non_roamable_id: self.non_roamable_id@,
            wireless: self.wireless,
            has_mapped_gamepad: self.has_mapped_gamepad,
            has_ff_motor: self.has_ff_motor,
            axes: self.axes@,
            buttons: self.buttons@,
        }
    }
}

/// Everything [`Gamepad::new`] establishes: the given id, the info's plain
/// values, the derived fingerprint, the connected flag set, and the two
/// code lists built from the capability counts.
pub open spec fn gamepad_new_spec(
    id: u32,
    non_roamable_id: Seq<u16>,
    info: GamepadInfoView,
) -> GamepadView {
    GamepadView {
        id,
        name: info.name,
        uuid: fingerprint_spec(info.wireless, info.vendor_id, info.product_id),
        is_connected: true,
        non_roamable_id,
        wireless: info.wireless,
        has_mapped_gamepad: info.has_mapped_gamepad,
        has_ff_motor: info.has_ff_motor,
        axes: code_list_spec(EvCodeKind::Axis, info.axis_count as int),
        buttons: code_list_spec(EvCodeKind::Button, info.button_count as int),
    }
}

fn collect_codes(kind: EvCodeKind, count: u32) -> (v: Vec<EvCode>)
    ensures
        v@ == code_list_spec(kind, count as int),
{
    let mut v: Vec<EvCode> = Vec::new();
    let mut i: u32 = 0;
    while i < count
        invariant
            i <= count,
            v@.len() == i as int,
            forall|j: int|
                0 <= j < i as int ==> v@[j] == (EvCode { kind, index: j as u32 }),
        decreases count - i,
    {
        v.push(EvCode { kind, index: i });
        i += 1;
    }
    proof {
        assert(v@ =~= code_list_spec(kind, count as int));
    }
    v
}

impl Gamepad {
    /// Build the descriptor for a newly observed controller from its
    /// session id, persistent native identifier, and the plain values read
    /// off the native handle.
    pub fn new(id: u32, non_roamable_id: Vec<u16>, info: GamepadInfo) -> (g: Gamepad)
        ensures
            g@ == gamepad_new_spec(id, non_roamable_id@, info@),
    {
        let uuid = fingerprint(info.wireless, info.vendor_id, info.product_id);
        let axes = collect_codes(EvCodeKind::Axis, info.axis_count);
        let buttons = collect_codes(EvCodeKind::Button, info.button_count);
        let g = Gamepad {
            id,
            name: info.name,
            uuid,
            is_connected: true,
            non_roamable_id,
            wireless: info.wireless,
            has_mapped_gamepad: info.has_mapped_gamepad,
            has_ff_motor: info.has_ff_motor,
            axes,
            buttons,
        };
        proof {
            assert(g@ =~= gamepad_new_spec(id, g.non_roamable_id@, info@));
        }
        g
    }

    /// The display name, or the placeholder the construction layer chose
    /// when the native query failed.
    pub fn name(&self) -> (s: &str)
        ensures
            s@ == self@.name,
    {
        self.name.as_str()
    }

    /// The derived fingerprint identifier.
    pub fn uuid(&self) -> (u: [u8; 16])
        ensures
            u@ == self@.uuid,
    {
        self.uuid
    }

    /// Whether the controller is currently connected.
    pub fn is_connected(&self) -> (c: bool)
        ensures
            c == self@.is_connected,
    {
        self.is_connected
    }

    /// Power status from an on-demand battery query made by the caller:
    /// wired controllers report Wired without any query; query failures
    /// (None) collapse to Unknown and are never propagated.
    pub fn power_info(&self, battery: Option<BatteryReading>) -> (p: PowerInfo)
        ensures
            p == power_info_spec(self@.wireless, battery),
    {
        if !self.wireless {
            PowerInfo::Wired
        } else {
            match battery {
                Option::None => PowerInfo::Unknown,
                Option::Some(b) => classify_battery(b.status, b.percent),
            }
        }
    }

    /// Whether force feedback is exposed to consumers: the controller has
    /// a mapped-gamepad handle and an inspectable force-feedback motor.
    pub fn is_ff_supported(&self) -> (r: bool)
        ensures
            r == (self@.has_mapped_gamepad && self@.has_ff_motor),
    {
        self.has_mapped_gamepad && self.has_ff_motor
    }

    /// The ordered button code list, fixed at construction.
    pub fn buttons(&self) -> (r: &[EvCode])
        ensures
            r@ == self@.buttons,
    {
        self.buttons.as_slice()
    }

    /// The ordered axis code list, fixed at construction.
    pub fn axes(&self) -> (r: &[EvCode])
        ensures
            r@ == self@.axes,
    {
        self.axes.as_slice()
    }

    /// Axis metadata: every axis spans the full signed 16-bit range, with
    /// no default deadzone.
    pub fn axis_info(&self, _nec: EvCode) -> (r: Option<AxisInfo>)
        ensures
            r == Some(AxisInfo { min: -32768i32, max: 32767i32, deadzone: None::<u32> }),
    {
        Some(AxisInfo { min: -32768, max: 32767, deadzone: None })
    }
}

} // verus!
