//! What the locker decides about the display it owns: whether the display
//! will do, whether the monitor is powered, what to force and to reassert,
//! and which events to watch on other clients' windows.
//!
//! The locker talks to the X server; the answers come here as plain values
//! and what is to be sent goes back as plain values.

use crate::error::X;
use vstd::prelude::*;

verus! {

/// The event mask bit for key presses.
pub const EVENT_MASK_KEY_PRESS: u32 = 0x1;

/// The event mask bit for key releases.
pub const EVENT_MASK_KEY_RELEASE: u32 = 0x2;

/// The event mask bit for pointer motion.
pub const EVENT_MASK_POINTER_MOTION: u32 = 0x40;

/// The event mask bit for changes among a window's children.
pub const EVENT_MASK_SUBSTRUCTURE_NOTIFY: u32 = 0x8_0000;

/// The predefined atom of the property type `CARDINAL`.
pub const ATOM_CARDINAL: u32 = 6;

/// The screen-saver setting that allows exposures.
pub const EXPOSURES_ALLOWED: u8 = 1;

/// The oldest version of the RandR extension that will do.
pub const RANDR_MAJOR: u32 = 1;

/// The oldest version of the RandR extension that will do.
pub const RANDR_MINOR: u32 = 1;

/// What the server says of an extension that it has.
#[derive(Debug, Clone, Copy, PartialEq, Eq, Structural)]
pub struct Extension {
    pub major_opcode: u8,
    pub first_event: u8,
    pub first_error: u8,
}

/// The power levels of the display power management extension.
#[derive(Debug, Clone, Copy, PartialEq, Eq, Structural)]
pub enum PowerLevel {
    On,
    Standby,
    Suspend,
    Off,
}

/// What the server says of the monitor's power: whether power management
/// is enabled, and the level the monitor is at.
#[derive(Debug, Clone, Copy, PartialEq, Eq, Structural)]
pub struct PowerInfo {
    pub state: bool,
    pub power_level: PowerLevel,
}

/// One setting that the locker reasserts on the display.
#[derive(Debug, Clone, Copy, PartialEq, Eq, Structural)]
pub enum Setting {
    /// The delays after which power management acts by itself.
    DpmsTimeouts { standby: u16, suspend: u16, off: u16 },
    /// Power management is enabled.
    DpmsEnable,
    /// The server's own screen saver.
    ScreenSaver { timeout: i16, interval: i16, prefer_blanking: u8, allow_exposures: u8 },
}

/// The display as the locker's decisions see it.
#[derive(Debug, Clone, Copy, PartialEq, Eq, Structural)]
pub struct Display {
    randr: Option<Extension>,
    dpms: Option<Extension>,
}

/// The number of a power level on the wire.
pub open spec fn level_number(level: PowerLevel) -> u16 {
    match level {
        PowerLevel::On => 0,
        PowerLevel::Standby => 1,
        PowerLevel::Suspend => 2,
        PowerLevel::Off => 3,
    }
}

/// Whether version `major.minor` of RandR is at least the oldest that will
/// do.
pub open spec fn randr_will_do(major: u32, minor: u32) -> bool {
    major > RANDR_MAJOR || (major == RANDR_MAJOR && minor >= RANDR_MINOR)
}

/// Whether the monitor counts as powered: it does on a display without
/// power management and while power management is disabled; it does not
/// when the server gives no answer; otherwise it does at level `On` alone.
pub open spec fn powered(dpms: bool, info: Option<PowerInfo>) -> bool {
    if !dpms {
        true
    } else {
        match info {
            Some(info) => !info.state || info.power_level == PowerLevel::On,
            None => false,
        }
    }
}

/// The level to force so that the monitor is powered (`value`) or not:
/// none on a display without power management, and none if the monitor is
/// there already.
pub open spec fn forced_level(dpms: bool, info: Option<PowerInfo>, value: bool) -> Option<
    PowerLevel,
> {
    if !dpms || powered(dpms, info) == value {
        None
    } else if value {
        Some(PowerLevel::On)
    } else {
        Some(PowerLevel::Off)
    }
}

/// The settings to reassert, in order: power management never acts by
/// itself but is enabled, where the display has it; the server's own screen
/// saver never starts.
pub open spec fn sanitized(dpms: bool) -> Seq<Setting> {
    let saver = seq![
        Setting::ScreenSaver {
            timeout: 0,
            interval: 0,
            prefer_blanking: 0,
            allow_exposures: EXPOSURES_ALLOWED,
        },
    ];
    if dpms {
        seq![Setting::DpmsTimeouts { standby: 0, suspend: 0, off: 0 }, Setting::DpmsEnable] + saver
    } else {
        saver
    }
}

/// The events to select on another client's window: key presses and
/// releases where some client already selected them or they do not
/// propagate, and always pointer motion and changes among the children.
pub open spec fn observed_mask(all_event_masks: u32, do_not_propagate_mask: u16) -> u32 {
    ((all_event_masks | do_not_propagate_mask as u32) & (EVENT_MASK_KEY_PRESS
        | EVENT_MASK_KEY_RELEASE)) | (EVENT_MASK_POINTER_MOTION | EVENT_MASK_SUBSTRUCTURE_NOTIFY)
}

impl PowerLevel {
    /// The level with the number `raw` on the wire, if there is one.
    pub fn from_raw(raw: u16) -> (level: Option<PowerLevel>)
        ensures
            match level {
                Some(level) => level_number(level) == raw,
                None => raw > 3,
            },
    {
        if raw == 0 {
            Some(PowerLevel::On)
        } else if raw == 1 {
            Some(PowerLevel::Standby)
        } else if raw == 2 {
            Some(PowerLevel::Suspend)
        } else if raw == 3 {
            Some(PowerLevel::Off)
        } else {
            None
        }
    }

    /// The level's number on the wire.
    pub fn raw(&self) -> (raw: u16)
        ensures
            raw == level_number(*self),
    {
        match self {
            PowerLevel::On => 0,
            PowerLevel::Standby => 1,
            PowerLevel::Suspend => 2,
            PowerLevel::Off => 3,
        }
    }
}

impl Display {
    /// The RandR extension of the display.
    pub closed spec fn randr_data(&self) -> Option<Extension> {
        self.randr
    }

    /// The power management extension of the display, if the display has it
    /// and the locker may use it.
    pub closed spec fn dpms_data(&self) -> Option<Extension> {
        self.dpms
    }

    /// Decides at startup whether the display will do.
    ///
    /// `randr` is the server's RandR extension with its version, `dpms` its
    /// power management extension, each if the server has it; `want_dpms`
    /// is whether the configuration allows power management and `capable`
    /// whether the server says the monitor is capable of it.
    ///
    /// The display will do if RandR is there in version 1.1 or later. Power
    /// management is used if it is there, allowed and the monitor is
    /// capable of it.
    pub fn open(
        randr: Option<(Extension, u32, u32)>,
        dpms: Option<Extension>,
        want_dpms: bool,
        capable: bool,
    ) -> (opened: Result<Display, X>)
        ensures
            match randr {
                Some((extension, major, minor)) if randr_will_do(major, minor) => {
                    &&& opened matches Ok(display)
                    &&& display.randr_data() == Some(extension)
                    &&& display.dpms_data() == if want_dpms && capable {
                        dpms
                    } else {
                        None
                    }
                },
                _ => opened == Err::<Display, X>(X::MissingExtension),
            },
    {
        match randr {
            Some((extension, major, minor)) => {
                if major > RANDR_MAJOR || (major == RANDR_MAJOR && minor >= RANDR_MINOR) {
                    let dpms = if want_dpms && capable {
                        dpms
                    } else {
                        None
                    };
                    Ok(Display { randr: Some(extension), dpms })
                } else {
                    Err(X::MissingExtension)
                }
            },
            None => Err(X::MissingExtension),
        }
    }

    /// The RandR extension of the display.
    pub fn randr(&self) -> (data: Option<&Extension>)
        ensures
            match data {
                Some(extension) => self.randr_data() == Some(*extension),
                None => self.randr_data() is None,
            },
    {
        self.randr.as_ref()
    }

    /// The power management extension of the display, if the display has it
    /// and the locker may use it.
    pub fn dpms(&self) -> (data: Option<&Extension>)
        ensures
            match data {
                Some(extension) => self.dpms_data() == Some(*extension),
                None => self.dpms_data() is None,
            },
    {
        self.dpms.as_ref()
    }

    /// Whether the monitor counts as powered, given what the server says of
    /// it (`None` if the server gave no answer).
    pub fn is_powered(&self, info: Option<PowerInfo>) -> (on: bool)
        ensures
            on == powered(self.dpms_data() is Some, info),
    {
        if self.dpms.is_none() {
            return true;
        }
        match info {
            Some(info) => {
                if !info.state {
                    return true;
                }
                match info.power_level {
                    PowerLevel::On => true,
                    PowerLevel::Off | PowerLevel::Standby | PowerLevel::Suspend => false,
                }
            },
            None => false,
        }
    }

    /// The level to force so that the monitor is powered (`value`) or not,
    /// given what the server says of it; none if there is nothing to do.
    pub fn power(&self, info: Option<PowerInfo>, value: bool) -> (level: Option<PowerLevel>)
        ensures
            level == forced_level(self.dpms_data() is Some, info, value),
    {
        if self.dpms.is_none() || self.is_powered(info) == value {
            return None;
        }
        if value {
            Some(PowerLevel::On)
        } else {
            Some(PowerLevel::Off)
        }
    }

    /// The settings to reassert on the display, in order.
    pub fn sanitize(&self) -> (settings: Vec<Setting>)
        ensures
            settings@ == sanitized(self.dpms_data() is Some),
    {
        let mut settings: Vec<Setting> = Vec::new();
        if self.dpms.is_some() {
            settings.push(Setting::DpmsTimeouts { standby: 0, suspend: 0, off: 0 });
            settings.push(Setting::DpmsEnable);
        }
        settings.push(
            Setting::ScreenSaver {
                timeout: 0,
                interval: 0,
                prefer_blanking: 0,
                allow_exposures: EXPOSURES_ALLOWED,
            },
        );
        settings
    }

    /// Whether a window is one of the locker's own, to be left alone with
    /// all its children: whether it carries the saver's mark. `marker` is
    /// the type of that property on the window, if the window has it.
    pub fn is_own(marker: Option<u32>) -> (own: bool)
        ensures
            own == (marker == Some(ATOM_CARDINAL)),
    {
        match marker {
            Some(kind) => kind == ATOM_CARDINAL,
            None => false,
        }
    }

    /// The events to select on another client's window, given the events
    /// that clients selected on it and those that it keeps from
    /// propagating.
    pub fn observe(&self, all_event_masks: u32, do_not_propagate_mask: u16) -> (mask: u32)
        ensures
            mask == observed_mask(all_event_masks, do_not_propagate_mask),
    {
        ((all_event_masks | do_not_propagate_mask as u32) & (EVENT_MASK_KEY_PRESS
            | EVENT_MASK_KEY_RELEASE)) | (EVENT_MASK_POINTER_MOTION
            | EVENT_MASK_SUBSTRUCTURE_NOTIFY)
    }
}

/// What [`observed_mask`] holds, bit by bit: pointer motion and changes
/// among the children always; key presses and key releases exactly where
/// one of the two masks it is made from holds them; nothing else.
pub proof fn lemma_observed_mask(all_event_masks: u32, do_not_propagate_mask: u16)
    ensures
        ({
            let mask = observed_mask(all_event_masks, do_not_propagate_mask);
            let given = all_event_masks | do_not_propagate_mask as u32;
            &&& mask & EVENT_MASK_POINTER_MOTION == EVENT_MASK_POINTER_MOTION
            &&& mask & EVENT_MASK_SUBSTRUCTURE_NOTIFY == EVENT_MASK_SUBSTRUCTURE_NOTIFY
            &&& mask & EVENT_MASK_KEY_PRESS == given & EVENT_MASK_KEY_PRESS
            &&& mask & EVENT_MASK_KEY_RELEASE == given & EVENT_MASK_KEY_RELEASE
            &&& mask & !(EVENT_MASK_KEY_PRESS | EVENT_MASK_KEY_RELEASE | EVENT_MASK_POINTER_MOTION
                | EVENT_MASK_SUBSTRUCTURE_NOTIFY) == 0
        }),
{
    let given = all_event_masks | do_not_propagate_mask as u32;
    let mask = (given & (0x1u32 | 0x2u32)) | (0x40u32 | 0x8_0000u32);
    assert(mask & 0x40u32 == 0x40u32) by (bit_vector)
        requires
            mask == (given & (0x1u32 | 0x2u32)) | (0x40u32 | 0x8_0000u32),
    ;
    assert(mask & 0x8_0000u32 == 0x8_0000u32) by (bit_vector)
        requires
            mask == (given & (0x1u32 | 0x2u32)) | (0x40u32 | 0x8_0000u32),
    ;
    assert(mask & 0x1u32 == given & 0x1u32) by (bit_vector)
        requires
            mask == (given & (0x1u32 | 0x2u32)) | (0x40u32 | 0x8_0000u32),
    ;
    assert(mask & 0x2u32 == given & 0x2u32) by (bit_vector)
        requires
            mask == (given & (0x1u32 | 0x2u32)) | (0x40u32 | 0x8_0000u32),
    ;
    assert(mask & !(0x1u32 | 0x2u32 | 0x40u32 | 0x8_0000u32) == 0) by (bit_vector)
        requires
            mask == (given & (0x1u32 | 0x2u32)) | (0x40u32 | 0x8_0000u32),
    ;
}

} // verus!
