//! All the properties of the display device at once.

use vstd::prelude::*;
use crate::battery::Fetched;
use crate::error::ModuleError;
use crate::types::{BatteryState, DeviceType, IntSeconds, Percentage, WarningLevel};
use crate::wire::{ConversionError, WireDouble, WireValue};

verus! {

/// The replies to the reads of all properties, one per property, as the bus
/// handed them over.
#[derive(Debug)]
pub struct DisplayDeviceReplies {
    pub energy: Fetched,
    pub energy_full: Fetched,
    pub energy_rate: Fetched,
    pub icon_name: Fetched,
    pub is_present: Fetched,
    pub percentage: Fetched,
    pub state: Fetched,
    pub time_to_empty: Fetched,
    pub time_to_full: Fetched,
    pub type_: Fetched,
    pub warning_level: Fetched,
}

/// All the properties of the display device.
#[derive(Debug, Clone, PartialEq, Eq)]
pub struct DisplayDeviceDetails {
    pub energy: WireDouble,
    pub energy_full: WireDouble,
    pub energy_rate: WireDouble,
    pub icon_name: String,
    pub is_present: bool,
    pub percentage: Percentage,
    pub state: BatteryState,
    pub time_to_empty: IntSeconds,
    pub time_to_full: IntSeconds,
    pub type_: DeviceType,
    pub warning_level: WarningLevel,
}

/// The outcome of reading all properties: for each property its value, or the
/// reason for which there is none.
#[derive(Debug, PartialEq)]
pub struct DisplayDeviceDetailsResult {
    pub energy: Result<WireDouble, ModuleError>,
    pub energy_full: Result<WireDouble, ModuleError>,
    pub energy_rate: Result<WireDouble, ModuleError>,
    pub icon_name: Result<String, ModuleError>,
    pub is_present: Result<bool, ModuleError>,
    pub percentage: Result<Percentage, ModuleError>,
    pub state: Result<BatteryState, ModuleError>,
    pub time_to_empty: Result<IntSeconds, ModuleError>,
    pub time_to_full: Result<IntSeconds, ModuleError>,
    pub type_: Result<DeviceType, ModuleError>,
    pub warning_level: Result<WarningLevel, ModuleError>,
}

/// The outcome of one read, given how its value decodes: a failed fetch is a
/// remote error, a value that does not decode a conversion error.
pub open spec fn spec_settled<T>(
    reply: Fetched,
    decode: spec_fn(WireValue) -> Result<T, ConversionError>,
) -> Result<T, ModuleError> {
    match reply {
        Ok(v) => match decode(v) {
            Ok(t) => Ok(t),
            Err(e) => Err(ModuleError::Conversion(e)),
        },
        Err(e) => Err(ModuleError::Remote(e)),
    }
}

/// Lifts the outcome of a conversion into the outcome of a read.
fn settled<T>(decoded: Result<T, ConversionError>) -> (outcome: Result<T, ModuleError>)
    ensures
        outcome == match decoded {
            Ok(t) => Ok::<T, ModuleError>(t),
            Err(e) => Err::<T, ModuleError>(ModuleError::Conversion(e)),
        },
{
    match decoded {
        Ok(t) => Ok(t),
        Err(e) => Err(ModuleError::Conversion(e)),
    }
}

impl DisplayDeviceDetails {
    /// The outcome of reading all properties, given the replies: each
    /// property settled by its own decoder, independently of the others.
    pub open spec fn spec_request_all(replies: DisplayDeviceReplies) -> DisplayDeviceDetailsResult {
        DisplayDeviceDetailsResult {
            energy: spec_settled(replies.energy, |v: WireValue| v.spec_as_double()),
            energy_full: spec_settled(replies.energy_full, |v: WireValue| v.spec_as_double()),
            energy_rate: spec_settled(replies.energy_rate, |v: WireValue| v.spec_as_double()),
            icon_name: spec_settled(replies.icon_name, |v: WireValue| v.spec_as_text()),
            is_present: spec_settled(replies.is_present, |v: WireValue| v.spec_as_flag()),
            percentage: spec_settled(replies.percentage, |v: WireValue| Percentage::spec_try_from(v)),
            state: spec_settled(replies.state, |v: WireValue| Ok(BatteryState::spec_from_wire(v))),
            time_to_empty: spec_settled(replies.time_to_empty, |v: WireValue| IntSeconds::spec_try_from(v)),
            time_to_full: spec_settled(replies.time_to_full, |v: WireValue| IntSeconds::spec_try_from(v)),
            type_: spec_settled(replies.type_, |v: WireValue| Ok(DeviceType::spec_from_wire(v))),
            warning_level: spec_settled(replies.warning_level, |v: WireValue| Ok(WarningLevel::spec_from_wire(v))),
        }
    }

    /// Settles the reads of all properties from their replies.
    pub fn request_all(replies: DisplayDeviceReplies) -> (outcome: DisplayDeviceDetailsResult)
        ensures
            outcome == Self::spec_request_all(replies),
    {
        DisplayDeviceDetailsResult {
            energy: match replies.energy {
                Ok(v) => settled(v.as_double()),
                Err(e) => Err(ModuleError::Remote(e)),
            },
            energy_full: match replies.energy_full {
                Ok(v) => settled(v.as_double()),
                Err(e) => Err(ModuleError::Remote(e)),
            },
            energy_rate: match replies.energy_rate {
                Ok(v) => settled(v.as_double()),
                Err(e) => Err(ModuleError::Remote(e)),
            },
            icon_name: match replies.icon_name {
                Ok(v) => settled(v.as_text()),
                Err(e) => Err(ModuleError::Remote(e)),
            },
            is_present: match replies.is_present {
                Ok(v) => settled(v.as_flag()),
                Err(e) => Err(ModuleError::Remote(e)),
            },
            percentage: match replies.percentage {
                Ok(v) => settled(Percentage::try_from(&v)),
                Err(e) => Err(ModuleError::Remote(e)),
            },
            state: match replies.state {
                Ok(v) => settled(Ok(BatteryState::from_wire(&v))),
                Err(e) => Err(ModuleError::Remote(e)),
            },
            time_to_empty: match replies.time_to_empty {
                Ok(v) => settled(IntSeconds::try_from(&v)),
                Err(e) => Err(ModuleError::Remote(e)),
            },
            time_to_full: match replies.time_to_full {
                Ok(v) => settled(IntSeconds::try_from(&v)),
                Err(e) => Err(ModuleError::Remote(e)),
            },
            type_: match replies.type_ {
                Ok(v) => settled(Ok(DeviceType::from_wire(&v))),
                Err(e) => Err(ModuleError::Remote(e)),
            },
            warning_level: match replies.warning_level {
                Ok(v) => settled(Ok(WarningLevel::from_wire(&v))),
                Err(e) => Err(ModuleError::Remote(e)),
            },
        }
    }
}

impl Default for DisplayDeviceDetails {
    fn default() -> (details: Self)
        ensures
            details.energy == (WireDouble { bits: 0, nearest: 0 }),
            details.energy_full == (WireDouble { bits: 0, nearest: 0 }),
            details.energy_rate == (WireDouble { bits: 0, nearest: 0 }),
            details.icon_name@ == Seq::<char>::empty(),
            !details.is_present,
            details.percentage@ == 0,
            details.state == BatteryState::Unknown,
            details.time_to_empty@ == 0,
            details.time_to_full@ == 0,
            details.type_ == DeviceType::Unknown,
            details.warning_level == WarningLevel::Unknown,
    {
        DisplayDeviceDetails {
            energy: WireDouble { bits: 0, nearest: 0 },
            energy_full: WireDouble { bits: 0, nearest: 0 },
            energy_rate: WireDouble { bits: 0, nearest: 0 },
            icon_name: String::new(),
            is_present: false,
            percentage: Percentage::default(),
            state: BatteryState::default(),
            time_to_empty: IntSeconds::default(),
            time_to_full: IntSeconds::default(),
            type_: DeviceType::default(),
            warning_level: WarningLevel::default(),
        }
    }
}

impl DisplayDeviceDetailsResult {
    /// Whether every property has a value.
    pub open spec fn spec_complete(self) -> bool {
        self.energy.is_ok()
        && self.energy_full.is_ok()
        && self.energy_rate.is_ok()
        && self.icon_name.is_ok()
        && self.is_present.is_ok()
        && self.percentage.is_ok()
        && self.state.is_ok()
        && self.time_to_empty.is_ok()
        && self.time_to_full.is_ok()
        && self.type_.is_ok()
        && self.warning_level.is_ok()
    }

    /// The first failure among the properties, in the order in which the
    /// properties are declared.
    pub open spec fn spec_first_failure(self) -> Option<ModuleError> {
        if self.energy is Err {
            Some(self.energy->Err_0)
        } else if self.energy_full is Err {
            Some(self.energy_full->Err_0)
        } else if self.energy_rate is Err {
            Some(self.energy_rate->Err_0)
        } else if self.icon_name is Err {
            Some(self.icon_name->Err_0)
        } else if self.is_present is Err {
            Some(self.is_present->Err_0)
        } else if self.percentage is Err {
            Some(self.percentage->Err_0)
        } else if self.state is Err {
            Some(self.state->Err_0)
        } else if self.time_to_empty is Err {
            Some(self.time_to_empty->Err_0)
        } else if self.time_to_full is Err {
            Some(self.time_to_full->Err_0)
        } else if self.type_ is Err {
            Some(self.type_->Err_0)
        } else if self.warning_level is Err {
            Some(self.warning_level->Err_0)
        } else {
            None
        }
    }

    /// The details that a complete outcome holds.
    pub open spec fn spec_details(self) -> DisplayDeviceDetails {
        DisplayDeviceDetails {
            energy: self.energy->Ok_0,
            energy_full: self.energy_full->Ok_0,
            energy_rate: self.energy_rate->Ok_0,
            icon_name: self.icon_name->Ok_0,
            is_present: self.is_present->Ok_0,
            percentage: self.percentage->Ok_0,
            state: self.state->Ok_0,
            time_to_empty: self.time_to_empty->Ok_0,
            time_to_full: self.time_to_full->Ok_0,
            type_: self.type_->Ok_0,
            warning_level: self.warning_level->Ok_0,
        }
    }

    /// Extracts the details, stopping at the first failure: the details where
    /// every property has a value, else the first failure and nothing of the
    /// values that were read.
    pub fn try_resolve(self) -> (resolved: Result<DisplayDeviceDetails, ModuleError>)
        ensures
            resolved.is_ok() == self.spec_complete(),
            resolved == match self.spec_first_failure() {
                Some(e) => Err::<DisplayDeviceDetails, ModuleError>(e),
                None => Ok::<DisplayDeviceDetails, ModuleError>(self.spec_details()),
            },
    {
        let energy = match self.energy {
            Ok(v) => v,
            Err(e) => return Err(e),
        };
        let energy_full = match self.energy_full {
            Ok(v) => v,
            Err(e) => return Err(e),
        };
        let energy_rate = match self.energy_rate {
            Ok(v) => v,
            Err(e) => return Err(e),
        };
        let icon_name = match self.icon_name {
            Ok(v) => v,
            Err(e) => return Err(e),
        };
        let is_present = match self.is_present {
            Ok(v) => v,
            Err(e) => return Err(e),
        };
        let percentage = match self.percentage {
            Ok(v) => v,
            Err(e) => return Err(e),
        };
        let state = match self.state {
            Ok(v) => v,
            Err(e) => return Err(e),
        };
        let time_to_empty = match self.time_to_empty {
            Ok(v) => v,
            Err(e) => return Err(e),
        };
        let time_to_full = match self.time_to_full {
            Ok(v) => v,
            Err(e) => return Err(e),
        };
        let type_ = match self.type_ {
            Ok(v) => v,
            Err(e) => return Err(e),
        };
        let warning_level = match self.warning_level {
            Ok(v) => v,
            Err(e) => return Err(e),
        };
        Ok(DisplayDeviceDetails {
            energy,
            energy_full,
            energy_rate,
            icon_name,
            is_present,
            percentage,
            state,
            time_to_empty,
            time_to_full,
            type_,
            warning_level,
        })
    }
}

} // verus!
