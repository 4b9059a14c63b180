//! The properties of a power device: how each is decoded, and how a stream of
//! change signals becomes a sequence of decoded values.

use vstd::prelude::*;
use crate::error::ModuleError;
use crate::types::{BatteryState, DeviceType, IntSeconds, Percentage, WarningLevel};
use crate::wire::{ConversionError, WireDouble, WireValue};

verus! {

/// A property of a power device that can be read and watched.
#[derive(Debug, Clone, Copy, PartialEq, Eq, Structural)]
pub enum DeviceRequestType {
    Energy,
    EnergyFull,
    EnergyRate,
    IconName,
    IsPresent,
    Percentage,
    State,
    TimeToEmpty,
    TimeToFull,
    Type,
    WarningLevel,
}

/// A decoded property value.
#[derive(Debug, Clone, PartialEq, Eq)]
pub enum PropertyValue {
    /// A raw double: an energy or a rate.
    Number(WireDouble),
    /// A raw string: an icon's name.
    Text(String),
    /// A raw boolean.
    Flag(bool),
    Percentage(Percentage),
    State(BatteryState),
    Seconds(IntSeconds),
    Kind(DeviceType),
    Warning(WarningLevel),
}

/// What a fetch or a change signal hands over: the wire value, or the bus's
/// error.
pub type Fetched = Result<WireValue, zbus::Error>;

impl DeviceRequestType {
    /// The property's canonical name, for diagnostics.
    pub open spec fn spec_property_name(self) -> Seq<char> {
        match self {
            DeviceRequestType::Energy => "Energy"@,
            DeviceRequestType::EnergyFull => "EnergyFull"@,
            DeviceRequestType::EnergyRate => "EnergyRate"@,
            DeviceRequestType::IconName => "IconName"@,
            DeviceRequestType::IsPresent => "IsPresent"@,
            DeviceRequestType::Percentage => "Percentage"@,
            DeviceRequestType::State => "State"@,
            DeviceRequestType::TimeToEmpty => "TimeToEmpty"@,
            DeviceRequestType::TimeToFull => "TimeToFull"@,
            DeviceRequestType::Type => "Type"@,
            DeviceRequestType::WarningLevel => "WarningLevel"@,
        }
    }

    /// The property's canonical name, for diagnostics.
    pub fn property_name(self) -> (name: &'static str)
        ensures
            name@ == self.spec_property_name(),
    {
        match self {
            DeviceRequestType::Energy => "Energy",
            DeviceRequestType::EnergyFull => "EnergyFull",
            DeviceRequestType::EnergyRate => "EnergyRate",
            DeviceRequestType::IconName => "IconName",
            DeviceRequestType::IsPresent => "IsPresent",
            DeviceRequestType::Percentage => "Percentage",
            DeviceRequestType::State => "State",
            DeviceRequestType::TimeToEmpty => "TimeToEmpty",
            DeviceRequestType::TimeToFull => "TimeToFull",
            DeviceRequestType::Type => "Type",
            DeviceRequestType::WarningLevel => "WarningLevel",
        }
    }

    /// What a wire value decodes to as this property. The raw scalars accept
    /// their own member only; the states never fail; percentages and seconds
    /// decode as their types say.
    pub open spec fn spec_decode(self, value: WireValue) -> Result<
        PropertyValue,
        ConversionError,
    > {
        match self {
            DeviceRequestType::Energy
            | DeviceRequestType::EnergyFull
            | DeviceRequestType::EnergyRate => match value.as_double() {
                Ok(d) => Ok(PropertyValue::Number(d)),
                Err(e) => Err(e),
            },
            DeviceRequestType::IconName => match value.as_text() {
                Ok(text) => Ok(PropertyValue::Text(text)),
                Err(e) => Err(e),
            },
            DeviceRequestType::IsPresent => match value.as_flag() {
                Ok(flag) => Ok(PropertyValue::Flag(flag)),
                Err(e) => Err(e),
            },
            DeviceRequestType::Percentage => match Percentage::spec_try_from(value) {
                Ok(p) => Ok(PropertyValue::Percentage(p)),
                Err(e) => Err(e),
            },
            DeviceRequestType::State => Ok(PropertyValue::State(BatteryState::spec_from_wire(value))),
            DeviceRequestType::TimeToEmpty
            | DeviceRequestType::TimeToFull => match IntSeconds::spec_try_from(value) {
                Ok(s) => Ok(PropertyValue::Seconds(s)),
                Err(e) => Err(e),
            },
            DeviceRequestType::Type => Ok(PropertyValue::Kind(DeviceType::spec_from_wire(value))),
            DeviceRequestType::WarningLevel => Ok(
                PropertyValue::Warning(WarningLevel::spec_from_wire(value)),
            ),
        }
    }

    /// Decodes a wire value as this property.
    pub fn decode(self, value: &WireValue) -> (decoded: Result<PropertyValue, ConversionError>)
        ensures
            decoded == self.spec_decode(*value),
    {
        match self {
            DeviceRequestType::Energy
            | DeviceRequestType::EnergyFull
            | DeviceRequestType::EnergyRate => match value.as_double() {
                Ok(d) => Ok(PropertyValue::Number(d)),
                Err(e) => Err(e),
            },
            DeviceRequestType::IconName => match value.as_text() {
                Ok(text) => Ok(PropertyValue::Text(text)),
                Err(e) => Err(e),
            },
            DeviceRequestType::IsPresent => match value.as_flag() {
                Ok(flag) => Ok(PropertyValue::Flag(flag)),
                Err(e) => Err(e),
            },
            DeviceRequestType::Percentage => match Percentage::try_from(value) {
                Ok(p) => Ok(PropertyValue::Percentage(p)),
                Err(e) => Err(e),
            },
            DeviceRequestType::State => Ok(PropertyValue::State(BatteryState::from_wire(value))),
            DeviceRequestType::TimeToEmpty | DeviceRequestType::TimeToFull => match IntSeconds::try_from(
                value,
            ) {
                Ok(s) => Ok(PropertyValue::Seconds(s)),
                Err(e) => Err(e),
            },
            DeviceRequestType::Type => Ok(PropertyValue::Kind(DeviceType::from_wire(value))),
            DeviceRequestType::WarningLevel => Ok(
                PropertyValue::Warning(WarningLevel::from_wire(value)),
            ),
        }
    }

    /// What a one-shot read gives: the decoded reply, or the reason for which
    /// there is none.
    pub open spec fn spec_get(self, reply: Fetched) -> Result<PropertyValue, ModuleError> {
        match reply {
            Ok(value) => match self.spec_decode(value) {
                Ok(v) => Ok(v),
                Err(e) => Err(ModuleError::Conversion(e)),
            },
            Err(e) => Err(ModuleError::Remote(e)),
        }
    }

    /// Settles a one-shot read of this property from the reply to the fetch:
    /// a failed fetch is a remote error, an undecodable reply a conversion
    /// error.
    pub fn get(self, reply: Fetched) -> (read: Result<PropertyValue, ModuleError>)
        ensures
            read == self.spec_get(reply),
    {
        match reply {
            Ok(value) => match self.decode(&value) {
                Ok(v) => Ok(v),
                Err(e) => Err(ModuleError::Conversion(e)),
            },
            Err(e) => Err(ModuleError::Remote(e)),
        }
    }

    /// What one change signal contributes to the watched sequence: its decoded
    /// value, or nothing where the fetch failed or the value does not decode.
    pub open spec fn spec_yield(self, signal: Fetched) -> Option<PropertyValue> {
        match self.spec_get(signal) {
            Ok(v) => Some(v),
            Err(_) => None,
        }
    }

    /// The watched sequence of a run of change signals: the decoded value of
    /// each signal that has one, in the order of the signals.
    pub open spec fn spec_watch(self, signals: Seq<Fetched>) -> Seq<PropertyValue>
        decreases signals.len(),
    {
        if signals.len() == 0 {
            Seq::empty()
        } else {
            let before = self.spec_watch(signals.drop_last());
            match self.spec_yield(signals.last()) {
                Some(v) => before.push(v),
                None => before,
            }
        }
    }

    /// Handles one change signal of the watch: yields its decoded value, or
    /// nothing for a signal to skip. A skipped signal does not end the watch.
    pub fn yield_changed(self, signal: &Fetched) -> (yielded: Option<PropertyValue>)
        ensures
            yielded == self.spec_yield(*signal),
    {
        match signal {
            Ok(value) => match self.decode(value) {
                Ok(v) => Some(v),
                Err(_) => None,
            },
            Err(_) => None,
        }
    }

    /// Turns a run of change signals into the watched sequence.
    pub fn receive_prop_changed(self, signals: &Vec<Fetched>) -> (watched: Vec<PropertyValue>)
        ensures
            watched@ == self.spec_watch(signals@),
    {
        let mut watched: Vec<PropertyValue> = Vec::new();
        let mut i: usize = 0;
        while i < signals.len()
            invariant
                i <= signals.len(),
                watched@ == self.spec_watch(signals@.take(i as int)),
            decreases signals.len() - i,
        {
            proof {
                let upto = signals@.take(i + 1);
                assert(upto.drop_last() == signals@.take(i as int));
                assert(upto.last() == signals@[i as int]);
            }
            match self.yield_changed(&signals[i]) {
                Some(v) => watched.push(v),
                None => {},
            }
            i += 1;
        }
        assert(signals@.take(i as int) == signals@);
        watched
    }

    /// What pulling the next value gives: the watch-ended error where the
    /// subscription has no further signal, else what a one-shot read of the
    /// signal gives.
    pub open spec fn spec_get_next_prop(self, next: Option<Fetched>) -> Result<
        PropertyValue,
        ModuleError,
    > {
        match next {
            Some(signal) => self.spec_get(signal),
            None => Err(ModuleError::WatchEnded),
        }
    }

    /// Settles a pull of the next value from what the subscription handed
    /// out. Unlike the watched sequence, a pull surfaces every failure.
    pub fn get_next_prop(self, next: Option<Fetched>) -> (pulled: Result<
        PropertyValue,
        ModuleError,
    >)
        ensures
            pulled == self.spec_get_next_prop(next),
    {
        match next {
            Some(signal) => self.get(signal),
            None => Err(ModuleError::WatchEnded),
        }
    }

    /// Watching is incremental: the watched sequence of two runs of signals,
    /// one after the other, is that of the first followed by that of the second.
    pub proof fn lemma_watch_concat(self, first: Seq<Fetched>, second: Seq<Fetched>)
        ensures
            self.spec_watch(first + second) == self.spec_watch(first) + self.spec_watch(second),
        decreases second.len(),
    {
        if second.len() == 0 {
            assert(first + second == first);
            assert(self.spec_watch(first) + Seq::<PropertyValue>::empty() == self.spec_watch(
                first,
            ));
        } else {
            let whole = first + second;
            assert(whole.drop_last() == first + second.drop_last());
            assert(whole.last() == second.last());
            self.lemma_watch_concat(first, second.drop_last());
            match self.spec_yield(second.last()) {
                Some(v) => {
                    assert((self.spec_watch(first) + self.spec_watch(second.drop_last())).push(v)
                        == self.spec_watch(first) + self.spec_watch(second.drop_last()).push(v));
                },
                None => {},
            }
        }
    }

    /// The watched sequence is exactly the decodable signals, decoded, in
    /// the order in which they came: nothing is added, nothing decodable is dropped,
    /// and nothing is reordered.
    pub proof fn lemma_watch_is_decodable_subset(self, signals: Seq<Fetched>)
        ensures
            self.spec_watch(signals) == signals.filter(
                |signal: Fetched| self.spec_yield(signal).is_some(),
            ).map_values(|signal: Fetched| self.spec_yield(signal).unwrap()),
        decreases signals.len(),
    {
        let decodable = |signal: Fetched| self.spec_yield(signal).is_some();
        let decoded = |signal: Fetched| self.spec_yield(signal).unwrap();
        reveal(Seq::filter);
        if signals.len() == 0 {
            assert(signals.filter(decodable).map_values(decoded) == Seq::<PropertyValue>::empty());
        } else {
            self.lemma_watch_is_decodable_subset(signals.drop_last());
            let kept = signals.drop_last().filter(decodable);
            if decodable(signals.last()) {
                assert(signals.filter(decodable) == kept.push(signals.last()));
                assert(kept.push(signals.last()).map_values(decoded) == kept.map_values(
                    decoded,
                ).push(decoded(signals.last())));
            } else {
                assert(signals.filter(decodable) == kept);
            }
        }
    }
}

/// A watch on one property of a power device.
#[derive(Debug, Clone, Copy, PartialEq, Eq, Structural)]
pub struct UPowerModule {
    property: DeviceRequestType,
}

impl UPowerModule {
    /// The property that this module watches.
    pub closed spec fn spec_property(&self) -> DeviceRequestType {
        self.property
    }

    /// A module that watches the given property.
    pub fn new(property: DeviceRequestType) -> (module: Self)
        ensures
            module.spec_property() == property,
    {
        UPowerModule { property }
    }

    /// The property that this module watches.
    #[verifier::when_used_as_spec(spec_property)]
    pub fn property(&self) -> (property: DeviceRequestType)
        ensures
            property == self.spec_property(),
    {
        self.property
    }

    /// Handles one item of the module's own stream: the value to emit, or
    /// nothing where the signal is to be skipped.
    pub fn stream_item(&self, signal: &Fetched) -> (emitted: Option<PropertyValue>)
        ensures
            emitted == self.spec_property().spec_yield(*signal),
    {
        self.property.yield_changed(signal)
    }

    /// Answers a command, which for this module is a request to read the
    /// property afresh: given the reply to that read, the value to emit, or
    /// the error of the read. A read that succeeds always emits.
    pub fn recv_message(&self, reply: Fetched) -> (emitted: Result<
        Option<PropertyValue>,
        ModuleError,
    >)
        ensures
            emitted == match self.spec_property().spec_get(reply) {
                Ok(v) => Ok::<Option<PropertyValue>, ModuleError>(Some(v)),
                Err(e) => Err::<Option<PropertyValue>, ModuleError>(e),
            },
    {
        match self.property.get(reply) {
            Ok(v) => Ok(Some(v)),
            Err(e) => Err(e),
        }
    }
}

} // verus!
