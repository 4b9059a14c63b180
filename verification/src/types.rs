//! The typed values that wire values decode into.

use vstd::prelude::*;
use core::time::Duration;
use crate::label::{same_label, spec_folded, spec_same_label};
use crate::wire::{ConversionError, WireValue};

verus! {

/// The absolute value of an integer.
pub open spec fn spec_abs(n: int) -> nat {
    if n < 0 {
        (-n) as nat
    } else {
        n as nat
    }
}

/// The decimal digit for a number below ten.
pub open spec fn spec_digit(d: nat) -> char {
    (48 + d) as char
}

/// The decimal notation of a natural number, without leading zeros.
pub open spec fn spec_decimal(n: nat) -> Seq<char>
    decreases n,
{
    if n < 10 {
        seq![spec_digit(n)]
    } else {
        spec_decimal(n / 10).push(spec_digit(n % 10))
    }
}

/// What a percentage renders as: its decimal notation and a percent sign.
pub open spec fn spec_percent_text(value: nat) -> Seq<char> {
    spec_decimal(value).push('%')
}

/// Formats a number with `format!`, that is through `u8`'s `Display`, which
/// writes the decimal notation without sign or leading zeros; a percent sign
/// follows it.
#[verifier::external_body]
fn render_percent(value: u8) -> (text: String)
    ensures
        text@ == spec_percent_text(value as nat),
{
    format!("{}%", value)
}

/// A whole percentage, never above 100.
#[derive(Debug, Clone, Copy, PartialEq, Eq, Structural, PartialOrd, Ord, Hash)]
pub struct Percentage(u8);

impl View for Percentage {
    type V = nat;

    closed spec fn view(&self) -> nat {
        self.0 as nat
    }
}

impl Percentage {
    /// The largest number that is a percentage.
    pub const MAX: u8 = 100;

    /// The smallest number that is a percentage.
    pub const MIN: u8 = 0;

    #[verifier::type_invariant]
    spec fn in_range(self) -> bool {
        self.0 <= 100
    }

    /// The percentage of a number. It is one for 0 to 100 only.
    pub closed spec fn spec_new(value: nat) -> Percentage {
        Percentage(value as u8)
    }

    /// The percentage of a number from 0 to 100 has that number as its value.
    pub proof fn lemma_spec_new(value: nat)
        requires
            value <= 100,
        ensures
            Self::spec_new(value)@ == value,
    {
    }

    /// A percentage is the percentage of its value.
    pub proof fn lemma_spec_new_of_view(self)
        ensures
            Self::spec_new(self@) == self,
    {
    }

    /// What a wire value decodes to as a percentage: the magnitude of an
    /// integer-like value where that is at most 100.
    pub open spec fn spec_try_from(value: WireValue) -> Result<Percentage, ConversionError> {
        match value.spec_integer() {
            Some(n) => if spec_abs(n) <= 100 {
                Ok(Self::spec_new(spec_abs(n)))
            } else {
                Err(ConversionError::OutOfBounds)
            },
            None => Err(ConversionError::IncorrectType(value.kind())),
        }
    }

    /// The wire value that carries this percentage: an unsigned byte.
    pub fn to_zvariant(self) -> (wire: WireValue)
        ensures
            wire == WireValue::U8(self@ as u8),
    {
        WireValue::U8(self.get())
    }

    /// The percentage as a number, 0 to 100.
    pub fn get(&self) -> (value: u8)
        ensures
            value as nat == self@,
            value <= 100,
    {
        proof {
            use_type_invariant(self);
        }
        self.0
    }

    /// A percentage from a number: `Some` exactly for 0 to 100.
    pub fn new(input: u8) -> (made: Option<Self>)
        ensures
            input <= 100 ==> made == Some(Self::spec_new(input as nat)) && made.unwrap()@
                == input as nat,
            input > 100 ==> made.is_none(),
    {
        if input <= Self::MAX {
            Some(Percentage(input))
        } else {
            None
        }
    }

    /// A percentage from a number, or the conversion error for a number that
    /// is out of bounds.
    pub fn try_new_else_zvariant_error(input: u8) -> (made: Result<Self, ConversionError>)
        ensures
            input <= 100 ==> made == Ok::<Self, ConversionError>(Self::spec_new(input as nat))
                && made.unwrap()@ == input as nat,
            input > 100 ==> made == Err::<Self, ConversionError>(ConversionError::OutOfBounds),
    {
        match Self::new(input) {
            Some(v) => Ok(v),
            None => Err(ConversionError::OutOfBounds),
        }
    }

    /// Decodes a wire value: any integer member, or a double by its nearest
    /// integer, gives the percentage of its magnitude; a magnitude above 100 is
    /// out of bounds, and any other member has the wrong type.
    pub fn try_from(value: &WireValue) -> (decoded: Result<Self, ConversionError>)
        ensures
            decoded == Self::spec_try_from(*value),
            decoded matches Ok(p) ==> p@ == spec_abs(value.spec_integer().unwrap()),
    {
        match value.integer() {
            Some(n) => {
                let magnitude: i128 = if n < 0 {
                    -n
                } else {
                    n
                };
                if magnitude <= 100 {
                    Self::try_new_else_zvariant_error(magnitude as u8)
                } else {
                    Err(ConversionError::OutOfBounds)
                }
            },
            None => Err(ConversionError::IncorrectType(value.kind())),
        }
    }

    /// The number behind this percentage, by reference.
    pub fn as_ref(&self) -> (value: &u8)
        ensures
            *value as nat == self@,
            *value <= 100,
    {
        proof {
            use_type_invariant(self);
        }
        &self.0
    }

    /// The text of this percentage: its number in decimal, then a percent sign.
    pub fn to_string(&self) -> (text: String)
        ensures
            text@ == spec_percent_text(self@),
    {
        render_percent(self.get())
    }
}

impl Default for Percentage {
    fn default() -> (zero: Self)
        ensures
            zero@ == 0,
            zero == Percentage::spec_new(0),
    {
        Percentage(0)
    }
}

impl From<Percentage> for u8 {
    fn from(p: Percentage) -> (value: u8) {
        p.get()
    }
}

impl vstd::std_specs::convert::FromSpecImpl<Percentage> for u8 {
    open spec fn obeys_from_spec() -> bool {
        true
    }

    open spec fn from_spec(p: Percentage) -> u8 {
        p@ as u8
    }
}

/// The duration of a number of whole seconds, as `Duration::from_secs` makes
/// it.
pub uninterp spec fn spec_duration_from_secs(secs: u64) -> Duration;

/// `Duration::from_secs` makes the duration of that many whole seconds: its
/// result depends on the number alone.
pub assume_specification[ Duration::from_secs ](secs: u64) -> (d: Duration)
    ensures
        d == spec_duration_from_secs(secs),
;

/// A signed number of whole seconds, kept as a magnitude and a sign: the wire
/// carries a signed integer, a duration has no sign.
#[derive(Debug, Clone, Copy, PartialEq, Eq, Structural)]
pub struct IntSeconds {
    secs: u64,
    is_negative: bool,
}

impl View for IntSeconds {
    type V = int;

    closed spec fn view(&self) -> int {
        if self.is_negative {
            -(self.secs as int)
        } else {
            self.secs as int
        }
    }
}

impl IntSeconds {
    #[verifier::type_invariant]
    spec fn sign_has_magnitude(self) -> bool {
        self.is_negative ==> self.secs > 0
    }

    /// The given number of seconds. It is one for the numbers that a signed or
    /// an unsigned 64-bit integer can hold.
    pub closed spec fn spec_new(value: int) -> IntSeconds {
        IntSeconds { secs: spec_abs(value) as u64, is_negative: value < 0 }
    }

    /// The seconds made of a number within the 64-bit ranges have that number
    /// as their value.
    pub proof fn lemma_spec_new(value: int)
        requires
            i64::MIN <= value <= u64::MAX,
        ensures
            Self::spec_new(value)@ == value,
    {
    }

    /// The magnitude, in seconds.
    pub open spec fn spec_seconds(&self) -> nat {
        spec_abs(self@)
    }

    /// Whether the number of seconds is below zero.
    pub open spec fn spec_is_negative(&self) -> bool {
        self@ < 0
    }

    /// The magnitude as a duration.
    pub fn get(&self) -> (duration: Duration)
        ensures
            self.spec_seconds() <= u64::MAX,
            duration == spec_duration_from_secs(self.spec_seconds() as u64),
    {
        Duration::from_secs(self.secs)
    }

    /// The magnitude, in seconds.
    pub fn seconds(&self) -> (secs: u64)
        ensures
            secs as nat == self.spec_seconds(),
    {
        self.secs
    }

    /// Whether the number of seconds is below zero.
    #[verifier::when_used_as_spec(spec_is_negative)]
    pub fn is_negative(&self) -> (negative: bool)
        ensures
            negative == self.spec_is_negative(),
    {
        proof {
            use_type_invariant(self);
        }
        self.is_negative
    }

    /// From a signed number of seconds: the magnitude is its absolute value,
    /// the sign is its sign.
    pub fn new_from_signed(input: i64) -> (made: Self)
        ensures
            made == Self::spec_new(input as int),
            made@ == input,
            made.spec_seconds() == spec_abs(input as int),
            made.spec_is_negative() == (input < 0),
    {
        if input >= 0 {
            IntSeconds { secs: input as u64, is_negative: false }
        } else if input == i64::MIN {
            IntSeconds { secs: 0x8000_0000_0000_0000, is_negative: true }
        } else {
            IntSeconds { secs: (-input) as u64, is_negative: true }
        }
    }

    /// From an unsigned number of seconds, which is never negative.
    pub fn new_from_unsigned(input: u64) -> (made: Self)
        ensures
            made == Self::spec_new(input as int),
            made@ == input,
            made.spec_seconds() == input,
            !made.spec_is_negative(),
    {
        IntSeconds { secs: input, is_negative: false }
    }

    /// What a wire value decodes to as a number of seconds: the integer of
    /// an integer-like value.
    pub open spec fn spec_try_from(value: WireValue) -> Result<IntSeconds, ConversionError> {
        match value.spec_integer() {
            Some(n) => Ok(Self::spec_new(n)),
            None => Err(ConversionError::IncorrectType(value.kind())),
        }
    }

    /// Decodes a wire value: any integer member, or a double by its nearest
    /// integer, gives that many seconds; any other member has the wrong type.
    pub fn try_from(value: &WireValue) -> (decoded: Result<Self, ConversionError>)
        ensures
            decoded == Self::spec_try_from(*value),
            decoded matches Ok(s) ==> s@ == value.spec_integer().unwrap(),
    {
        match value.integer() {
            Some(n) => {
                if n < 0 {
                    Ok(Self::new_from_signed(n as i64))
                } else {
                    Ok(Self::new_from_unsigned(n as u64))
                }
            },
            None => Err(ConversionError::IncorrectType(value.kind())),
        }
    }
}

impl Default for IntSeconds {
    fn default() -> (zero: Self)
        ensures
            zero@ == 0,
            zero == IntSeconds::spec_new(0),
    {
        IntSeconds { secs: 0, is_negative: false }
    }
}

/// The sign and the magnitude of a number of seconds give the number back:
/// it is the magnitude, negated where the sign is negative.
pub proof fn lemma_seconds_from_parts(s: IntSeconds)
    ensures
        s@ == if s.spec_is_negative() {
            -(s.spec_seconds() as int)
        } else {
            s.spec_seconds() as int
        },
{
}

/// The state of a battery as the power service reports it.
#[derive(Debug, Clone, Copy, PartialEq, Eq, Structural)]
pub enum BatteryState {
    Unknown,
    Charging,
    Discharging,
    Empty,
    FullyCharged,
    PendingCharge,
    PendingDischarge,
}

impl BatteryState {
    /// The largest number that stands for a variant; the numbers run from 0.
    pub const MAX_REPR: u32 = 6;

    /// The number that stands for this variant on the wire.
    pub open spec fn spec_repr(self) -> u32 {
        match self {
            BatteryState::Unknown => 0,
            BatteryState::Charging => 1,
            BatteryState::Discharging => 2,
            BatteryState::Empty => 3,
            BatteryState::FullyCharged => 4,
            BatteryState::PendingCharge => 5,
            BatteryState::PendingDischarge => 6,
        }
    }

    /// The number that stands for this variant on the wire.
    #[verifier::when_used_as_spec(spec_repr)]
    pub fn repr(self) -> (n: u32)
        ensures
            n == self.spec_repr(),
            n <= 6,
    {
        match self {
            BatteryState::Unknown => 0,
            BatteryState::Charging => 1,
            BatteryState::Discharging => 2,
            BatteryState::Empty => 3,
            BatteryState::FullyCharged => 4,
            BatteryState::PendingCharge => 5,
            BatteryState::PendingDischarge => 6,
        }
    }

    /// The variant that a number stands for: `Some` exactly for the numbers
    /// from 0 to the largest that is declared.
    pub fn from_repr(n: u32) -> (variant: Option<Self>)
        ensures
            match variant {
                Some(v) => v.spec_repr() == n,
                None => n > 6,
            },
    {
        match n {
            0 => Some(BatteryState::Unknown),
            1 => Some(BatteryState::Charging),
            2 => Some(BatteryState::Discharging),
            3 => Some(BatteryState::Empty),
            4 => Some(BatteryState::FullyCharged),
            5 => Some(BatteryState::PendingCharge),
            6 => Some(BatteryState::PendingDischarge),
            _ => None,
        }
    }

    /// What a number decodes to: its variant, and `Unknown` for a number that
    /// stands for none.
    pub open spec fn spec_decode(n: u32) -> Self {
        match n {
            0 => BatteryState::Unknown,
            1 => BatteryState::Charging,
            2 => BatteryState::Discharging,
            3 => BatteryState::Empty,
            4 => BatteryState::FullyCharged,
            5 => BatteryState::PendingCharge,
            6 => BatteryState::PendingDischarge,
            _ => BatteryState::Unknown,
        }
    }

    /// What a wire value decodes to: the variant of an unsigned 32-bit
    /// number, carried as it is or inside one variant, and `Unknown` for
    /// every other value.
    pub open spec fn spec_from_wire(value: WireValue) -> Self {
        match value.as_u32() {
            Some(n) => Self::spec_decode(n),
            None => BatteryState::Unknown,
        }
    }

    /// Decodes a wire value. This never fails: a number that stands for no
    /// variant, or a value that is no unsigned 32-bit number, gives `Unknown`.
    pub fn from_wire(value: &WireValue) -> (variant: Self)
        ensures
            variant == Self::spec_from_wire(*value),
    {
        match value.as_u32() {
            Some(n) => match Self::from_repr(n) {
                Some(v) => v,
                None => BatteryState::Unknown,
            },
            None => BatteryState::Unknown,
        }
    }

    /// The canonical label of this variant.
    pub open spec fn spec_label(self) -> Seq<char> {
        match self {
            BatteryState::Unknown => "unknown"@,
            BatteryState::Charging => "charging"@,
            BatteryState::Discharging => "discharging"@,
            BatteryState::Empty => "empty"@,
            BatteryState::FullyCharged => "fully-charged"@,
            BatteryState::PendingCharge => "pending-charge"@,
            BatteryState::PendingDischarge => "pending-discharge"@,
        }
    }

    /// The canonical label of this variant.
    pub fn label(self) -> (text: &'static str)
        ensures
            text@ == self.spec_label(),
    {
        match self {
            BatteryState::Unknown => "unknown",
            BatteryState::Charging => "charging",
            BatteryState::Discharging => "discharging",
            BatteryState::Empty => "empty",
            BatteryState::FullyCharged => "fully-charged",
            BatteryState::PendingCharge => "pending-charge",
            BatteryState::PendingDischarge => "pending-discharge",
        }
    }

    /// The variant that a text names: the one whose label equals the text
    /// once ASCII case is disregarded, and `Unknown` where there is none.
    pub open spec fn spec_from_label(text: Seq<char>) -> Self {
        if spec_same_label(text, "charging"@) {
            BatteryState::Charging
        } else if spec_same_label(text, "discharging"@) {
            BatteryState::Discharging
        } else if spec_same_label(text, "empty"@) {
            BatteryState::Empty
        } else if spec_same_label(text, "fully-charged"@) {
            BatteryState::FullyCharged
        } else if spec_same_label(text, "pending-charge"@) {
            BatteryState::PendingCharge
        } else if spec_same_label(text, "pending-discharge"@) {
            BatteryState::PendingDischarge
        } else {
            BatteryState::Unknown
        }
    }

    /// The variant that a text names; `Unknown` for a text that names none.
    pub fn from_label(text: &str) -> (variant: Self)
        ensures
            variant == Self::spec_from_label(text@),
    {
        if same_label(text, "charging") {
            BatteryState::Charging
        } else if same_label(text, "discharging") {
            BatteryState::Discharging
        } else if same_label(text, "empty") {
            BatteryState::Empty
        } else if same_label(text, "fully-charged") {
            BatteryState::FullyCharged
        } else if same_label(text, "pending-charge") {
            BatteryState::PendingCharge
        } else if same_label(text, "pending-discharge") {
            BatteryState::PendingDischarge
        } else {
            BatteryState::Unknown
        }
    }

    /// Each number from 0 to the largest that is declared decodes to the
    /// variant that it stands for; every other number decodes to `Unknown`.
    pub proof fn lemma_decode_exact(n: u32)
        ensures
            n <= 6 ==> Self::spec_decode(n).spec_repr() == n,
            n > 6 ==> Self::spec_decode(n) == BatteryState::Unknown,
    {
    }

    /// Decoding the number of a variant gives the variant back.
    pub proof fn lemma_decode_of_repr(self)
        ensures
            Self::spec_decode(self.spec_repr()) == self,
            Self::spec_from_wire(WireValue::U32(self.spec_repr())) == self,
    {
    }

    /// The label of a variant names that variant, in whatever ASCII case it
    /// is written.
    pub proof fn lemma_label_names_variant(self, text: Seq<char>)
        requires
            spec_same_label(text, self.spec_label()),
        ensures
            Self::spec_from_label(text) == self,
    {
        reveal_strlit("unknown");
        reveal_strlit("charging");
        reveal_strlit("discharging");
        reveal_strlit("empty");
        reveal_strlit("fully-charged");
        reveal_strlit("pending-charge");
        reveal_strlit("pending-discharge");
        assert(spec_folded("unknown"@).len() == 7);
        assert(spec_folded("charging"@).len() == 8);
        assert(spec_folded("discharging"@).len() == 11);
        assert(spec_folded("empty"@).len() == 5);
        assert(spec_folded("fully-charged"@).len() == 13);
        assert(spec_folded("pending-charge"@).len() == 14);
        assert(spec_folded("pending-discharge"@).len() == 17);
    }
}

impl Default for BatteryState {
    fn default() -> (variant: Self)
        ensures
            variant == BatteryState::Unknown,
    {
        BatteryState::Unknown
    }
}

/// How urgently the power service warns about the charge that is left.
#[derive(Debug, Clone, Copy, PartialEq, Eq, Structural)]
pub enum WarningLevel {
    Unknown,
    /// The service warns of nothing; its label is `none`.
    NoWarning,
    /// Only for an uninterruptible power supply.
    Discharging,
    Low,
    Critical,
    /// The service is about to take its critical action.
    Action,
}

impl WarningLevel {
    /// The largest number that stands for a variant; the numbers run from 0.
    pub const MAX_REPR: u32 = 5;

    /// The number that stands for this variant on the wire.
    pub open spec fn spec_repr(self) -> u32 {
        match self {
            WarningLevel::Unknown => 0,
            WarningLevel::NoWarning => 1,
            WarningLevel::Discharging => 2,
            WarningLevel::Low => 3,
            WarningLevel::Critical => 4,
            WarningLevel::Action => 5,
        }
    }

    /// The number that stands for this variant on the wire.
    #[verifier::when_used_as_spec(spec_repr)]
    pub fn repr(self) -> (n: u32)
        ensures
            n == self.spec_repr(),
            n <= 5,
    {
        match self {
            WarningLevel::Unknown => 0,
            WarningLevel::NoWarning => 1,
            WarningLevel::Discharging => 2,
            WarningLevel::Low => 3,
            WarningLevel::Critical => 4,
            WarningLevel::Action => 5,
        }
    }

    /// The variant that a number stands for: `Some` exactly for the numbers
    /// from 0 to the largest that is declared.
    pub fn from_repr(n: u32) -> (variant: Option<Self>)
        ensures
            match variant {
                Some(v) => v.spec_repr() == n,
                None => n > 5,
            },
    {
        match n {
            0 => Some(WarningLevel::Unknown),
            1 => Some(WarningLevel::NoWarning),
            2 => Some(WarningLevel::Discharging),
            3 => Some(WarningLevel::Low),
            4 => Some(WarningLevel::Critical),
            5 => Some(WarningLevel::Action),
            _ => None,
        }
    }

    /// What a number decodes to: its variant, and `Unknown` for a number that
    /// stands for none.
    pub open spec fn spec_decode(n: u32) -> Self {
        match n {
            0 => WarningLevel::Unknown,
            1 => WarningLevel::NoWarning,
            2 => WarningLevel::Discharging,
            3 => WarningLevel::Low,
            4 => WarningLevel::Critical,
            5 => WarningLevel::Action,
            _ => WarningLevel::Unknown,
        }
    }

    /// What a wire value decodes to: the variant of an unsigned 32-bit
    /// number, carried as it is or inside one variant, and `Unknown` for
    /// every other value.
    pub open spec fn spec_from_wire(value: WireValue) -> Self {
        match value.as_u32() {
            Some(n) => Self::spec_decode(n),
            None => WarningLevel::Unknown,
        }
    }

    /// Decodes a wire value. This never fails: a number that stands for no
    /// variant, or a value that is no unsigned 32-bit number, gives `Unknown`.
    pub fn from_wire(value: &WireValue) -> (variant: Self)
        ensures
            variant == Self::spec_from_wire(*value),
    {
        match value.as_u32() {
            Some(n) => match Self::from_repr(n) {
                Some(v) => v,
                None => WarningLevel::Unknown,
            },
            None => WarningLevel::Unknown,
        }
    }

    /// The canonical label of this variant.
    pub open spec fn spec_label(self) -> Seq<char> {
        match self {
            WarningLevel::Unknown => "unknown"@,
            WarningLevel::NoWarning => "none"@,
            WarningLevel::Discharging => "discharging"@,
            WarningLevel::Low => "low"@,
            WarningLevel::Critical => "critical"@,
            WarningLevel::Action => "action"@,
        }
    }

    /// The canonical label of this variant.
    pub fn label(self) -> (text: &'static str)
        ensures
            text@ == self.spec_label(),
    {
        match self {
            WarningLevel::Unknown => "unknown",
            WarningLevel::NoWarning => "none",
            WarningLevel::Discharging => "discharging",
            WarningLevel::Low => "low",
            WarningLevel::Critical => "critical",
            WarningLevel::Action => "action",
        }
    }

    /// The variant that a text names: the one whose label equals the text
    /// once ASCII case is disregarded, and `Unknown` where there is none.
    pub open spec fn spec_from_label(text: Seq<char>) -> Self {
        if spec_same_label(text, "none"@) {
            WarningLevel::NoWarning
        } else if spec_same_label(text, "discharging"@) {
            WarningLevel::Discharging
        } else if spec_same_label(text, "low"@) {
            WarningLevel::Low
        } else if spec_same_label(text, "critical"@) {
            WarningLevel::Critical
        } else if spec_same_label(text, "action"@) {
            WarningLevel::Action
        } else {
            WarningLevel::Unknown
        }
    }

    /// The variant that a text names; `Unknown` for a text that names none.
    pub fn from_label(text: &str) -> (variant: Self)
        ensures
            variant == Self::spec_from_label(text@),
    {
        if same_label(text, "none") {
            WarningLevel::NoWarning
        } else if same_label(text, "discharging") {
            WarningLevel::Discharging
        } else if same_label(text, "low") {
            WarningLevel::Low
        } else if same_label(text, "critical") {
            WarningLevel::Critical
        } else if same_label(text, "action") {
            WarningLevel::Action
        } else {
            WarningLevel::Unknown
        }
    }

    /// Each number from 0 to the largest that is declared decodes to the
    /// variant that it stands for; every other number decodes to `Unknown`.
    pub proof fn lemma_decode_exact(n: u32)
        ensures
            n <= 5 ==> Self::spec_decode(n).spec_repr() == n,
            n > 5 ==> Self::spec_decode(n) == WarningLevel::Unknown,
    {
    }

    /// Decoding the number of a variant gives the variant back.
    pub proof fn lemma_decode_of_repr(self)
        ensures
            Self::spec_decode(self.spec_repr()) == self,
            Self::spec_from_wire(WireValue::U32(self.spec_repr())) == self,
    {
    }

    /// The label of a variant names that variant, in whatever ASCII case it
    /// is written.
    pub proof fn lemma_label_names_variant(self, text: Seq<char>)
        requires
            spec_same_label(text, self.spec_label()),
        ensures
            Self::spec_from_label(text) == self,
    {
        reveal_strlit("unknown");
        reveal_strlit("none");
        reveal_strlit("discharging");
        reveal_strlit("low");
        reveal_strlit("critical");
        reveal_strlit("action");
        assert(spec_folded("unknown"@).len() == 7);
        assert(spec_folded("none"@).len() == 4);
        assert(spec_folded("discharging"@).len() == 11);
        assert(spec_folded("low"@).len() == 3);
        assert(spec_folded("critical"@).len() == 8);
        assert(spec_folded("action"@).len() == 6);
    }
}

impl Default for WarningLevel {
    fn default() -> (variant: Self)
        ensures
            variant == WarningLevel::Unknown,
    {
        WarningLevel::Unknown
    }
}

/// The kind of device that a power source belongs to.
#[derive(Debug, Clone, Copy, PartialEq, Eq, Structural)]
pub enum DeviceType {
    Unknown,
    LinePower,
    /// A laptop battery only where the device is also a power supply;
    /// otherwise the battery of some other device.
    Battery,
    Ups,
    Monitor,
    Mouse,
    Keyboard,
    Pda,
    Phone,
    MediaPlayer,
    Tablet,
    Computer,
    GamingInput,
    Pen,
    Touchpad,
    Modem,
    Network,
    Headset,
    Speakers,
    Headphones,
    Video,
    OtherAudio,
    RemoteControl,
    Printer,
    Scanner,
    Camera,
    Wearable,
    Toy,
    BluetoothGeneric,
}

impl DeviceType {
    /// The largest number that stands for a variant; the numbers run from 0.
    pub const MAX_REPR: u32 = 28;

    /// The number that stands for this variant on the wire.
    pub open spec fn spec_repr(self) -> u32 {
        match self {
            DeviceType::Unknown => 0,
            DeviceType::LinePower => 1,
            DeviceType::Battery => 2,
            DeviceType::Ups => 3,
            DeviceType::Monitor => 4,
            DeviceType::Mouse => 5,
            DeviceType::Keyboard => 6,
            DeviceType::Pda => 7,
            DeviceType::Phone => 8,
            DeviceType::MediaPlayer => 9,
            DeviceType::Tablet => 10,
            DeviceType::Computer => 11,
            DeviceType::GamingInput => 12,
            DeviceType::Pen => 13,
            DeviceType::Touchpad => 14,
            DeviceType::Modem => 15,
            DeviceType::Network => 16,
            DeviceType::Headset => 17,
            DeviceType::Speakers => 18,
            DeviceType::Headphones => 19,
            DeviceType::Video => 20,
            DeviceType::OtherAudio => 21,
            DeviceType::RemoteControl => 22,
            DeviceType::Printer => 23,
            DeviceType::Scanner => 24,
            DeviceType::Camera => 25,
            DeviceType::Wearable => 26,
            DeviceType::Toy => 27,
            DeviceType::BluetoothGeneric => 28,
        }
    }

    /// The number that stands for this variant on the wire.
    #[verifier::when_used_as_spec(spec_repr)]
    pub fn repr(self) -> (n: u32)
        ensures
            n == self.spec_repr(),
            n <= 28,
    {
        match self {
            DeviceType::Unknown => 0,
            DeviceType::LinePower => 1,
            DeviceType::Battery => 2,
            DeviceType::Ups => 3,
            DeviceType::Monitor => 4,
            DeviceType::Mouse => 5,
            DeviceType::Keyboard => 6,
            DeviceType::Pda => 7,
            DeviceType::Phone => 8,
            DeviceType::MediaPlayer => 9,
            DeviceType::Tablet => 10,
            DeviceType::Computer => 11,
            DeviceType::GamingInput => 12,
            DeviceType::Pen => 13,
            DeviceType::Touchpad => 14,
            DeviceType::Modem => 15,
            DeviceType::Network => 16,
            DeviceType::Headset => 17,
            DeviceType::Speakers => 18,
            DeviceType::Headphones => 19,
            DeviceType::Video => 20,
            DeviceType::OtherAudio => 21,
            DeviceType::RemoteControl => 22,
            DeviceType::Printer => 23,
            DeviceType::Scanner => 24,
            DeviceType::Camera => 25,
            DeviceType::Wearable => 26,
            DeviceType::Toy => 27,
            DeviceType::BluetoothGeneric => 28,
        }
    }

    /// The variant that a number stands for: `Some` exactly for the numbers
    /// from 0 to the largest that is declared.
    pub fn from_repr(n: u32) -> (variant: Option<Self>)
        ensures
            match variant {
                Some(v) => v.spec_repr() == n,
                None => n > 28,
            },
    {
        match n {
            0 => Some(DeviceType::Unknown),
            1 => Some(DeviceType::LinePower),
            2 => Some(DeviceType::Battery),
            3 => Some(DeviceType::Ups),
            4 => Some(DeviceType::Monitor),
            5 => Some(DeviceType::Mouse),
            6 => Some(DeviceType::Keyboard),
            7 => Some(DeviceType::Pda),
            8 => Some(DeviceType::Phone),
            9 => Some(DeviceType::MediaPlayer),
            10 => Some(DeviceType::Tablet),
            11 => Some(DeviceType::Computer),
            12 => Some(DeviceType::GamingInput),
            13 => Some(DeviceType::Pen),
            14 => Some(DeviceType::Touchpad),
            15 => Some(DeviceType::Modem),
            16 => Some(DeviceType::Network),
            17 => Some(DeviceType::Headset),
            18 => Some(DeviceType::Speakers),
            19 => Some(DeviceType::Headphones),
            20 => Some(DeviceType::Video),
            21 => Some(DeviceType::OtherAudio),
            22 => Some(DeviceType::RemoteControl),
            23 => Some(DeviceType::Printer),
            24 => Some(DeviceType::Scanner),
            25 => Some(DeviceType::Camera),
            26 => Some(DeviceType::Wearable),
            27 => Some(DeviceType::Toy),
            28 => Some(DeviceType::BluetoothGeneric),
            _ => None,
        }
    }

    /// What a number decodes to: its variant, and `Unknown` for a number that
    /// stands for none.
    pub open spec fn spec_decode(n: u32) -> Self {
        match n {
            0 => DeviceType::Unknown,
            1 => DeviceType::LinePower,
            2 => DeviceType::Battery,
            3 => DeviceType::Ups,
            4 => DeviceType::Monitor,
            5 => DeviceType::Mouse,
            6 => DeviceType::Keyboard,
            7 => DeviceType::Pda,
            8 => DeviceType::Phone,
            9 => DeviceType::MediaPlayer,
            10 => DeviceType::Tablet,
            11 => DeviceType::Computer,
            12 => DeviceType::GamingInput,
            13 => DeviceType::Pen,
            14 => DeviceType::Touchpad,
            15 => DeviceType::Modem,
            16 => DeviceType::Network,
            17 => DeviceType::Headset,
            18 => DeviceType::Speakers,
            19 => DeviceType::Headphones,
            20 => DeviceType::Video,
            21 => DeviceType::OtherAudio,
            22 => DeviceType::RemoteControl,
            23 => DeviceType::Printer,
            24 => DeviceType::Scanner,
            25 => DeviceType::Camera,
            26 => DeviceType::Wearable,
            27 => DeviceType::Toy,
            28 => DeviceType::BluetoothGeneric,
            _ => DeviceType::Unknown,
        }
    }

    /// What a wire value decodes to: the variant of an unsigned 32-bit
    /// number, carried as it is or inside one variant, and `Unknown` for
    /// every other value.
    pub open spec fn spec_from_wire(value: WireValue) -> Self {
        match value.as_u32() {
            Some(n) => Self::spec_decode(n),
            None => DeviceType::Unknown,
        }
    }

    /// Decodes a wire value. This never fails: a number that stands for no
    /// variant, or a value that is no unsigned 32-bit number, gives `Unknown`.
    pub fn from_wire(value: &WireValue) -> (variant: Self)
        ensures
            variant == Self::spec_from_wire(*value),
    {
        match value.as_u32() {
            Some(n) => match Self::from_repr(n) {
                Some(v) => v,
                None => DeviceType::Unknown,
            },
            None => DeviceType::Unknown,
        }
    }

    /// The canonical label of this variant.
    pub open spec fn spec_label(self) -> Seq<char> {
        match self {
            DeviceType::Unknown => "unknown"@,
            DeviceType::LinePower => "line-power"@,
            DeviceType::Battery => "battery"@,
            DeviceType::Ups => "ups"@,
            DeviceType::Monitor => "monitor"@,
            DeviceType::Mouse => "mouse"@,
            DeviceType::Keyboard => "keyboard"@,
            DeviceType::Pda => "pda"@,
            DeviceType::Phone => "phone"@,
            DeviceType::MediaPlayer => "media-player"@,
            DeviceType::Tablet => "tablet"@,
            DeviceType::Computer => "computer"@,
            DeviceType::GamingInput => "gaming-input"@,
            DeviceType::Pen => "pen"@,
            DeviceType::Touchpad => "touchpad"@,
            DeviceType::Modem => "modem"@,
            DeviceType::Network => "network"@,
            DeviceType::Headset => "headset"@,
            DeviceType::Speakers => "speakers"@,
            DeviceType::Headphones => "headphones"@,
            DeviceType::Video => "video"@,
            DeviceType::OtherAudio => "other-audio"@,
            DeviceType::RemoteControl => "remote-control"@,
            DeviceType::Printer => "printer"@,
            DeviceType::Scanner => "scanner"@,
            DeviceType::Camera => "camera"@,
            DeviceType::Wearable => "wearable"@,
            DeviceType::Toy => "toy"@,
            DeviceType::BluetoothGeneric => "bluetooth-generic"@,
        }
    }

    /// The canonical label of this variant.
    pub fn label(self) -> (text: &'static str)
        ensures
            text@ == self.spec_label(),
    {
        match self {
            DeviceType::Unknown => "unknown",
            DeviceType::LinePower => "line-power",
            DeviceType::Battery => "battery",
            DeviceType::Ups => "ups",
            DeviceType::Monitor => "monitor",
            DeviceType::Mouse => "mouse",
            DeviceType::Keyboard => "keyboard",
            DeviceType::Pda => "pda",
            DeviceType::Phone => "phone",
            DeviceType::MediaPlayer => "media-player",
            DeviceType::Tablet => "tablet",
            DeviceType::Computer => "computer",
            DeviceType::GamingInput => "gaming-input",
            DeviceType::Pen => "pen",
            DeviceType::Touchpad => "touchpad",
            DeviceType::Modem => "modem",
            DeviceType::Network => "network",
            DeviceType::Headset => "headset",
            DeviceType::Speakers => "speakers",
            DeviceType::Headphones => "headphones",
            DeviceType::Video => "video",
            DeviceType::OtherAudio => "other-audio",
            DeviceType::RemoteControl => "remote-control",
            DeviceType::Printer => "printer",
            DeviceType::Scanner => "scanner",
            DeviceType::Camera => "camera",
            DeviceType::Wearable => "wearable",
            DeviceType::Toy => "toy",
            DeviceType::BluetoothGeneric => "bluetooth-generic",
        }
    }

    /// The variant that a text names: the one whose label equals the text
    /// once ASCII case is disregarded, and `Unknown` where there is none.
    pub open spec fn spec_from_label(text: Seq<char>) -> Self {
        if spec_same_label(text, "line-power"@) {
            DeviceType::LinePower
        } else if spec_same_label(text, "battery"@) {
            DeviceType::Battery
        } else if spec_same_label(text, "ups"@) {
            DeviceType::Ups
        } else if spec_same_label(text, "monitor"@) {
            DeviceType::Monitor
        } else if spec_same_label(text, "mouse"@) {
            DeviceType::Mouse
        } else if spec_same_label(text, "keyboard"@) {
            DeviceType::Keyboard
        } else if spec_same_label(text, "pda"@) {
            DeviceType::Pda
        } else if spec_same_label(text, "phone"@) {
            DeviceType::Phone
        } else if spec_same_label(text, "media-player"@) {
            DeviceType::MediaPlayer
        } else if spec_same_label(text, "tablet"@) {
            DeviceType::Tablet
        } else if spec_same_label(text, "computer"@) {
            DeviceType::Computer
        } else if spec_same_label(text, "gaming-input"@) {
            DeviceType::GamingInput
        } else if spec_same_label(text, "pen"@) {
            DeviceType::Pen
        } else if spec_same_label(text, "touchpad"@) {
            DeviceType::Touchpad
        } else if spec_same_label(text, "modem"@) {
            DeviceType::Modem
        } else if spec_same_label(text, "network"@) {
            DeviceType::Network
        } else if spec_same_label(text, "headset"@) {
            DeviceType::Headset
        } else if spec_same_label(text, "speakers"@) {
            DeviceType::Speakers
        } else if spec_same_label(text, "headphones"@) {
            DeviceType::Headphones
        } else if spec_same_label(text, "video"@) {
            DeviceType::Video
        } else if spec_same_label(text, "other-audio"@) {
            DeviceType::OtherAudio
        } else if spec_same_label(text, "remote-control"@) {
            DeviceType::RemoteControl
        } else if spec_same_label(text, "printer"@) {
            DeviceType::Printer
        } else if spec_same_label(text, "scanner"@) {
            DeviceType::Scanner
        } else if spec_same_label(text, "camera"@) {
            DeviceType::Camera
        } else if spec_same_label(text, "wearable"@) {
            DeviceType::Wearable
        } else if spec_same_label(text, "toy"@) {
            DeviceType::Toy
        } else if spec_same_label(text, "bluetooth-generic"@) {
            DeviceType::BluetoothGeneric
        } else {
            DeviceType::Unknown
        }
    }

    /// The variant that a text names; `Unknown` for a text that names none.
    pub fn from_label(text: &str) -> (variant: Self)
        ensures
            variant == Self::spec_from_label(text@),
    {
        if same_label(text, "line-power") {
            DeviceType::LinePower
        } else if same_label(text, "battery") {
            DeviceType::Battery
        } else if same_label(text, "ups") {
            DeviceType::Ups
        } else if same_label(text, "monitor") {
            DeviceType::Monitor
        } else if same_label(text, "mouse") {
            DeviceType::Mouse
        } else if same_label(text, "keyboard") {
            DeviceType::Keyboard
        } else if same_label(text, "pda") {
            DeviceType::Pda
        } else if same_label(text, "phone") {
            DeviceType::Phone
        } else if same_label(text, "media-player") {
            DeviceType::MediaPlayer
        } else if same_label(text, "tablet") {
            DeviceType::Tablet
        } else if same_label(text, "computer") {
            DeviceType::Computer
        } else if same_label(text, "gaming-input") {
            DeviceType::GamingInput
        } else if same_label(text, "pen") {
            DeviceType::Pen
        } else if same_label(text, "touchpad") {
            DeviceType::Touchpad
        } else if same_label(text, "modem") {
            DeviceType::Modem
        } else if same_label(text, "network") {
            DeviceType::Network
        } else if same_label(text, "headset") {
            DeviceType::Headset
        } else if same_label(text, "speakers") {
            DeviceType::Speakers
        } else if same_label(text, "headphones") {
            DeviceType::Headphones
        } else if same_label(text, "video") {
            DeviceType::Video
        } else if same_label(text, "other-audio") {
            DeviceType::OtherAudio
        } else if same_label(text, "remote-control") {
            DeviceType::RemoteControl
        } else if same_label(text, "printer") {
            DeviceType::Printer
        } else if same_label(text, "scanner") {
            DeviceType::Scanner
        } else if same_label(text, "camera") {
            DeviceType::Camera
        } else if same_label(text, "wearable") {
            DeviceType::Wearable
        } else if same_label(text, "toy") {
            DeviceType::Toy
        } else if same_label(text, "bluetooth-generic") {
            DeviceType::BluetoothGeneric
        } else {
            DeviceType::Unknown
        }
    }

    /// Each number from 0 to the largest that is declared decodes to the
    /// variant that it stands for; every other number decodes to `Unknown`.
    pub proof fn lemma_decode_exact(n: u32)
        ensures
            n <= 28 ==> Self::spec_decode(n).spec_repr() == n,
            n > 28 ==> Self::spec_decode(n) == DeviceType::Unknown,
    {
    }

    /// Decoding the number of a variant gives the variant back.
    pub proof fn lemma_decode_of_repr(self)
        ensures
            Self::spec_decode(self.spec_repr()) == self,
            Self::spec_from_wire(WireValue::U32(self.spec_repr())) == self,
    {
    }

    /// The label of a variant names that variant, in whatever ASCII case it
    /// is written.
    pub proof fn lemma_label_names_variant(self, text: Seq<char>)
        requires
            spec_same_label(text, self.spec_label()),
        ensures
            Self::spec_from_label(text) == self,
    {
        reveal_strlit("unknown");
        reveal_strlit("line-power");
        reveal_strlit("battery");
        reveal_strlit("ups");
        reveal_strlit("monitor");
        reveal_strlit("mouse");
        reveal_strlit("keyboard");
        reveal_strlit("pda");
        reveal_strlit("phone");
        reveal_strlit("media-player");
        reveal_strlit("tablet");
        reveal_strlit("computer");
        reveal_strlit("gaming-input");
        reveal_strlit("pen");
        reveal_strlit("touchpad");
        reveal_strlit("modem");
        reveal_strlit("network");
        reveal_strlit("headset");
        reveal_strlit("speakers");
        reveal_strlit("headphones");
        reveal_strlit("video");
        reveal_strlit("other-audio");
        reveal_strlit("remote-control");
        reveal_strlit("printer");
        reveal_strlit("scanner");
        reveal_strlit("camera");
        reveal_strlit("wearable");
        reveal_strlit("toy");
        reveal_strlit("bluetooth-generic");
        assert(spec_folded("unknown"@).len() == 7);
        assert(spec_folded("line-power"@).len() == 10);
        assert(spec_folded("battery"@).len() == 7);
        assert(spec_folded("ups"@).len() == 3);
        assert(spec_folded("monitor"@).len() == 7);
        assert(spec_folded("mouse"@).len() == 5);
        assert(spec_folded("keyboard"@).len() == 8);
        assert(spec_folded("pda"@).len() == 3);
        assert(spec_folded("phone"@).len() == 5);
        assert(spec_folded("media-player"@).len() == 12);
        assert(spec_folded("tablet"@).len() == 6);
        assert(spec_folded("computer"@).len() == 8);
        assert(spec_folded("gaming-input"@).len() == 12);
        assert(spec_folded("pen"@).len() == 3);
        assert(spec_folded("touchpad"@).len() == 8);
        assert(spec_folded("modem"@).len() == 5);
        assert(spec_folded("network"@).len() == 7);
        assert(spec_folded("headset"@).len() == 7);
        assert(spec_folded("speakers"@).len() == 8);
        assert(spec_folded("headphones"@).len() == 10);
        assert(spec_folded("video"@).len() == 5);
        assert(spec_folded("other-audio"@).len() == 11);
        assert(spec_folded("remote-control"@).len() == 14);
        assert(spec_folded("printer"@).len() == 7);
        assert(spec_folded("scanner"@).len() == 7);
        assert(spec_folded("camera"@).len() == 6);
        assert(spec_folded("wearable"@).len() == 8);
        assert(spec_folded("toy"@).len() == 3);
        assert(spec_folded("bluetooth-generic"@).len() == 17);
        assert(spec_folded("unknown"@)[0] == 'u');
        assert(spec_folded("battery"@)[0] == 'b');
        assert(spec_folded("monitor"@)[0] == 'm');
        assert(spec_folded("network"@)[0] == 'n');
        assert(spec_folded("headset"@)[0] == 'h');
        assert(spec_folded("printer"@)[0] == 'p');
        assert(spec_folded("scanner"@)[0] == 's');
        assert(spec_folded("line-power"@)[0] == 'l');
        assert(spec_folded("headphones"@)[0] == 'h');
        assert(spec_folded("ups"@)[0] == 'u');
        assert(spec_folded("pda"@)[0] == 'p');
        assert(spec_folded("pen"@)[0] == 'p');
        assert(spec_folded("toy"@)[0] == 't');
        assert(spec_folded("mouse"@)[0] == 'm');
        assert(spec_folded("phone"@)[0] == 'p');
        assert(spec_folded("mouse"@)[2] == 'u');
        assert(spec_folded("modem"@)[2] == 'd');
        assert(spec_folded("video"@)[0] == 'v');
        assert(spec_folded("keyboard"@)[0] == 'k');
        assert(spec_folded("computer"@)[0] == 'c');
        assert(spec_folded("touchpad"@)[0] == 't');
        assert(spec_folded("speakers"@)[0] == 's');
        assert(spec_folded("wearable"@)[0] == 'w');
        assert(spec_folded("pda"@)[1] == 'd');
        assert(spec_folded("pen"@)[1] == 'e');
        assert(spec_folded("modem"@)[0] == 'm');
        assert(spec_folded("media-player"@)[0] == 'm');
        assert(spec_folded("gaming-input"@)[0] == 'g');
        assert(spec_folded("tablet"@)[0] == 't');
        assert(spec_folded("camera"@)[0] == 'c');
    }
}

impl Default for DeviceType {
    fn default() -> (variant: Self)
        ensures
            variant == DeviceType::Unknown,
    {
        DeviceType::Unknown
    }
}

/// What the power service does when the charge becomes critical. The
/// service transports it as a string.
#[derive(Debug, Clone, Copy, PartialEq, Eq, Structural)]
pub enum CriticalAction {
    Unknown,
    HybridSleep,
    Hibernate,
    PowerOff,
}

impl CriticalAction {
    /// The canonical label of this variant.
    pub open spec fn spec_label(self) -> Seq<char> {
        match self {
            CriticalAction::Unknown => "unknown"@,
            CriticalAction::HybridSleep => "hybrid-sleep"@,
            CriticalAction::Hibernate => "hibernate"@,
            CriticalAction::PowerOff => "power-off"@,
        }
    }

    /// The canonical label of this variant.
    pub fn label(self) -> (text: &'static str)
        ensures
            text@ == self.spec_label(),
    {
        match self {
            CriticalAction::Unknown => "unknown",
            CriticalAction::HybridSleep => "hybrid-sleep",
            CriticalAction::Hibernate => "hibernate",
            CriticalAction::PowerOff => "power-off",
        }
    }

    /// The variant that a text names: the one whose label equals the text
    /// once ASCII case is disregarded, and `Unknown` where there is none.
    pub open spec fn spec_from_label(text: Seq<char>) -> Self {
        if spec_same_label(text, "hybrid-sleep"@) {
            CriticalAction::HybridSleep
        } else if spec_same_label(text, "hibernate"@) {
            CriticalAction::Hibernate
        } else if spec_same_label(text, "power-off"@) {
            CriticalAction::PowerOff
        } else {
            CriticalAction::Unknown
        }
    }

    /// The variant that a text names; `Unknown` for a text that names none.
    pub fn from_label(text: &str) -> (variant: Self)
        ensures
            variant == Self::spec_from_label(text@),
    {
        if same_label(text, "hybrid-sleep") {
            CriticalAction::HybridSleep
        } else if same_label(text, "hibernate") {
            CriticalAction::Hibernate
        } else if same_label(text, "power-off") {
            CriticalAction::PowerOff
        } else {
            CriticalAction::Unknown
        }
    }

    /// What a wire value decodes to: the variant that a string names; any
    /// other value has the wrong type.
    pub open spec fn spec_try_from(value: WireValue) -> Result<Self, ConversionError> {
        match value {
            WireValue::Str(text) => Ok(Self::spec_from_label(text@)),
            _ => Err(ConversionError::IncorrectType(value.kind())),
        }
    }

    /// Decodes a wire value: a string gives the variant that it names,
    /// `Unknown` where it names none; any other value has the wrong type.
    pub fn try_from(value: &WireValue) -> (decoded: Result<Self, ConversionError>)
        ensures
            decoded == Self::spec_try_from(*value),
    {
        match value {
            WireValue::Str(text) => Ok(Self::from_label(text.as_str())),
            _ => Err(ConversionError::IncorrectType(value.kind())),
        }
    }

    /// The label of a variant names that variant, in whatever ASCII case it
    /// is written.
    pub proof fn lemma_label_names_variant(self, text: Seq<char>)
        requires
            spec_same_label(text, self.spec_label()),
        ensures
            Self::spec_from_label(text) == self,
    {
        reveal_strlit("unknown");
        reveal_strlit("hybrid-sleep");
        reveal_strlit("hibernate");
        reveal_strlit("power-off");
        assert(spec_folded("unknown"@).len() == 7);
        assert(spec_folded("hybrid-sleep"@).len() == 12);
        assert(spec_folded("hibernate"@).len() == 9);
        assert(spec_folded("power-off"@).len() == 9);
        assert(spec_folded("hibernate"@)[0] == 'h');
        assert(spec_folded("power-off"@)[0] == 'p');
    }
}

impl Default for CriticalAction {
    fn default() -> (variant: Self)
        ensures
            variant == CriticalAction::Unknown,
    {
        CriticalAction::Unknown
    }
}

} // verus!
