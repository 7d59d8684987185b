//! Battery and power status of a gamepad, and its flattened record.

use vstd::prelude::*;

verus! {

/// Power status as the gamepad layer reports it.
#[derive(Clone, Copy, Debug, PartialEq, Eq, Structural)]
pub enum PowerInfo {
    /// The status could not be determined.
    Unknown,
    /// The device has no battery.
    Wired,
    /// Running on battery, with the charge in percent.
    Discharging(u8),
    /// Battery is charging, with the charge in percent.
    Charging(u8),
    /// Battery is full.
    Charged,
}

/// Mathematical content of a [`PowerInfoWrapper`].
pub struct PowerInfoRecord {
    pub status: Seq<char>,
    pub value: u8,
}

/// The tag that names a power status.
pub open spec fn power_tag(info: PowerInfo) -> Seq<char> {
    match info {
        PowerInfo::Unknown => "unknown"@,
        PowerInfo::Wired => "wired"@,
        PowerInfo::Discharging(_) => "discharging"@,
        PowerInfo::Charging(_) => "charging"@,
        PowerInfo::Charged => "charged"@,
    }
}

/// The charge level a power status carries; statuses without one give zero.
pub open spec fn power_level(info: PowerInfo) -> u8 {
    match info {
        PowerInfo::Discharging(level) => level,
        PowerInfo::Charging(level) => level,
        _ => 0,
    }
}

/// The record that flattening a power status yields.
pub open spec fn flatten_power(info: PowerInfo) -> PowerInfoRecord {
    PowerInfoRecord { status: power_tag(info), value: power_level(info) }
}

/// Flattened power status: a tag and a charge level.
pub struct PowerInfoWrapper {
    pub status: String,
    pub value: u8,
}

impl View for PowerInfoWrapper {
    type V = PowerInfoRecord;

    open spec fn view(&self) -> PowerInfoRecord {
        PowerInfoRecord { status: self.status@, value: self.value }
    }
}

impl PowerInfoWrapper {
    /// The status tag.
    pub fn status(&self) -> (tag: &str)
        ensures
            tag@ == self@.status,
    {
        self.status.as_str()
    }

    /// The charge level.
    pub fn value(&self) -> (level: u8)
        ensures
            level == self@.value,
    {
        self.value
    }

    /// Flattens a power status into its tag and level.
    pub fn from(incomming: PowerInfo) -> (flat: PowerInfoWrapper)
        ensures
            flat@ == flatten_power(incomming),
    {
        match incomming {
            PowerInfo::Unknown => PowerInfoWrapper { status: "unknown".to_owned(), value: 0 },
            PowerInfo::Wired => PowerInfoWrapper { status: "wired".to_owned(), value: 0 },
            PowerInfo::Discharging(value) => PowerInfoWrapper {
                status: "discharging".to_owned(),
                value,
            },
            PowerInfo::Charging(value) => PowerInfoWrapper {
                status: "charging".to_owned(),
                value,
            },
            PowerInfo::Charged => PowerInfoWrapper { status: "charged".to_owned(), value: 0 },
        }
    }
}

/// Two power statuses with the same tag are the same variant, and a status
/// is recovered from its flattened record: flattening loses nothing.
pub proof fn lemma_power_flattening_injective(a: PowerInfo, b: PowerInfo)
    requires
        flatten_power(a) == flatten_power(b),
    ensures
        a == b,
{
    reveal_strlit("unknown");
    reveal_strlit("wired");
    reveal_strlit("discharging");
    reveal_strlit("charging");
    reveal_strlit("charged");
    assert(power_tag(a).len() == power_tag(b).len());
    assert(power_tag(a)[0] == power_tag(b)[0]);
}

} // verus!
