//! The power supplies of the machine and what they say of the battery.

use crate::text::{
    chars_of, parse_number, parsed_number, same_text, slice_text, string_of, trim, trimmed,
};
use vstd::prelude::*;

verus! {

/// The kinds of power supply.
#[derive(PartialEq, Eq, Debug, Clone, Copy, Structural)]
pub enum PowerSupplyType {
    AC,
    Battery,
    Other,
}

/// One power supply and what it reports.
#[derive(Debug)]
pub struct PowerSupplyInfo {
    pub name: String,
    pub ty: PowerSupplyType,
    /// The energy that a battery holds now.
    pub energy_now: Option<u64>,
    /// The energy that a battery holds when it is full.
    pub energy_full: Option<u64>,
    /// Whether a mains adapter delivers power.
    pub online: Option<bool>,
}

/// The power supplies of the machine.
#[derive(Debug)]
pub struct PowerInfo {
    power_supplies: Vec<PowerSupplyInfo>,
}

/// The charge of the batteries as a fraction: the energy they hold out of
/// the energy they hold when full.
#[derive(Debug, Clone, Copy, PartialEq, Eq, Structural)]
pub struct Usage {
    pub now: u128,
    pub full: u128,
}

/// The kind of power supply that a name stands for.
pub open spec fn supply_named(ty: Seq<char>) -> Option<PowerSupplyType> {
    if ty == "Mains"@ {
        Some(PowerSupplyType::AC)
    } else if ty == "Battery"@ {
        Some(PowerSupplyType::Battery)
    } else if ty == "USB"@ {
        Some(PowerSupplyType::Other)
    } else {
        None
    }
}

/// The number that a reading holds, where there is a reading and it holds
/// one that is not above `max`: the decimal form of the number, with white
/// space around it.
pub open spec fn reading(text: Option<Seq<char>>, max: nat) -> Option<nat> {
    match text {
        Some(text) => parsed_number(trimmed(text), max),
        None => None,
    }
}

/// The energy that the batteries among `s` report: what they hold now, or
/// what they hold when full. A battery that does not say counts as nothing.
pub open spec fn battery_energy(s: Seq<PowerSupplyInfo>, full: bool) -> nat
    decreases s.len(),
{
    if s.len() == 0 {
        0
    } else {
        let reading = if full {
            s.last().energy_full
        } else {
            s.last().energy_now
        };
        battery_energy(s.drop_last(), full) + (if s.last().ty == PowerSupplyType::Battery
            && reading is Some {
            reading.unwrap() as nat
        } else {
            0
        })
    }
}

/// Every battery among `s` reports both readings.
pub open spec fn readings_complete(s: Seq<PowerSupplyInfo>) -> bool {
    forall|i: int|
        0 <= i < s.len() && (#[trigger] s[i]).ty == PowerSupplyType::Battery ==> s[i].energy_now
            is Some && s[i].energy_full is Some
}

/// The charge of the batteries among `s`: known where every battery reports
/// both readings and together they can hold something.
pub open spec fn usage_of(s: Seq<PowerSupplyInfo>) -> Option<Usage> {
    if readings_complete(s) && 0 < battery_energy(s, true) <= u128::MAX && battery_energy(s, false)
        <= u128::MAX {
        Some(
            Usage { now: battery_energy(s, false) as u128, full: battery_energy(s, true) as u128 },
        )
    } else {
        None
    }
}

/// A mains adapter among `s` delivers power.
pub open spec fn charging_of(s: Seq<PowerSupplyInfo>) -> bool {
    exists|i: int|
        0 <= i < s.len() && (#[trigger] s[i]).ty == PowerSupplyType::AC && s[i].online == Some(true)
}

/// There is a battery among `s`.
pub open spec fn has_batteries_of(s: Seq<PowerSupplyInfo>) -> bool {
    exists|i: int| 0 <= i < s.len() && (#[trigger] s[i]).ty == PowerSupplyType::Battery
}

/// The readings of as many batteries as a list can hold sum up to less than
/// the largest `u128`.
pub proof fn lemma_battery_energy_bound(s: Seq<PowerSupplyInfo>, full: bool)
    ensures
        battery_energy(s, full) <= s.len() * u64::MAX,
    decreases s.len(),
{
    if s.len() > 0 {
        lemma_battery_energy_bound(s.drop_last(), full);
        assert((s.len() - 1) * u64::MAX + u64::MAX == s.len() * u64::MAX) by (nonlinear_arith);
    }
}

impl PowerSupplyType {
    /// The kind of power supply that `ty` names, where it names one.
    pub fn parse(ty: &str) -> (r: Option<PowerSupplyType>)
        ensures
            r == supply_named(ty@),
    {
        let ty = chars_of(ty);
        if same_text(&ty, &chars_of("Mains")) {
            Some(PowerSupplyType::AC)
        } else if same_text(&ty, &chars_of("Battery")) {
            Some(PowerSupplyType::Battery)
        } else if same_text(&ty, &chars_of("USB")) {
            Some(PowerSupplyType::Other)
        } else {
            None
        }
    }

    /// The kind of power supply that `ty` names.
    pub fn from_str(ty: &str) -> (r: PowerSupplyType)
        requires
            supply_named(ty@) is Some,
        ensures
            Some(r) == supply_named(ty@),
    {
        match PowerSupplyType::parse(ty) {
            Some(ty) => ty,
            None => PowerSupplyType::Other,
        }
    }
}

/// The number that a reading holds.
fn read_number(text: Option<&str>, max: u64) -> (r: Option<u64>)
    ensures
        r matches Some(n) ==> reading(slice_text(text), max as nat) == Some(n as nat),
        r is None ==> reading(slice_text(text), max as nat) is None,
{
    match text {
        Some(text) => parse_number(&trim(&chars_of(text)), max),
        None => None,
    }
}

impl PowerSupplyInfo {
    /// The power supply that the readings describe: its kind from `ty`, the
    /// energy readings as numbers, and `online` as whether its number is
    /// not zero. There is none where `ty` names no kind of power supply; a
    /// reading that is missing or holds no number is no reading.
    pub fn from_readings(
        name: &str,
        ty: &str,
        energy_now: Option<&str>,
        energy_full: Option<&str>,
        online: Option<&str>,
    ) -> (r: Option<PowerSupplyInfo>)
        ensures
            r is Some == supply_named(trimmed(ty@)) is Some,
            r matches Some(p) ==> {
                &&& p.name@ == name@
                &&& Some(p.ty) == supply_named(trimmed(ty@))
                &&& p.energy_now is Some == reading(
                    slice_text(energy_now),
                    u64::MAX as nat,
                ) is Some
                &&& p.energy_now matches Some(n) ==> reading(
                    slice_text(energy_now),
                    u64::MAX as nat,
                ) == Some(n as nat)
                &&& p.energy_full is Some == reading(
                    slice_text(energy_full),
                    u64::MAX as nat,
                ) is Some
                &&& p.energy_full matches Some(n) ==> reading(
                    slice_text(energy_full),
                    u64::MAX as nat,
                ) == Some(n as nat)
                &&& p.online is Some == reading(slice_text(online), 255) is Some
                &&& p.online matches Some(b) ==> b == (reading(
                    slice_text(online),
                    255,
                ).unwrap() != 0)
            },
    {
        let kind = trim(&chars_of(ty));
        let kind = string_of(&kind);
        match PowerSupplyType::parse(kind.as_str()) {
            Some(ty) => {
                let online = match read_number(online, 255) {
                    Some(n) => Some(n != 0),
                    None => None,
                };
                Some(
                    PowerSupplyInfo {
                        name: string_of(&chars_of(name)),
                        ty,
                        energy_now: read_number(energy_now, u64::MAX),
                        energy_full: read_number(energy_full, u64::MAX),
                        online,
                    },
                )
            },
            None => None,
        }
    }
}

impl View for PowerInfo {
    type V = Seq<PowerSupplyInfo>;

    closed spec fn view(&self) -> Seq<PowerSupplyInfo> {
        self.power_supplies@
    }
}

impl PowerInfo {
    /// The power supplies in the order given.
    pub fn new(power_supplies: Vec<PowerSupplyInfo>) -> (info: PowerInfo)
        ensures
            info@ == power_supplies@,
    {
        PowerInfo { power_supplies }
    }

    /// The charge of the batteries: what they hold out of what they hold
    /// when full. Unknown where a battery lacks a reading and where the
    /// batteries cannot hold anything.
    pub fn battery_usage(&self) -> (r: Option<Usage>)
        ensures
            r == usage_of(self@),
            r matches Some(u) ==> u.full > 0,
    {
        let mut total_now: u128 = 0;
        let mut total_full: u128 = 0;
        let mut i: usize = 0;
        while i < self.power_supplies.len()
            invariant
                i <= self.power_supplies.len(),
                total_now == battery_energy(self@.take(i as int), false),
                total_full == battery_energy(self@.take(i as int), true),
                readings_complete(self@.take(i as int)),
            decreases self.power_supplies.len() - i,
        {
            let supply = &self.power_supplies[i];
            proof {
                assert(self@.take(i + 1).drop_last() =~= self@.take(i as int));
                lemma_battery_energy_bound(self@.take(i + 1), false);
                lemma_battery_energy_bound(self@.take(i + 1), true);
                assert((i + 1) * u64::MAX <= u128::MAX) by (nonlinear_arith)
                    requires
                        i + 1 <= usize::MAX,
                ;
            }
            if supply.ty == PowerSupplyType::Battery {
                match (supply.energy_now, supply.energy_full) {
                    (Some(now), Some(full)) => {
                        total_now += now as u128;
                        total_full += full as u128;
                    },
                    _ => {
                        assert(!readings_complete(self@)) by {
                            assert(self@[i as int].ty == PowerSupplyType::Battery);
                        }
                        return None;
                    },
                }
            }
            assert(readings_complete(self@.take(i + 1))) by {
                assert forall|k: int|
                    0 <= k < i + 1 && (#[trigger] self@.take(i + 1)[k]).ty
                        == PowerSupplyType::Battery implies self@.take(i + 1)[k].energy_now
                    is Some && self@.take(i + 1)[k].energy_full is Some by {
                    if k < i {
                        assert(self@.take(i as int)[k] == self@.take(i + 1)[k]);
                    }
                }
            }
            i += 1;
        }
        proof {
            assert(self@.take(i as int) =~= self@);
        }
        if total_full > 0 {
            Some(Usage { now: total_now, full: total_full })
        } else {
            None
        }
    }

    /// Whether a mains adapter delivers power.
    pub fn charging(&self) -> (r: bool)
        ensures
            r == charging_of(self@),
    {
        let mut i: usize = 0;
        while i < self.power_supplies.len()
            invariant
                i <= self.power_supplies.len(),
                forall|k: int|
                    0 <= k < i ==> !((#[trigger] self@[k]).ty == PowerSupplyType::AC
                        && self@[k].online == Some(true)),
            decreases self.power_supplies.len() - i,
        {
            let supply = &self.power_supplies[i];
            if supply.ty == PowerSupplyType::AC {
                match supply.online {
                    Some(true) => {
                        return true;
                    },
                    _ => {},
                }
            }
            i += 1;
        }
        false
    }

    /// Whether the machine has a battery.
    pub fn has_batteries(&self) -> (r: bool)
        ensures
            r == has_batteries_of(self@),
    {
        let mut i: usize = 0;
        while i < self.power_supplies.len()
            invariant
                i <= self.power_supplies.len(),
                forall|k: int| 0 <= k < i ==> (#[trigger] self@[k]).ty != PowerSupplyType::Battery,
            decreases self.power_supplies.len() - i,
        {
            if self.power_supplies[i].ty == PowerSupplyType::Battery {
                return true;
            }
            i += 1;
        }
        false
    }
}

} // verus!
