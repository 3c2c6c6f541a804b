//! What the sensor-acquisition boards measure: units and channel types.
use vstd::prelude::*;
use vstd::string::StringExecFns;
use crate::codec::{same_text, Variant};

verus! {

/// Every unit that a reading is tagged with.
#[derive(Clone, Copy, Debug, PartialEq, Eq, Hash, Structural)]
pub enum Unit {
    /// Current, in amperes.
    Amps,
    /// Pressure, in pounds per square inch.
    Psi,
    /// Temperature, in kelvin.
    Kelvin,
    /// Force, in pounds.
    Pounds,
    /// Electrical potential, in volts.
    Volts,
}

impl Unit {
    /// The unit's short legend, as displays show it.
    pub open spec fn spec_legend(&self) -> Seq<char> {
        match self {
            Unit::Amps => "Amps"@,
            Unit::Psi => "psi"@,
            Unit::Kelvin => "K"@,
            Unit::Pounds => "lbf"@,
            Unit::Volts => "Volts"@,
        }
    }

    /// The unit's short legend, as displays show it.
    pub fn to_string(&self) -> (r: String)
        ensures
            r@ == self.spec_legend(),
    {
        let s = match self {
            Unit::Amps => "Amps",
            Unit::Psi => "psi",
            Unit::Kelvin => "K",
            Unit::Pounds => "lbf",
            Unit::Volts => "Volts",
        };
        String::from_str(s)
    }
}

impl Variant for Unit {
    open spec fn spec_name(&self) -> Seq<char> {
        match self {
            Unit::Amps => "amps"@,
            Unit::Psi => "psi"@,
            Unit::Kelvin => "kelvin"@,
            Unit::Pounds => "pounds"@,
            Unit::Volts => "volts"@,
        }
    }

    open spec fn spec_index(&self) -> u32 {
        match self {
            Unit::Amps => 0,
            Unit::Psi => 1,
            Unit::Kelvin => 2,
            Unit::Pounds => 3,
            Unit::Volts => 4,
        }
    }

    open spec fn spec_from_name(name: Seq<char>) -> Option<Unit> {
        if name == "amps"@ {
            Some(Unit::Amps)
        } else if name == "psi"@ {
            Some(Unit::Psi)
        } else if name == "kelvin"@ {
            Some(Unit::Kelvin)
        } else if name == "pounds"@ {
            Some(Unit::Pounds)
        } else if name == "volts"@ {
            Some(Unit::Volts)
        } else {
            None
        }
    }

    open spec fn spec_from_index(index: u32) -> Option<Unit> {
        if index == 0 {
            Some(Unit::Amps)
        } else if index == 1 {
            Some(Unit::Psi)
        } else if index == 2 {
            Some(Unit::Kelvin)
        } else if index == 3 {
            Some(Unit::Pounds)
        } else if index == 4 {
            Some(Unit::Volts)
        } else {
            None
        }
    }

    proof fn lemma_variant(&self) {
        reveal_strlit("amps");
        reveal_strlit("psi");
        reveal_strlit("kelvin");
        reveal_strlit("pounds");
        reveal_strlit("volts");
        assert("amps"@.len() != "psi"@.len());
        assert("amps"@.len() != "kelvin"@.len());
        assert("amps"@.len() != "pounds"@.len());
        assert("amps"@.len() != "volts"@.len());
        assert("psi"@.len() != "kelvin"@.len());
        assert("psi"@.len() != "pounds"@.len());
        assert("psi"@.len() != "volts"@.len());
        assert("kelvin"@[0] != "pounds"@[0]);
        assert("kelvin"@.len() != "volts"@.len());
        assert("pounds"@.len() != "volts"@.len());
    }

    fn name(&self) -> (r: &'static str) {
        match self {
            Unit::Amps => "amps",
            Unit::Psi => "psi",
            Unit::Kelvin => "kelvin",
            Unit::Pounds => "pounds",
            Unit::Volts => "volts",
        }
    }

    fn index(&self) -> (r: u32) {
        match self {
            Unit::Amps => 0,
            Unit::Psi => 1,
            Unit::Kelvin => 2,
            Unit::Pounds => 3,
            Unit::Volts => 4,
        }
    }

    fn from_name(name: &str) -> (r: Option<Unit>) {
        if same_text(name, "amps") {
            Some(Unit::Amps)
        } else if same_text(name, "psi") {
            Some(Unit::Psi)
        } else if same_text(name, "kelvin") {
            Some(Unit::Kelvin)
        } else if same_text(name, "pounds") {
            Some(Unit::Pounds)
        } else if same_text(name, "volts") {
            Some(Unit::Volts)
        } else {
            None
        }
    }

    fn from_index(index: u32) -> (r: Option<Unit>) {
        if index == 0 {
            Some(Unit::Amps)
        } else if index == 1 {
            Some(Unit::Psi)
        } else if index == 2 {
            Some(Unit::Kelvin)
        } else if index == 3 {
            Some(Unit::Pounds)
        } else if index == 4 {
            Some(Unit::Volts)
        } else {
            None
        }
    }
}

/// Every kind of channel that a sensor-acquisition board exposes.
#[derive(Clone, Copy, Debug, PartialEq, Eq, Hash, Structural)]
pub enum ChannelType {
    /// Pressure transducer, formerly known as current loop, which measures the
    /// pressure of a fluid.
    CurrentLoop,
    /// The voltage on a pin connected to a valve.
    ValveVoltage,
    /// The current through a pin connected to a valve.
    ValveCurrent,
    /// The voltage on the board's power rail.
    RailVoltage,
    /// The current through the board's power rail.
    RailCurrent,
    /// The signal of a load cell, carried by a differential pair.
    DifferentialSignal,
    /// A resistance thermometer, measuring temperature.
    Rtd,
    /// A thermocouple, measuring temperature.
    Tc,
}

impl Variant for ChannelType {
    open spec fn spec_name(&self) -> Seq<char> {
        match self {
            ChannelType::CurrentLoop => "current_loop"@,
            ChannelType::ValveVoltage => "valve_voltage"@,
            ChannelType::ValveCurrent => "valve_current"@,
            ChannelType::RailVoltage => "rail_voltage"@,
            ChannelType::RailCurrent => "rail_current"@,
            ChannelType::DifferentialSignal => "differential_signal"@,
            ChannelType::Rtd => "rtd"@,
            ChannelType::Tc => "tc"@,
        }
    }

    open spec fn spec_index(&self) -> u32 {
        match self {
            ChannelType::CurrentLoop => 0,
            ChannelType::ValveVoltage => 1,
            ChannelType::ValveCurrent => 2,
            ChannelType::RailVoltage => 3,
            ChannelType::RailCurrent => 4,
            ChannelType::DifferentialSignal => 5,
            ChannelType::Rtd => 6,
            ChannelType::Tc => 7,
        }
    }

    open spec fn spec_from_name(name: Seq<char>) -> Option<ChannelType> {
        if name == "current_loop"@ {
            Some(ChannelType::CurrentLoop)
        } else if name == "valve_voltage"@ {
            Some(ChannelType::ValveVoltage)
        } else if name == "valve_current"@ {
            Some(ChannelType::ValveCurrent)
        } else if name == "rail_voltage"@ {
            Some(ChannelType::RailVoltage)
        } else if name == "rail_current"@ {
            Some(ChannelType::RailCurrent)
        } else if name == "differential_signal"@ {
            Some(ChannelType::DifferentialSignal)
        } else if name == "rtd"@ {
            Some(ChannelType::Rtd)
        } else if name == "tc"@ {
            Some(ChannelType::Tc)
        } else {
            None
        }
    }

    open spec fn spec_from_index(index: u32) -> Option<ChannelType> {
        if index == 0 {
            Some(ChannelType::CurrentLoop)
        } else if index == 1 {
            Some(ChannelType::ValveVoltage)
        } else if index == 2 {
            Some(ChannelType::ValveCurrent)
        } else if index == 3 {
            Some(ChannelType::RailVoltage)
        } else if index == 4 {
            Some(ChannelType::RailCurrent)
        } else if index == 5 {
            Some(ChannelType::DifferentialSignal)
        } else if index == 6 {
            Some(ChannelType::Rtd)
        } else if index == 7 {
            Some(ChannelType::Tc)
        } else {
            None
        }
    }

    proof fn lemma_variant(&self) {
        reveal_strlit("current_loop");
        reveal_strlit("valve_voltage");
        reveal_strlit("valve_current");
        reveal_strlit("rail_voltage");
        reveal_strlit("rail_current");
        reveal_strlit("differential_signal");
        reveal_strlit("rtd");
        reveal_strlit("tc");
        assert("current_loop"@.len() != "valve_voltage"@.len());
        assert("current_loop"@.len() != "valve_current"@.len());
        assert("current_loop"@[0] != "rail_voltage"@[0]);
        assert("current_loop"@[0] != "rail_current"@[0]);
        assert("current_loop"@.len() != "differential_signal"@.len());
        assert("current_loop"@.len() != "rtd"@.len());
        assert("current_loop"@.len() != "tc"@.len());
        assert("valve_voltage"@[6] != "valve_current"@[6]);
        assert("valve_voltage"@.len() != "rail_voltage"@.len());
        assert("valve_voltage"@.len() != "rail_current"@.len());
        assert("valve_voltage"@.len() != "differential_signal"@.len());
        assert("valve_voltage"@.len() != "rtd"@.len());
        assert("valve_voltage"@.len() != "tc"@.len());
        assert("valve_current"@.len() != "rail_voltage"@.len());
        assert("valve_current"@.len() != "rail_current"@.len());
        assert("valve_current"@.len() != "differential_signal"@.len());
        assert("valve_current"@.len() != "rtd"@.len());
        assert("valve_current"@.len() != "tc"@.len());
        assert("rail_voltage"@[5] != "rail_current"@[5]);
        assert("rail_voltage"@.len() != "differential_signal"@.len());
        assert("rail_voltage"@.len() != "rtd"@.len());
        assert("rail_voltage"@.len() != "tc"@.len());
        assert("rail_current"@.len() != "differential_signal"@.len());
        assert("rail_current"@.len() != "rtd"@.len());
        assert("rail_current"@.len() != "tc"@.len());
        assert("differential_signal"@.len() != "rtd"@.len());
        assert("differential_signal"@.len() != "tc"@.len());
        assert("rtd"@.len() != "tc"@.len());
    }

    fn name(&self) -> (r: &'static str) {
        match self {
            ChannelType::CurrentLoop => "current_loop",
            ChannelType::ValveVoltage => "valve_voltage",
            ChannelType::ValveCurrent => "valve_current",
            ChannelType::RailVoltage => "rail_voltage",
            ChannelType::RailCurrent => "rail_current",
            ChannelType::DifferentialSignal => "differential_signal",
            ChannelType::Rtd => "rtd",
            ChannelType::Tc => "tc",
        }
    }

    fn index(&self) -> (r: u32) {
        match self {
            ChannelType::CurrentLoop => 0,
            ChannelType::ValveVoltage => 1,
            ChannelType::ValveCurrent => 2,
            ChannelType::RailVoltage => 3,
            ChannelType::RailCurrent => 4,
            ChannelType::DifferentialSignal => 5,
            ChannelType::Rtd => 6,
            ChannelType::Tc => 7,
        }
    }

    fn from_name(name: &str) -> (r: Option<ChannelType>) {
        if same_text(name, "current_loop") {
            Some(ChannelType::CurrentLoop)
        } else if same_text(name, "valve_voltage") {
            Some(ChannelType::ValveVoltage)
        } else if same_text(name, "valve_current") {
            Some(ChannelType::ValveCurrent)
        } else if same_text(name, "rail_voltage") {
            Some(ChannelType::RailVoltage)
        } else if same_text(name, "rail_current") {
            Some(ChannelType::RailCurrent)
        } else if same_text(name, "differential_signal") {
            Some(ChannelType::DifferentialSignal)
        } else if same_text(name, "rtd") {
            Some(ChannelType::Rtd)
        } else if same_text(name, "tc") {
            Some(ChannelType::Tc)
        } else {
            None
        }
    }

    fn from_index(index: u32) -> (r: Option<ChannelType>) {
        if index == 0 {
            Some(ChannelType::CurrentLoop)
        } else if index == 1 {
            Some(ChannelType::ValveVoltage)
        } else if index == 2 {
            Some(ChannelType::ValveCurrent)
        } else if index == 3 {
            Some(ChannelType::RailVoltage)
        } else if index == 4 {
            Some(ChannelType::RailCurrent)
        } else if index == 5 {
            Some(ChannelType::DifferentialSignal)
        } else if index == 6 {
            Some(ChannelType::Rtd)
        } else if index == 7 {
            Some(ChannelType::Tc)
        } else {
            None
        }
    }
}

} // verus!
