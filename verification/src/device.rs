//! Devices and the rule by which two of them count as the same.

use crate::number::Number;
use vstd::prelude::*;
use vstd::std_specs::cmp::PartialEqSpecImpl;

verus! {

/// A display colour: red, green, blue.
#[derive(Clone, Copy, Debug, PartialEq, Eq, Structural)]
pub struct Rgb(pub u8, pub u8, pub u8);

/// The average power that a device draws, in watts and in kilowatts.
#[derive(Clone, Copy, Debug)]
pub struct Wattage {
    pub watts: Number,
    pub kilowatts: Number,
}

impl Wattage {
    /// Both quantities are the same values in the two.
    pub open spec fn same_power(self, other: Wattage) -> bool {
        self.watts.same_value(other.watts) && self.kilowatts.same_value(other.kilowatts)
    }

    /// A power given in both units.
    pub fn from_parts(watts: Number, kilowatts: Number) -> (wattage: Self)
        ensures
            wattage.watts == watts,
            wattage.kilowatts == kilowatts,
    {
        Wattage { watts, kilowatts }
    }
}

impl PartialEq for Wattage {
    fn eq(&self, other: &Self) -> (equal: bool) {
        self.watts == other.watts && self.kilowatts == other.kilowatts
    }
}

impl PartialEqSpecImpl for Wattage {
    open spec fn obeys_eq_spec() -> bool {
        true
    }

    open spec fn eq_spec(&self, other: &Self) -> bool {
        self.same_power(*other)
    }
}

/// One appliance: what it costs to buy, what it draws, what electricity
/// costs where it runs, and how it is shown.
#[derive(Debug)]
pub struct Device {
    /// Purchase price.
    pub initial_cost: Number,
    pub average_wattage: Wattage,
    /// Kilowatt hours that one unit of currency buys.
    pub electricity_rate: Number,
    pub color: Rgb,
    pub name: String,
}

/// A device with its name as a sequence of characters.
pub struct DeviceView {
    pub initial_cost: Number,
    pub average_wattage: Wattage,
    pub electricity_rate: Number,
    pub color: Rgb,
    pub name: Seq<char>,
}

impl DeviceView {
    /// The two devices have the same economics: purchase price, power and
    /// electricity rate are the same values. Colour and name play no part.
    pub open spec fn same_economics(self, other: DeviceView) -> bool {
        &&& self.initial_cost.same_value(other.initial_cost)
        &&& self.average_wattage.same_power(other.average_wattage)
        &&& self.electricity_rate.same_value(other.electricity_rate)
    }

    /// Some device of the list has the same economics as this one.
    pub open spec fn duplicated_in(self, devices: Seq<DeviceView>) -> bool {
        exists|i: int| 0 <= i < devices.len() && (#[trigger] devices[i]).same_economics(self)
    }
}

impl View for Device {
    type V = DeviceView;

    open spec fn view(&self) -> DeviceView {
        DeviceView {
            initial_cost: self.initial_cost,
            average_wattage: self.average_wattage,
            electricity_rate: self.electricity_rate,
            color: self.color,
            name: self.name@,
        }
    }
}

/// The devices of a list, each as its view, in the list's order.
pub open spec fn views(devices: Seq<Device>) -> Seq<DeviceView> {
    devices.map_values(|device: Device| device@)
}

/// No two devices at different places of the list have the same economics.
pub open spec fn distinct(devices: Seq<DeviceView>) -> bool {
    forall|i: int, j: int|
        0 <= i < devices.len() && 0 <= j < devices.len() && i != j ==> !(#[trigger] devices[i]).same_economics(
            #[trigger] devices[j],
        )
}

impl Clone for Device {
    fn clone(&self) -> (copy: Self)
        ensures
            copy == *self,
    {
        Device {
            initial_cost: self.initial_cost,
            average_wattage: self.average_wattage,
            electricity_rate: self.electricity_rate,
            color: self.color,
            name: self.name.clone(),
        }
    }
}

impl PartialEq for Device {
    fn eq(&self, other: &Self) -> (equal: bool) {
        self.initial_cost == other.initial_cost && self.average_wattage == other.average_wattage
            && self.electricity_rate == other.electricity_rate
    }
}

impl PartialEqSpecImpl for Device {
    open spec fn obeys_eq_spec() -> bool {
        true
    }

    open spec fn eq_spec(&self, other: &Self) -> bool {
        self@.same_economics(other@)
    }
}

impl Device {
    /// A device from its five parts.
    pub fn new(
        initial_cost: Number,
        average_wattage: Wattage,
        electricity_rate: Number,
        color: Rgb,
        name: String,
    ) -> (device: Self)
        ensures
            device.initial_cost == initial_cost,
            device.average_wattage == average_wattage,
            device.electricity_rate == electricity_rate,
            device.color == color,
            device.name == name,
    {
        Device { initial_cost, average_wattage, electricity_rate, color, name }
    }

    /// Whether two devices count as the same depends on their economics
    /// alone: giving either another colour or another name changes nothing.
    pub proof fn lemma_equality_ignores_name_and_color(
        a: DeviceView,
        b: DeviceView,
        color: Rgb,
        name: Seq<char>,
    )
        ensures
            (DeviceView { color, name, ..a }).same_economics(b) == a.same_economics(b),
            a.same_economics(DeviceView { color, name, ..b }) == a.same_economics(b),
    {
    }

    /// Two devices with the same purchase price, power and rate, none of
    /// them not a number, count as the same whatever their colours and
    /// names.
    pub proof fn lemma_identical_economics_are_equal(a: DeviceView, b: DeviceView)
        requires
            a.initial_cost == b.initial_cost,
            a.average_wattage == b.average_wattage,
            a.electricity_rate == b.electricity_rate,
            !a.initial_cost.is_nan(),
            !a.average_wattage.watts.is_nan(),
            !a.average_wattage.kilowatts.is_nan(),
            !a.electricity_rate.is_nan(),
        ensures
            a.same_economics(b),
            b.same_economics(a),
    {
    }
}

} // verus!
