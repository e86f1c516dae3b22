//! The register catalog: which metrics a device offers, and where.

use vstd::prelude::*;
use vstd::string::*;

verus! {

/// How a metric is laid out in the device's input registers.
#[derive(Clone, Copy, Debug, PartialEq, Eq, Structural)]
pub enum ModbusType {
    U16,
    F32,
    F64,
}

impl ModbusType {
    /// The number of consecutive registers that a value of this type takes.
    pub open spec fn word_count(self) -> nat {
        match self {
            ModbusType::U16 => 1,
            ModbusType::F32 => 2,
            ModbusType::F64 => 4,
        }
    }

    /// The number of consecutive registers that a value of this type takes.
    pub fn register_count(&self) -> (count: u16)
        ensures
            count as nat == self.word_count(),
    {
        match self {
            ModbusType::U16 => 1,
            ModbusType::F32 => 2,
            ModbusType::F64 => 4,
        }
    }
}

/// One fixed label of a metric.
pub struct Label {
    pub key: String,
    pub value: String,
}

/// What a label says.
pub ghost struct LabelText {
    pub key: Seq<char>,
    pub value: Seq<char>,
}

impl View for Label {
    type V = LabelText;

    open spec fn view(&self) -> LabelText {
        LabelText { key: self.key@, value: self.value@ }
    }
}

/// What a run of labels says, in order.
pub open spec fn labels_view(labels: Seq<Label>) -> Seq<LabelText> {
    Seq::new(labels.len(), |i: int| labels[i]@)
}

/// One metric of the device: its name, its own labels, the first of the
/// consecutive input registers that hold it, and how they are laid out.
pub struct MetricDescriptor {
    pub name: String,
    pub labels: Vec<Label>,
    pub address: u16,
    pub value_type: ModbusType,
}

/// What a descriptor says.
pub ghost struct DescriptorText {
    pub name: Seq<char>,
    pub labels: Seq<LabelText>,
    pub address: u16,
    pub value_type: ModbusType,
}

impl View for MetricDescriptor {
    type V = DescriptorText;

    open spec fn view(&self) -> DescriptorText {
        DescriptorText {
            name: self.name@,
            labels: labels_view(self.labels@),
            address: self.address,
            value_type: self.value_type,
        }
    }
}

/// What a catalog says, in order.
pub open spec fn catalog_view(catalog: Seq<MetricDescriptor>) -> Seq<DescriptorText> {
    Seq::new(catalog.len(), |i: int| catalog[i]@)
}

/// A label in the abstract.
pub open spec fn tag(key: &str, value: &str) -> LabelText {
    LabelText { key: key@, value: value@ }
}

/// No labels.
pub open spec fn no_tags() -> Seq<LabelText> {
    Seq::empty()
}

/// A descriptor in the abstract.
pub open spec fn entry(
    name: &str,
    labels: Seq<LabelText>,
    address: u16,
    value_type: ModbusType,
) -> DescriptorText {
    DescriptorText { name: name@, labels, address, value_type }
}

/// The metrics of the device, in the order in which they are reported.
pub open spec fn modbus_metrics_text() -> Seq<DescriptorText> {
    seq![
        entry("fems_state", no_tags(), 222, ModbusType::U16),
        entry("fems_grid_mode", no_tags(), 417, ModbusType::U16),
        entry("fems_ess_soc_percent", no_tags(), 302, ModbusType::U16),
        entry("fems_ess_power_watts_total", no_tags(), 303, ModbusType::F32),
        entry("fems_ess_power_watts", no_tags().push(tag("phase", "l1")), 391, ModbusType::F32),
        entry("fems_ess_power_watts", no_tags().push(tag("phase", "l2")), 393, ModbusType::F32),
        entry("fems_ess_power_watts", no_tags().push(tag("phase", "l3")), 395, ModbusType::F32),
        entry("fems_ess_discharge_power_watts_total", no_tags(), 415, ModbusType::F32),
        entry("fems_ess_reactive_power_voltampere", no_tags(), 309, ModbusType::F32),
        entry("fems_grid_power_watts_total", no_tags(), 315, ModbusType::F32),
        entry("fems_grid_power_watts", no_tags().push(tag("phase", "l1")), 397, ModbusType::F32),
        entry("fems_grid_power_watts", no_tags().push(tag("phase", "l2")), 399, ModbusType::F32),
        entry("fems_grid_power_watts", no_tags().push(tag("phase", "l3")), 401, ModbusType::F32),
        entry("fems_production_power_watts_total", no_tags(), 327, ModbusType::F32),
        entry("fems_production_power_watts", no_tags().push(tag("type", "dc")), 339, ModbusType::F32),
        entry("fems_production_power_watts", no_tags().push(tag("type", "ac")).push(tag("phase", "l1")), 403, ModbusType::F32),
        entry("fems_production_power_watts", no_tags().push(tag("type", "ac")).push(tag("phase", "l2")), 405, ModbusType::F32),
        entry("fems_production_power_watts", no_tags().push(tag("type", "ac")).push(tag("phase", "l3")), 407, ModbusType::F32),
        entry("fems_consumption_power_watts_total", no_tags(), 343, ModbusType::F32),
        entry("fems_consumption_power_watts", no_tags().push(tag("phase", "l3")), 409, ModbusType::F32),
        entry("fems_consumption_power_watts", no_tags().push(tag("phase", "l3")), 411, ModbusType::F32),
        entry("fems_consumption_power_watts", no_tags().push(tag("phase", "l3")), 413, ModbusType::F32),
        entry("fems_ess_charge_energy_watthours", no_tags(), 351, ModbusType::F64),
        entry("fems_ess_discharge_energy_watthours", no_tags(), 355, ModbusType::F64),
        entry("fems_ess_dc_charge_energy_watthours", no_tags(), 383, ModbusType::F64),
        entry("fems_ess_dc_discharge_energy_watthours", no_tags(), 387, ModbusType::F64),
        entry("fems_grid_buy_energy_watthours", no_tags(), 359, ModbusType::F64),
        entry("fems_grid_sell_energy_watthours", no_tags(), 363, ModbusType::F64),
        entry("fems_production_energy_watthours_total", no_tags(), 367, ModbusType::F64),
        entry("fems_production_energy_watthours", no_tags().push(tag("type", "ac")), 371, ModbusType::F64),
        entry("fems_production_energy_watthours", no_tags().push(tag("type", "dc")), 375, ModbusType::F64),
        entry("fems_consumption_energy_watthours", no_tags(), 379, ModbusType::F64),
    ]
}

fn no_labels() -> (labels: Vec<Label>)
    ensures
        labels_view(labels@) == no_tags(),
{
    let labels: Vec<Label> = Vec::new();
    assert(labels_view(labels@) =~= no_tags());
    labels
}

fn with_label(labels: Vec<Label>, key: &str, value: &str) -> (longer: Vec<Label>)
    ensures
        labels_view(longer@) == labels_view(labels@).push(tag(key, value)),
{
    let mut longer = labels;
    longer.push(Label { key: String::from_str(key), value: String::from_str(value) });
    assert(labels_view(longer@) =~= labels_view(labels@).push(tag(key, value)));
    longer
}

fn metric(name: &str, labels: Vec<Label>, address: u16, value_type: ModbusType) -> (descriptor:
    MetricDescriptor)
    ensures
        descriptor@ == entry(name, labels_view(labels@), address, value_type),
{
    MetricDescriptor { name: String::from_str(name), labels, address, value_type }
}

/// The catalog of the device: every metric with its labels, its first register
/// and its layout, in the order in which they are reported.
pub fn modbus_metrics() -> (catalog: Vec<MetricDescriptor>)
    ensures
        catalog_view(catalog@) == modbus_metrics_text(),
        catalog@.len() == modbus_metrics_text().len(),
{
    let mut catalog: Vec<MetricDescriptor> = Vec::new();
    catalog.push(metric("fems_state", no_labels(), 222, ModbusType::U16));
    catalog.push(metric("fems_grid_mode", no_labels(), 417, ModbusType::U16));
    catalog.push(metric("fems_ess_soc_percent", no_labels(), 302, ModbusType::U16));
    catalog.push(metric("fems_ess_power_watts_total", no_labels(), 303, ModbusType::F32));
    catalog.push(metric("fems_ess_power_watts", with_label(no_labels(), "phase", "l1"), 391, ModbusType::F32));
    catalog.push(metric("fems_ess_power_watts", with_label(no_labels(), "phase", "l2"), 393, ModbusType::F32));
    catalog.push(metric("fems_ess_power_watts", with_label(no_labels(), "phase", "l3"), 395, ModbusType::F32));
    catalog.push(metric("fems_ess_discharge_power_watts_total", no_labels(), 415, ModbusType::F32));
    catalog.push(metric("fems_ess_reactive_power_voltampere", no_labels(), 309, ModbusType::F32));
    catalog.push(metric("fems_grid_power_watts_total", no_labels(), 315, ModbusType::F32));
    catalog.push(metric("fems_grid_power_watts", with_label(no_labels(), "phase", "l1"), 397, ModbusType::F32));
    catalog.push(metric("fems_grid_power_watts", with_label(no_labels(), "phase", "l2"), 399, ModbusType::F32));
    catalog.push(metric("fems_grid_power_watts", with_label(no_labels(), "phase", "l3"), 401, ModbusType::F32));
    catalog.push(metric("fems_production_power_watts_total", no_labels(), 327, ModbusType::F32));
    catalog.push(metric("fems_production_power_watts", with_label(no_labels(), "type", "dc"), 339, ModbusType::F32));
    catalog.push(metric("fems_production_power_watts", with_label(with_label(no_labels(), "type", "ac"), "phase", "l1"), 403, ModbusType::F32));
    catalog.push(metric("fems_production_power_watts", with_label(with_label(no_labels(), "type", "ac"), "phase", "l2"), 405, ModbusType::F32));
    catalog.push(metric("fems_production_power_watts", with_label(with_label(no_labels(), "type", "ac"), "phase", "l3"), 407, ModbusType::F32));
    catalog.push(metric("fems_consumption_power_watts_total", no_labels(), 343, ModbusType::F32));
    catalog.push(metric("fems_consumption_power_watts", with_label(no_labels(), "phase", "l3"), 409, ModbusType::F32));
    catalog.push(metric("fems_consumption_power_watts", with_label(no_labels(), "phase", "l3"), 411, ModbusType::F32));
    catalog.push(metric("fems_consumption_power_watts", with_label(no_labels(), "phase", "l3"), 413, ModbusType::F32));
    catalog.push(metric("fems_ess_charge_energy_watthours", no_labels(), 351, ModbusType::F64));
    catalog.push(metric("fems_ess_discharge_energy_watthours", no_labels(), 355, ModbusType::F64));
    catalog.push(metric("fems_ess_dc_charge_energy_watthours", no_labels(), 383, ModbusType::F64));
    catalog.push(metric("fems_ess_dc_discharge_energy_watthours", no_labels(), 387, ModbusType::F64));
    catalog.push(metric("fems_grid_buy_energy_watthours", no_labels(), 359, ModbusType::F64));
    catalog.push(metric("fems_grid_sell_energy_watthours", no_labels(), 363, ModbusType::F64));
    catalog.push(metric("fems_production_energy_watthours_total", no_labels(), 367, ModbusType::F64));
    catalog.push(metric("fems_production_energy_watthours", with_label(no_labels(), "type", "ac"), 371, ModbusType::F64));
    catalog.push(metric("fems_production_energy_watthours", with_label(no_labels(), "type", "dc"), 375, ModbusType::F64));
    catalog.push(metric("fems_consumption_energy_watthours", no_labels(), 379, ModbusType::F64));
    assert(catalog_view(catalog@) =~= modbus_metrics_text());
    catalog
}

} // verus!
