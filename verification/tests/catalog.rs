use fems_exporter::catalog::{modbus_metrics, ModbusType};

#[test]
fn catalog_has_every_metric_in_order() {
    let catalog = modbus_metrics();
    assert_eq!(catalog.len(), 32);
    assert_eq!(catalog[0].name, "fems_state");
    assert_eq!(catalog[0].address, 222);
    assert_eq!(catalog[0].value_type, ModbusType::U16);
    assert!(catalog[0].labels.is_empty());
    assert_eq!(catalog[1].name, "fems_grid_mode");
    assert_eq!(catalog[1].address, 417);
    assert_eq!(catalog[3].name, "fems_ess_power_watts_total");
    assert_eq!(catalog[3].address, 303);
    assert_eq!(catalog[3].value_type, ModbusType::F32);
    assert_eq!(catalog[31].name, "fems_consumption_energy_watthours");
    assert_eq!(catalog[31].address, 379);
    assert_eq!(catalog[31].value_type, ModbusType::F64);
}

#[test]
fn catalog_labels_keep_their_declared_order() {
    let catalog = modbus_metrics();
    let d = &catalog[15];
    assert_eq!(d.name, "fems_production_power_watts");
    assert_eq!(d.address, 403);
    assert_eq!(d.labels.len(), 2);
    assert_eq!(d.labels[0].key, "type");
    assert_eq!(d.labels[0].value, "ac");
    assert_eq!(d.labels[1].key, "phase");
    assert_eq!(d.labels[1].value, "l1");
    let e = &catalog[4];
    assert_eq!(e.labels.len(), 1);
    assert_eq!(e.labels[0].key, "phase");
    assert_eq!(e.labels[0].value, "l1");
}

#[test]
fn catalog_types_come_in_three_runs() {
    let catalog = modbus_metrics();
    for (i, d) in catalog.iter().enumerate() {
        let expected = if i < 3 {
            ModbusType::U16
        } else if i < 22 {
            ModbusType::F32
        } else {
            ModbusType::F64
        };
        assert_eq!(d.value_type, expected);
    }
}
