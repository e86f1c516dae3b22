use fems_exporter::catalog::{Label, MetricDescriptor, ModbusType};
use fems_exporter::text::{
    connect_failure, format_line, read_failure, render_label, render_labels, render_u16,
};

fn label(key: &str, value: &str) -> Label {
    Label { key: key.to_string(), value: value.to_string() }
}

#[test]
fn u16_renders_as_plain_digits() {
    assert_eq!(render_u16(0), "0");
    assert_eq!(render_u16(3), "3");
    assert_eq!(render_u16(9), "9");
    assert_eq!(render_u16(10), "10");
    assert_eq!(render_u16(100), "100");
    assert_eq!(render_u16(1234), "1234");
    assert_eq!(render_u16(65535), "65535");
}

#[test]
fn u16_renders_as_std_does() {
    for value in 0..=u16::MAX {
        assert_eq!(render_u16(value), value.to_string());
    }
}

#[test]
fn label_has_spaces_round_the_equals_sign() {
    assert_eq!(render_label("phase", "l1"), "phase = \"l1\"");
    assert_eq!(render_label("", ""), " = \"\"");
}

#[test]
fn own_labels_are_each_followed_by_a_separator() {
    assert_eq!(render_labels(&vec![]), "");
    assert_eq!(render_labels(&vec![label("phase", "l1")]), "phase = \"l1\", ");
    assert_eq!(
        render_labels(&vec![label("type", "ac"), label("phase", "l2")]),
        "type = \"ac\", phase = \"l2\", "
    );
}

#[test]
fn descriptor_labels_precede_the_device_label() {
    let descriptor = MetricDescriptor {
        name: "fems_ess_power_watts".to_string(),
        labels: vec![label("phase", "l1")],
        address: 391,
        value_type: ModbusType::F32,
    };
    assert_eq!(
        format_line(&descriptor, "d", "1.5"),
        "fems_ess_power_watts{phase = \"l1\", fems_id = \"d\"} 1.5\n"
    );
}

#[test]
fn line_without_own_labels() {
    let descriptor = MetricDescriptor {
        name: "fems_state".to_string(),
        labels: vec![],
        address: 222,
        value_type: ModbusType::U16,
    };
    assert_eq!(format_line(&descriptor, "plant-1", "3"), "fems_state{fems_id = \"plant-1\"} 3\n");
}

#[test]
fn line_with_two_own_labels() {
    let descriptor = MetricDescriptor {
        name: "fems_production_power_watts".to_string(),
        labels: vec![label("type", "ac"), label("phase", "l3")],
        address: 407,
        value_type: ModbusType::F32,
    };
    assert_eq!(
        format_line(&descriptor, "x", "-12.25"),
        "fems_production_power_watts{type = \"ac\", phase = \"l3\", fems_id = \"x\"} -12.25\n"
    );
}

#[test]
fn failure_messages_name_the_operation() {
    assert_eq!(
        connect_failure("127.0.0.1:502", "Connection refused (os error 111)"),
        "unable to connect to fems modbus at 127.0.0.1:502: Connection refused (os error 111)"
    );
    assert_eq!(
        read_failure("timed out"),
        "unable to read modbus input register: timed out"
    );
}
