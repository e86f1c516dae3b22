//! Rendering of exposition lines and of failure messages.

use vstd::prelude::*;
use vstd::string::*;
use crate::catalog::{DescriptorText, Label, LabelText, MetricDescriptor, labels_view};

verus! {

/// The character of a decimal digit.
pub open spec fn digit_char(digit: nat) -> char {
    if digit == 0 {
        '0'
    } else if digit == 1 {
        '1'
    } else if digit == 2 {
        '2'
    } else if digit == 3 {
        '3'
    } else if digit == 4 {
        '4'
    } else if digit == 5 {
        '5'
    } else if digit == 6 {
        '6'
    } else if digit == 7 {
        '7'
    } else if digit == 8 {
        '8'
    } else {
        '9'
    }
}

/// A natural number in decimal, without sign, padding or leading zeros.
pub open spec fn decimal_text(n: nat) -> Seq<char>
    decreases n,
{
    if n < 10 {
        seq![digit_char(n)]
    } else {
        decimal_text(n / 10).push(digit_char(n % 10))
    }
}

/// One label: the key, ` = `, and the value in double quotes.
pub open spec fn label_text(label: LabelText) -> Seq<char> {
    label.key + seq![' ', '=', ' ', '"'] + label.value + seq!['"']
}

/// A descriptor's own labels in declared order, each followed by `, `.
pub open spec fn labels_text(labels: Seq<LabelText>) -> Seq<char>
    decreases labels.len(),
{
    if labels.len() == 0 {
        Seq::empty()
    } else {
        labels_text(labels.drop_last()) + label_text(labels.last()) + seq![',', ' ']
    }
}

/// The label that names the device.
pub open spec fn device_label(device: Seq<char>) -> LabelText {
    LabelText { key: seq!['f', 'e', 'm', 's', '_', 'i', 'd'], value: device }
}

/// One exposition line: the metric's name, in braces its own labels followed by
/// the device label, a space, the value and a line feed.
pub open spec fn line_text(descriptor: DescriptorText, device: Seq<char>, value: Seq<char>) -> Seq<
    char,
> {
    descriptor.name + seq!['{'] + labels_text(descriptor.labels) + label_text(device_label(device))
        + seq!['}', ' '] + value + seq!['\n']
}

/// The lines of a catalog in catalog order, the i-th with the i-th value.
pub open spec fn report_text(
    catalog: Seq<DescriptorText>,
    device: Seq<char>,
    values: Seq<Seq<char>>,
) -> Seq<char>
    recommends
        values.len() == catalog.len(),
    decreases catalog.len(),
{
    if catalog.len() == 0 {
        Seq::empty()
    } else {
        report_text(catalog.drop_last(), device, values.drop_last()) + line_text(
            catalog.last(),
            device,
            values.last(),
        )
    }
}

/// The message for a session that could not be opened.
pub open spec fn connect_failure_text(address: Seq<char>, cause: Seq<char>) -> Seq<char> {
    "unable to connect to fems modbus at "@ + address + seq![':', ' '] + cause
}

/// The message for a register read that failed.
pub open spec fn read_failure_text(cause: Seq<char>) -> Seq<char> {
    "unable to read modbus input register: "@ + cause
}

/// A report grows by one line when the catalog prefix grows by one descriptor.
pub proof fn lemma_report_grows(
    catalog: Seq<DescriptorText>,
    device: Seq<char>,
    values: Seq<Seq<char>>,
    value: Seq<char>,
)
    requires
        values.len() < catalog.len(),
    ensures
        report_text(catalog.take(values.len() as int + 1), device, values.push(value)) == report_text(
            catalog.take(values.len() as int),
            device,
            values,
        ) + line_text(catalog[values.len() as int], device, value),
{
    let n = values.len() as int;
    assert(catalog.take(n + 1).drop_last() =~= catalog.take(n));
    assert(values.push(value).drop_last() =~= values);
}

fn digit_str(digit: u16) -> (s: &'static str)
    requires
        digit < 10,
    ensures
        s@ == seq![digit_char(digit as nat)],
{
    proof {
        reveal_strlit("0");
        reveal_strlit("1");
        reveal_strlit("2");
        reveal_strlit("3");
        reveal_strlit("4");
        reveal_strlit("5");
        reveal_strlit("6");
        reveal_strlit("7");
        reveal_strlit("8");
        reveal_strlit("9");
    }
    let s = if digit == 0 {
        "0"
    } else if digit == 1 {
        "1"
    } else if digit == 2 {
        "2"
    } else if digit == 3 {
        "3"
    } else if digit == 4 {
        "4"
    } else if digit == 5 {
        "5"
    } else if digit == 6 {
        "6"
    } else if digit == 7 {
        "7"
    } else if digit == 8 {
        "8"
    } else {
        "9"
    };
    assert(s@ =~= seq![digit_char(digit as nat)]);
    s
}

/// Renders an unsigned 16-bit value as plain decimal digits.
pub fn render_u16(value: u16) -> (text: String)
    ensures
        text@ == decimal_text(value as nat),
    decreases value,
{
    if value < 10 {
        String::from_str(digit_str(value))
    } else {
        let mut text = render_u16(value / 10);
        text.append(digit_str(value % 10));
        assert(text@ =~= decimal_text(value as nat));
        text
    }
}

/// Renders one label.
pub fn render_label(key: &str, value: &str) -> (text: String)
    ensures
        text@ == label_text(LabelText { key: key@, value: value@ }),
{
    proof {
        reveal_strlit(" = \"");
        reveal_strlit("\"");
    }
    let mut text = String::from_str(key);
    text.append(" = \"");
    text.append(value);
    text.append("\"");
    assert(" = \""@ =~= seq![' ', '=', ' ', '"']);
    assert("\""@ =~= seq!['"']);
    text
}

/// Renders a descriptor's own labels, each followed by `, `.
pub fn render_labels(labels: &Vec<Label>) -> (text: String)
    ensures
        text@ == labels_text(labels_view(labels@)),
{
    let mut text = String::new();
    let mut i: usize = 0;
    let ghost all = labels_view(labels@);
    while i < labels.len()
        invariant
            i <= labels.len(),
            all == labels_view(labels@),
            all.len() == labels.len(),
            text@ == labels_text(all.take(i as int)),
        decreases labels.len() - i,
    {
        let one = render_label(labels[i].key.as_str(), labels[i].value.as_str());
        proof {
            reveal_strlit(", ");
            assert(", "@ =~= seq![',', ' ']);
            assert(all.take(i + 1).drop_last() =~= all.take(i as int));
            assert(all.take(i + 1).last() == labels@[i as int]@);
        }
        text.append(one.as_str());
        text.append(", ");
        i = i + 1;
    }
    assert(all.take(i as int) =~= all);
    text
}

/// Renders the exposition line of one metric.
pub fn format_line(descriptor: &MetricDescriptor, device: &str, value: &str) -> (line: String)
    ensures
        line@ == line_text(descriptor@, device@, value@),
{
    proof {
        reveal_strlit("{");
        reveal_strlit("fems_id");
        reveal_strlit("} ");
        reveal_strlit("\n");
    }
    let labels = render_labels(&descriptor.labels);
    let device_part = render_label("fems_id", device);
    let mut line = descriptor.name.clone();
    line.append("{");
    line.append(labels.as_str());
    line.append(device_part.as_str());
    line.append("} ");
    line.append(value);
    line.append("\n");
    assert("{"@ =~= seq!['{']);
    assert("fems_id"@ =~= seq!['f', 'e', 'm', 's', '_', 'i', 'd']);
    assert("} "@ =~= seq!['}', ' ']);
    assert("\n"@ =~= seq!['\n']);
    line
}

/// The message for a session to `address` that could not be opened.
pub fn connect_failure(address: &str, cause: &str) -> (message: String)
    ensures
        message@ == connect_failure_text(address@, cause@),
{
    proof {
        reveal_strlit(": ");
    }
    let mut message = String::from_str("unable to connect to fems modbus at ");
    message.append(address);
    message.append(": ");
    message.append(cause);
    assert(": "@ =~= seq![':', ' ']);
    message
}

/// The message for a register read that failed.
pub fn read_failure(cause: &str) -> (message: String)
    ensures
        message@ == read_failure_text(cause@),
{
    let mut message = String::from_str("unable to read modbus input register: ");
    message.append(cause);
    message
}

} // verus!
