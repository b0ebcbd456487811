use gethostname::wide::{buffer_for_reported_size, decide_after_fill, trim_terminator, FillOutcome};

fn wide(s: &str) -> Vec<u16> {
    s.encode_utf16().collect()
}

fn wide_with_terminator(s: &str) -> Vec<u16> {
    let mut units = wide(s);
    units.push(0);
    units
}

#[test]
fn probe_size_zero_is_refused() {
    assert_eq!(buffer_for_reported_size(0), None);
}

#[test]
fn probe_size_allocates_exactly_that_many_units() {
    let buffer = buffer_for_reported_size(9).unwrap();
    assert_eq!(buffer.len(), 9);
    assert!(buffer.iter().all(|&u| u == 0));
}

#[test]
fn probe_size_one_allocates_one_unit() {
    let buffer = buffer_for_reported_size(1).unwrap();
    assert_eq!(buffer, vec![0]);
}

#[test]
fn fill_reporting_one_less_than_buffer_is_accepted() {
    let buffer = wide_with_terminator("host");
    let outcome = decide_after_fill(true, &buffer, 4);
    assert_eq!(outcome, FillOutcome::HostName(wide("host")));
}

#[test]
fn fill_reporting_buffer_length_is_a_defect() {
    let buffer = wide_with_terminator("host");
    assert_eq!(decide_after_fill(true, &buffer, 5), FillOutcome::SizeChanged);
}

#[test]
fn fill_reporting_smaller_size_is_a_defect() {
    let buffer = wide_with_terminator("host");
    assert_eq!(decide_after_fill(true, &buffer, 3), FillOutcome::SizeChanged);
}

#[test]
fn failed_fill_call_is_a_defect() {
    let buffer = wide_with_terminator("host");
    assert_eq!(decide_after_fill(false, &buffer, 4), FillOutcome::CallFailed);
}

#[test]
fn accepted_name_carries_no_terminator() {
    let buffer = wide_with_terminator("host");
    match decide_after_fill(true, &buffer, 4) {
        FillOutcome::HostName(name) => assert!(name.iter().all(|&u| u != 0)),
        other => panic!("expected a host name, got {:?}", other),
    }
}

#[test]
fn configured_test_hostname_is_returned_as_such() {
    let buffer = wide_with_terminator("hostname-for-testing");
    match decide_after_fill(true, &buffer, 20) {
        FillOutcome::HostName(name) => {
            let text = String::from_utf16(&name).unwrap().to_lowercase();
            assert_eq!(text, "hostname-for-testing");
        }
        other => panic!("expected a host name, got {:?}", other),
    }
}

#[test]
fn trim_stops_at_first_zero_unit() {
    assert_eq!(trim_terminator(&vec![104, 105, 0, 106, 0]), vec![104, 105]);
}

#[test]
fn trim_keeps_a_buffer_without_zero_units_whole() {
    assert_eq!(trim_terminator(&vec![104, 105, 106]), vec![104, 105, 106]);
}

#[test]
fn trim_of_a_leading_zero_is_empty() {
    assert_eq!(trim_terminator(&vec![0, 104]), Vec::<u16>::new());
}

#[test]
fn trim_of_an_empty_buffer_is_empty() {
    assert_eq!(trim_terminator(&Vec::new()), Vec::<u16>::new());
}
