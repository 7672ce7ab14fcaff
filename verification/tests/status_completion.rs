use fwtable::completion::Completion;
use fwtable::diag::DiagnosticSink;
use fwtable::status::Status;
use fwtable::status::ERROR_BIT;

#[test]
fn status_class_success() {
    let s = Status(0);
    assert!(s.is_success());
    assert!(!s.is_warning());
    assert!(!s.is_error());
}

#[test]
fn status_class_warning() {
    let w = Status(1);
    assert!(!w.is_success());
    assert!(w.is_warning());
    assert!(!w.is_error());

    let top = Status(ERROR_BIT - 1);
    assert!(top.is_warning());
    assert!(!top.is_error());
}

#[test]
fn status_class_error() {
    let e = Status(ERROR_BIT);
    assert!(!e.is_success());
    assert!(!e.is_warning());
    assert!(e.is_error());

    let max = Status(u64::MAX);
    assert!(max.is_error());
}

#[test]
fn status_success_value() {
    assert_eq!(Status::success(), Status(0));
    assert!(Status::success().is_success());
}

#[test]
fn new_then_split_gives_back_status_and_value() {
    let (s, v) = Completion::new(Status(0), 42u32).split();
    assert_eq!(s, Status(0));
    assert_eq!(v, 42);

    let (s, v) = Completion::new(Status(7), String::from("advisory")).split();
    assert_eq!(s, Status(7));
    assert_eq!(v, "advisory");
}

#[test]
fn status_getter_reads_without_consuming() {
    let c = Completion::new(Status(9), 5u8);
    assert_eq!(c.status(), Status(9));
    assert_eq!(c.status(), Status(9));
    let (s, v) = c.split();
    assert_eq!(s, Status(9));
    assert_eq!(v, 5);
}

#[test]
fn ignore_warning_returns_stored_result() {
    let c = Completion::new(Status(3), 11u64);
    assert_eq!(c.ignore_warning(), 11);
}

#[test]
fn log_on_success_emits_nothing() {
    let mut sink = DiagnosticSink::new();
    let c = Completion::new(Status(0), 13i32);
    assert_eq!(c.log(&mut sink), 13);
    assert_eq!(sink.records().len(), 0);
}

#[test]
fn log_on_warning_emits_exactly_one_record() {
    let mut sink = DiagnosticSink::new();
    let c = Completion::new(Status(21), 13i32);
    assert_eq!(c.log(&mut sink), 13);
    assert_eq!(sink.records().len(), 1);
    assert_eq!(sink.records()[0], Status(21));
}

#[test]
fn unwrap_on_success_returns_payload() {
    let c = Completion::new(Status(0), 99u16);
    assert_eq!(c.unwrap(), 99);
}

#[test]
fn expect_on_success_returns_payload() {
    let c = Completion::new(Status(0), 99u16);
    assert_eq!(c.expect("no warning expected"), 99);
}

#[test]
fn map_preserves_status_and_transforms_value() {
    let c = Completion::new(Status(4), 10u32);
    let d = c.map(|x| x + 1);
    assert_eq!(d.status(), Status(4));
    let (s, v) = d.split();
    assert_eq!(s, Status(4));
    assert_eq!(v, 11);
}

#[test]
fn map_on_success_stays_success() {
    let c = Completion::new(Status(0), 2u32);
    let d = c.map(|x| x * 3);
    assert_eq!(d.status(), Status(0));
    assert_eq!(d.ignore_warning(), 6);
}

#[test]
fn with_status_success_is_a_noop() {
    let mut sink = DiagnosticSink::new();
    let c = Completion::new(Status(17), 8u8);
    let merged = c.clone().with_status(Status(0), &mut sink);
    assert_eq!(merged, c);
    assert_eq!(sink.records().len(), 0);
}

#[test]
fn with_status_warning_spills_stored_warning() {
    let mut sink = DiagnosticSink::new();
    let c = Completion::new(Status(17), 8u8);
    let merged = c.with_status(Status(23), &mut sink);
    let (s, v) = merged.split();
    assert_eq!(s, Status(23));
    assert_eq!(v, 8);
    assert_eq!(sink.records().len(), 1);
    assert_eq!(sink.records()[0], Status(17));
}

#[test]
fn with_status_warning_over_success_spills_nothing() {
    let mut sink = DiagnosticSink::new();
    let c = Completion::new(Status(0), 8u8);
    let merged = c.with_status(Status(23), &mut sink);
    let (s, v) = merged.split();
    assert_eq!(s, Status(23));
    assert_eq!(v, 8);
    assert_eq!(sink.records().len(), 0);
}

#[test]
fn into_result_classifies_error() {
    let r = Status(ERROR_BIT + 5).into_result();
    assert_eq!(r.unwrap_err(), Status(ERROR_BIT + 5));
}

#[test]
fn into_result_classifies_success_and_warning() {
    let c = Status(0).into_result().unwrap();
    assert_eq!(c.status(), Status(0));

    let c = Status(6).into_result().unwrap();
    assert_eq!(c.status(), Status(6));
}

#[test]
fn into_with_val_keeps_payload_on_non_error_only() {
    let c = Status(2).into_with_val(String::from("kept")).unwrap();
    let (s, v) = c.split();
    assert_eq!(s, Status(2));
    assert_eq!(v, "kept");

    let r = Status(ERROR_BIT).into_with_val(String::from("dropped"));
    assert_eq!(r.unwrap_err(), Status(ERROR_BIT));
}

#[test]
fn sink_keeps_records_in_emission_order() {
    let mut sink = DiagnosticSink::new();
    Completion::new(Status(1), ()).log(&mut sink);
    Completion::new(Status(2), ()).log(&mut sink);
    Completion::new(Status(0), ()).log(&mut sink);
    assert_eq!(sink.records().as_slice(), &[Status(1), Status(2)]);
}
