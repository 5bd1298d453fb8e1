use prof::utils::{parse_output_line, warn_and_return, Capture, CaptureError, FieldWarning};

#[test]
fn field_with_thousands_separators() {
    let mut warnings: Vec<FieldWarning> = Vec::new();
    assert_eq!(parse_output_line("bytes", Some(Some("1,024")), &mut warnings), 1024);
    assert_eq!(parse_output_line("bytes", Some(Some("12,345,678")), &mut warnings), 12_345_678);
    assert!(warnings.is_empty());
}

#[test]
fn field_with_sign() {
    let mut warnings: Vec<FieldWarning> = Vec::new();
    assert_eq!(parse_output_line("delta", Some(Some("-5")), &mut warnings), -5);
    assert_eq!(parse_output_line("delta", Some(Some("+7")), &mut warnings), 7);
    assert_eq!(
        parse_output_line("delta", Some(Some("-9,223,372,036,854,775,808")), &mut warnings),
        i64::MIN
    );
    assert!(warnings.is_empty());
}

#[test]
fn missing_field_gives_zero_and_warning() {
    let mut warnings: Vec<FieldWarning> = Vec::new();
    assert_eq!(parse_output_line("blocks", None, &mut warnings), 0);
    assert_eq!(parse_output_line("frees", Some(None), &mut warnings), 0);
    assert_eq!(warnings.len(), 2);
    assert_eq!(warnings[0].label, "blocks");
    assert_eq!(warnings[0].unparsable, None);
    assert_eq!(warnings[1].label, "frees");
    assert_eq!(warnings[1].unparsable, None);
}

#[test]
fn unparsable_field_gives_zero_and_warning() {
    let mut warnings: Vec<FieldWarning> = Vec::new();
    assert_eq!(parse_output_line("total", Some(Some("not_a_number")), &mut warnings), 0);
    assert_eq!(parse_output_line("total", Some(Some("")), &mut warnings), 0);
    assert_eq!(parse_output_line("total", Some(Some("-")), &mut warnings), 0);
    assert_eq!(parse_output_line("total", Some(Some("1|2")), &mut warnings), 0);
    assert_eq!(warnings.len(), 4);
    assert_eq!(warnings[0].unparsable.as_deref(), Some("not_a_number"));
    assert_eq!(warnings[1].unparsable.as_deref(), Some(""));
    assert_eq!(warnings[3].label, "total");
}

#[test]
fn out_of_range_field_gives_zero() {
    let mut warnings: Vec<FieldWarning> = Vec::new();
    assert_eq!(parse_output_line("n", Some(Some("9,223,372,036,854,775,808")), &mut warnings), 0);
    assert_eq!(parse_output_line("n", Some(Some("9,223,372,036,854,775,807")), &mut warnings), i64::MAX);
    assert_eq!(warnings.len(), 1);
}

#[test]
fn warn_and_return_records_the_label() {
    let mut warnings: Vec<FieldWarning> = Vec::new();
    assert_eq!(warn_and_return("in use at exit", &mut warnings), 0);
    assert_eq!(warnings.len(), 1);
    assert_eq!(warnings[0].label, "in use at exit");
    assert_eq!(warnings[0].unparsable, None);
}

#[test]
fn capture_skips_the_whole_match() {
    let cap = Capture::new(r"(\d+) of (\d+)( more)?", "took 3 of 7 tries").unwrap();
    let fields = cap.iter_next();
    assert_eq!(fields, vec![Some("3".to_string()), Some("7".to_string()), None]);
}

#[test]
fn capture_takes_the_first_match() {
    let cap = Capture::new(r"n=(\d+)", "n=1 n=2").unwrap();
    assert_eq!(cap.iter_next(), vec![Some("1".to_string())]);
}

#[test]
fn capture_without_match() {
    assert_eq!(Capture::new(r"total heap usage: (\d+)", "nothing here").err(), Some(CaptureError::NoMatch));
}

#[test]
fn capture_with_invalid_pattern() {
    assert_eq!(Capture::new(r"(unclosed", "unclosed").err(), Some(CaptureError::InvalidPattern));
}

#[test]
fn capture_from_groups_keeps_them() {
    let cap = Capture::from_groups(vec![Some("whole".to_string()), None, Some("x".to_string())]);
    assert_eq!(cap.iter_next(), vec![None, Some("x".to_string())]);
}
