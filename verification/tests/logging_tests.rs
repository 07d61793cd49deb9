use fizz::logging::{
    LogFormat, LogOutput, parse_log_file_path, parse_log_format, parse_log_output,
};

#[test]
fn parse_log_format_defaults_to_pretty() {
    assert_eq!(parse_log_format(None), LogFormat::Pretty);
}

#[test]
fn parse_log_format_accepts_json() {
    assert_eq!(parse_log_format(Some("json")), LogFormat::Json);
    assert_eq!(parse_log_format(Some(" JSON ")), LogFormat::Json);
}

#[test]
fn parse_log_format_falls_back_for_unknown_values() {
    assert_eq!(parse_log_format(Some("unknown")), LogFormat::Pretty);
}

#[test]
fn parse_log_output_defaults_to_stderr() {
    assert_eq!(parse_log_output(None), LogOutput::Stderr);
}

#[test]
fn parse_log_output_accepts_file_and_both() {
    assert_eq!(parse_log_output(Some("file")), LogOutput::File);
    assert_eq!(parse_log_output(Some(" BOTH ")), LogOutput::Both);
}

#[test]
fn parse_log_output_falls_back_for_unknown_values() {
    assert_eq!(parse_log_output(Some("unknown")), LogOutput::Stderr);
}

#[test]
fn parse_log_file_path_uses_default_for_missing_or_empty_values() {
    assert_eq!(parse_log_file_path(None), "logs/fizz.log".to_string());
    assert_eq!(parse_log_file_path(Some("  ")), "logs/fizz.log".to_string());
}

#[test]
fn parse_log_file_path_preserves_explicit_value() {
    assert_eq!(
        parse_log_file_path(Some("custom/fizz.log")),
        "custom/fizz.log".to_string()
    );
}

#[test]
fn parse_log_file_path_trims_surrounding_whitespace() {
    assert_eq!(
        parse_log_file_path(Some("  custom/fizz.log  ")),
        "custom/fizz.log".to_string()
    );
}
