use rcli::cli::{verify_dir, verify_file, OutputFormat};
use rcli::jwt::{parse_exp, parse_exp_lowered};
use rcli::opts::{parse_format, verify_input_file, OutputFormat as EarlyOutputFormat};
use rcli::utils::{str_eq, u64_to_string};

#[test]
fn test_parse_exp() -> Result<(), String> {
    assert_eq!(parse_exp("1")?, 1);
    assert_eq!(parse_exp("1s")?, 1);
    assert_eq!(parse_exp("1S")?, 1);
    assert_eq!(parse_exp("1m")?, 60);
    assert_eq!(parse_exp("1s1m")?, 61);
    assert_eq!(parse_exp("1h")?, 3600);
    assert_eq!(parse_exp("1s100m1h")?, 1 + 100 * 60 + 3600);
    assert_eq!(parse_exp("1s1h1d")?, 1 + 3600 + 3600 * 24);
    assert!(parse_exp("1asa").is_err());
    assert!(parse_exp("xxx").is_err());
    Ok(())
}

#[test]
fn test_verify_file() {
    assert_eq!(verify_file("-"), Ok("-".into()));
    assert_eq!(verify_file("*"), Err("File dose not exist"));
    assert_eq!(verify_file("/"), Ok("/".into()));
    assert_eq!(verify_file("not-exists"), Err("File dose not exist"))
}

#[test]
fn parse_exp_lowered_needs_lower_case_units() {
    assert_eq!(parse_exp_lowered("1s1m"), Ok(61));
    assert_eq!(parse_exp_lowered("2h"), Ok(7200));
    assert!(parse_exp_lowered("1S").is_err());
}

#[test]
fn parse_exp_rejects_empty_number_before_unit() {
    assert!(parse_exp("m").is_err());
    assert!(parse_exp("1sm").is_err());
}

#[test]
fn parse_exp_rejects_overflow() {
    assert!(parse_exp("99999999999999999999").is_err());
    assert!(parse_exp("1000000000000000000d").is_err());
    assert_eq!(parse_exp("0").unwrap(), 0);
}

#[test]
fn verify_dir_accepts_directories_only() {
    assert_eq!(verify_dir("/"), Ok("/".into()));
    assert_eq!(
        verify_dir("/dev/null"),
        Err("Path does not exist or is not a directory")
    );
    assert_eq!(
        verify_dir("no-such-dir"),
        Err("Path does not exist or is not a directory")
    );
}

#[test]
fn verify_input_file_requires_existence() {
    assert_eq!(verify_input_file("/"), Ok("/".into()));
    assert_eq!(verify_input_file("-"), Err("File dose not exists"));
}

#[test]
fn parse_format_is_case_insensitive() {
    assert_eq!(parse_format("json"), Ok(EarlyOutputFormat::Json));
    assert_eq!(parse_format("JSON"), Ok(EarlyOutputFormat::Json));
    assert_eq!(parse_format("Yaml"), Ok(EarlyOutputFormat::Yaml));
    assert_eq!(parse_format("xml"), Err("Invalid format"));
}

#[test]
fn output_format_names() {
    assert_eq!(OutputFormat::Json.as_str(), "json");
    assert_eq!(OutputFormat::Yaml.as_str(), "yaml");
    assert_eq!(EarlyOutputFormat::Yaml.as_str(), "yaml");
}

#[test]
fn u64_to_string_formats_decimal() {
    assert_eq!(u64_to_string(0), "0");
    assert_eq!(u64_to_string(7), "7");
    assert_eq!(u64_to_string(1234567890), "1234567890");
    assert_eq!(u64_to_string(u64::MAX), "18446744073709551615");
}

#[test]
fn str_eq_compares_characters() {
    assert!(str_eq("abc", "abc"));
    assert!(!str_eq("abc", "abd"));
    assert!(!str_eq("abc", "abcd"));
    assert!(str_eq("", ""));
}
