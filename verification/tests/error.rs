use ueplugingen::Error;

#[test]
fn an_error_carries_its_report() {
    assert_eq!(Error::IoError("disk full".to_string()).message(), "disk full");
    assert_eq!(Error::ConfigError("TARGET".to_string()).message(), "TARGET");
    assert_eq!(Error::TemplateError("bad".to_string()).message(), "bad");
}
