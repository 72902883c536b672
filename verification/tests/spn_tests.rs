use krb_mic::{parse_target_name, unwrap_hostname, Error};

#[test]
fn parse_valid_target_name() {
    let (service, instance) = parse_target_name("EXAMPLE/p10").unwrap();
    assert_eq!(("EXAMPLE", "p10"), (service.as_str(), instance.as_str()));
    let (service, instance) = parse_target_name("E/p10").unwrap();
    assert_eq!(("E", "p10"), (service.as_str(), instance.as_str()));
    let (service, instance) = parse_target_name("EXAMPLE/p").unwrap();
    assert_eq!(("EXAMPLE", "p"), (service.as_str(), instance.as_str()));
}

#[test]
fn parse_invalid_target_name() {
    assert!(parse_target_name("EXAMPLEp10").is_err());
    assert!(parse_target_name("EXAMPLE/").is_err());
    assert!(parse_target_name("/p10").is_err());
    assert!(parse_target_name("/").is_err());
    assert!(parse_target_name("").is_err());
}

#[test]
fn parse_splits_at_first_separator_only() {
    let (service, instance) = parse_target_name("HTTP/host/extra").unwrap();
    assert_eq!(("HTTP", "host/extra"), (service.as_str(), instance.as_str()));
}

#[test]
fn parse_failures_are_invalid_parameter() {
    assert_eq!(Err(Error::InvalidParameter), parse_target_name("EXAMPLEp10"));
    assert_eq!(Err(Error::InvalidParameter), parse_target_name(""));
}

#[test]
fn unwrap_hostname_present() {
    assert_eq!("server.example.com", unwrap_hostname(Some("server.example.com")).unwrap());
}

#[test]
fn unwrap_hostname_missing() {
    assert_eq!(Err(Error::InvalidParameter), unwrap_hostname(None));
}

#[test]
fn error_descriptions_name_the_failure() {
    assert_eq!("invalid parameter", Error::InvalidParameter.description());
    assert_eq!("bad checksum of the mic token", Error::MessageAltered.description());
}
