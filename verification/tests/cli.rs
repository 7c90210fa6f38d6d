use service_adsb_rs::cli::{
    is_valid_uuid, validate_config, validate_parsed, Args, ConfigError, FaultKind, UUID_LENGTH,
};
use service_adsb_rs::toml::{
    default_dashboard_port, Config, Receiver, Service, DEFAULT_DASHBOARD_PORT,
};

fn config(port: u16, url: &str, uuid: &str, dashboard_port: u16) -> Config {
    Config::new(
        Receiver::new("127.0.0.1".to_string(), port),
        Service::new(url.to_string(), uuid.to_string()),
        dashboard_port,
    )
}

fn args(url: Option<&str>, uuid: Option<&str>) -> Args {
    Args {
        receiver_ip: "10.0.0.7".to_string(),
        receiver_port: 30_003,
        service_url: url.map(|s| s.to_string()),
        service_uuid: uuid.map(|s| s.to_string()),
        dashboard_port: 8080,
        config: None,
    }
}

#[test]
fn constructors_keep_their_arguments() {
    let receiver = Receiver::new("192.168.1.2".to_string(), 30_003);
    assert_eq!(receiver.ip, "192.168.1.2");
    assert_eq!(receiver.port, 30_003);
    let service = Service::new("https://c.example/".to_string(), "0123456789abcdef".to_string());
    assert_eq!(service.url, "https://c.example/");
    assert_eq!(service.uuid, "0123456789abcdef");
    let config = Config::new(receiver.clone(), service.clone(), 9000);
    assert_eq!(config.receiver, receiver);
    assert_eq!(config.service, service);
    assert_eq!(config.dashboard_port, 9000);
}

#[test]
fn the_default_dashboard_port_is_8080() {
    assert_eq!(default_dashboard_port(), 8080);
    assert_eq!(DEFAULT_DASHBOARD_PORT, 8080);
}

#[test]
fn a_uuid_is_sixteen_bytes_of_letters_and_digits() {
    assert_eq!(UUID_LENGTH, 16);
    assert!(is_valid_uuid("abcdef0123456789"));
    assert!(is_valid_uuid("ABCDEFGHIJKLMNOP"));
    assert!(is_valid_uuid("0000000000000000"));
    assert!(!is_valid_uuid(""));
    assert!(!is_valid_uuid("abcdef012345678"));
    assert!(!is_valid_uuid("abcdef01234567890"));
    assert!(!is_valid_uuid("abcdef-123456789"));
    assert!(!is_valid_uuid("abcdef 123456789"));
    assert!(!is_valid_uuid("abcdef_123456789"));
}

#[test]
fn the_uuid_length_is_counted_in_bytes() {
    assert!(is_valid_uuid("éééééééé"));
    assert!(!is_valid_uuid("éééééééééééééééé"));
    assert!(is_valid_uuid("abcdefghijklmné"));
    assert!(!is_valid_uuid("abcdefghijklmn€"));
}

#[test]
fn validate_config_accepts_a_sound_configuration() {
    assert_eq!(validate_config(&config(30_003, "http://c.example/up", "abcdef0123456789", 8080)), Ok(()));
}

#[test]
fn validate_config_reports_the_first_fault() {
    assert_eq!(
        validate_config(&config(0, "not a url", "short", 8080)),
        Err(ConfigError::ZeroPort)
    );
    assert_eq!(
        validate_config(&config(1, "not a url", "short", 8080)),
        Err(ConfigError::InvalidUrl)
    );
    assert_eq!(
        validate_config(&config(1, "", "abcdef0123456789", 8080)),
        Err(ConfigError::InvalidUrl)
    );
    assert_eq!(
        validate_config(&config(1, "/relative/path", "abcdef0123456789", 8080)),
        Err(ConfigError::InvalidUrl)
    );
    assert_eq!(
        validate_config(&config(1, "http://c.example/", "short", 8080)),
        Err(ConfigError::InvalidUuid)
    );
}

#[test]
fn validate_parsed_goes_by_the_given_parse_result() {
    let sound = config(1, "anything", "abcdef0123456789", 8080);
    assert_eq!(validate_parsed(&sound, Ok(())), Ok(()));
    assert_eq!(
        validate_parsed(&sound, Err(url::ParseError::EmptyHost)),
        Err(ConfigError::InvalidUrl)
    );
    let no_port = config(0, "anything", "abcdef0123456789", 8080);
    assert_eq!(validate_parsed(&no_port, Ok(())), Err(ConfigError::ZeroPort));
    assert_eq!(
        validate_parsed(&no_port, Err(url::ParseError::EmptyHost)),
        Err(ConfigError::ZeroPort)
    );
    let bad_uuid = config(1, "anything", "nope", 8080);
    assert_eq!(validate_parsed(&bad_uuid, Ok(())), Err(ConfigError::InvalidUuid));
    assert_eq!(
        validate_parsed(&bad_uuid, Err(url::ParseError::RelativeUrlWithoutBase)),
        Err(ConfigError::InvalidUrl)
    );
}

#[test]
fn build_config_from_the_arguments() {
    let built = args(Some("https://c.example/up"), Some("abcdef0123456789")).build_config(None);
    assert_eq!(
        built,
        Ok(Config {
            receiver: Receiver { ip: "10.0.0.7".to_string(), port: 30_003 },
            service: Service {
                url: "https://c.example/up".to_string(),
                uuid: "abcdef0123456789".to_string(),
            },
            dashboard_port: 8080,
        })
    );
}

#[test]
fn build_config_reports_what_the_arguments_lack() {
    assert_eq!(args(None, None).build_config(None), Err(ConfigError::MissingUrl));
    assert_eq!(
        args(None, Some("abcdef0123456789")).build_config(None),
        Err(ConfigError::MissingUrl)
    );
    assert_eq!(args(Some("no url"), None).build_config(None), Err(ConfigError::InvalidUrl));
    assert_eq!(
        args(Some("http://c.example/"), None).build_config(None),
        Err(ConfigError::MissingUuid)
    );
    assert_eq!(
        args(Some("http://c.example/"), Some("abc")).build_config(None),
        Err(ConfigError::InvalidUuid)
    );
}

#[test]
fn build_config_does_not_check_the_port_of_the_arguments() {
    let mut flags = args(Some("http://c.example/"), Some("abcdef0123456789"));
    flags.receiver_port = 0;
    flags.dashboard_port = 9090;
    let built = flags.build_config(None).unwrap();
    assert_eq!(built.receiver.port, 0);
    assert_eq!(built.dashboard_port, 9090);
}

#[test]
fn config_from_flags_goes_by_the_given_parse_result() {
    let flags = args(Some("whatever"), Some("abcdef0123456789"));
    assert_eq!(flags.config_from_flags(Ok(())).unwrap().service.url, "whatever");
    assert_eq!(
        flags.config_from_flags(Err(url::ParseError::InvalidPort)),
        Err(ConfigError::InvalidUrl)
    );
    assert_eq!(args(None, None).config_from_flags(Ok(())), Err(ConfigError::MissingUrl));
    assert_eq!(
        args(Some("whatever"), None).config_from_flags(Ok(())),
        Err(ConfigError::MissingUuid)
    );
}

#[test]
fn a_loaded_file_replaces_the_endpoint_arguments() {
    let flags = args(None, None);
    let loaded = config(40_000, "http://file.example/", "fileuuid01234567", 7000);
    assert_eq!(flags.build_config(Some(loaded.clone())), Ok(loaded.clone()));
    assert_eq!(flags.reload_config(loaded.clone()), Ok(loaded));
}

#[test]
fn the_dashboard_port_of_the_command_line_wins_unless_default() {
    let mut flags = args(None, None);
    flags.dashboard_port = 9090;
    let loaded = config(40_000, "http://file.example/", "fileuuid01234567", 7000);
    let built = flags.build_config(Some(loaded.clone())).unwrap();
    assert_eq!(built.dashboard_port, 9090);
    assert_eq!(built.receiver, loaded.receiver);
    assert_eq!(built.service, loaded.service);
    flags.dashboard_port = 8080;
    assert_eq!(flags.build_config(Some(loaded)).unwrap().dashboard_port, 7000);
}

#[test]
fn a_loaded_file_is_validated() {
    let flags = args(Some("http://flags.example/"), Some("abcdef0123456789"));
    assert_eq!(
        flags.build_config(Some(config(0, "http://file.example/", "fileuuid01234567", 1))),
        Err(ConfigError::ZeroPort)
    );
    assert_eq!(
        flags.build_config(Some(config(1, "file.example", "fileuuid01234567", 1))),
        Err(ConfigError::InvalidUrl)
    );
    assert_eq!(
        flags.build_config(Some(config(1, "http://file.example/", "bad uuid", 1))),
        Err(ConfigError::InvalidUuid)
    );
}

#[test]
fn each_fault_has_a_text_of_its_own() {
    assert_eq!(ConfigError::MissingUrl.message(), "Server URL is required.");
    assert_eq!(ConfigError::InvalidUrl.message(), "Invalid service URL");
    assert_eq!(ConfigError::MissingUuid.message(), "Server UUID is required.");
    assert_eq!(ConfigError::InvalidUuid.message(), "Invalid UUID format");
    assert_eq!(ConfigError::ZeroPort.message(), "Receiver port cannot be 0");
}

#[test]
fn faults_of_a_file_count_against_the_file() {
    for fault in [
        ConfigError::MissingUrl,
        ConfigError::InvalidUrl,
        ConfigError::MissingUuid,
        ConfigError::InvalidUuid,
        ConfigError::ZeroPort,
    ] {
        assert_eq!(fault.kind(true), FaultKind::Io);
    }
}

#[test]
fn faults_of_the_arguments_are_missing_or_invalid() {
    assert_eq!(ConfigError::MissingUrl.kind(false), FaultKind::MissingRequiredArgument);
    assert_eq!(ConfigError::MissingUuid.kind(false), FaultKind::MissingRequiredArgument);
    assert_eq!(ConfigError::InvalidUrl.kind(false), FaultKind::InvalidValue);
    assert_eq!(ConfigError::InvalidUuid.kind(false), FaultKind::InvalidValue);
    assert_eq!(ConfigError::ZeroPort.kind(false), FaultKind::InvalidValue);
}
