use radarflow::config::{
    check_in_range, check_valid_path, Config, ConfigError, ConfigShadow, ConfigShadowFieldName,
    PathKind, PathProblem,
};

fn shadow(web_port: u16, socket_port: u16, web_path: &str, poll_rate: u16) -> ConfigShadow {
    ConfigShadow { web_port, socket_port, web_path: web_path.to_string(), poll_rate }
}

#[test]
fn default_config_matches_readme() {
    let c = Config::default();
    assert_eq!(c.web_port(), 8000);
    assert_eq!(c.websocket_port(), 8001);
    assert_eq!(c.web_path(), "./web");
    assert_eq!(c.poll_rate(), 60);
    let s = ConfigShadow::default();
    assert_eq!((s.web_port, s.socket_port, s.web_path.as_str(), s.poll_rate), (8000, 8001, "./web", 60));
}

#[test]
fn field_names() {
    assert_eq!(ConfigShadowFieldName::WebPort.name(), "web_port");
    assert_eq!(ConfigShadowFieldName::SocketPort.name(), "socket_port");
    assert_eq!(ConfigShadowFieldName::WebPath.name(), "web_path");
    assert_eq!(ConfigShadowFieldName::PollRate.name(), "poll_rate");
}

#[test]
fn accepted_config_keeps_options() {
    let c = Config::try_from(shadow(9000, 9001, "/srv/web", 144), PathKind::Directory).unwrap();
    assert_eq!(c.web_port(), 9000);
    assert_eq!(c.websocket_port(), 9001);
    assert_eq!(c.web_path(), "/srv/web");
    assert_eq!(c.poll_rate(), 144);
}

#[test]
fn same_ports_refused_first() {
    assert_eq!(
        Config::try_from(shadow(80, 80, "x", 0), PathKind::Missing),
        Err(ConfigError::SamePorts)
    );
}

#[test]
fn web_port_out_of_range() {
    assert_eq!(
        Config::try_from(shadow(7999, 9001, "./web", 60), PathKind::Directory),
        Err(ConfigError::OutOfRange {
            option: ConfigShadowFieldName::WebPort,
            min: 8000,
            max: 65535,
            value: 7999
        })
    );
}

#[test]
fn socket_port_is_not_range_checked() {
    let c = Config::try_from(shadow(8000, 80, "./web", 60), PathKind::Directory).unwrap();
    assert_eq!(c.websocket_port(), 80);
}

#[test]
fn poll_rate_out_of_range() {
    assert_eq!(
        Config::try_from(shadow(8000, 8001, "./web", 0), PathKind::Directory),
        Err(ConfigError::OutOfRange {
            option: ConfigShadowFieldName::PollRate,
            min: 1,
            max: 1000,
            value: 0
        })
    );
    assert!(Config::try_from(shadow(8000, 8001, "./web", 1001), PathKind::Directory).is_err());
}

#[test]
fn web_path_must_be_directory() {
    assert_eq!(
        Config::try_from(shadow(8000, 8001, "nowhere", 60), PathKind::Missing),
        Err(ConfigError::InvalidPath {
            field: Some(ConfigShadowFieldName::WebPath),
            path: "nowhere".to_string(),
            problem: PathProblem::DoesNotExist
        })
    );
    assert_eq!(
        Config::try_from(shadow(8000, 8001, "file.txt", 60), PathKind::NotDirectory),
        Err(ConfigError::InvalidPath {
            field: Some(ConfigShadowFieldName::WebPath),
            path: "file.txt".to_string(),
            problem: PathProblem::NotADirectory
        })
    );
}

#[test]
fn from_file_without_file_uses_defaults() {
    assert_eq!(Config::from_file(None, PathKind::Directory), Ok(Config::default()));
    assert_eq!(
        Config::from_file(None, PathKind::Missing),
        Err(ConfigError::InvalidPath {
            field: None,
            path: "./web".to_string(),
            problem: PathProblem::DoesNotExist
        })
    );
    assert_eq!(
        Config::from_file(None, PathKind::NotDirectory),
        Err(ConfigError::InvalidPath {
            field: None,
            path: "./web".to_string(),
            problem: PathProblem::NotADirectory
        })
    );
}

#[test]
fn from_file_with_file_checks_it() {
    let c = Config::from_file(Some(shadow(8100, 8101, "www", 30)), PathKind::Directory).unwrap();
    assert_eq!((c.web_port(), c.websocket_port(), c.web_path(), c.poll_rate()), (8100, 8101, "www", 30));
    assert_eq!(
        Config::from_file(Some(shadow(8100, 8100, "www", 30)), PathKind::Directory),
        Err(ConfigError::SamePorts)
    );
}

#[test]
fn range_and_path_checks() {
    assert_eq!(check_in_range(ConfigShadowFieldName::PollRate, 5, 1, 10), Ok(()));
    assert_eq!(check_in_range(ConfigShadowFieldName::PollRate, 1, 1, 10), Ok(()));
    assert_eq!(
        check_in_range(ConfigShadowFieldName::PollRate, 11, 1, 10),
        Err(ConfigError::OutOfRange { option: ConfigShadowFieldName::PollRate, min: 1, max: 10, value: 11 })
    );
    assert_eq!(check_valid_path(ConfigShadowFieldName::WebPath, "d", PathKind::Directory), Ok(()));
    assert!(check_valid_path(ConfigShadowFieldName::WebPath, "d", PathKind::Missing).is_err());
}
