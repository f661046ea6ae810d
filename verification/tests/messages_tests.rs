use radarflow::config::{
    check_in_range, check_valid_path, Config, ConfigError, ConfigShadow, ConfigShadowFieldName,
    PathKind, PathProblem,
};
use radarflow::offsets::{OffsetError, Offsets};
use radarflow::offsets_file::{get_offsets, offsets_from_document, OffsetsFileError, TomlSection};
use radarflow::text::decimal;

fn shadow(web_port: u16, socket_port: u16, web_path: &str, poll_rate: u16) -> ConfigShadow {
    ConfigShadow { web_port, socket_port, web_path: web_path.to_string(), poll_rate }
}

#[test]
fn decimal_forms() {
    assert_eq!(decimal(0), "0");
    assert_eq!(decimal(7), "7");
    assert_eq!(decimal(10), "10");
    assert_eq!(decimal(7999), "7999");
    assert_eq!(decimal(65535), "65535");
}

#[test]
fn same_ports_message() {
    let e = Config::try_from(shadow(8001, 8001, "", 0), PathKind::Missing).unwrap_err();
    assert_eq!(e.message(), "socket_port and web_port cannot be the same");
}

#[test]
fn out_of_range_messages() {
    let e = Config::try_from(shadow(7999, 8001, ".", 60), PathKind::Directory).unwrap_err();
    assert_eq!(e.message(), r#"Config option "web_port" is out of range (min: 8000, max: 65535, val: 7999)"#);
    let e = Config::try_from(shadow(8000, 8001, ".", 1001), PathKind::Directory).unwrap_err();
    assert_eq!(e.message(), r#"Config option "poll_rate" is out of range (min: 1, max: 1000, val: 1001)"#);
    let e = Config::try_from(shadow(8000, 8001, ".", 0), PathKind::Directory).unwrap_err();
    assert_eq!(e.message(), r#"Config option "poll_rate" is out of range (min: 1, max: 1000, val: 0)"#);
    let e = check_in_range(ConfigShadowFieldName::PollRate, 1001, 1, 1000).unwrap_err();
    assert_eq!(e.message(), r#"Config option "poll_rate" is out of range (min: 1, max: 1000, val: 1001)"#);
}

#[test]
fn path_messages() {
    let e = check_valid_path(ConfigShadowFieldName::WebPath, "", PathKind::Missing).unwrap_err();
    assert_eq!(e.message(), r#"Config option "web_path" is not a valid path: "" does not exist"#);
    let e = check_valid_path(ConfigShadowFieldName::WebPath, "a.txt", PathKind::NotDirectory).unwrap_err();
    assert_eq!(e.message(), r#"Config option "web_path" is not a valid path: "a.txt" is not a directory"#);
    let e = Config::from_file(None, PathKind::Missing).unwrap_err();
    assert_eq!(e.message(), r#""./web" does not exist"#);
    let e = Config::from_file(None, PathKind::NotDirectory).unwrap_err();
    assert_eq!(e.message(), r#""./web" is not a directory"#);
    let e = ConfigError::InvalidPath { field: None, path: "x".to_string(), problem: PathProblem::DoesNotExist };
    assert_eq!(e.message(), r#""x" does not exist"#);
}

#[test]
fn config_clone_keeps_options() {
    let c = Config::try_from(shadow(9000, 9001, "w", 30), PathKind::Directory).unwrap();
    let d = c.clone();
    assert_eq!(c, d);
    assert_eq!(d.poll_rate(), 30);
}

#[test]
fn offset_lookup_messages() {
    assert_eq!(
        Offsets::default().get_sig("dwEntityList").unwrap_err().message(),
        "Signature not found: dwEntityList"
    );
    let o = Offsets::new(vec![("dwLocalPlayer".to_string(), 100)], vec![("m_iHealth".to_string(), 256)]);
    assert_eq!(o.get_var("m_iHealth"), Ok(256));
    assert_eq!(o.get_var("dwLocalPlayer").unwrap_err().message(), "netvar not found: dwLocalPlayer");
    assert_eq!(OffsetError::NetvarNotFound("x".to_string()).message(), "netvar not found: x");
}

#[test]
fn offsets_from_toml_text() {
    let text = "[timestamp]\nvalue = 1\n\n[signatures]\ndwEntityList = 81000000\ndwLocalPlayer = 14600000\n\n[netvars]\nm_iHealth = 256\nm_iTeamNum = 244\n";
    let o = get_offsets(text).unwrap();
    assert_eq!(o.get_sig("dwEntityList"), Ok(81000000));
    assert_eq!(o.get_sig("dwLocalPlayer"), Ok(14600000));
    assert_eq!(o.get_var("m_iHealth"), Ok(256));
    assert_eq!(o.get_var("m_iTeamNum"), Ok(244));
    assert!(o.get_sig("m_iHealth").is_err());
}

#[test]
fn offsets_file_errors() {
    assert_eq!(
        get_offsets("[signatures]\na = 1\n").unwrap_err(),
        OffsetsFileError::MissingTable("netvars".to_string())
    );
    assert_eq!(
        get_offsets("[netvars]\na = 1\n").unwrap_err().message(),
        "table not found: signatures"
    );
    assert_eq!(
        get_offsets("netvars = 3\n[signatures]\na = 1\n").unwrap_err(),
        OffsetsFileError::NotATable("netvars".to_string())
    );
    assert_eq!(
        get_offsets("[netvars]\nb = \"x\"\n[signatures]\na = 1.5\n").unwrap_err(),
        OffsetsFileError::NotAnInteger { table: "signatures".to_string(), name: "a".to_string() }
    );
    assert_eq!(
        get_offsets("[netvars]\nb = \"x\"\n[signatures]\na = 1\n").unwrap_err().message(),
        "not an integer: netvars.b"
    );
    assert!(matches!(get_offsets("[netvars\n"), Err(OffsetsFileError::InvalidToml(_))));
}

#[test]
fn offsets_from_parsed_document() {
    let doc = vec![
        ("netvars".to_string(), TomlSection::Table(vec![("m_iHealth".to_string(), Some(5))])),
        ("signatures".to_string(), TomlSection::Table(vec![("x".to_string(), Some(1)), ("x".to_string(), Some(2))])),
    ];
    let o = offsets_from_document(Ok(Some(doc))).unwrap();
    assert_eq!(o.get_sig("x"), Ok(2));
    assert_eq!(o.get_var("m_iHealth"), Ok(5));
    assert_eq!(
        offsets_from_document(Err("bad".to_string())).unwrap_err().message(),
        "bad"
    );
    assert_eq!(
        offsets_from_document(Ok(None)).unwrap_err(),
        OffsetsFileError::MissingTable("netvars".to_string())
    );
    let doc = vec![("netvars".to_string(), TomlSection::Other)];
    assert_eq!(offsets_from_document(Ok(Some(doc))).unwrap_err().message(), "not a table: netvars");
}
