use radarflow::offsets::{OffsetError, Offsets};

fn entries(v: &[(&str, i64)]) -> Vec<(String, i64)> {
    v.iter().map(|(k, x)| (k.to_string(), *x)).collect()
}

#[test]
fn finds_signatures_and_netvars() {
    let o = Offsets::new(
        entries(&[("dwEntityList", 0x4DFFF14), ("dwLocalPlayer", 0xDEA98C)]),
        entries(&[("m_iHealth", 0x100), ("m_iTeamNum", 0xF4)]),
    );
    assert_eq!(o.get_sig("dwEntityList"), Ok(0x4DFFF14));
    assert_eq!(o.get_sig("dwLocalPlayer"), Ok(0xDEA98C));
    assert_eq!(o.get_var("m_iHealth"), Ok(0x100));
    assert_eq!(o.get_var("m_iTeamNum"), Ok(0xF4));
}

#[test]
fn tables_are_separate() {
    let o = Offsets::new(entries(&[("a", 1)]), entries(&[("b", 2)]));
    assert_eq!(o.get_sig("b"), Err(OffsetError::SignatureNotFound("b".to_string())));
    assert_eq!(o.get_var("a"), Err(OffsetError::NetvarNotFound("a".to_string())));
}

#[test]
fn later_entry_wins() {
    let o = Offsets::new(entries(&[("x", 1), ("y", 5), ("x", 2)]), entries(&[]));
    assert_eq!(o.get_sig("x"), Ok(2));
    assert_eq!(o.get_sig("y"), Ok(5));
}

#[test]
fn default_is_empty() {
    let o = Offsets::default();
    assert_eq!(o.get_sig("dwEntityList"), Err(OffsetError::SignatureNotFound("dwEntityList".to_string())));
    assert_eq!(o.get_var("m_iHealth"), Err(OffsetError::NetvarNotFound("m_iHealth".to_string())));
}
