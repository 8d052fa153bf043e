use dopamine::key_values::KeyValues;
use dopamine::netvar_manager::{ClientClass, NetvarManager, RecvProp, RecvTable, SendPropKind};
use dopamine::patterns::{find_pattern_offset, pattern_regex_source, regex_from_str, PatternError};
use dopamine::text::{chars_of, find_first, find_last, range_contains_str, range_eq_str};

fn prop(name: &str, kind: SendPropKind, offset: i32, table: Option<RecvTable>) -> RecvProp {
    RecvProp { name: name.to_string(), kind, offset, table: table.map(Box::new) }
}

#[test]
fn text_helpers() {
    let v = chars_of("a/b/c.mdl");
    assert_eq!(find_first(&v, 0, v.len(), '/'), Some(1));
    assert_eq!(find_last(&v, 0, v.len(), '/'), Some(3));
    assert_eq!(find_first(&v, 0, v.len(), '#'), None);
    assert!(range_eq_str(&v, 6, 9, "mdl"));
    assert!(!range_eq_str(&v, 5, 9, "mdl"));
    assert!(range_contains_str(&v, 0, v.len(), "c.m"));
    assert!(!range_contains_str(&v, 0, 4, "c.m"));
}

#[test]
fn byte_patterns_become_regex_sources() {
    assert_eq!(pattern_regex_source("55 ? EC"), "(?s-u)\\x55.\\xEC");
    assert_eq!(pattern_regex_source("  A1   ? ? 51 "), "(?s-u)\\xA1..\\x51");
    assert_eq!(pattern_regex_source(""), "(?s-u)");
}

#[test]
fn byte_patterns_find_first_match() {
    let bytes = [0x90u8, 0x55, 0x8B, 0xEC, 0x55, 0x00, 0xEC];
    assert_eq!(find_pattern_offset(&bytes, "55 ? EC"), Some(1));
    assert_eq!(find_pattern_offset(&bytes, "55 00"), Some(4));
    assert_eq!(find_pattern_offset(&bytes, "EC EC"), None);
    assert_eq!(find_pattern_offset(&bytes, "ZZ"), None);
    assert!(matches!(regex_from_str("ZZ"), Err(PatternError::InvalidRegex)));
    let p = regex_from_str("8B EC").ok().unwrap();
    assert_eq!(p.source(), "(?s-u)\\x8B\\xEC");
    assert_eq!(p.find_start(&bytes), Some(2));
}

#[test]
fn netvars_walk_nested_tables_and_skip_indices() {
    let nested = RecvTable {
        name: "DT_LocalPlayerExclusive".to_string(),
        props: vec![prop("m_nTickBase", SendPropKind::Int, 0x30, None)],
    };
    let not_walked = RecvTable { name: "m_hMyWeapons".to_string(), props: vec![prop("000", SendPropKind::Int, 4, None)] };
    let table = RecvTable {
        name: "DT_CSPlayer".to_string(),
        props: vec![
            prop("baseclass", SendPropKind::DataTable, 0, None),
            prop("localdata", SendPropKind::NumSendPropKinds, 0x10, Some(nested)),
            prop("m_hMyWeapons", SendPropKind::DataTable, 0x20, Some(not_walked)),
            prop("001", SendPropKind::Int, 0x24, None),
            prop("m_fFlags", SendPropKind::Int, 0x34, None),
        ],
    };
    let classes = vec![ClientClass { name: "CCSPlayer".to_string(), recv_table: table }];
    let m = NetvarManager::precache(&classes);
    assert_eq!(m.get("CCSPlayer", "m_nTickBase"), Some(0x30));
    assert_eq!(m.get("CCSPlayer", "localdata"), Some(0x10));
    assert_eq!(m.get("CCSPlayer", "m_fFlags"), Some(0x34));
    assert_eq!(m.get("CCSPlayer", "m_hMyWeapons"), Some(0x20));
    assert_eq!(m.get("CCSPlayer", "000"), None);
    assert_eq!(m.get("CCSPlayer", "001"), None);
    assert_eq!(m.get("CCSPlayer", "baseclass"), None);
    assert_eq!(m.get("CBaseEntity", "m_fFlags"), None);
    assert_eq!(m.offsets.len(), 4);
}

#[test]
fn netvars_seen_twice_keep_the_last_offset() {
    let t = |off| RecvTable { name: "DT_X".to_string(), props: vec![prop("m_iHealth", SendPropKind::Int, off, None)] };
    let classes = vec![
        ClientClass { name: "CX".to_string(), recv_table: t(8) },
        ClientClass { name: "CX".to_string(), recv_table: t(12) },
    ];
    let m = NetvarManager::precache(&classes);
    assert_eq!(m.get("CX", "m_iHealth"), Some(12));
}

#[test]
fn key_values_read_back_the_last_write() {
    let mut kv = KeyValues::new_leaked("VertexLitGeneric");
    assert_eq!(kv.shader, "VertexLitGeneric");
    assert!(kv.get("$basetexture").is_none());
    kv.set("$basetexture", "white");
    kv.set("$ignorez", "1");
    kv.set("$basetexture", "black");
    assert_eq!(kv.get("$basetexture").map(|s| s.as_str()), Some("black"));
    assert_eq!(kv.get("$ignorez").map(|s| s.as_str()), Some("1"));
    assert_eq!(kv.entries.len(), 3);
}
