use m4::mod_conf::ModConfig;

#[test]
fn default_record_describes_minimally() {
    let conf = ModConfig::default();
    assert_eq!(conf.describe(), "ModConfig { enabled: false, }");
}

#[test]
fn present_fields_are_listed_in_order() {
    let conf = ModConfig {
        enabled: true,
        includes: None,
        dll: None,
        name: Some("Song Pack".to_string()),
        description: None,
        version: Some("1.2".to_string()),
        date: None,
        author: Some("someone".to_string()),
    };
    assert_eq!(
        conf.describe(),
        "ModConfig { enabled: true, name: \"Song Pack\", version: \"1.2\", author: \"someone\", }"
    );
}

#[test]
fn file_lists_are_bracketed() {
    let conf = ModConfig {
        enabled: true,
        includes: Some(vec!["songs".to_string(), "skins".to_string()]),
        dll: Some(vec!["patch.dll".to_string()]),
        name: None,
        description: None,
        version: None,
        date: None,
        author: None,
    };
    assert_eq!(
        conf.describe(),
        "ModConfig { enabled: true, includes: [songs, skins, ], dll: [patch.dll, ], }"
    );
}
