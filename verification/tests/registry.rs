use rustyflutter_build::error::BuildError;
use rustyflutter_build::manifest::{
    interpret_manifest, load_registry, select_platform, ManifestEntry, PlatformSection, RawEntry,
};

const MANIFEST: &str = "camera:\n  path: plugins/camera\n  android:\n    class: CameraPlugin\n  ios:\n    class: CameraPluginIos\n    path: ios_src\nbattery:\n  path: plugins/battery\n  android:\n    class: BatteryPlugin\n";

#[test]
fn registry_selects_only_the_active_platform() {
    let plugins = load_registry(MANIFEST, &"android".to_string()).unwrap();
    assert_eq!(plugins.len(), 2);
    assert_eq!(plugins[0].name.as_str(), "camera");
    assert_eq!(plugins[0].path.as_str(), "plugins/camera");
    assert_eq!(plugins[0].platform_name.as_str(), "android");
    assert_eq!(plugins[0].platform_info.plugin_class.as_str(), "CameraPlugin");
    assert_eq!(plugins[0].platform_path, None);
    assert_eq!(plugins[1].name.as_str(), "battery");
    assert_eq!(plugins[1].platform_info.plugin_class.as_str(), "BatteryPlugin");
}

#[test]
fn registry_filter_is_platform_pure() {
    // The ios selection is the same whatever the android sections say.
    let plugins = load_registry(MANIFEST, &"ios".to_string()).unwrap();
    assert_eq!(plugins.len(), 1);
    assert_eq!(plugins[0].name.as_str(), "camera");
    assert_eq!(plugins[0].platform_info.plugin_class.as_str(), "CameraPluginIos");
    assert_eq!(plugins[0].platform_path.as_deref(), Some("ios_src"));
}

#[test]
fn registry_excludes_plugins_without_a_section() {
    // A plugin with no section for the active platform is silently
    // excluded: that is normal, not an error.
    let text = "camera:\n  path: p\n  android:\n    class: C\n";
    let plugins = load_registry(text, &"ios".to_string()).unwrap();
    assert!(plugins.is_empty());
}

#[test]
fn registry_ignores_unknown_keys() {
    let text = "camera:\n  path: p\n  homepage: example\n  version: 3\n  android:\n    class: C\n    extra: x\n";
    let plugins = load_registry(text, &"android".to_string()).unwrap();
    assert_eq!(plugins.len(), 1);
    assert_eq!(plugins[0].platform_info.plugin_class.as_str(), "C");
}

#[test]
fn registry_fails_on_unparsable_yaml() {
    let text = "camera: [unterminated\n  - :::";
    let err = load_registry(text, &"android".to_string()).unwrap_err();
    match err {
        BuildError::ManifestParseError { text: t, .. } => {
            assert!(t.is_some());
        }
        other => panic!("unexpected error: {}", other.format_message()),
    }
}

#[test]
fn registry_fails_on_section_without_class() {
    // A platform section that IS present but misses its class fails the
    // whole registry build.
    let text = "camera:\n  path: p\n  android:\n    symbol: C\n";
    let err = load_registry(text, &"ios".to_string()).unwrap_err();
    assert!(matches!(err, BuildError::ManifestParseError { .. }));
}

#[test]
fn registry_fails_on_missing_package_path() {
    let text = "camera:\n  android:\n    class: C\n";
    let err = load_registry(text, &"android".to_string()).unwrap_err();
    assert!(matches!(err, BuildError::ManifestParseError { .. }));
}

fn entry(name: &str, path: &str, sections: &[(&str, &str)]) -> ManifestEntry {
    ManifestEntry {
        name: name.to_string(),
        package_path: path.to_string(),
        platforms: sections
            .iter()
            .map(|(p, c)| PlatformSection {
                platform: p.to_string(),
                plugin_class: c.to_string(),
                source_path: None,
            })
            .collect(),
    }
}

#[test]
fn selection_ignores_sections_for_other_platforms() {
    // Two manifests agreeing on their android sections but differing
    // arbitrarily in their ios sections select identically for android.
    let a = vec![
        entry("camera", "p1", &[("android", "A"), ("ios", "X")]),
        entry("battery", "p2", &[("ios", "Y")]),
    ];
    let b = vec![
        entry("camera", "p1", &[("android", "A")]),
        entry("battery", "p2", &[]),
    ];
    let platform = "android".to_string();
    let sa = select_platform(&a, &platform);
    let sb = select_platform(&b, &platform);
    assert_eq!(sa.len(), 1);
    assert_eq!(sb.len(), 1);
    assert_eq!(sa[0].name, sb[0].name);
    assert_eq!(sa[0].platform_info.plugin_class, sb[0].platform_info.plugin_class);
}

#[test]
fn selection_keeps_exactly_the_entries_with_a_section() {
    let entries = vec![
        entry("a", "p", &[("ios", "A")]),
        entry("b", "p", &[("android", "B")]),
        entry("c", "p", &[("ios", "C"), ("android", "D")]),
    ];
    let selected = select_platform(&entries, &"ios".to_string());
    let names: Vec<&str> = selected.iter().map(|p| p.name.as_str()).collect();
    assert_eq!(names, vec!["a", "c"]);
}

#[test]
fn interpretation_rejects_non_string_plugin_names() {
    // A top-level key that is not a string cannot name a plugin.
    let raw = vec![RawEntry { key: None, fields: Some(Vec::new()) }];
    assert!(interpret_manifest(&raw).is_err());
}

#[test]
fn registry_of_empty_manifest_is_empty() {
    let plugins = load_registry("", &"android".to_string()).unwrap();
    assert!(plugins.is_empty());
}
