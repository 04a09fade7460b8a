use yew_styles::utils::StyleRegistry;

fn write(registry: &mut StyleRegistry, style: &str, value: &str, wrap: &str) {
    registry.create_style(style.to_string(), value.to_string(), wrap.to_string());
}

#[test]
fn a_new_registry_holds_nothing() {
    let registry = StyleRegistry::new();
    assert_eq!(registry.get("navbar", "position"), None);
    assert!(registry.entries().is_empty());
}

#[test]
fn create_style_files_a_value() {
    let mut registry = StyleRegistry::new();
    write(&mut registry, "position", "fixed", "navbar");
    assert_eq!(registry.get("navbar", "position"), Some("fixed".to_string()));
    assert_eq!(registry.get("navbar", "top"), None);
    assert_eq!(registry.get("sidebar", "position"), None);
    assert_eq!(registry.get("position", "navbar"), None);
}

#[test]
fn the_last_write_to_a_key_wins() {
    let mut registry = StyleRegistry::new();
    write(&mut registry, "position", "fixed", "navbar");
    write(&mut registry, "top", "0", "navbar");
    write(&mut registry, "position", "inherit", "navbar");
    assert_eq!(registry.get("navbar", "position"), Some("inherit".to_string()));
    assert_eq!(registry.get("navbar", "top"), Some("0".to_string()));
    write(&mut registry, "position", "fixed", "navbar");
    assert_eq!(registry.get("navbar", "position"), Some("fixed".to_string()));
    assert_eq!(registry.entries().len(), 2);
}

#[test]
fn names_keep_their_own_values() {
    let mut registry = StyleRegistry::new();
    write(&mut registry, "position", "fixed", "navbar");
    write(&mut registry, "position", "sticky", "sidebar");
    assert_eq!(registry.get("navbar", "position"), Some("fixed".to_string()));
    assert_eq!(registry.get("sidebar", "position"), Some("sticky".to_string()));
    write(&mut registry, "position", "inherit", "navbar");
    assert_eq!(registry.get("sidebar", "position"), Some("sticky".to_string()));
}

#[test]
fn entries_list_every_key_once() {
    let mut registry = StyleRegistry::new();
    write(&mut registry, "position", "fixed", "navbar");
    write(&mut registry, "bottom", "0", "navbar");
    write(&mut registry, "position", "inherit", "navbar");
    write(&mut registry, "position", "fixed", "sidebar");
    let mut listed: Vec<(String, String, String)> = registry
        .entries()
        .into_iter()
        .map(|entry| (entry.wrap, entry.style, entry.value))
        .collect();
    listed.sort();
    assert_eq!(
        listed,
        vec![
            ("navbar".to_string(), "bottom".to_string(), "0".to_string()),
            ("navbar".to_string(), "position".to_string(), "inherit".to_string()),
            ("sidebar".to_string(), "position".to_string(), "fixed".to_string()),
        ]
    );
}
