use rendering_engine::gui_registry::GuiItemRegistry;
use rendering_engine::ui_display::UiDisplayDescription;

fn category(name: &str) -> String {
    name.to_string()
}

#[test]
fn registering_a_new_category_reports_success() {
    let mut registry: GuiItemRegistry<u8> = GuiItemRegistry::new();
    assert!(registry.register_item(&category("gpu_params"), UiDisplayDescription::Bool(true), 1));
    assert!(registry.register_item(&category("lights"), UiDisplayDescription::Bool(false), 2));
    assert_eq!(registry.registered_items.len(), 2);
}

#[test]
fn registering_again_replaces_and_reports_failure() {
    let mut registry: GuiItemRegistry<u8> = GuiItemRegistry::new();
    assert!(registry.register_item(&category("gpu_params"), UiDisplayDescription::Bool(true), 1));
    assert!(!registry.register_item(&category("gpu_params"), UiDisplayDescription::Bool(false), 7));
    assert_eq!(registry.registered_items.len(), 1);
    assert_eq!(registry.registered_items[0].0, "gpu_params");
    assert!(matches!(registry.registered_items[0].1, UiDisplayDescription::Bool(false)));
    assert_eq!(registry.registered_items[0].2, 7);
}

#[test]
fn deregistering_removes_only_that_category() {
    let mut registry: GuiItemRegistry<u8> = GuiItemRegistry::new();
    registry.register_item(&category("a"), UiDisplayDescription::Bool(true), 1);
    registry.register_item(&category("b"), UiDisplayDescription::Bool(true), 2);
    assert!(registry.deregister_item(&category("a")));
    assert!(!registry.deregister_item(&category("a")));
    assert_eq!(registry.registered_items.len(), 1);
    assert_eq!(registry.registered_items[0].0, "b");
    assert!(!registry.deregister_item(&category("missing")));
}
