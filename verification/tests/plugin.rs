use gmpublisher_core::plugin::{AppDataPlugin, DEAD_ITEM_ID, DEAD_ITEM_MARK, SETTINGS_MARK};

#[test]
fn init_script_fills_both_places() {
    let plugin = AppDataPlugin::init();
    let script = plugin.init_script(
        "window.AppData = {$_SETTINGS_$}; window.dead = {$_WS_DEAD_$};",
        "{\"version\":\"1.0.0\"}",
        "{\"id\":0}",
    );
    assert_eq!(
        script,
        Some("window.AppData = {\"version\":\"1.0.0\"}; window.dead = {\"id\":0};".to_string())
    );
}

#[test]
fn init_script_fills_every_occurrence() {
    let plugin = AppDataPlugin::init();
    let script = plugin.init_script("{$_WS_DEAD_$}{$_SETTINGS_$}{$_WS_DEAD_$}", "S", "D");
    assert_eq!(script, Some("DSD".to_string()));
}

#[test]
fn init_script_without_marks_is_the_template() {
    let plugin = AppDataPlugin::init();
    assert_eq!(plugin.init_script("let x = 1;", "S", "D"), Some("let x = 1;".to_string()));
}

#[test]
fn state_is_put_in_before_the_dead_item() {
    let plugin = AppDataPlugin::init();
    let script = plugin.init_script("{$_SETTINGS_$}", "{$_WS_DEAD_$}", "D");
    assert_eq!(script, Some("D".to_string()));
    let script = plugin.init_script("{$_WS_DEAD_$}", "S", "{$_SETTINGS_$}");
    assert_eq!(script, Some("{$_SETTINGS_$}".to_string()));
}

#[test]
fn marks_and_dead_item_identifier() {
    assert_eq!(SETTINGS_MARK, "{$_SETTINGS_$}");
    assert_eq!(DEAD_ITEM_MARK, "{$_WS_DEAD_$}");
    assert_eq!(DEAD_ITEM_ID, 0);
    assert_eq!(AppDataPlugin::init(), AppDataPlugin {});
}
