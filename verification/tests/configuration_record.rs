//! Tests of the configuration record, the service settings and the
//! host-facing labels.

use symmetry::color_scheme::ColorScheme;
use symmetry::configuration::{Configuration, Service};
use symmetry::pages::Page;

#[test]
fn new_configuration_holds_defaults() {
    let config = Configuration::new();
    assert_eq!(config.color_scheme, ColorScheme::Default);
    assert_eq!(config.wallpaper, "");
    assert_eq!(config.active_service, Service::Git);
    assert_eq!(config.service_config.git.url, "");
    assert_eq!(config.service_config.git.username, "");
    assert!(!config.service_config.git.enabled);
    assert!(config.service_config.crdt.public_key.is_empty());
    assert!(config.service_config.crdt.secret_key.is_empty());
    assert!(!config.service_config.crdt.enabled);
}

#[test]
fn current_reads_the_saved_scheme() {
    let mut config = Configuration::new();
    config.color_scheme = ColorScheme::Dark;
    assert_eq!(ColorScheme::current(&config), ColorScheme::Dark);
    config.color_scheme = ColorScheme::Light;
    assert_eq!(ColorScheme::current(&config), ColorScheme::Light);
}

#[test]
fn color_scheme_defaults_to_unspecified() {
    assert_eq!(ColorScheme::default(), ColorScheme::Default);
}

#[test]
fn page_titles() {
    assert_eq!(Page::Welcome.title(), "Welcome");
    assert_eq!(Page::Desktop.title(), "Desktop");
    assert_eq!(Page::Services.title(), "Services");
    assert_eq!(Page::Settings.title(), "Settings");
}

#[test]
fn page_icon_names() {
    assert_eq!(Page::Welcome.icon_name(), "face-smile-big-symbolic");
    assert_eq!(Page::Desktop.icon_name(), "computer-symbolic");
    assert_eq!(Page::Services.icon_name(), "network-server-symbolic");
    assert_eq!(Page::Settings.icon_name(), "preferences-system-symbolic");
}

#[test]
fn default_page_is_welcome() {
    assert_eq!(Page::default(), Page::Welcome);
}
