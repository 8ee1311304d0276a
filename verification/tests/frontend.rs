use openbridge::frontend::{
    is_link_active, nav_link_class, not_found_path, should_be_dark, sidebar_class,
    theme_button_class, Theme,
};

#[test]
fn dark_mode() {
    assert!(should_be_dark(Theme::Dark, false));
    assert!(!should_be_dark(Theme::Light, true));
    assert!(should_be_dark(Theme::System, true));
    assert!(!should_be_dark(Theme::System, false));
}

#[test]
fn theme_buttons() {
    assert_eq!(
        theme_button_class(Theme::Dark, Theme::Dark),
        "flex-1 py-1.5 text-center rounded-sm transition-all focus:outline-none text-sm bg-white dark:bg-[#4d5358] shadow-sm text-black dark:text-white"
    );
    assert_eq!(
        theme_button_class(Theme::Dark, Theme::Light),
        "flex-1 py-1.5 text-center rounded-sm transition-all focus:outline-none text-sm text-gray-500 hover:text-gray-700 dark:text-gray-400 dark:hover:text-gray-200"
    );
}

#[test]
fn navigation_links() {
    assert!(is_link_active("/", "/"));
    assert!(!is_link_active("/projects", "/"));
    assert!(is_link_active("/projects/7", "/projects"));
    assert!(!is_link_active("/settings", "/projects"));
    assert!(nav_link_class("/settings", "/settings").ends_with(" border-[#4589ff]"));
    assert!(nav_link_class("/", "/settings").ends_with(" border-transparent"));
    assert!(sidebar_class(true).ends_with("transition-transform translate-x-0"));
    assert!(sidebar_class(false).ends_with("transition-transform -translate-x-full"));
    assert_eq!(not_found_path(Some("a/b")), "/a/b");
    assert_eq!(not_found_path(None), "/");
}
