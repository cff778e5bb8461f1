use spiris_tui::help::{get_context_shortcuts, get_screen_help};
use spiris_tui::screen::Screen;

#[test]
fn test_get_screen_help() {
    let help = get_screen_help(&Screen::Home);
    assert_eq!(help.title, "Home Screen");
    assert!(!help.shortcuts.is_empty());
    assert!(!help.tips.is_empty());
}

#[test]
fn test_get_context_shortcuts() {
    let shortcuts = get_context_shortcuts(&Screen::Home, false);
    assert!(shortcuts.len() > 0);
    assert!(shortcuts.iter().any(|s| s.contains("Quit")));
}

#[test]
fn test_batch_mode_shortcuts() {
    let normal = get_context_shortcuts(&Screen::Customers, false);
    let batch = get_context_shortcuts(&Screen::Customers, true);

    // Batch mode should have different shortcuts
    assert_ne!(normal, batch);
    assert!(batch.iter().any(|s| s.contains("Select")));
}

#[test]
fn form_screens_share_help() {
    let create = get_screen_help(&Screen::CustomerCreate);
    let edit = get_screen_help(&Screen::CustomerEdit("c-1".to_string()));
    assert_eq!(create.title, "Customer Form");
    assert_eq!(edit.title, "Customer Form");
    assert_eq!(create.shortcuts, edit.shortcuts);
    assert!(create.tips.contains(&"Website field is optional"));
}

#[test]
fn auth_help_lists_enter() {
    let help = get_screen_help(&Screen::Auth);
    assert_eq!(help.title, "Authentication");
    assert_eq!(help.shortcuts[0], ("Enter", "Start OAuth flow"));
    assert_eq!(help.shortcuts.len(), 2);
    assert_eq!(help.tips.len(), 3);
}

#[test]
fn detail_shortcuts_exact() {
    let s = get_context_shortcuts(&Screen::InvoiceDetail("i-9".to_string()), true);
    assert_eq!(s, vec!["q:Quit", "h:Help", "e:Edit", "x:Delete", "Esc:Back"]);
}

#[test]
fn list_shortcuts_exact() {
    let s = get_context_shortcuts(&Screen::Articles, false);
    assert_eq!(s, vec!["q:Quit", "h:Help", "n:New", "b:Batch", "f:Filter", "Enter:View"]);
    let b = get_context_shortcuts(&Screen::Articles, true);
    assert_eq!(b, vec!["q:Quit", "h:Help", "Space:Select", "b:Exit Batch", "Enter:View"]);
}

#[test]
fn other_screens_offer_back() {
    let s = get_context_shortcuts(&Screen::Help, false);
    assert_eq!(s, vec!["q:Quit", "h:Help", "Esc:Back"]);
    let e = get_context_shortcuts(&Screen::Export, false);
    assert_eq!(e, vec!["q:Quit", "h:Help", "Enter:Export", "Esc:Cancel"]);
}
