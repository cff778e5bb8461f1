use spiris_tui::collection::CollectionState;
use spiris_tui::records::{Credential, Customer, Invoice};
use spiris_tui::screen::{EntityKind, InputMode, Screen};
use spiris_tui::session::{App, Effect, ListOutcome};

fn signed_in() -> App {
    App::new(Some(Credential::new("tok".to_string(), 4_000_000_000, None)))
}

fn customer(id: &str, name: &str) -> Customer {
    Customer { id: Some(id.to_string()), name: Some(name.to_string()), ..Customer::default() }
}

fn type_text(app: &mut App, text: &str) {
    for c in text.chars() {
        assert!(matches!(app.handle_char(c), Effect::Nothing));
    }
}

#[test]
fn fresh_session_without_credential_starts_authorization() {
    let mut app = App::new(None);
    assert!(matches!(app.screen, Screen::Auth));
    assert!(app.client.is_none());
    let effect = app.handle_enter();
    assert!(matches!(effect, Effect::Authorize));
    assert!(app.oauth_waiting);
    assert_eq!(app.status_message.as_deref(), Some("Starting OAuth flow..."));
    // a second Enter while waiting starts no second flow
    assert!(matches!(app.handle_enter(), Effect::Nothing));
    app.authorization_started("https://auth.example/authorize?state=x".to_string());
    assert!(app.oauth_waiting);
    assert_eq!(app.oauth_url.as_deref(), Some("https://auth.example/authorize?state=x"));
    assert_eq!(app.status_message.as_deref(), Some("Copy the URL above and open in browser"));
}

#[test]
fn authorization_failure_allows_retry() {
    let mut app = App::new(None);
    app.handle_enter();
    app.authorization_failed("bad config".to_string());
    assert!(!app.oauth_waiting);
    assert_eq!(app.error_message.as_deref(), Some("Failed to start authorization: bad config"));
    assert!(matches!(app.handle_enter(), Effect::Authorize));
}

#[test]
fn stored_credential_opens_home() {
    let app = signed_in();
    assert!(matches!(app.screen, Screen::Home));
    let saved = app.save_token().expect("credential");
    assert_eq!(saved.access_token, "tok");
    assert!(App::new(None).save_token().is_none());
}

#[test]
fn empty_customer_load_shows_empty_list() {
    let mut app = signed_in();
    let effect = app.handle_enter(); // home entry 0: customers
    assert!(matches!(app.screen, Screen::Customers));
    match effect {
        Effect::Load(req) => {
            assert_eq!(req.kind, EntityKind::Customer);
            assert_eq!(req.access_token, "tok");
            assert_eq!(req.params.pagesize, Some(50));
        },
        other => panic!("expected a load, got {:?}", other),
    }
    assert!(app.customers.loading);
    app.apply_list(ListOutcome::Customers(Vec::new()));
    assert!(app.customers.is_empty());
    assert_eq!(app.customers.selected, 0);
    assert!(!app.customers.loading);
    assert!(app.error_message.is_none());
    assert!(app.customers.last_error.is_none());
    // Enter on an empty list opens nothing
    assert!(matches!(app.handle_enter(), Effect::Nothing));
    assert!(matches!(app.screen, Screen::Customers));
}

#[test]
fn create_customer_form_submits_once() {
    let mut app = signed_in();
    app.screen = Screen::Customers;
    assert!(matches!(app.handle_char('n'), Effect::Nothing));
    assert!(matches!(app.screen, Screen::CustomerCreate));
    assert_eq!(app.input_mode, InputMode::Editing);
    let inputs = ["Acme", "a@acme.com", "", ""];
    let mut submitted = None;
    for (i, text) in inputs.iter().enumerate() {
        type_text(&mut app, text);
        let effect = app.handle_enter();
        if i + 1 < inputs.len() {
            assert!(matches!(effect, Effect::Nothing));
            assert_eq!(app.form.cursor(), i + 1);
        } else {
            submitted = Some(effect);
        }
    }
    let req = match submitted {
        Some(Effect::Create(req)) => req,
        other => panic!("expected a create call, got {:?}", other),
    };
    assert_eq!(req.kind, EntityKind::Customer);
    assert_eq!(
        req.fields,
        vec![Some("Acme".to_string()), Some("a@acme.com".to_string()), Some(String::new()), None]
    );
    assert_eq!(app.input_mode, InputMode::Normal);
    assert_eq!(app.form.cursor(), 0);
    let next = app.finish_create(EntityKind::Customer, Ok(()));
    assert!(matches!(app.screen, Screen::Customers));
    assert!(matches!(next, Effect::Load(ref r) if r.kind == EntityKind::Customer));
    assert_eq!(app.status_message.as_deref(), Some("Customer created successfully"));
    assert!(app.customers.loading);
}

#[test]
fn one_field_short_does_not_submit() {
    let mut app = signed_in();
    app.screen = Screen::Invoices;
    app.handle_char('n');
    for _ in 0..2 {
        assert!(matches!(app.handle_enter(), Effect::Nothing));
    }
    assert_eq!(app.input_mode, InputMode::Editing);
    assert!(matches!(app.handle_enter(), Effect::Create(_)));
    assert_eq!(app.input_mode, InputMode::Normal);
}

#[test]
fn failed_create_keeps_screen_and_clears_form() {
    let mut app = signed_in();
    app.screen = Screen::Customers;
    app.handle_char('n');
    for _ in 0..4 {
        app.handle_enter();
    }
    let next = app.finish_create(EntityKind::Customer, Err("409 conflict".to_string()));
    assert!(matches!(next, Effect::Nothing));
    assert!(matches!(app.screen, Screen::CustomerCreate));
    assert_eq!(app.error_message.as_deref(), Some("Failed to create customer: 409 conflict"));
    assert_eq!(app.input_mode, InputMode::Normal);
    assert_eq!(app.form.cursor(), 0);
}

#[test]
fn two_refreshes_last_result_wins() {
    let mut app = signed_in();
    app.screen = Screen::Customers;
    let first = app.handle_char('r');
    let second = app.handle_char('r');
    assert!(matches!(first, Effect::Refresh(ref r) if r.kind == EntityKind::Customer));
    assert!(matches!(second, Effect::Refresh(ref r) if r.kind == EntityKind::Customer));
    app.apply_list(ListOutcome::Customers(vec![customer("1", "A"), customer("2", "B")]));
    app.customers.selected = 1;
    app.apply_list(ListOutcome::Customers(vec![customer("3", "C")]));
    assert_eq!(app.customers.items.len(), 1);
    assert_eq!(app.customers.items[0].id.as_deref(), Some("3"));
    assert_eq!(app.customers.selected, 0);
    // the other order
    app.apply_list(ListOutcome::Customers(vec![customer("1", "A"), customer("2", "B")]));
    assert_eq!(app.customers.items.len(), 2);
    assert_eq!(app.customers.selected, 0);
}

#[test]
fn refresh_needs_a_client_and_a_list() {
    let mut app = App::new(None);
    app.screen = Screen::Customers;
    assert!(matches!(app.handle_char('r'), Effect::Nothing));
    let mut signed = signed_in();
    assert!(matches!(signed.handle_char('r'), Effect::Nothing));
}

#[test]
fn failed_load_keeps_items() {
    let mut app = signed_in();
    app.apply_list(ListOutcome::Customers(vec![customer("1", "A")]));
    app.load_customers();
    app.apply_list(ListOutcome::Failed(EntityKind::Customer, "timeout".to_string()));
    assert_eq!(app.customers.items.len(), 1);
    assert!(!app.customers.loading);
    assert_eq!(app.customers.last_error.as_deref(), Some("timeout"));
    assert_eq!(app.error_message.as_deref(), Some("Failed to load customers: timeout"));
}

#[test]
fn escape_while_editing_discards_everything() {
    let mut app = signed_in();
    app.screen = Screen::Customers;
    app.handle_char('n');
    type_text(&mut app, "Acme");
    app.handle_enter();
    type_text(&mut app, "mail");
    assert_eq!(app.form.live, "mail");
    app.handle_escape();
    assert_eq!(app.input_mode, InputMode::Normal);
    assert_eq!(app.form.cursor(), 0);
    assert!(app.form.live.is_empty());
    assert!(matches!(app.screen, Screen::CustomerCreate));
}

#[test]
fn backspace_removes_last_typed_character() {
    let mut app = signed_in();
    app.screen = Screen::Invoices;
    app.handle_char('n');
    type_text(&mut app, "ab");
    app.handle_backspace();
    assert_eq!(app.form.live, "a");
    app.handle_backspace();
    app.handle_backspace();
    assert_eq!(app.form.live, "");
}

#[test]
fn escape_remembers_one_hop() {
    let mut app = signed_in();
    app.screen = Screen::Customers;
    app.apply_list(ListOutcome::Customers(vec![customer("c-7", "A")]));
    app.handle_enter();
    match &app.screen {
        Screen::CustomerDetail(id) => assert_eq!(id, "c-7"),
        other => panic!("expected the detail screen, got {:?}", other),
    }
    app.error_message = Some("stale".to_string());
    app.handle_escape();
    assert!(matches!(app.screen, Screen::Customers));
    assert!(app.error_message.is_none());
    app.handle_escape();
    assert!(matches!(app.screen, Screen::Home));
}

#[test]
fn quit_only_outside_forms() {
    let mut app = signed_in();
    assert!(app.can_quit());
    app.screen = Screen::Customers;
    app.handle_char('n');
    assert!(!app.can_quit());
    app.handle_escape();
    assert!(app.can_quit());
}

#[test]
fn moves_stay_in_range() {
    let mut app = signed_in();
    app.screen = Screen::Customers;
    app.handle_up();
    app.handle_down();
    assert_eq!(app.customers.selected, 0);
    app.apply_list(ListOutcome::Customers(vec![customer("1", "A"), customer("2", "B")]));
    app.handle_down();
    app.handle_down();
    app.handle_down();
    assert_eq!(app.customers.selected, 1);
    app.handle_up();
    app.handle_up();
    assert_eq!(app.customers.selected, 0);
    let mut home = signed_in();
    for _ in 0..10 {
        home.handle_down();
    }
    assert_eq!(home.menu_selected, 4);
}

#[test]
fn move_repairs_out_of_range_selection() {
    let mut c: CollectionState<Invoice> = CollectionState::new();
    c.selected = 3;
    c.move_down();
    assert_eq!(c.selected, 0);
    c.items = vec![Invoice::default(), Invoice::default()];
    c.selected = 9;
    c.move_up();
    assert_eq!(c.selected, 1);
}

#[test]
fn cycling_round_trip() {
    let starts = [Screen::Home, Screen::Customers, Screen::Invoices, Screen::Articles, Screen::Help];
    for start in starts.iter() {
        for n in 0..7 {
            let mut app = signed_in();
            app.screen = start.clone();
            for _ in 0..n {
                app.next_screen();
            }
            for _ in 0..n {
                app.previous_screen();
            }
            assert_eq!(format!("{:?}", app.screen), format!("{:?}", start));
        }
    }
}

#[test]
fn cycling_order_and_loads() {
    let mut app = signed_in();
    assert!(matches!(app.next_screen(), Effect::Load(ref r) if r.kind == EntityKind::Customer));
    assert!(matches!(app.screen, Screen::Customers));
    app.next_screen();
    app.next_screen();
    assert!(matches!(app.screen, Screen::Articles));
    assert!(matches!(app.next_screen(), Effect::Nothing));
    assert!(matches!(app.screen, Screen::Help));
    app.next_screen();
    assert!(matches!(app.screen, Screen::Home));
    assert!(matches!(app.previous_screen(), Effect::Nothing));
    assert!(matches!(app.screen, Screen::Help));
}

#[test]
fn cycling_needs_a_client() {
    let mut app = App::new(None);
    app.next_screen();
    assert!(matches!(app.screen, Screen::Auth));
    app.screen = Screen::Home;
    app.next_screen();
    assert!(matches!(app.screen, Screen::Home));
}

#[test]
fn home_menu_opens_targets() {
    let mut app = signed_in();
    app.menu_selected = 2;
    assert!(matches!(app.handle_enter(), Effect::Nothing));
    assert!(matches!(app.screen, Screen::CustomerCreate));
    assert_eq!(app.input_mode, InputMode::Editing);
    assert_eq!(app.form.kind, EntityKind::Customer);
    let mut help = signed_in();
    help.menu_selected = 4;
    help.handle_enter();
    assert!(matches!(help.screen, Screen::Help));
    let mut key = signed_in();
    key.handle_char('?');
    assert!(matches!(key.screen, Screen::Help));
}

#[test]
fn article_form_submits_name_and_price() {
    let mut app = signed_in();
    app.screen = Screen::Articles;
    app.handle_char('n');
    assert!(matches!(app.screen, Screen::ArticleCreate));
    type_text(&mut app, "Widget");
    app.handle_enter();
    type_text(&mut app, "12.50");
    match app.handle_enter() {
        Effect::Create(req) => {
            assert_eq!(req.kind, EntityKind::Article);
            assert_eq!(req.fields, vec![Some("Widget".to_string()), Some("12.50".to_string())]);
        },
        other => panic!("expected a create call, got {:?}", other),
    }
}

#[test]
fn invoice_remarks_optional() {
    let mut app = signed_in();
    app.screen = Screen::Invoices;
    app.handle_char('n');
    type_text(&mut app, "c-1");
    app.handle_enter();
    app.handle_enter();
    type_text(&mut app, "100");
    match app.handle_enter() {
        Effect::Create(req) => {
            assert_eq!(req.fields, vec![Some("c-1".to_string()), None, Some("100".to_string())]);
        },
        other => panic!("expected a create call, got {:?}", other),
    }
}

#[test]
fn form_without_client_is_not_sent() {
    let mut app = App::new(None);
    app.screen = Screen::Articles;
    app.handle_char('n');
    app.handle_enter();
    assert!(matches!(app.handle_enter(), Effect::Nothing));
    assert_eq!(app.input_mode, InputMode::Normal);
}
