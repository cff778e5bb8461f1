use spiris_tui::auth::AuthSettings;
use spiris_tui::records::{Client, Credential, Customer, Invoice, PaginationParams};
use spiris_tui::screen::EntityKind;

#[test]
fn test_customer_default() {
    let customer = Customer::default();
    assert!(customer.id.is_none());
    assert!(customer.name.is_none());
}

#[test]
fn test_invoice_default() {
    let invoice = Invoice::default();
    assert!(invoice.id.is_none());
    assert!(invoice.customer_id.is_none());
}

#[test]
fn test_pagination_params() {
    let params = PaginationParams::new().page(2).pagesize(50);
    assert_eq!(params.page, Some(2));
    assert_eq!(params.pagesize, Some(50));
}

#[test]
fn endpoints_carry_kind_and_token() {
    let client = Client::new(Credential::new("tok".to_string(), 1000, None));
    let c = client.customers();
    let i = client.invoices();
    let a = client.articles();
    assert_eq!(c.kind, EntityKind::Customer);
    assert_eq!(i.kind, EntityKind::Invoice);
    assert_eq!(a.kind, EntityKind::Article);
    assert_eq!(a.access_token, "tok");
    let req = i.list(PaginationParams::new().pagesize(50));
    assert_eq!(req.kind, EntityKind::Invoice);
    assert_eq!(req.access_token, "tok");
    assert_eq!(req.params.pagesize, Some(50));
    assert_eq!(req.params.page, None);
}

#[test]
fn auth_settings_fall_back() {
    let s = AuthSettings::from_configured(None, None);
    assert_eq!(s.client_id, "your_client_id");
    assert_eq!(s.client_secret, "your_client_secret");
    assert_eq!(s.redirect_uri, "http://localhost:8080/callback");
    let t = AuthSettings::from_configured(Some("id".to_string()), Some(String::new()));
    assert_eq!(t.client_id, "id");
    assert_eq!(t.client_secret, "");
}

#[test]
fn required_field_counts() {
    assert_eq!(EntityKind::Customer.required_fields(), 4);
    assert_eq!(EntityKind::Invoice.required_fields(), 3);
    assert_eq!(EntityKind::Article.required_fields(), 2);
    assert!(EntityKind::Customer.field_optional(3));
    assert!(!EntityKind::Customer.field_optional(2));
}

#[test]
fn stored_record_needs_token_and_expiry() {
    let full = Credential::from_record(Some("tok".to_string()), Some(10), Some("r".to_string()));
    let c = full.expect("complete record");
    assert_eq!(c.access_token, "tok");
    assert_eq!(c.expires_at, 10);
    assert_eq!(c.refresh_token.as_deref(), Some("r"));
    assert!(Credential::from_record(None, Some(10), None).is_none());
    assert!(Credential::from_record(Some("tok".to_string()), None, None).is_none());
}
