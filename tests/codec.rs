use quotemaster::client::{
    client_from_row, client_from_rows_first, client_id_params, client_insert_params,
    client_update_params, clients_from_rows,
};
use quotemaster::model::{Client, Settings};
use quotemaster::schema::{schema_statements, CREATE_ESTIMATES, CREATE_REVENUE, CREATE_SETTINGS};
use quotemaster::settings::{
    default_settings, default_settings_params, needs_default_settings, settings_from_row,
    settings_from_rows_first, settings_params,
};
use quotemaster::value::{check_row, opt_text_value, ColumnKind, DecodeError, LookupError, Value};

fn text(s: &str) -> Value {
    Value::Text(s.to_string())
}

fn sample_client() -> Client {
    Client {
        id: None,
        name: "Ada Lovelace".to_string(),
        email: Some("ada@example.com".to_string()),
        phone: None,
        address: Some("12 Analytical Row".to_string()),
        company: None,
        created_at: None,
    }
}

fn stored_row(id: i64, c: &Client, created_at: &str) -> Vec<Value> {
    let mut row = vec![Value::Integer(id)];
    row.extend(client_insert_params(c));
    row.push(text(created_at));
    row
}

fn sample_settings() -> Settings {
    Settings {
        business_name: "Acme Builders".to_string(),
        business_owner: "Jo Smith".to_string(),
        business_email: "jo@acme.test".to_string(),
        business_phone: "0123".to_string(),
        business_address: "1 High St".to_string(),
        business_website: "acme.test".to_string(),
        vat_enabled: true,
        vat_rate: 1750,
        markup_percentage: 2500,
        currency: "EUR".to_string(),
        bank_details: "00-11-22".to_string(),
        paypal_email: "pay@acme.test".to_string(),
        logo_base64: Some("aGVsbG8=".to_string()),
        logo_path: None,
        brand_color: Some("#ff0000".to_string()),
        terms_conditions: Some("30 days".to_string()),
        payment_instructions: None,
        company_tax_id: Some("GB123".to_string()),
        company_registration: None,
    }
}

#[test]
fn insert_params_follow_column_order() {
    let p = client_insert_params(&sample_client());
    assert_eq!(
        p,
        vec![
            text("Ada Lovelace"),
            text("ada@example.com"),
            Value::Null,
            text("12 Analytical Row"),
            Value::Null,
        ]
    );
}

#[test]
fn update_params_end_with_id() {
    let p = client_update_params(42, &sample_client());
    assert_eq!(p.len(), 6);
    assert_eq!(p[5], Value::Integer(42));
    assert_eq!(p[0], text("Ada Lovelace"));
}

#[test]
fn id_params_hold_the_id() {
    assert_eq!(client_id_params(9), vec![Value::Integer(9)]);
}

#[test]
fn added_client_reads_back() {
    let c = sample_client();
    let back = client_from_row(&stored_row(3, &c, "2024-05-01 10:00:00")).unwrap();
    assert_eq!(back.id, Some(3));
    assert_eq!(back.created_at, Some("2024-05-01 10:00:00".to_string()));
    assert_eq!(back.name, c.name);
    assert_eq!(back.email, c.email);
    assert_eq!(back.phone, c.phone);
    assert_eq!(back.address, c.address);
    assert_eq!(back.company, c.company);
}

#[test]
fn updated_client_clears_optional_fields() {
    let old = stored_row(5, &sample_client(), "2024-05-01 10:00:00");
    let cleared = Client {
        id: None,
        name: "Ada King".to_string(),
        email: None,
        phone: None,
        address: None,
        company: None,
        created_at: None,
    };
    let p = client_update_params(5, &cleared);
    let mut row = vec![old[0].clone()];
    row.extend(p[..5].iter().cloned());
    row.push(old[6].clone());
    let back = client_from_row(&row).unwrap();
    assert_eq!(back.name, "Ada King");
    assert_eq!(back.email, None);
    assert_eq!(back.address, None);
    assert_eq!(back.id, Some(5));
    assert_eq!(back.created_at, Some("2024-05-01 10:00:00".to_string()));
}

#[test]
fn short_row_is_refused() {
    let row = vec![Value::Integer(1), text("x")];
    assert_eq!(
        client_from_row(&row),
        Err(DecodeError::ColumnCount { expected: 7, found: 2 })
    );
}

#[test]
fn null_name_is_refused() {
    let mut row = stored_row(1, &sample_client(), "t");
    row[1] = Value::Null;
    assert_eq!(client_from_row(&row), Err(DecodeError::ColumnType { column: 1 }));
}

#[test]
fn first_bad_column_is_reported() {
    let row = vec![Value::Integer(1), Value::Decimal(2), Value::Integer(3)];
    let kinds = vec![ColumnKind::Integer, ColumnKind::Text, ColumnKind::Text];
    assert_eq!(check_row(&row, &kinds), Err(DecodeError::ColumnType { column: 1 }));
    let good = vec![Value::Integer(1), text("a"), Value::Null];
    let kinds = vec![ColumnKind::Integer, ColumnKind::Text, ColumnKind::OptText];
    assert_eq!(check_row(&good, &kinds), Ok(()));
}

#[test]
fn optional_text_cells() {
    assert_eq!(opt_text_value(&None), Value::Null);
    assert_eq!(opt_text_value(&Some("a".to_string())), text("a"));
}

#[test]
fn missing_client_is_not_found() {
    assert_eq!(client_from_rows_first(&vec![]), Err(LookupError::NotFound));
    let bad = vec![vec![Value::Null]];
    assert_eq!(
        client_from_rows_first(&bad),
        Err(LookupError::Decode(DecodeError::ColumnCount { expected: 7, found: 1 }))
    );
}

#[test]
fn listing_keeps_row_order() {
    let a = stored_row(2, &sample_client(), "2024-05-02 00:00:00");
    let b = stored_row(1, &sample_client(), "2024-05-01 00:00:00");
    let cs = clients_from_rows(&vec![a, b]).unwrap();
    assert_eq!(cs.len(), 2);
    assert_eq!(cs[0].id, Some(2));
    assert_eq!(cs[1].id, Some(1));
    assert_eq!(clients_from_rows(&vec![]), Ok(vec![]));
}

#[test]
fn listing_reports_first_bad_row() {
    let good = stored_row(2, &sample_client(), "t");
    let mut bad = stored_row(1, &sample_client(), "t");
    bad[0] = text("one");
    assert_eq!(
        clients_from_rows(&vec![good, bad]),
        Err(DecodeError::ColumnType { column: 0 })
    );
}

#[test]
fn settings_round_trip_every_field() {
    let s = sample_settings();
    let row = settings_params(&s);
    assert_eq!(row[6], Value::Integer(1));
    assert_eq!(row[7], Value::Decimal(1750));
    assert_eq!(settings_from_row(&row), Ok(s));
}

#[test]
fn settings_flag_off_is_stored_as_zero() {
    let mut s = sample_settings();
    s.vat_enabled = false;
    let row = settings_params(&s);
    assert_eq!(row[6], Value::Integer(0));
    assert_eq!(settings_from_row(&row).unwrap().vat_enabled, false);
}

#[test]
fn nonzero_flag_reads_as_true() {
    let mut row = settings_params(&default_settings());
    row[6] = Value::Integer(5);
    assert!(settings_from_row(&row).unwrap().vat_enabled);
}

#[test]
fn default_settings_values() {
    let s = default_settings();
    assert_eq!(s.business_name, "");
    assert_eq!(s.business_website, "");
    assert!(!s.vat_enabled);
    assert_eq!(s.vat_rate, 2000);
    assert_eq!(s.markup_percentage, 3000);
    assert_eq!(s.currency, "GBP");
    assert_eq!(s.bank_details, "");
    assert_eq!(s.paypal_email, "");
    assert_eq!(s.brand_color, Some("#2563eb".to_string()));
    assert_eq!(s.logo_base64, None);
    assert_eq!(s.company_registration, None);
}

#[test]
fn seeded_row_reads_as_defaults() {
    let row = default_settings_params();
    assert_eq!(row.len(), 19);
    assert_eq!(settings_from_row(&row), Ok(default_settings()));
    assert_eq!(settings_from_rows_first(&vec![row]), Ok(default_settings()));
}

#[test]
fn absent_settings_are_not_found() {
    assert_eq!(settings_from_rows_first(&vec![]), Err(LookupError::NotFound));
}

#[test]
fn seeding_decision() {
    assert!(needs_default_settings(Some(0)));
    assert!(needs_default_settings(None));
    assert!(!needs_default_settings(Some(1)));
}

#[test]
fn schema_has_every_table_and_index() {
    let s = schema_statements();
    assert_eq!(s.len(), 11);
    assert!(s[0].contains("CREATE TABLE IF NOT EXISTS clients"));
    assert!(s[7].contains("CHECK (id = 1)"));
    assert!(s[10].contains("idx_products_supplier"));
    assert!(CREATE_ESTIMATES.contains("ON DELETE CASCADE"));
    assert!(!CREATE_REVENUE.contains("ON DELETE CASCADE"));
    assert!(CREATE_SETTINGS.contains("DEFAULT '#2563eb'"));
}
