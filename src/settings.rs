use vstd::prelude::*;

use crate::model::Settings;
use crate::value::{
    check_row, decimal_at, fits, integer_at, is_row_error, opt_text, opt_text_at, opt_text_of,
    opt_text_value, row_fits, text_at, ColumnKind, DecodeError, LookupError, Value,
};

verus! {

/// The settings row, its columns in the order of `settings_kinds`.
pub const SELECT_SETTINGS: &'static str =
    "SELECT business_name, business_owner, business_email, business_phone, business_address, \
     business_website, vat_enabled, vat_rate, markup_percentage, currency, \
     bank_details, paypal_email, logo_base64, logo_path, brand_color, \
     terms_conditions, payment_instructions, company_tax_id, company_registration \
     FROM settings WHERE id = 1";

/// The number of settings rows.
pub const COUNT_SETTINGS: &'static str = "SELECT COUNT(*) FROM settings WHERE id = 1";

/// Replaces every field of the settings row; the parameters are those of
/// `settings_params`.
pub const UPDATE_SETTINGS: &'static str =
    "UPDATE settings SET business_name = ?1, business_owner = ?2, business_email = ?3, \
     business_phone = ?4, business_address = ?5, business_website = ?6, vat_enabled = ?7, \
     vat_rate = ?8, markup_percentage = ?9, currency = ?10, bank_details = ?11, \
     paypal_email = ?12, logo_base64 = ?13, logo_path = ?14, brand_color = ?15, \
     terms_conditions = ?16, payment_instructions = ?17, company_tax_id = ?18, \
     company_registration = ?19 WHERE id = 1";

/// Creates the settings row; the parameters are those of `default_settings_params`.
pub const INSERT_SETTINGS: &'static str =
    "INSERT INTO settings (id, business_name, business_owner, business_email, business_phone, \
     business_address, business_website, vat_enabled, vat_rate, markup_percentage, currency, \
     bank_details, paypal_email, logo_base64, logo_path, brand_color, terms_conditions, \
     payment_instructions, company_tax_id, company_registration) \
     VALUES (1, ?1, ?2, ?3, ?4, ?5, ?6, ?7, ?8, ?9, ?10, ?11, ?12, ?13, ?14, ?15, ?16, ?17, ?18, ?19)";

/// The value-added tax rate of fresh settings: 20%, scaled by one hundred.
pub const DEFAULT_VAT_RATE: i64 = 2000;

/// The markup of fresh settings: 30%, scaled by one hundred.
pub const DEFAULT_MARKUP_PERCENTAGE: i64 = 3000;

/// The columns of the settings row, in the order of `SELECT_SETTINGS`.
pub open spec fn settings_kinds() -> Seq<ColumnKind> {
    seq![
        ColumnKind::Text,
        ColumnKind::Text,
        ColumnKind::Text,
        ColumnKind::Text,
        ColumnKind::Text,
        ColumnKind::Text,
        ColumnKind::Integer,
        ColumnKind::Decimal,
        ColumnKind::Decimal,
        ColumnKind::Text,
        ColumnKind::Text,
        ColumnKind::Text,
        ColumnKind::OptText,
        ColumnKind::OptText,
        ColumnKind::OptText,
        ColumnKind::OptText,
        ColumnKind::OptText,
        ColumnKind::OptText,
        ColumnKind::OptText,
    ]
}

/// The stored form of a flag: 1 for true, 0 for false.
pub open spec fn flag_value(b: bool) -> Value {
    Value::Integer(if b { 1 } else { 0 })
}

/// The row that stores `s`.
pub open spec fn settings_row(s: Settings) -> Seq<Value> {
    seq![
        Value::Text(s.business_name),
        Value::Text(s.business_owner),
        Value::Text(s.business_email),
        Value::Text(s.business_phone),
        Value::Text(s.business_address),
        Value::Text(s.business_website),
        flag_value(s.vat_enabled),
        Value::Decimal(s.vat_rate),
        Value::Decimal(s.markup_percentage),
        Value::Text(s.currency),
        Value::Text(s.bank_details),
        Value::Text(s.paypal_email),
        opt_text(s.logo_base64),
        opt_text(s.logo_path),
        opt_text(s.brand_color),
        opt_text(s.terms_conditions),
        opt_text(s.payment_instructions),
        opt_text(s.company_tax_id),
        opt_text(s.company_registration),
    ]
}

/// The settings that a stored row describes; any nonzero flag reads as true.
pub open spec fn settings_of_row(row: Seq<Value>) -> Settings {
    Settings {
        business_name: row[0]->Text_0,
        business_owner: row[1]->Text_0,
        business_email: row[2]->Text_0,
        business_phone: row[3]->Text_0,
        business_address: row[4]->Text_0,
        business_website: row[5]->Text_0,
        vat_enabled: row[6]->Integer_0 != 0,
        vat_rate: row[7]->Decimal_0,
        markup_percentage: row[8]->Decimal_0,
        currency: row[9]->Text_0,
        bank_details: row[10]->Text_0,
        paypal_email: row[11]->Text_0,
        logo_base64: opt_text_of(row[12]),
        logo_path: opt_text_of(row[13]),
        brand_color: opt_text_of(row[14]),
        terms_conditions: opt_text_of(row[15]),
        payment_instructions: opt_text_of(row[16]),
        company_tax_id: opt_text_of(row[17]),
        company_registration: opt_text_of(row[18]),
    }
}

/// The settings that a fresh store starts with: empty business details, no
/// value-added tax, a 20% tax rate, a 30% markup, pounds sterling, and the
/// default brand colour.
pub open spec fn is_default_settings(s: Settings) -> bool {
    &&& s.business_name@ == Seq::<char>::empty()
    &&& s.business_owner@ == Seq::<char>::empty()
    &&& s.business_email@ == Seq::<char>::empty()
    &&& s.business_phone@ == Seq::<char>::empty()
    &&& s.business_address@ == Seq::<char>::empty()
    &&& s.business_website@ == Seq::<char>::empty()
    &&& !s.vat_enabled
    &&& s.vat_rate == DEFAULT_VAT_RATE
    &&& s.markup_percentage == DEFAULT_MARKUP_PERCENTAGE
    &&& s.currency@ == "GBP"@
    &&& s.bank_details@ == Seq::<char>::empty()
    &&& s.paypal_email@ == Seq::<char>::empty()
    &&& s.logo_base64 is None
    &&& s.logo_path is None
    &&& s.brand_color matches Some(c) && c@ == "#2563eb"@
    &&& s.terms_conditions is None
    &&& s.payment_instructions is None
    &&& s.company_tax_id is None
    &&& s.company_registration is None
}

pub fn settings_column_kinds() -> (r: Vec<ColumnKind>)
    ensures
        r@ == settings_kinds(),
{
    let mut r: Vec<ColumnKind> = Vec::new();
    let mut i: usize = 0;
    while i < 6
        invariant
            i <= 6,
            r@ == settings_kinds().take(i as int),
        decreases 6 - i,
    {
        r.push(ColumnKind::Text);
        i = i + 1;
        assert(r@ =~= settings_kinds().take(i as int));
    }
    r.push(ColumnKind::Integer);
    r.push(ColumnKind::Decimal);
    r.push(ColumnKind::Decimal);
    r.push(ColumnKind::Text);
    r.push(ColumnKind::Text);
    r.push(ColumnKind::Text);
    assert(r@ =~= settings_kinds().take(12));
    while i < 13
        invariant
            6 <= i <= 13,
            r@ == settings_kinds().take(i as int + 6),
        decreases 13 - i,
    {
        r.push(ColumnKind::OptText);
        i = i + 1;
        assert(r@ =~= settings_kinds().take(i as int + 6));
    }
    assert(r@ =~= settings_kinds());
    r
}

/// The parameters of `UPDATE_SETTINGS` (and of `INSERT_SETTINGS`) that store `s`.
pub fn settings_params(s: &Settings) -> (r: Vec<Value>)
    ensures
        r@ == settings_row(*s),
{
    let mut r: Vec<Value> = Vec::new();
    r.push(Value::Text(s.business_name.clone()));
    r.push(Value::Text(s.business_owner.clone()));
    r.push(Value::Text(s.business_email.clone()));
    r.push(Value::Text(s.business_phone.clone()));
    r.push(Value::Text(s.business_address.clone()));
    r.push(Value::Text(s.business_website.clone()));
    r.push(Value::Integer(if s.vat_enabled { 1 } else { 0 }));
    r.push(Value::Decimal(s.vat_rate));
    r.push(Value::Decimal(s.markup_percentage));
    r.push(Value::Text(s.currency.clone()));
    r.push(Value::Text(s.bank_details.clone()));
    r.push(Value::Text(s.paypal_email.clone()));
    r.push(opt_text_value(&s.logo_base64));
    r.push(opt_text_value(&s.logo_path));
    r.push(opt_text_value(&s.brand_color));
    r.push(opt_text_value(&s.terms_conditions));
    r.push(opt_text_value(&s.payment_instructions));
    r.push(opt_text_value(&s.company_tax_id));
    r.push(opt_text_value(&s.company_registration));
    assert(r@ =~= settings_row(*s));
    r
}

/// Reads the settings row back as a record.
pub fn settings_from_row(row: &Vec<Value>) -> (r: Result<Settings, DecodeError>)
    ensures
        r is Ok <==> row_fits(settings_kinds(), row@),
        r matches Ok(s) ==> s == settings_of_row(row@),
        r matches Err(e) ==> is_row_error(settings_kinds(), row@, e),
{
    let kinds = settings_column_kinds();
    match check_row(row, &kinds) {
        Err(e) => Err(e),
        Ok(()) => {
            assert forall|i: int| 0 <= i < 19 implies fits(settings_kinds()[i], row@[i]) by {
                assert(fits(kinds@[i], row@[i]));
            }
            Ok(Settings {
                business_name: text_at(row, 0),
                business_owner: text_at(row, 1),
                business_email: text_at(row, 2),
                business_phone: text_at(row, 3),
                business_address: text_at(row, 4),
                business_website: text_at(row, 5),
                vat_enabled: integer_at(row, 6) != 0,
                vat_rate: decimal_at(row, 7),
                markup_percentage: decimal_at(row, 8),
                currency: text_at(row, 9),
                bank_details: text_at(row, 10),
                paypal_email: text_at(row, 11),
                logo_base64: opt_text_at(row, 12),
                logo_path: opt_text_at(row, 13),
                brand_color: opt_text_at(row, 14),
                terms_conditions: opt_text_at(row, 15),
                payment_instructions: opt_text_at(row, 16),
                company_tax_id: opt_text_at(row, 17),
                company_registration: opt_text_at(row, 18),
            })
        },
    }
}

/// Reads the answer to `SELECT_SETTINGS`: the first row, or `NotFound` where
/// the settings row is absent.
pub fn settings_from_rows_first(rows: &Vec<Vec<Value>>) -> (r: Result<Settings, LookupError>)
    ensures
        rows@.len() == 0 <==> r == Err::<Settings, LookupError>(LookupError::NotFound),
        rows@.len() > 0 ==> match r {
            Ok(s) => row_fits(settings_kinds(), rows@[0]@) && s == settings_of_row(rows@[0]@),
            Err(LookupError::Decode(e)) => is_row_error(settings_kinds(), rows@[0]@, e),
            Err(LookupError::NotFound) => false,
        },
{
    if rows.len() == 0 {
        return Err(LookupError::NotFound);
    }
    match settings_from_row(&rows[0]) {
        Ok(s) => Ok(s),
        Err(e) => Err(LookupError::Decode(e)),
    }
}

/// The settings that a fresh store starts with.
pub fn default_settings() -> (r: Settings)
    ensures
        is_default_settings(r),
{
    Settings {
        business_name: String::new(),
        business_owner: String::new(),
        business_email: String::new(),
        business_phone: String::new(),
        business_address: String::new(),
        business_website: String::new(),
        vat_enabled: false,
        vat_rate: DEFAULT_VAT_RATE,
        markup_percentage: DEFAULT_MARKUP_PERCENTAGE,
        currency: "GBP".to_owned(),
        bank_details: String::new(),
        paypal_email: String::new(),
        logo_base64: None,
        logo_path: None,
        brand_color: Some("#2563eb".to_owned()),
        terms_conditions: None,
        payment_instructions: None,
        company_tax_id: None,
        company_registration: None,
    }
}

/// The parameters of `INSERT_SETTINGS` that seed a fresh store; the row they
/// make reads back as the default settings.
pub fn default_settings_params() -> (r: Vec<Value>)
    ensures
        row_fits(settings_kinds(), r@),
        is_default_settings(settings_of_row(r@)),
{
    let s = default_settings();
    let r = settings_params(&s);
    proof {
        lemma_settings_round_trip(s);
    }
    r
}

/// Whether the settings row must be seeded, given the number of settings rows
/// found (`None` when the count could not be read).
pub fn needs_default_settings(count: Option<i64>) -> (r: bool)
    ensures
        r == (count is None || count == Some(0i64)),
{
    match count {
        Some(n) => n == 0,
        None => true,
    }
}

/// Storing settings and reading them back gives every field exactly, the
/// value-added tax flag included.
pub proof fn lemma_settings_round_trip(s: Settings)
    ensures
        row_fits(settings_kinds(), settings_row(s)),
        settings_of_row(settings_row(s)) == s,
{
    let row = settings_row(s);
    assert forall|i: int| 0 <= i < row.len() implies #[trigger] fits(settings_kinds()[i], row[i]) by {}
}

} // verus!
