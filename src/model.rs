use vstd::prelude::*;

verus! {

/// A customer of the business.
///
/// `id` and `created_at` are assigned by the store when the client is added;
/// a record handed to the store for adding or updating leaves them unread.
#[derive(Clone, Debug, PartialEq, Eq)]
pub struct Client {
    pub id: Option<i64>,
    pub name: String,
    pub email: Option<String>,
    pub phone: Option<String>,
    pub address: Option<String>,
    pub company: Option<String>,
    pub created_at: Option<String>,
}

/// One line of an estimate. Amounts and quantities are fixed-point numbers
/// with two fractional digits, scaled by one hundred.
#[derive(Clone, Debug, PartialEq, Eq)]
pub struct EstimateItem {
    pub id: Option<i64>,
    pub estimate_id: Option<i64>,
    pub description: String,
    pub quantity: i64,
    pub unit: String,
    pub unit_price: i64,
    pub cost_price: Option<i64>,
    pub discount: Option<i64>,
    pub section: Option<String>,
}

/// A quote for a client. Amounts are scaled by one hundred.
#[derive(Clone, Debug, PartialEq, Eq)]
pub struct Estimate {
    pub id: Option<i64>,
    pub number: String,
    pub client_id: i64,
    pub date: String,
    pub validity_date: Option<String>,
    pub deposit_amount: Option<i64>,
    pub subtotal: i64,
    pub vat_amount: i64,
    pub total: i64,
    pub status: String,
    pub notes: Option<String>,
    pub payment_terms: Option<String>,
    pub terms_conditions: Option<String>,
    pub created_at: Option<String>,
    pub items: Option<Vec<EstimateItem>>,
}

/// One line of an invoice. Amounts and quantities are scaled by one hundred.
#[derive(Clone, Debug, PartialEq, Eq)]
pub struct InvoiceItem {
    pub id: Option<i64>,
    pub invoice_id: Option<i64>,
    pub description: String,
    pub quantity: i64,
    pub unit: String,
    pub unit_price: i64,
}

/// A bill sent to a client. Amounts are scaled by one hundred.
#[derive(Clone, Debug, PartialEq, Eq)]
pub struct Invoice {
    pub id: Option<i64>,
    pub number: String,
    pub client_id: i64,
    pub date: String,
    pub due_date: String,
    pub subtotal: i64,
    pub vat_amount: i64,
    pub total: i64,
    pub status: String,
    pub payment_method: Option<String>,
    pub paid_date: Option<String>,
    pub notes: Option<String>,
    pub created_at: Option<String>,
    pub items: Option<Vec<InvoiceItem>>,
}

/// An article of the catalogue. Prices and rates are scaled by one hundred.
#[derive(Clone, Debug, PartialEq, Eq)]
pub struct Product {
    pub id: Option<i64>,
    pub sku: String,
    pub name: String,
    pub description: Option<String>,
    pub category: String,
    pub supplier: String,
    pub unit_price: i64,
    pub unit: String,
    pub vat_rate: Option<i64>,
    pub image_url: Option<String>,
    pub supplier_url: Option<String>,
    pub feed_source: String,
    pub last_updated: String,
}

/// A recorded sale. Amounts and the markup are scaled by one hundred.
#[derive(Clone, Debug, PartialEq, Eq)]
pub struct Revenue {
    pub id: Option<i64>,
    pub date: String,
    pub invoice_number: String,
    pub client_id: i64,
    pub total: i64,
    pub cost: i64,
    pub profit: i64,
    pub markup_percentage: i64,
    pub payment_method: String,
}

/// The business-wide configuration, kept as a single stored row.
///
/// `vat_rate` and `markup_percentage` are percentages scaled by one hundred
/// (`2000` is 20%).
#[derive(Clone, Debug, PartialEq, Eq)]
pub struct Settings {
    pub business_name: String,
    pub business_owner: String,
    pub business_email: String,
    pub business_phone: String,
    pub business_address: String,
    pub business_website: String,
    pub vat_enabled: bool,
    pub vat_rate: i64,
    pub markup_percentage: i64,
    pub currency: String,
    pub bank_details: String,
    pub paypal_email: String,
    pub logo_base64: Option<String>,
    pub logo_path: Option<String>,
    pub brand_color: Option<String>,
    pub terms_conditions: Option<String>,
    pub payment_instructions: Option<String>,
    pub company_tax_id: Option<String>,
    pub company_registration: Option<String>,
}

} // verus!
