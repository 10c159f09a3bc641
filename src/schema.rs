use vstd::prelude::*;

verus! {

/// Turns on the enforcement of foreign keys, which the cascading deletes need;
/// run once on each new connection.
pub const ENABLE_FOREIGN_KEYS: &'static str = "PRAGMA foreign_keys = ON";

/// The clients table.
pub const CREATE_CLIENTS: &'static str =
    "CREATE TABLE IF NOT EXISTS clients ( \
     id INTEGER PRIMARY KEY AUTOINCREMENT, \
     name TEXT NOT NULL, \
     email TEXT, \
     phone TEXT, \
     address TEXT, \
     company TEXT, \
     created_at TEXT NOT NULL DEFAULT (datetime('now')) \
     )";

/// Estimates; removed with their client.
pub const CREATE_ESTIMATES: &'static str =
    "CREATE TABLE IF NOT EXISTS estimates ( \
     id INTEGER PRIMARY KEY AUTOINCREMENT, \
     number TEXT NOT NULL UNIQUE, \
     client_id INTEGER NOT NULL, \
     date TEXT NOT NULL, \
     validity_date TEXT, \
     deposit_amount REAL, \
     subtotal REAL NOT NULL, \
     vat_amount REAL NOT NULL, \
     total REAL NOT NULL, \
     status TEXT NOT NULL DEFAULT 'draft', \
     notes TEXT, \
     payment_terms TEXT, \
     terms_conditions TEXT, \
     created_at TEXT NOT NULL DEFAULT (datetime('now')), \
     FOREIGN KEY (client_id) REFERENCES clients (id) ON DELETE CASCADE \
     )";

/// Lines of an estimate; removed with their estimate.
pub const CREATE_ESTIMATE_ITEMS: &'static str =
    "CREATE TABLE IF NOT EXISTS estimate_items ( \
     id INTEGER PRIMARY KEY AUTOINCREMENT, \
     estimate_id INTEGER NOT NULL, \
     description TEXT NOT NULL, \
     quantity REAL NOT NULL, \
     unit TEXT NOT NULL DEFAULT 'each', \
     unit_price REAL NOT NULL, \
     cost_price REAL, \
     discount REAL DEFAULT 0, \
     section TEXT, \
     FOREIGN KEY (estimate_id) REFERENCES estimates (id) ON DELETE CASCADE \
     )";

/// Invoices; removed with their client.
pub const CREATE_INVOICES: &'static str =
    "CREATE TABLE IF NOT EXISTS invoices ( \
     id INTEGER PRIMARY KEY AUTOINCREMENT, \
     number TEXT NOT NULL UNIQUE, \
     client_id INTEGER NOT NULL, \
     date TEXT NOT NULL, \
     due_date TEXT NOT NULL, \
     subtotal REAL NOT NULL, \
     vat_amount REAL NOT NULL, \
     total REAL NOT NULL, \
     status TEXT NOT NULL DEFAULT 'pending', \
     payment_method TEXT, \
     paid_date TEXT, \
     notes TEXT, \
     created_at TEXT NOT NULL DEFAULT (datetime('now')), \
     FOREIGN KEY (client_id) REFERENCES clients (id) ON DELETE CASCADE \
     )";

/// Lines of an invoice; removed with their invoice.
pub const CREATE_INVOICE_ITEMS: &'static str =
    "CREATE TABLE IF NOT EXISTS invoice_items ( \
     id INTEGER PRIMARY KEY AUTOINCREMENT, \
     invoice_id INTEGER NOT NULL, \
     description TEXT NOT NULL, \
     quantity REAL NOT NULL, \
     unit TEXT NOT NULL DEFAULT 'each', \
     unit_price REAL NOT NULL, \
     FOREIGN KEY (invoice_id) REFERENCES invoices (id) ON DELETE CASCADE \
     )";

/// The product catalogue.
pub const CREATE_PRODUCTS: &'static str =
    "CREATE TABLE IF NOT EXISTS products ( \
     id INTEGER PRIMARY KEY AUTOINCREMENT, \
     sku TEXT NOT NULL UNIQUE, \
     name TEXT NOT NULL, \
     description TEXT, \
     category TEXT NOT NULL, \
     supplier TEXT NOT NULL, \
     unit_price REAL NOT NULL, \
     unit TEXT NOT NULL DEFAULT 'each', \
     vat_rate REAL, \
     image_url TEXT, \
     supplier_url TEXT, \
     feed_source TEXT NOT NULL DEFAULT 'manual', \
     last_updated TEXT NOT NULL DEFAULT (datetime('now')) \
     )";

/// Recorded sales; they keep a plain reference to their client.
pub const CREATE_REVENUE: &'static str =
    "CREATE TABLE IF NOT EXISTS revenue ( \
     id INTEGER PRIMARY KEY AUTOINCREMENT, \
     date TEXT NOT NULL, \
     invoice_number TEXT NOT NULL, \
     client_id INTEGER NOT NULL, \
     total REAL NOT NULL, \
     cost REAL NOT NULL DEFAULT 0, \
     profit REAL NOT NULL DEFAULT 0, \
     markup_percentage REAL NOT NULL DEFAULT 0, \
     payment_method TEXT NOT NULL, \
     FOREIGN KEY (client_id) REFERENCES clients (id) \
     )";

/// The settings table, which can hold only the row with id 1.
pub const CREATE_SETTINGS: &'static str =
    "CREATE TABLE IF NOT EXISTS settings ( \
     id INTEGER PRIMARY KEY CHECK (id = 1), \
     business_name TEXT NOT NULL DEFAULT '', \
     business_owner TEXT NOT NULL DEFAULT '', \
     business_email TEXT NOT NULL DEFAULT '', \
     business_phone TEXT NOT NULL DEFAULT '', \
     business_address TEXT NOT NULL DEFAULT '', \
     business_website TEXT NOT NULL DEFAULT '', \
     vat_enabled INTEGER NOT NULL DEFAULT 0, \
     vat_rate REAL NOT NULL DEFAULT 20.0, \
     markup_percentage REAL NOT NULL DEFAULT 30.0, \
     currency TEXT NOT NULL DEFAULT 'GBP', \
     bank_details TEXT NOT NULL DEFAULT '', \
     paypal_email TEXT NOT NULL DEFAULT '', \
     logo_base64 TEXT, \
     logo_path TEXT, \
     brand_color TEXT DEFAULT '#2563eb', \
     terms_conditions TEXT, \
     payment_instructions TEXT, \
     company_tax_id TEXT, \
     company_registration TEXT \
     )";

/// Products by stock-keeping unit.
pub const INDEX_PRODUCTS_SKU: &'static str =
    "CREATE INDEX IF NOT EXISTS idx_products_sku ON products(sku)";

/// Products by category.
pub const INDEX_PRODUCTS_CATEGORY: &'static str =
    "CREATE INDEX IF NOT EXISTS idx_products_category ON products(category)";

/// Products by supplier.
pub const INDEX_PRODUCTS_SUPPLIER: &'static str =
    "CREATE INDEX IF NOT EXISTS idx_products_supplier ON products(supplier)";
/// The statements that create the schema, in the order in which they run.
/// Each creates its table or index only where it is absent, so running all of
/// them again leaves a store as it was.
pub fn schema_statements() -> (r: Vec<&'static str>)
    ensures
        r@ == seq![
            CREATE_CLIENTS,
            CREATE_ESTIMATES,
            CREATE_ESTIMATE_ITEMS,
            CREATE_INVOICES,
            CREATE_INVOICE_ITEMS,
            CREATE_PRODUCTS,
            CREATE_REVENUE,
            CREATE_SETTINGS,
            INDEX_PRODUCTS_SKU,
            INDEX_PRODUCTS_CATEGORY,
            INDEX_PRODUCTS_SUPPLIER,
        ],
{
    let mut r: Vec<&'static str> = Vec::new();
    r.push(CREATE_CLIENTS);
    r.push(CREATE_ESTIMATES);
    r.push(CREATE_ESTIMATE_ITEMS);
    r.push(CREATE_INVOICES);
    r.push(CREATE_INVOICE_ITEMS);
    r.push(CREATE_PRODUCTS);
    r.push(CREATE_REVENUE);
    r.push(CREATE_SETTINGS);
    r.push(INDEX_PRODUCTS_SKU);
    r.push(INDEX_PRODUCTS_CATEGORY);
    r.push(INDEX_PRODUCTS_SUPPLIER);
    assert(r@ =~= seq![
        CREATE_CLIENTS,
        CREATE_ESTIMATES,
        CREATE_ESTIMATE_ITEMS,
        CREATE_INVOICES,
        CREATE_INVOICE_ITEMS,
        CREATE_PRODUCTS,
        CREATE_REVENUE,
        CREATE_SETTINGS,
        INDEX_PRODUCTS_SKU,
        INDEX_PRODUCTS_CATEGORY,
        INDEX_PRODUCTS_SUPPLIER,
    ]);
    r
}

} // verus!
