use vstd::prelude::*;

use crate::model::Client;
use crate::value::{
    check_row, fits, integer_at, is_row_error, opt_text, opt_text_at, opt_text_of, opt_text_value,
    row_fits, text_at, ColumnKind, DecodeError, LookupError, Value,
};

verus! {

/// All clients, most recently created first. Creation times are kept to the
/// second, so clients created within one second are ordered by their ids,
/// which only grow.
pub const SELECT_ALL_CLIENTS: &'static str =
    "SELECT id, name, email, phone, address, company, created_at FROM clients \
     ORDER BY created_at DESC, id DESC";

/// The client whose id is the one parameter.
pub const SELECT_CLIENT: &'static str =
    "SELECT id, name, email, phone, address, company, created_at FROM clients WHERE id = ?1";

/// Adds a client; the parameters are those of `client_insert_params`.
pub const INSERT_CLIENT: &'static str =
    "INSERT INTO clients (name, email, phone, address, company) VALUES (?1, ?2, ?3, ?4, ?5)";

/// Replaces a client's fields; the parameters are those of `client_update_params`.
pub const UPDATE_CLIENT: &'static str =
    "UPDATE clients SET name = ?1, email = ?2, phone = ?3, address = ?4, company = ?5 WHERE id = ?6";

/// Removes the client whose id is the one parameter.
pub const DELETE_CLIENT: &'static str = "DELETE FROM clients WHERE id = ?1";

/// The columns that the client queries select, in order:
/// id, name, email, phone, address, company, created_at.
pub open spec fn client_kinds() -> Seq<ColumnKind> {
    seq![
        ColumnKind::Integer,
        ColumnKind::Text,
        ColumnKind::OptText,
        ColumnKind::OptText,
        ColumnKind::OptText,
        ColumnKind::OptText,
        ColumnKind::OptText,
    ]
}

/// The values of the fields that a client record sets: name, email, phone,
/// address, company.
pub open spec fn client_params(c: Client) -> Seq<Value> {
    seq![
        Value::Text(c.name),
        opt_text(c.email),
        opt_text(c.phone),
        opt_text(c.address),
        opt_text(c.company),
    ]
}

/// The client that a selected row describes.
pub open spec fn client_of_row(row: Seq<Value>) -> Client {
    Client {
        id: Some(row[0]->Integer_0),
        name: row[1]->Text_0,
        email: opt_text_of(row[2]),
        phone: opt_text_of(row[3]),
        address: opt_text_of(row[4]),
        company: opt_text_of(row[5]),
        created_at: opt_text_of(row[6]),
    }
}

/// The row that the store holds after adding `c` under `id` at `created_at`.
pub open spec fn inserted_client_row(id: i64, c: Client, created_at: String) -> Seq<Value> {
    seq![Value::Integer(id)] + client_params(c) + seq![Value::Text(created_at)]
}

/// The row that the store holds after updating the row `old` with `c`: the
/// id and the creation time stay, every other column is replaced.
pub open spec fn updated_client_row(old: Seq<Value>, c: Client) -> Seq<Value> {
    seq![old[0]] + client_params(c) + seq![old[6]]
}

pub fn client_column_kinds() -> (r: Vec<ColumnKind>)
    ensures
        r@ == client_kinds(),
{
    let mut r: Vec<ColumnKind> = Vec::new();
    r.push(ColumnKind::Integer);
    r.push(ColumnKind::Text);
    r.push(ColumnKind::OptText);
    r.push(ColumnKind::OptText);
    r.push(ColumnKind::OptText);
    r.push(ColumnKind::OptText);
    r.push(ColumnKind::OptText);
    assert(r@ =~= client_kinds());
    r
}

/// The parameters of `INSERT_CLIENT` for `c`.
pub fn client_insert_params(c: &Client) -> (r: Vec<Value>)
    ensures
        r@ == client_params(*c),
{
    let mut r: Vec<Value> = Vec::new();
    r.push(Value::Text(c.name.clone()));
    r.push(opt_text_value(&c.email));
    r.push(opt_text_value(&c.phone));
    r.push(opt_text_value(&c.address));
    r.push(opt_text_value(&c.company));
    assert(r@ =~= client_params(*c));
    r
}

/// The parameters of `UPDATE_CLIENT` that give the client `id` the fields of `c`.
pub fn client_update_params(id: i64, c: &Client) -> (r: Vec<Value>)
    ensures
        r@ == client_params(*c).push(Value::Integer(id)),
{
    let mut r = client_insert_params(c);
    r.push(Value::Integer(id));
    r
}

/// The parameters of `SELECT_CLIENT` and `DELETE_CLIENT` for the client `id`.
pub fn client_id_params(id: i64) -> (r: Vec<Value>)
    ensures
        r@ == seq![Value::Integer(id)],
{
    let mut r: Vec<Value> = Vec::new();
    r.push(Value::Integer(id));
    assert(r@ =~= seq![Value::Integer(id)]);
    r
}

/// Reads a selected row back as a client.
pub fn client_from_row(row: &Vec<Value>) -> (r: Result<Client, DecodeError>)
    ensures
        r is Ok <==> row_fits(client_kinds(), row@),
        r matches Ok(c) ==> c == client_of_row(row@),
        r matches Err(e) ==> is_row_error(client_kinds(), row@, e),
{
    let kinds = client_column_kinds();
    match check_row(row, &kinds) {
        Err(e) => Err(e),
        Ok(()) => {
            assert(fits(client_kinds()[0], row@[0]));
            assert(fits(client_kinds()[1], row@[1]));
            Ok(Client {
                id: Some(integer_at(row, 0)),
                name: text_at(row, 1),
                email: opt_text_at(row, 2),
                phone: opt_text_at(row, 3),
                address: opt_text_at(row, 4),
                company: opt_text_at(row, 5),
                created_at: opt_text_at(row, 6),
            })
        },
    }
}

/// Reads the answer to `SELECT_CLIENT`: the first row, or `NotFound` where no
/// client has the id.
pub fn client_from_rows_first(rows: &Vec<Vec<Value>>) -> (r: Result<Client, LookupError>)
    ensures
        rows@.len() == 0 <==> r == Err::<Client, LookupError>(LookupError::NotFound),
        rows@.len() > 0 ==> match r {
            Ok(c) => row_fits(client_kinds(), rows@[0]@) && c == client_of_row(rows@[0]@),
            Err(LookupError::Decode(e)) => is_row_error(client_kinds(), rows@[0]@, e),
            Err(LookupError::NotFound) => false,
        },
{
    if rows.len() == 0 {
        return Err(LookupError::NotFound);
    }
    match client_from_row(&rows[0]) {
        Ok(c) => Ok(c),
        Err(e) => Err(LookupError::Decode(e)),
    }
}

/// Reads the rows of a client listing, keeping their order. The first row
/// that does not describe a client decides the error.
pub fn clients_from_rows(rows: &Vec<Vec<Value>>) -> (r: Result<Vec<Client>, DecodeError>)
    ensures
        r is Ok <==> forall|i: int| 0 <= i < rows@.len() ==> row_fits(client_kinds(), #[trigger] rows@[i]@),
        r matches Ok(cs) ==> cs@.len() == rows@.len() && forall|i: int|
            0 <= i < rows@.len() ==> #[trigger] cs@[i] == client_of_row(rows@[i]@),
        r matches Err(e) ==> exists|i: int|
            0 <= i < rows@.len() && is_row_error(client_kinds(), #[trigger] rows@[i]@, e) && forall|j: int|
                0 <= j < i ==> row_fits(client_kinds(), #[trigger] rows@[j]@),
{
    let mut out: Vec<Client> = Vec::new();
    let mut i: usize = 0;
    while i < rows.len()
        invariant
            i <= rows@.len(),
            out@.len() == i,
            forall|j: int| 0 <= j < i ==> row_fits(client_kinds(), #[trigger] rows@[j]@),
            forall|j: int| 0 <= j < i ==> #[trigger] out@[j] == client_of_row(rows@[j]@),
        decreases rows@.len() - i,
    {
        match client_from_row(&rows[i]) {
            Ok(c) => {
                out.push(c);
            },
            Err(e) => {
                assert(is_row_error(client_kinds(), rows@[i as int]@, e));
                assert(!row_fits(client_kinds(), rows@[i as int]@));
                return Err(e);
            },
        }
        i = i + 1;
    }
    Ok(out)
}

/// Adding a client and reading its row back gives the record that was added,
/// with the id and the creation time that the store assigned.
pub proof fn lemma_added_client_reads_back(id: i64, c: Client, created_at: String)
    ensures
        row_fits(client_kinds(), inserted_client_row(id, c, created_at)),
        client_of_row(inserted_client_row(id, c, created_at)) == (Client {
            id: Some(id),
            created_at: Some(created_at),
            ..c
        }),
{
    let row = inserted_client_row(id, c, created_at);
    assert(row =~= seq![
        Value::Integer(id),
        Value::Text(c.name),
        opt_text(c.email),
        opt_text(c.phone),
        opt_text(c.address),
        opt_text(c.company),
        Value::Text(created_at),
    ]);
    assert forall|i: int| 0 <= i < row.len() implies #[trigger] fits(client_kinds()[i], row[i]) by {}
}

/// Updating a stored client with `c` and reading its row back gives exactly
/// the fields of `c`, cleared optional fields included; the id and the
/// creation time are those of the stored row.
pub proof fn lemma_updated_client_reads_back(old: Seq<Value>, c: Client)
    requires
        row_fits(client_kinds(), old),
    ensures
        row_fits(client_kinds(), updated_client_row(old, c)),
        client_of_row(updated_client_row(old, c)) == (Client {
            id: client_of_row(old).id,
            created_at: client_of_row(old).created_at,
            ..c
        }),
{
    let row = updated_client_row(old, c);
    assert(fits(client_kinds()[0], old[0]));
    assert(fits(client_kinds()[6], old[6]));
    assert(row =~= seq![
        old[0],
        Value::Text(c.name),
        opt_text(c.email),
        opt_text(c.phone),
        opt_text(c.address),
        opt_text(c.company),
        old[6],
    ]);
    assert forall|i: int| 0 <= i < row.len() implies #[trigger] fits(client_kinds()[i], row[i]) by {}
}

} // verus!
