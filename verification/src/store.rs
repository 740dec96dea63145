use vstd::prelude::*;
use vstd::multiset::Multiset;
use vstd::string::StringExecFns;
use crate::product::{Product, row_of, product_bag, lemma_product_bag_push, lemma_empty_bag_empty_seq};

verus! {

#[verifier::external_type_specification]
#[verifier::external_body]
pub struct ExConnection(rusqlite::Connection);

#[verifier::external_type_specification]
#[verifier::external_body]
pub struct ExRusqliteError(rusqlite::Error);

/// What the product table of this connection's database holds, as an
/// unordered bag of rows. Row order inside the engine carries no meaning.
/// Reading the database as a function of the connection value rests on
/// the store's connection being the file's only writer — the single
/// shared, lock-guarded connection the service keeps.
pub uninterp spec fn table_rows(conn: rusqlite::Connection) -> Multiset<(Seq<char>, u64, Seq<char>)>;

/// Whether this connection's database holds a `product` table whose
/// name, price and quantity columns are plain non-key columns declared
/// exactly TEXT, INTEGER and TEXT, with no trigger and no index attached
/// to the table. Only under that schema does a write do exactly what its
/// statement says — a REAL price column would silently round large
/// integers, a trigger could add or remove rows behind a statement, and
/// a UNIQUE constraint with a REPLACE or IGNORE conflict action (always
/// backed by an index) could make an insert drop a row — so a store is
/// handed out only once all of this has been checked.
pub uninterp spec fn has_table(conn: rusqlite::Connection) -> bool;

/// The catalog rows the schema check must find: one mark per column,
/// in column-name order, and nothing else — no trigger or index mark.
pub open spec fn expected_catalog_rows() -> Seq<Seq<char>> {
    seq!["name TEXT"@, "price INTEGER"@, "quantity TEXT"@]
}

/// Every way a store operation can fail, one kind per operation:
/// opening or preparing the schema, reading rows, or writing rows.
#[derive(Clone, Copy, Debug, PartialEq, Eq)]
pub enum StoreError {
    StorageInitError,
    StorageQueryError,
    StorageWriteError,
}

/// Relies on rusqlite's Connection::open: opens the database file at
/// `path`, creating the file when it is absent, and fails on an I/O or
/// engine error. Nothing is assumed about the new connection's contents:
/// the file may already hold data, under any schema.
#[verifier::external_body]
fn open_connection(path: &str) -> Result<rusqlite::Connection, rusqlite::Error> {
    rusqlite::Connection::open(path)
}

/// Relies on rusqlite's Connection::execute running
/// `CREATE TABLE IF NOT EXISTS product`: a table of this store's schema
/// is left as it is, rows included, since the statement checks only the
/// name; and if the schema afterwards is this store's, yet was not
/// before, the statement itself created the table, empty. Whether the
/// right schema is in place is read separately, by `read_catalog_rows`.
#[verifier::external_body]
fn create_table_if_missing(conn: &mut rusqlite::Connection) -> (r: Result<(), rusqlite::Error>)
    ensures
        (r is Ok && has_table(*old(conn))) ==> has_table(*final(conn)) && table_rows(
            *final(conn),
        ) == table_rows(*old(conn)),
        (r is Ok && !has_table(*old(conn)) && has_table(*final(conn))) ==> table_rows(
            *final(conn),
        ) == Multiset::<(Seq<char>, u64, Seq<char>)>::empty(),
{
    let sql = "CREATE TABLE IF NOT EXISTS product (
        id INTEGER PRIMARY KEY,
        name TEXT NOT NULL,
        price INTEGER NOT NULL,
        quantity TEXT NOT NULL)";
    match conn.execute(sql, ()) {
        Ok(_) => Ok(()),
        Err(e) => Err(e),
    }
}

/// Relies on rusqlite's Connection::prepare and Statement::query_map over
/// SQLite's sqlite_schema and pragma_table_info: reads back one
/// `name type` mark per plain non-key name, price or quantity column of
/// the product table (views yield nothing), together with one mark per
/// trigger or index attached to that table — a UNIQUE or non-INTEGER
/// PRIMARY KEY constraint always surfaces as such an index row, and a
/// key among the three columns is dropped by the `pk = 0` filter. The
/// store's schema is in place exactly when the marks are the three
/// column marks alone.
#[verifier::external_body]
fn read_catalog_rows(conn: &rusqlite::Connection) -> (r: Result<Vec<String>, rusqlite::Error>)
    ensures
        r is Ok ==> (has_table(*conn) <==> (r->Ok_0)@.map_values(|s: String| s@)
            == expected_catalog_rows()),
{
    let sql = "SELECT ti.name || ' ' || ti.type FROM sqlite_schema AS s \
        JOIN pragma_table_info('product') AS ti \
        WHERE s.name = 'product' AND s.type = 'table' \
        AND ti.name IN ('name', 'price', 'quantity') AND ti.pk = 0 \
        UNION ALL \
        SELECT s.type FROM sqlite_schema AS s \
        WHERE s.type IN ('trigger', 'index') AND s.tbl_name = 'product' \
        ORDER BY 1";
    let mut stmt = conn.prepare(sql)?;
    let iter = stmt.query_map((), |row| row.get(0))?;
    let mut out = Vec::new();
    for t in iter {
        out.push(t?);
    }
    Ok(out)
}

/// Relies on rusqlite's Connection::execute running `DELETE FROM product`
/// without a filter: under this store's schema — no trigger that could
/// put rows back behind the statement — success leaves the product table
/// empty. The schema is never touched, whatever the outcome: plain data
/// statements run no DDL, and no trigger is there to run any either.
#[verifier::external_body]
fn delete_all_rows(conn: &mut rusqlite::Connection) -> (r: Result<(), rusqlite::Error>)
    ensures
        has_table(*final(conn)) == has_table(*old(conn)),
        (r is Ok && has_table(*old(conn))) ==> table_rows(*final(conn))
            == Multiset::<(Seq<char>, u64, Seq<char>)>::empty(),
{
    match conn.execute("DELETE FROM product", ()) {
        Ok(_) => Ok(()),
        Err(e) => Err(e),
    }
}

/// Relies on rusqlite's Connection::execute running an INSERT with three
/// bound parameters: under this store's schema — TEXT and INTEGER
/// affinity, which store bound text and integer values exactly, and no
/// trigger or conflict-resolving constraint that could add or drop a row
/// behind the statement — success adds exactly one row holding the given
/// fields verbatim, the price bits travelling as an integer. The schema
/// is never touched, whatever the outcome.
#[verifier::external_body]
fn insert_row(conn: &mut rusqlite::Connection, p: &Product) -> (r: Result<(), rusqlite::Error>)
    ensures
        has_table(*final(conn)) == has_table(*old(conn)),
        (r is Ok && has_table(*old(conn))) ==> table_rows(*final(conn)) == table_rows(
            *old(conn),
        ).insert(row_of(*p)),
{
    let bits = p.price_bits as i64;
    match conn.execute(
        "INSERT INTO product (name, price, quantity) VALUES (?1, ?2, ?3)",
        (p.name.as_str(), bits, p.quantity.as_str()),
    ) {
        Ok(_) => Ok(()),
        Err(e) => Err(e),
    }
}

/// Relies on rusqlite's Connection::prepare and Statement::query_map over
/// `SELECT name, price, quantity FROM product`: under this store's
/// schema, success yields every row of the product table exactly once,
/// in whatever order the engine picks; any unreadable cell turns the
/// whole call into an error.
#[verifier::external_body]
fn query_all_rows(conn: &rusqlite::Connection) -> (r: Result<Vec<Product>, rusqlite::Error>)
    ensures
        (r is Ok && has_table(*conn)) ==> product_bag((r->Ok_0)@) == table_rows(*conn),
{
    let mut stmt = conn.prepare("SELECT name, price, quantity FROM product")?;
    let iter = stmt.query_map((), |row| {
        let bits: i64 = row.get(1)?;
        Ok(Product { name: row.get(0)?, price_bits: bits as u64, quantity: row.get(2)? })
    })?;
    let mut out = Vec::new();
    for item in iter {
        out.push(item?);
    }
    Ok(out)
}

/// Whether the catalog rows read back from the database are exactly the
/// ones this store's schema leaves there.
fn schema_matches(marks: &Vec<String>) -> (r: bool)
    ensures
        r == (marks@.map_values(|s: String| s@) == expected_catalog_rows()),
{
    let ghost m = marks@.map_values(|s: String| s@);
    proof {
        assert(m.len() == marks@.len());
        assert(expected_catalog_rows().len() == 3);
    }
    if marks.len() != 3 {
        return false;
    }
    let ok = marks[0] == String::from_str("name TEXT") && marks[1] == String::from_str(
        "price INTEGER",
    ) && marks[2] == String::from_str("quantity TEXT");
    proof {
        assert(m[0] == marks@[0]@ && m[1] == marks@[1]@ && m[2] == marks@[2]@);
        assert(expected_catalog_rows()[0] == "name TEXT"@);
        assert(expected_catalog_rows()[1] == "price INTEGER"@);
        assert(expected_catalog_rows()[2] == "quantity TEXT"@);
        if ok {
            assert(m =~= expected_catalog_rows());
        }
    }
    ok
}

/// The persistent store: the single source of truth for the product
/// collection, owning one connection to the backing database file.
pub struct ProductStore {
    conn: rusqlite::Connection,
}

impl ProductStore {
    /// The rows the store currently holds, as an unordered bag.
    pub closed spec fn rows(self) -> Multiset<(Seq<char>, u64, Seq<char>)> {
        table_rows(self.conn)
    }

    /// A store is ready when its product table is present with this
    /// store's schema. `initialize`, the one constructor, hands out only
    /// ready stores, and every operation leaves readiness standing.
    pub closed spec fn ready(self) -> bool {
        has_table(self.conn)
    }

    /// Opens or creates the database file at `path`, makes sure the
    /// product table is present, and checks that what the catalog holds
    /// for that table is this store's own schema and nothing more; safe
    /// to call against a file that an earlier run already initialized,
    /// whose rows it leaves untouched. A file carrying a foreign schema
    /// for the product table — foreign column types, a key among the
    /// three columns, a trigger, an index — is refused: under any of
    /// those a statement could do other than what it says.
    pub fn initialize(path: &str) -> (r: Result<ProductStore, StoreError>)
        ensures
            r is Ok ==> (r->Ok_0).ready(),
            r is Err ==> r->Err_0 == StoreError::StorageInitError,
    {
        let mut conn = match open_connection(path) {
            Ok(c) => c,
            Err(_) => {
                return Err(StoreError::StorageInitError);
            },
        };
        match create_table_if_missing(&mut conn) {
            Ok(_) => {},
            Err(_) => {
                return Err(StoreError::StorageInitError);
            },
        }
        let marks = match read_catalog_rows(&conn) {
            Ok(t) => t,
            Err(_) => {
                return Err(StoreError::StorageInitError);
            },
        };
        if schema_matches(&marks) {
            Ok(ProductStore { conn })
        } else {
            Err(StoreError::StorageInitError)
        }
    }

    /// Returns every stored product. The order of the result carries no
    /// meaning; as a bag it is exactly the store's content.
    pub fn list_all(&self) -> (r: Result<Vec<Product>, StoreError>)
        requires
            self.ready(),
        ensures
            r is Ok ==> product_bag((r->Ok_0)@) == self.rows(),
            r is Err ==> r->Err_0 == StoreError::StorageQueryError,
    {
        match query_all_rows(&self.conn) {
            Ok(v) => Ok(v),
            Err(_) => Err(StoreError::StorageQueryError),
        }
    }

    /// Replaces the whole collection: deletes every row, then inserts one
    /// row per item, fields verbatim, duplicates kept. On success the
    /// store holds exactly the given items. On failure the store stays
    /// ready but its content is unspecified: the replacement is not
    /// atomic, and a failure mid-sequence can leave the table partly
    /// filled.
    pub fn replace_all(&mut self, items: &Vec<Product>) -> (r: Result<(), StoreError>)
        requires
            old(self).ready(),
        ensures
            final(self).ready(),
            r is Ok ==> final(self).rows() == product_bag(items@),
            r is Err ==> r->Err_0 == StoreError::StorageWriteError,
    {
        match delete_all_rows(&mut self.conn) {
            Ok(_) => {},
            Err(_) => {
                return Err(StoreError::StorageWriteError);
            },
        }
        let n = items.len();
        let mut i: usize = 0;
        while i < n
            invariant
                i <= n,
                n == items@.len(),
                has_table(self.conn),
                table_rows(self.conn) == product_bag(items@.take(i as int)),
            decreases n - i,
        {
            match insert_row(&mut self.conn, &items[i]) {
                Ok(_) => {},
                Err(_) => {
                    return Err(StoreError::StorageWriteError);
                },
            }
            proof {
                lemma_product_bag_push(items@.take(i as int), items@[i as int]);
                assert(items@.take(i as int).push(items@[i as int]) =~= items@.take(i as int + 1));
            }
            i = i + 1;
        }
        proof {
            assert(items@.take(n as int) =~= items@);
        }
        Ok(())
    }
}

/// Round trip: a replacement that left the table holding exactly `items`,
/// followed by a listing that read back exactly the table's rows, hands
/// the caller exactly `items`, as a bag.
pub proof fn lemma_round_trip(
    stored: Multiset<(Seq<char>, u64, Seq<char>)>,
    items: Seq<Product>,
    listed: Seq<Product>,
)
    requires
        stored == product_bag(items),
        product_bag(listed) == stored,
    ensures
        product_bag(listed) == product_bag(items),
{
}

/// Replacing the collection twice with the same items leaves the same
/// table content as replacing it once.
pub proof fn lemma_replace_idempotent(
    once: Multiset<(Seq<char>, u64, Seq<char>)>,
    twice: Multiset<(Seq<char>, u64, Seq<char>)>,
    items: Seq<Product>,
)
    requires
        once == product_bag(items),
        twice == product_bag(items),
    ensures
        once == twice,
{
}

/// Replacing the collection with nothing leaves a table whose every
/// listing is the empty sequence.
pub proof fn lemma_empty_replace(
    stored: Multiset<(Seq<char>, u64, Seq<char>)>,
    listed: Seq<Product>,
)
    requires
        stored == product_bag(Seq::<Product>::empty()),
        product_bag(listed) == stored,
    ensures
        listed =~= Seq::<Product>::empty(),
{
    lemma_empty_bag_empty_seq(listed);
}

} // verus!
