use webscale::db::Database;
use webscale::db::DbError;
use webscale::db::decode_rows;
use webscale::row::ColumnValue;
use webscale::row::DecodeError;
use webscale::row::ResultRow;
use webscale::types::Transaction;
use webscale::types::Voucher;
use webscale::workbook::get_workbook;

const VOUCHERS_SQL: &str = "SELECT v.* FROM voucher AS v";
const TRANSACTIONS_SQL: &str = "SELECT t.* FROM \"transaction\" AS t";

fn open_seeded() -> Database {
    let db = Database::sqlite_open(":memory:").unwrap();
    db.execute(
        "CREATE TABLE voucher (
            voucher_id INTEGER PRIMARY KEY,
            created_at TEXT,
            updated_at TEXT,
            date TEXT NOT NULL,
            name TEXT NOT NULL,
            notes TEXT,
            is_template INTEGER NOT NULL
        )",
    )
    .unwrap();
    db.execute(
        "CREATE TABLE \"transaction\" (
            transaction_id INTEGER PRIMARY KEY,
            kind INTEGER NOT NULL,
            account INTEGER NOT NULL,
            amount INTEGER NOT NULL,
            voucher_id INTEGER
        )",
    )
    .unwrap();
    db
}

#[test]
fn execute_rejects_a_malformed_statement() {
    let db = Database::sqlite_open(":memory:").unwrap();
    assert_eq!(db.execute("NOT A STATEMENT"), Err(DbError::Statement));
}

#[test]
fn select_all_decodes_every_row() {
    let db = open_seeded();
    db.execute(
        "INSERT INTO voucher (voucher_id, date, name, notes, is_template)
         VALUES (1, '2020-02-03', 'groceries', NULL, 0)",
    )
    .unwrap();
    db.execute(
        "INSERT INTO voucher (voucher_id, created_at, date, name, notes, is_template)
         VALUES (2, '2019-12-31', '2020-03-04', 'rent', 'monthly', 1)",
    )
    .unwrap();
    let vouchers: Vec<Voucher> = db.select_all(VOUCHERS_SQL).unwrap();
    assert_eq!(vouchers.len(), 2);
    assert_eq!(vouchers[0].voucher_id, Some(1));
    assert_eq!(vouchers[0].name, "groceries");
    assert_eq!(vouchers[0].notes, None);
    assert!(!vouchers[0].is_template);
    assert_eq!(vouchers[1].created_at, Some("2019-12-31".to_string()));
    assert_eq!(vouchers[1].notes, Some("monthly".to_string()));
    assert!(vouchers[1].is_template);
}

#[test]
fn select_all_fails_on_a_malformed_query() {
    let db = open_seeded();
    let r: Result<Vec<Voucher>, DbError> = db.select_all("SELECT * FROM missing_table");
    assert_eq!(r, Err(DbError::Statement));
}

#[test]
fn select_all_aborts_on_the_first_bad_row() {
    let db = open_seeded();
    db.execute(
        "INSERT INTO \"transaction\" (transaction_id, kind, account, amount, voucher_id)
         VALUES (1, 0, 1400, 500, 1), (2, 7, 2440, 200, 1)",
    )
    .unwrap();
    let r: Result<Vec<Transaction>, DbError> = db.select_all(TRANSACTIONS_SQL);
    assert_eq!(r, Err(DbError::Decode(DecodeError::UnknownKind(7))));
}

#[test]
fn decode_rows_returns_first_error_and_no_partial_results() {
    let mut good = ResultRow::new();
    good.push_column("kind".to_string(), ColumnValue::Integer(0));
    good.push_column("account".to_string(), ColumnValue::Integer(1));
    good.push_column("amount".to_string(), ColumnValue::Integer(2));
    let mut bad = ResultRow::new();
    bad.push_column("kind".to_string(), ColumnValue::Integer(5));
    bad.push_column("account".to_string(), ColumnValue::Integer(1));
    bad.push_column("amount".to_string(), ColumnValue::Integer(2));
    let rows = vec![good.clone(), bad, good];
    let r: Result<Vec<Transaction>, DecodeError> = decode_rows(&rows);
    assert_eq!(r, Err(DecodeError::UnknownKind(5)));
}

#[test]
fn get_workbook_assembles_the_nested_report() {
    let db = open_seeded();
    db.execute(
        "INSERT INTO voucher (voucher_id, date, name, is_template)
         VALUES (1, '2020-02-03', 'groceries', 0)",
    )
    .unwrap();
    db.execute(
        "INSERT INTO \"transaction\" (transaction_id, kind, account, amount, voucher_id)
         VALUES (1, 0, 1400, 500, 1), (2, 1, 2440, 200, 1), (3, 0, 1400, 50, 99)",
    )
    .unwrap();
    let wb = get_workbook(&db, VOUCHERS_SQL, TRANSACTIONS_SQL).unwrap();
    assert_eq!(wb.vouchers.len(), 1);
    let attached = &wb.vouchers[0].transactions;
    assert_eq!(attached.len(), 2);
    match attached[0] {
        Transaction::Credit(data) => {
            assert_eq!(data.amount, 500);
            assert_eq!(data.account, 1400);
        },
        Transaction::Debit(_) => panic!("kind 0 must decode to a credit"),
    }
    match attached[1] {
        Transaction::Debit(data) => assert_eq!(data.amount, 200),
        Transaction::Credit(_) => panic!("kind 1 must decode to a debit"),
    }
    assert_eq!(wb.unmatched.len(), 1);
    assert_eq!(wb.unmatched[0].data().voucher_id, Some(99));
}

#[test]
fn get_workbook_propagates_a_statement_failure() {
    let db = open_seeded();
    let r = get_workbook(&db, "SELECT nonsense", TRANSACTIONS_SQL);
    assert!(matches!(r, Err(DbError::Statement)));
}

#[test]
fn connection_failure_is_reported() {
    let r = Database::sqlite_open("/nonexistent-dir/nope/app.db");
    assert!(matches!(r, Err(DbError::Connection)));
}
