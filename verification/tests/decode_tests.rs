use webscale::row::ColumnValue;
use webscale::row::DatabaseRow;
use webscale::row::DecodeError;
use webscale::row::FromDatabaseRow;
use webscale::row::ResultRow;
use webscale::types::Transaction;
use webscale::types::TransactionData;
use webscale::types::Voucher;

fn col(name: &str, value: ColumnValue) -> (String, ColumnValue) {
    (name.to_string(), value)
}

fn voucher_row() -> ResultRow {
    let mut row = ResultRow::new();
    row.push_column("voucher_id".to_string(), ColumnValue::Integer(7));
    row.push_column("created_at".to_string(), ColumnValue::Text("2020-01-01".to_string()));
    row.push_column("updated_at".to_string(), ColumnValue::Null);
    row.push_column("date".to_string(), ColumnValue::Text("2020-02-03".to_string()));
    row.push_column("name".to_string(), ColumnValue::Text("groceries".to_string()));
    row.push_column("notes".to_string(), ColumnValue::Null);
    row.push_column("is_template".to_string(), ColumnValue::Integer(0));
    row
}

fn transaction_row(kind: i64) -> ResultRow {
    let mut row = ResultRow::new();
    row.push_column("transaction_id".to_string(), ColumnValue::Integer(11));
    row.push_column("kind".to_string(), ColumnValue::Integer(kind));
    row.push_column("account".to_string(), ColumnValue::Integer(1400));
    row.push_column("amount".to_string(), ColumnValue::Integer(500));
    row.push_column("voucher_id".to_string(), ColumnValue::Integer(7));
    row
}

#[test]
fn voucher_round_trip() {
    let v = Voucher::from_row(&voucher_row()).unwrap();
    assert_eq!(v.voucher_id, Some(7));
    assert_eq!(v.created_at, Some("2020-01-01".to_string()));
    assert_eq!(v.updated_at, None);
    assert_eq!(v.date, "2020-02-03".to_string());
    assert_eq!(v.name, "groceries".to_string());
    assert_eq!(v.notes, None);
    assert!(!v.is_template);
    assert!(v.transactions.is_empty());
}

#[test]
fn voucher_absent_nullable_columns_stay_unset() {
    let mut row = ResultRow::new();
    row.push_column("date".to_string(), ColumnValue::Text("2021-05-06".to_string()));
    row.push_column("name".to_string(), ColumnValue::Text("rent".to_string()));
    row.push_column("is_template".to_string(), ColumnValue::Integer(1));
    let v = Voucher::from_row(&row).unwrap();
    assert_eq!(v.voucher_id, None);
    assert_eq!(v.created_at, None);
    assert_eq!(v.updated_at, None);
    assert_eq!(v.notes, None);
    assert!(v.is_template);
}

#[test]
fn voucher_missing_required_column_fails() {
    for missing in ["date", "name", "is_template"] {
        let mut row = ResultRow::new();
        for (name, value) in [
            col("date", ColumnValue::Text("2020-02-03".to_string())),
            col("name", ColumnValue::Text("groceries".to_string())),
            col("is_template", ColumnValue::Integer(0)),
        ] {
            if name != missing {
                row.push_column(name, value);
            }
        }
        assert_eq!(Voucher::from_row(&row), Err(DecodeError::MissingColumn));
    }
}

#[test]
fn voucher_null_required_column_fails() {
    let mut row = voucher_row();
    row.columns[3].1 = ColumnValue::Null;
    assert_eq!(Voucher::from_row(&row), Err(DecodeError::MissingColumn));
}

#[test]
fn voucher_wrong_kind_required_column_fails() {
    let mut row = voucher_row();
    row.columns[4].1 = ColumnValue::Integer(3);
    assert_eq!(Voucher::from_row(&row), Err(DecodeError::MissingColumn));
}

#[test]
fn transaction_discriminant_zero_is_credit() {
    let t = Transaction::from_row(&transaction_row(0)).unwrap();
    let expected = TransactionData {
        transaction_id: Some(11),
        account: 1400,
        amount: 500,
        voucher_id: Some(7),
    };
    assert_eq!(t, Transaction::Credit(expected));
    assert_eq!(t.data(), expected);
}

#[test]
fn transaction_discriminant_one_is_debit() {
    let t = Transaction::from_row(&transaction_row(1)).unwrap();
    let expected = TransactionData {
        transaction_id: Some(11),
        account: 1400,
        amount: 500,
        voucher_id: Some(7),
    };
    assert_eq!(t, Transaction::Debit(expected));
    assert_eq!(t.data(), expected);
}

#[test]
fn transaction_unknown_discriminant_fails() {
    assert_eq!(Transaction::from_row(&transaction_row(2)), Err(DecodeError::UnknownKind(2)));
    assert_eq!(Transaction::from_row(&transaction_row(-1)), Err(DecodeError::UnknownKind(-1)));
    assert_eq!(Transaction::from_row(&transaction_row(99)), Err(DecodeError::UnknownKind(99)));
}

#[test]
fn transaction_missing_required_column_fails() {
    for missing in ["kind", "account", "amount"] {
        let mut row = ResultRow::new();
        for (name, value) in [
            col("kind", ColumnValue::Integer(0)),
            col("account", ColumnValue::Integer(1400)),
            col("amount", ColumnValue::Integer(500)),
        ] {
            if name != missing {
                row.push_column(name, value);
            }
        }
        assert_eq!(Transaction::from_row(&row), Err(DecodeError::MissingColumn));
    }
}

#[test]
fn decoding_is_idempotent() {
    let row = voucher_row();
    let first = Voucher::from_row(&row).unwrap();
    let second = Voucher::from_row(&row).unwrap();
    assert_eq!(first, second);

    let trow = transaction_row(1);
    assert_eq!(Transaction::from_row(&trow), Transaction::from_row(&trow));
}

#[test]
fn getters_read_only_their_own_kind() {
    let mut row = ResultRow::new();
    row.push_column("n".to_string(), ColumnValue::Integer(5));
    row.push_column("s".to_string(), ColumnValue::Text("five".to_string()));
    row.push_column("b".to_string(), ColumnValue::Blob(vec![1, 2, 3]));
    row.push_column("z".to_string(), ColumnValue::Null);

    assert_eq!(row.get_i64("n"), Some(5));
    assert_eq!(row.get_bool("n"), Some(true));
    assert_eq!(row.get_string("s"), Some("five".to_string()));
    assert_eq!(row.get_blob("b"), Some(vec![1, 2, 3]));

    assert_eq!(row.get_i64("s"), None);
    assert_eq!(row.get_string("n"), None);
    assert_eq!(row.get_blob("s"), None);
    assert_eq!(row.get_i64("z"), None);
    assert_eq!(row.get_i64("missing"), None);
    assert_eq!(row.get_bool("z"), None);
}

#[test]
fn first_matching_column_wins() {
    let mut row = transaction_row(0);
    row.push_column("kind".to_string(), ColumnValue::Integer(1));
    let t = Transaction::from_row(&row).unwrap();
    assert!(matches!(t, Transaction::Credit(_)));
}
