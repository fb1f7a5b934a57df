//! The domain record types: report users and tokens, plus the
//! parent/child pair that the workbook report is assembled from — a
//! `Voucher` owning an ordered sequence of `Transaction`s.

use vstd::prelude::*;

use crate::row::bool_of;
use crate::row::int_of;
use crate::row::lookup;
use crate::row::opt_str_view;
use crate::row::text_of;
use crate::row::DatabaseRow;
use crate::row::DecodeError;
use crate::row::FromDatabaseRow;
use crate::row::ValueView;

verus! {

/// An account holder. Scalar attributes only; decoded elsewhere.
#[derive(Clone, Debug)]
pub struct User {
    pub user_id: Option<i64>,
    pub username: String,
    pub password_hash: String,
    pub created_at: Option<String>,
    pub carry_accounts: String,
}

/// An opaque session token value with its last-seen timestamp.
#[derive(Clone, Debug)]
pub struct Token {
    pub token_id: Option<i64>,
    pub value: Vec<u8>,
    pub seen_at: Option<String>,
}

/// A report header: scalar attributes plus an owned, initially empty,
/// ordered sequence of the transactions attached to it during assembly.
#[derive(Clone, Debug, PartialEq)]
pub struct Voucher {
    pub voucher_id: Option<i64>,
    pub created_at: Option<String>,
    pub updated_at: Option<String>,
    pub date: String,
    pub name: String,
    pub notes: Option<String>,
    pub is_template: bool,
    pub transactions: Vec<Transaction>,
}

/// The mathematical value of a `Voucher`.
#[verifier::ext_equal]
pub struct VoucherView {
    pub voucher_id: Option<i64>,
    pub created_at: Option<Seq<char>>,
    pub updated_at: Option<Seq<char>>,
    pub date: Seq<char>,
    pub name: Seq<char>,
    pub notes: Option<Seq<char>>,
    pub is_template: bool,
    pub transactions: Seq<Transaction>,
}

impl View for Voucher {
    type V = VoucherView;

    open spec fn view(&self) -> VoucherView {
        VoucherView {
            voucher_id: self.voucher_id,
            created_at: opt_str_view(self.created_at),
            updated_at: opt_str_view(self.updated_at),
            date: self.date@,
            name: self.name@,
            notes: opt_str_view(self.notes),
            is_template: self.is_template,
            transactions: self.transactions@,
        }
    }
}

impl FromDatabaseRow for Voucher {
    /// Decoding a voucher row: `date`, `name` and `is_template` are
    /// required; the identifier, the timestamps and the notes are nullable;
    /// the transaction sequence starts out empty.
    open spec fn spec_from_row(cols: Seq<(Seq<char>, ValueView)>) -> Result<VoucherView, DecodeError> {
        match (
            text_of(lookup(cols, "date"@)),
            text_of(lookup(cols, "name"@)),
            bool_of(lookup(cols, "is_template"@)),
        ) {
            (Some(date), Some(name), Some(is_template)) => Ok(VoucherView {
                voucher_id: int_of(lookup(cols, "voucher_id"@)),
                created_at: text_of(lookup(cols, "created_at"@)),
                updated_at: text_of(lookup(cols, "updated_at"@)),
                date: date,
                name: name,
                notes: text_of(lookup(cols, "notes"@)),
                is_template: is_template,
                transactions: Seq::empty(),
            }),
            _ => Err(DecodeError::MissingColumn),
        }
    }

    fn from_row<R: DatabaseRow>(row: &R) -> (r: Result<Voucher, DecodeError>) {
        let date = match row.get_string("date") {
            Some(s) => s,
            None => {
                return Err(DecodeError::MissingColumn);
            },
        };
        let name = match row.get_string("name") {
            Some(s) => s,
            None => {
                return Err(DecodeError::MissingColumn);
            },
        };
        let is_template = match row.get_bool("is_template") {
            Some(b) => b,
            None => {
                return Err(DecodeError::MissingColumn);
            },
        };
        let v = Voucher {
            voucher_id: row.get_i64("voucher_id"),
            created_at: row.get_string("created_at"),
            updated_at: row.get_string("updated_at"),
            date,
            name,
            notes: row.get_string("notes"),
            is_template,
            transactions: Vec::new(),
        };
        proof {
            assert(v.transactions@ =~= Seq::<Transaction>::empty());
            match Self::spec_from_row(row.cols()) {
                Ok(w) => {
                    assert(v@ =~= w);
                },
                Err(_) => {
                    assert(false);
                },
            }
        }
        Ok(v)
    }
}

/// The payload shared by both transaction variants: scalar fields only,
/// including the optional foreign key that names the owning voucher.
#[derive(Clone, Copy, Debug, PartialEq, Eq, Structural)]
pub struct TransactionData {
    pub transaction_id: Option<i64>,
    pub account: i64,
    pub amount: i64,
    pub voucher_id: Option<i64>,
}

/// A ledger line: a tagged union over a common payload. The tag is decoded
/// from an integer discriminant column (0 = credit, 1 = debit).
#[derive(Clone, Copy, Debug, PartialEq, Eq, Structural)]
pub enum Transaction {
    Credit(TransactionData),
    Debit(TransactionData),
}

impl Transaction {
    /// The shared payload, independent of the variant.
    pub open spec fn spec_data(self) -> TransactionData {
        match self {
            Transaction::Credit(data) => data,
            Transaction::Debit(data) => data,
        }
    }

    /// The foreign key naming the voucher this line belongs to.
    pub open spec fn fk(self) -> Option<i64> {
        self.spec_data().voucher_id
    }

    pub fn data(self) -> (r: TransactionData)
        ensures
            r == self.spec_data(),
    {
        match self {
            Transaction::Credit(data) => data,
            Transaction::Debit(data) => data,
        }
    }
}

impl View for Transaction {
    type V = Transaction;

    open spec fn view(&self) -> Transaction {
        *self
    }
}

impl FromDatabaseRow for Transaction {
    /// Decoding a ledger-line row: `kind`, `account` and `amount` are
    /// required; the identifiers are nullable. The discriminant selects
    /// the variant: 0 is a credit, 1 is a debit, anything else is an
    /// unknown-kind error, never a silently chosen default.
    open spec fn spec_from_row(cols: Seq<(Seq<char>, ValueView)>) -> Result<Transaction, DecodeError> {
        match (
            int_of(lookup(cols, "kind"@)),
            int_of(lookup(cols, "account"@)),
            int_of(lookup(cols, "amount"@)),
        ) {
            (Some(kind), Some(account), Some(amount)) => {
                let data = TransactionData {
                    transaction_id: int_of(lookup(cols, "transaction_id"@)),
                    account: account,
                    amount: amount,
                    voucher_id: int_of(lookup(cols, "voucher_id"@)),
                };
                if kind == 0 {
                    Ok(Transaction::Credit(data))
                } else if kind == 1 {
                    Ok(Transaction::Debit(data))
                } else {
                    Err(DecodeError::UnknownKind(kind))
                }
            },
            _ => Err(DecodeError::MissingColumn),
        }
    }

    fn from_row<R: DatabaseRow>(row: &R) -> (r: Result<Transaction, DecodeError>) {
        let kind = match row.get_i64("kind") {
            Some(k) => k,
            None => {
                return Err(DecodeError::MissingColumn);
            },
        };
        let account = match row.get_i64("account") {
            Some(a) => a,
            None => {
                return Err(DecodeError::MissingColumn);
            },
        };
        let amount = match row.get_i64("amount") {
            Some(a) => a,
            None => {
                return Err(DecodeError::MissingColumn);
            },
        };
        let data = TransactionData {
            transaction_id: row.get_i64("transaction_id"),
            account,
            amount,
            voucher_id: row.get_i64("voucher_id"),
        };
        if kind == 0 {
            Ok(Transaction::Credit(data))
        } else if kind == 1 {
            Ok(Transaction::Debit(data))
        } else {
            Err(DecodeError::UnknownKind(kind))
        }
    }
}

} // verus!
