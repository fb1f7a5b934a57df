//! The row model: a read-only view over one relational result row, exposing
//! typed access to named columns. A `ResultRow` holds plain column values; the
//! `DatabaseRow` capability trait is what record decoders are written
//! against, so one decoder works for any row representation.

use vstd::prelude::*;

verus! {

/// One stored column value. Floating-point columns are outside this model:
/// no record type reads them, and a real-valued column is treated as absent.
#[derive(Clone, Debug)]
pub enum ColumnValue {
    Null,
    Integer(i64),
    Text(String),
    Blob(Vec<u8>),
}

/// The mathematical value of a stored column.
pub enum ValueView {
    Null,
    Integer(i64),
    Text(Seq<char>),
    Blob(Seq<u8>),
}

impl View for ColumnValue {
    type V = ValueView;

    open spec fn view(&self) -> ValueView {
        match self {
            ColumnValue::Null => ValueView::Null,
            ColumnValue::Integer(i) => ValueView::Integer(*i),
            ColumnValue::Text(s) => ValueView::Text(s@),
            ColumnValue::Blob(b) => ValueView::Blob(b@),
        }
    }
}

/// The value of the first column named `name`, or `None` if no column
/// carries that name.
pub open spec fn lookup(cols: Seq<(Seq<char>, ValueView)>, name: Seq<char>) -> Option<ValueView>
    decreases cols.len(),
{
    if cols.len() == 0 {
        None
    } else if cols[0].0 == name {
        Some(cols[0].1)
    } else {
        lookup(cols.drop_first(), name)
    }
}

/// An integer column: present only when the stored value is an integer.
pub open spec fn int_of(v: Option<ValueView>) -> Option<i64> {
    match v {
        Some(ValueView::Integer(i)) => Some(i),
        _ => None,
    }
}

/// A boolean column: stored as an integer, zero meaning false.
pub open spec fn bool_of(v: Option<ValueView>) -> Option<bool> {
    match v {
        Some(ValueView::Integer(i)) => Some(i != 0),
        _ => None,
    }
}

/// A text column: present only when the stored value is text.
pub open spec fn text_of(v: Option<ValueView>) -> Option<Seq<char>> {
    match v {
        Some(ValueView::Text(s)) => Some(s),
        _ => None,
    }
}

/// A binary column: present only when the stored value is a blob.
pub open spec fn blob_of(v: Option<ValueView>) -> Option<Seq<u8>> {
    match v {
        Some(ValueView::Blob(b)) => Some(b),
        _ => None,
    }
}

/// The view of an optional owned string.
pub open spec fn opt_str_view(o: Option<String>) -> Option<Seq<char>> {
    match o {
        Some(s) => Some(s@),
        None => None,
    }
}

/// The view of an optional owned byte vector.
pub open spec fn opt_blob_view(o: Option<Vec<u8>>) -> Option<Seq<u8>> {
    match o {
        Some(b) => Some(b@),
        None => None,
    }
}

/// The capability to read named columns of one result row as primitive
/// kinds. Absence (no such column, a null, or a value of another kind)
/// is `None`; record decoders decide whether absence is an error.
pub trait DatabaseRow {
    /// The columns of this row: name/value pairs in result order.
    spec fn cols(&self) -> Seq<(Seq<char>, ValueView)>;

    fn get_i64(&self, column: &str) -> (r: Option<i64>)
        ensures
            r == int_of(lookup(self.cols(), column@)),
    ;

    fn get_bool(&self, column: &str) -> (r: Option<bool>)
        ensures
            r == bool_of(lookup(self.cols(), column@)),
    ;

    fn get_string(&self, column: &str) -> (r: Option<String>)
        ensures
            opt_str_view(r) == text_of(lookup(self.cols(), column@)),
    ;

    fn get_blob(&self, column: &str) -> (r: Option<Vec<u8>>)
        ensures
            opt_blob_view(r) == blob_of(lookup(self.cols(), column@)),
    ;
}

/// Why a row could not be decoded into a record.
#[derive(Clone, Copy, Debug, PartialEq, Eq, Structural)]
pub enum DecodeError {
    /// A required (non-nullable) column was null or missing.
    MissingColumn,
    /// A tagged-union discriminant column held an unknown value.
    UnknownKind(i64),
}

/// The value of a decode result: the record's view on success, the error
/// unchanged on failure.
pub open spec fn decode_result_view<T: View>(r: Result<T, DecodeError>) -> Result<
    T::V,
    DecodeError,
> {
    match r {
        Ok(v) => Ok(v@),
        Err(e) => Err(e),
    }
}

/// A domain type constructible from one result row via a fixed column-name
/// mapping. `spec_from_row` pins the decoded value (or the error) down as a
/// function of the row's columns alone, so decoding is deterministic: two
/// decodes of rows with equal columns yield equal results.
pub trait FromDatabaseRow: View + Sized {
    /// What decoding a row with these columns must produce.
    spec fn spec_from_row(cols: Seq<(Seq<char>, ValueView)>) -> Result<Self::V, DecodeError>;

    fn from_row<R: DatabaseRow>(row: &R) -> (r: Result<Self, DecodeError>)
        ensures
            decode_result_view(r) == Self::spec_from_row(row.cols()),
    ;
}

/// Decoding holds no hidden mutable state: any two results of decoding
/// rows with equal columns are equal in value — the same record, or the
/// same error.
pub proof fn lemma_decode_deterministic<T: FromDatabaseRow>(
    cols: Seq<(Seq<char>, ValueView)>,
    r1: Result<T, DecodeError>,
    r2: Result<T, DecodeError>,
)
    requires
        decode_result_view(r1) == T::spec_from_row(cols),
        decode_result_view(r2) == T::spec_from_row(cols),
    ensures
        decode_result_view(r1) == decode_result_view(r2),
{
}

/// One materialized result row: named column values in result order.
#[derive(Clone, Debug)]
pub struct ResultRow {
    pub columns: Vec<(String, ColumnValue)>,
}

impl View for ResultRow {
    type V = Seq<(Seq<char>, ValueView)>;

    open spec fn view(&self) -> Seq<(Seq<char>, ValueView)> {
        self.columns@.map_values(|c: (String, ColumnValue)| (c.0@, c.1@))
    }
}

impl ResultRow {
    /// An empty row, to be extended column by column.
    pub fn new() -> (r: ResultRow)
        ensures
            r@ == Seq::<(Seq<char>, ValueView)>::empty(),
    {
        let r = ResultRow { columns: Vec::new() };
        proof {
            assert(r@ =~= Seq::<(Seq<char>, ValueView)>::empty());
        }
        r
    }

    /// Appends a named column value at the end of the row.
    pub fn push_column(&mut self, name: String, value: ColumnValue)
        ensures
            final(self)@ == old(self)@.push((name@, value@)),
    {
        let ghost before = self@;
        self.columns.push((name, value));
        proof {
            assert(self@ =~= before.push((self.columns@.last().0@, self.columns@.last().1@)));
        }
    }

    /// The value of the first column named `name`.
    fn find(&self, name: &str) -> (r: Option<&ColumnValue>)
        ensures
            match r {
                Some(v) => lookup(self@, name@) == Some(v@),
                None => lookup(self@, name@) is None,
            },
    {
        let key: String = name.to_string();
        let n = self.columns.len();
        proof {
            assert(self@.skip(0) =~= self@);
        }
        for i in 0..n
            invariant
                n == self.columns.len(),
                key@ == name@,
                lookup(self@, name@) == lookup(self@.skip(i as int), name@),
        {
            proof {
                assert(self@.skip(i as int)[0] == self@[i as int]);
            }
            if self.columns[i].0 == key {
                return Some(&self.columns[i].1);
            }
            proof {
                assert(self@.skip(i as int).drop_first() =~= self@.skip(i + 1));
            }
        }
        proof {
            assert(self@.skip(n as int).len() == 0);
        }
        None
    }
}

impl DatabaseRow for ResultRow {
    open spec fn cols(&self) -> Seq<(Seq<char>, ValueView)> {
        self@
    }

    fn get_i64(&self, column: &str) -> (r: Option<i64>) {
        match self.find(column) {
            Some(ColumnValue::Integer(i)) => Some(*i),
            _ => None,
        }
    }

    fn get_bool(&self, column: &str) -> (r: Option<bool>) {
        match self.find(column) {
            Some(ColumnValue::Integer(i)) => Some(*i != 0),
            _ => None,
        }
    }

    fn get_string(&self, column: &str) -> (r: Option<String>) {
        match self.find(column) {
            Some(ColumnValue::Text(s)) => Some(s.clone()),
            _ => None,
        }
    }

    fn get_blob(&self, column: &str) -> (r: Option<Vec<u8>>) {
        match self.find(column) {
            Some(ColumnValue::Blob(b)) => Some(b.clone()),
            _ => None,
        }
    }
}

} // verus!
