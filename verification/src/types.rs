//! Data model: column descriptors, raw column values, decoded values, errors.

use vstd::prelude::*;

verus! {

/// A text value carrying a password. The decoder emits passwords as plain
/// text, exactly as they were stored; this wrapper only marks intent.
#[derive(Debug, Clone)]
pub struct Password(String);

impl View for Password {
    type V = Seq<char>;

    closed spec fn view(&self) -> Seq<char> {
        self.0@
    }
}

impl Password {
    pub fn new(text: String) -> (r: Password)
        ensures
            r@ == text@,
    {
        Password(text)
    }

    pub fn as_str(&self) -> (r: &str)
        ensures
            r@ == self@,
    {
        self.0.as_str()
    }
}

/// A text value carrying an email address.
#[derive(Debug, Clone)]
pub struct Email(String);

impl View for Email {
    type V = Seq<char>;

    closed spec fn view(&self) -> Seq<char> {
        self.0@
    }
}

impl Email {
    pub fn new(text: String) -> (r: Email)
        ensures
            r@ == text@,
    {
        Email(text)
    }

    pub fn as_str(&self) -> (r: &str)
        ensures
            r@ == self@,
    {
        self.0.as_str()
    }
}

/// One column's schema metadata, as a "describe table" style query reports
/// it: ordinal, name, declared type label, not-null flag, default literal,
/// primary-key flag. Synthetic descriptors (for aggregate results) carry the
/// same shape; only `name` and `type_label` matter for decoding.
#[derive(Debug, Clone)]
pub struct TableInfo {
    pub cid: i64,
    pub name: String,
    pub type_label: String,
    pub notnull: bool,
    pub dflt_value: String,
    pub pk: bool,
}

impl TableInfo {
    pub fn new(
        cid: i64,
        name: String,
        type_label: String,
        notnull: bool,
        dflt_value: String,
        pk: bool,
    ) -> (r: TableInfo)
        ensures
            r.cid == cid,
            r.name@ == name@,
            r.type_label@ == type_label@,
            r.notnull == notnull,
            r.dflt_value@ == dflt_value@,
            r.pk == pk,
    {
        TableInfo { cid, name, type_label, notnull, dflt_value, pk }
    }
}

/// A raw encoded column value: one of the storage engine's native storage
/// classes, or null. A real is carried as the bit pattern of an IEEE-754
/// double, so that the decoder can hand it through without interpreting it.
#[derive(Debug, Clone)]
pub enum RawColumnValue {
    Null,
    Text(String),
    Integer(i64),
    Real(u64),
    Blob(Vec<u8>),
}

/// The mathematical shape of a raw column value.
pub ghost enum RawValueModel {
    Null,
    Text(Seq<char>),
    Integer(i64),
    Real(u64),
    Blob(Seq<u8>),
}

impl View for RawColumnValue {
    type V = RawValueModel;

    open spec fn view(&self) -> RawValueModel {
        match self {
            RawColumnValue::Null => RawValueModel::Null,
            RawColumnValue::Text(s) => RawValueModel::Text(s@),
            RawColumnValue::Integer(i) => RawValueModel::Integer(*i),
            RawColumnValue::Real(bits) => RawValueModel::Real(*bits),
            RawColumnValue::Blob(b) => RawValueModel::Blob(b@),
        }
    }
}

/// One column of a query-result row: its name and its raw encoded value.
#[derive(Debug, Clone)]
pub struct RowColumn {
    pub name: String,
    pub value: RawColumnValue,
}

/// A query-result row: its columns in their native order.
#[derive(Debug, Clone)]
pub struct Row {
    pub columns: Vec<RowColumn>,
}

/// A decoded, JSON-compatible value. A float is carried as the bit pattern
/// of an IEEE-754 double. A structured-data payload is carried as its
/// canonical serialized text; whoever renders the row embeds that document
/// as a JSON node, never as an escaped string.
#[derive(Debug, Clone)]
pub enum DatabaseTypes {
    Null,
    Email(Email),
    Password(Password),
    Text(String),
    Integer(i64),
    Float(u64),
    Boolean(bool),
    Blob(Vec<u8>),
    Json(String),
}

/// The mathematical shape of a decoded value.
pub ghost enum ValueModel {
    Null,
    Email(Seq<char>),
    Password(Seq<char>),
    Text(Seq<char>),
    Integer(i64),
    Float(u64),
    Boolean(bool),
    Blob(Seq<u8>),
    Json(Seq<char>),
}

impl View for DatabaseTypes {
    type V = ValueModel;

    open spec fn view(&self) -> ValueModel {
        match self {
            DatabaseTypes::Null => ValueModel::Null,
            DatabaseTypes::Email(e) => ValueModel::Email(e@),
            DatabaseTypes::Password(p) => ValueModel::Password(p@),
            DatabaseTypes::Text(s) => ValueModel::Text(s@),
            DatabaseTypes::Integer(i) => ValueModel::Integer(*i),
            DatabaseTypes::Float(bits) => ValueModel::Float(*bits),
            DatabaseTypes::Boolean(b) => ValueModel::Boolean(*b),
            DatabaseTypes::Blob(b) => ValueModel::Blob(b@),
            DatabaseTypes::Json(s) => ValueModel::Json(s@),
        }
    }
}

/// Why a raw value could not be decoded under the strategy its column's
/// type label resolved to.
#[derive(Debug, Clone, Copy, PartialEq, Eq, Structural)]
pub enum DecodeError {
    /// The raw value's storage class is incompatible with the strategy.
    StorageMismatch,
    /// An integer does not fit the 32-bit width the label declares.
    IntegerOutOfRange,
    /// The raw value is not a valid unique identifier.
    InvalidIdentifier,
    /// The raw text is not a recognizable timestamp.
    InvalidTimestamp,
    /// The raw text is not a well-formed structured-data document.
    MalformedDocument,
}

/// The first decode failure met while assembling a row; the whole row is
/// abandoned, no partial output is returned.
#[derive(Debug, Clone)]
pub struct SerializationError {
    pub column: String,
    pub cause: DecodeError,
}

} // verus!
