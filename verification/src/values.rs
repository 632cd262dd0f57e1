use vstd::prelude::*;

verus! {

use vstd::string::StringExecFns;

/// Tag naming the declared domain type of a projected column.
#[derive(Clone, Copy, PartialEq, Eq, Structural, Debug)]
pub enum TypeIdentifier {
    String,
    GraphQLID,
    UUID,
    Int,
    Boolean,
    Enum,
    Json,
    DateTime,
    Relation,
    Float,
}

/// A stable identifier addressing one row of a model's table: either the
/// engine's integer rowid, a caller-supplied string key, or a UUID held as
/// its 128-bit value.
#[derive(Clone, PartialEq, Eq, Debug)]
pub enum GraphqlId {
    Int(i64),
    String(String),
    Uuid(u128),
}

/// The connector's domain value: a tagged union over everything a column can
/// carry. A UUID is held as its 128-bit value, a timestamp as milliseconds
/// since the epoch (UTC), a JSON document as its text, and a float as its
/// IEEE-754 bit pattern, so that every variant is a plain value.
#[derive(Clone, PartialEq, Debug)]
pub enum PrismaValue {
    String(String),
    GraphqlId(GraphqlId),
    Uuid(u128),
    Int(i64),
    Boolean(bool),
    Enum(String),
    Json(String),
    DateTime(i64),
    Float(u64),
    Null,
}

/// What the storage engine stores in one column: its native column types.
/// A real is held as its IEEE-754 bit pattern.
#[derive(Clone, PartialEq, Debug)]
pub enum SqliteValue {
    Null,
    Integer(i64),
    Real(u64),
    Text(String),
    Blob(Vec<u8>),
}

/// The connector's error taxonomy.
#[derive(Clone, PartialEq, Debug)]
pub enum ConnectorError {
    /// A selector or filter matched zero rows where one was required.
    NodeNotFoundForWhere { model: String, field: String, value: PrismaValue },
    /// A failure of the underlying driver, propagated with its message.
    DriverError(String),
    /// A column could not be read as the declared domain type.
    ValueDecodeError(String),
    /// A programming error: a relation column in a row projection, or the
    /// unsupported delete path.
    ContractViolation(String),
    /// The pool could not hand out a connection.
    PoolExhausted(String),
}

pub type ConnectorResult<T> = Result<T, ConnectorError>;

/// An exact copy of an identifier, so that verified code knows the copy
/// equals the original.
pub fn copy_id(id: &GraphqlId) -> (r: GraphqlId)
    ensures
        r == *id,
{
    match id {
        GraphqlId::Int(n) => GraphqlId::Int(*n),
        GraphqlId::String(s) => GraphqlId::String(s.clone()),
        GraphqlId::Uuid(u) => GraphqlId::Uuid(*u),
    }
}

/// An exact copy of a domain value, so that verified code knows the copy
/// equals the original.
pub fn copy_value(v: &PrismaValue) -> (r: PrismaValue)
    ensures
        r == *v,
{
    match v {
        PrismaValue::String(s) => PrismaValue::String(s.clone()),
        PrismaValue::GraphqlId(id) => PrismaValue::GraphqlId(copy_id(id)),
        PrismaValue::Uuid(u) => PrismaValue::Uuid(*u),
        PrismaValue::Int(n) => PrismaValue::Int(*n),
        PrismaValue::Boolean(b) => PrismaValue::Boolean(*b),
        PrismaValue::Enum(s) => PrismaValue::Enum(s.clone()),
        PrismaValue::Json(s) => PrismaValue::Json(s.clone()),
        PrismaValue::DateTime(ms) => PrismaValue::DateTime(*ms),
        PrismaValue::Float(bits) => PrismaValue::Float(*bits),
        PrismaValue::Null => PrismaValue::Null,
    }
}

/// What `uuid::Uuid::parse_str` accepts and returns, as a function of the
/// input characters alone: `Some` of the 128-bit value on a well-formed
/// textual UUID, `None` otherwise.
pub uninterp spec fn uuid_parse_of(s: Seq<char>) -> Option<u128>;

/// The canonical hyphenated text of a 128-bit UUID, as
/// `uuid::Uuid::hyphenated` renders it.
pub uninterp spec fn uuid_text_of(u: u128) -> Seq<char>;

/// Relies on `uuid::Uuid::parse_str`: the result depends on the characters
/// alone; the 128-bit value is read back with `Uuid::as_u128`.
#[verifier::external_body]
pub fn uuid_parse(s: &str) -> (r: Option<u128>)
    ensures
        r == uuid_parse_of(s@),
{
    uuid::Uuid::parse_str(s).ok().map(|u| u.as_u128())
}

/// Relies on `uuid::Uuid::hyphenated`: the rendering depends on the value
/// alone, and `uuid::Uuid::parse_str` documents that it accepts the
/// hyphenated form, giving back the same value.
#[verifier::external_body]
pub fn uuid_format(u: u128) -> (r: String)
    ensures
        r@ == uuid_text_of(u),
        uuid_parse_of(r@) == Some(u),
{
    uuid::Uuid::from_u128(u).hyphenated().to_string()
}

/// What decoding a column against a declared type yields: `None` is a decode
/// error. An engine `NULL` decodes to the domain `null` whatever the declared
/// type; a UUID column holding text that does not parse falls back to a
/// string value. The `Relation` tag must never reach a decode.
pub open spec fn decoded(typ: TypeIdentifier, col: SqliteValue) -> Option<PrismaValue> {
    match col {
        SqliteValue::Null => Some(PrismaValue::Null),
        _ => match typ {
            TypeIdentifier::String => match col {
                SqliteValue::Text(s) => Some(PrismaValue::String(s)),
                _ => None,
            },
            TypeIdentifier::GraphQLID => match col {
                SqliteValue::Integer(i) => Some(PrismaValue::GraphqlId(GraphqlId::Int(i))),
                SqliteValue::Text(s) => Some(PrismaValue::GraphqlId(GraphqlId::String(s))),
                _ => None,
            },
            TypeIdentifier::UUID => match col {
                SqliteValue::Text(s) => match uuid_parse_of(s@) {
                    Some(u) => Some(PrismaValue::Uuid(u)),
                    None => Some(PrismaValue::String(s)),
                },
                _ => None,
            },
            TypeIdentifier::Int => match col {
                SqliteValue::Integer(i) => Some(PrismaValue::Int(i)),
                _ => None,
            },
            TypeIdentifier::Boolean => match col {
                SqliteValue::Integer(i) => Some(PrismaValue::Boolean(i != 0)),
                _ => None,
            },
            TypeIdentifier::Enum => match col {
                SqliteValue::Text(s) => Some(PrismaValue::Enum(s)),
                _ => None,
            },
            TypeIdentifier::Json => match col {
                SqliteValue::Text(s) => Some(PrismaValue::Json(s)),
                _ => None,
            },
            TypeIdentifier::DateTime => match col {
                SqliteValue::Integer(ms) => Some(PrismaValue::DateTime(ms)),
                _ => None,
            },
            TypeIdentifier::Float => match col {
                SqliteValue::Real(bits) => Some(PrismaValue::Float(bits)),
                _ => None,
            },
            TypeIdentifier::Relation => None,
        },
    }
}

/// Decodes column `i` of a result row against the declared type `typ`,
/// wrapping the engine's narrow column types into the domain value model.
/// An engine `NULL` always yields the domain `null`; every other mismatch
/// between the declared type and the stored column is a decode error.
pub fn fetch_value(typ: TypeIdentifier, row: &Vec<SqliteValue>, i: usize) -> (r: ConnectorResult<
    PrismaValue,
>)
    requires
        typ != TypeIdentifier::Relation,
    ensures
        i < row@.len() ==> (match decoded(typ, row@[i as int]) {
            Some(v) => r == Ok::<PrismaValue, ConnectorError>(v),
            None => (r matches Err(ConnectorError::ValueDecodeError(m)) && m@
                == "mismatched column type"@),
        }),
        i >= row@.len() ==> (r matches Err(ConnectorError::ValueDecodeError(m)) && m@
            == "column index out of range"@),
{
    if i >= row.len() {
        return Err(ConnectorError::ValueDecodeError(String::from_str(
            "column index out of range",
        )));
    }
    let col = &row[i];
    if let SqliteValue::Null = col {
        return Ok(PrismaValue::Null);
    }
    match typ {
        TypeIdentifier::String => match col {
            SqliteValue::Text(s) => Ok(PrismaValue::String(s.clone())),
            _ => Err(ConnectorError::ValueDecodeError(String::from_str("mismatched column type"))),
        },
        TypeIdentifier::GraphQLID => match col {
            SqliteValue::Integer(n) => Ok(PrismaValue::GraphqlId(GraphqlId::Int(*n))),
            SqliteValue::Text(s) => Ok(PrismaValue::GraphqlId(GraphqlId::String(s.clone()))),
            _ => Err(ConnectorError::ValueDecodeError(String::from_str("mismatched column type"))),
        },
        TypeIdentifier::UUID => match col {
            SqliteValue::Text(s) => match uuid_parse(s.as_str()) {
                Some(u) => Ok(PrismaValue::Uuid(u)),
                None => Ok(PrismaValue::String(s.clone())),
            },
            _ => Err(ConnectorError::ValueDecodeError(String::from_str("mismatched column type"))),
        },
        TypeIdentifier::Int => match col {
            SqliteValue::Integer(n) => Ok(PrismaValue::Int(*n)),
            _ => Err(ConnectorError::ValueDecodeError(String::from_str("mismatched column type"))),
        },
        TypeIdentifier::Boolean => match col {
            SqliteValue::Integer(n) => Ok(PrismaValue::Boolean(*n != 0)),
            _ => Err(ConnectorError::ValueDecodeError(String::from_str("mismatched column type"))),
        },
        TypeIdentifier::Enum => match col {
            SqliteValue::Text(s) => Ok(PrismaValue::Enum(s.clone())),
            _ => Err(ConnectorError::ValueDecodeError(String::from_str("mismatched column type"))),
        },
        TypeIdentifier::Json => match col {
            SqliteValue::Text(s) => Ok(PrismaValue::Json(s.clone())),
            _ => Err(ConnectorError::ValueDecodeError(String::from_str("mismatched column type"))),
        },
        TypeIdentifier::DateTime => match col {
            SqliteValue::Integer(ms) => Ok(PrismaValue::DateTime(*ms)),
            _ => Err(ConnectorError::ValueDecodeError(String::from_str("mismatched column type"))),
        },
        TypeIdentifier::Float => match col {
            SqliteValue::Real(bits) => Ok(PrismaValue::Float(*bits)),
            _ => Err(ConnectorError::ValueDecodeError(String::from_str("mismatched column type"))),
        },
        TypeIdentifier::Relation => {
            proof {
                assert(false);
            }
            Err(ConnectorError::ValueDecodeError(String::from_str("mismatched column type")))
        },
    }
}

/// Says of a column `c` that it is exactly what storing the domain value `v`
/// writes: a `null` becomes the engine's `NULL` for every declared type,
/// identifiers keep their shape, a boolean becomes 0 or 1, a timestamp its
/// milliseconds, a float its bit pattern, and a UUID its hyphenated text.
pub open spec fn bound(v: PrismaValue, c: SqliteValue) -> bool {
    match v {
        PrismaValue::String(s) => c == SqliteValue::Text(s),
        PrismaValue::Enum(s) => c == SqliteValue::Text(s),
        PrismaValue::Json(s) => c == SqliteValue::Text(s),
        PrismaValue::GraphqlId(GraphqlId::Int(n)) => c == SqliteValue::Integer(n),
        PrismaValue::GraphqlId(GraphqlId::String(s)) => c == SqliteValue::Text(s),
        PrismaValue::GraphqlId(GraphqlId::Uuid(u)) => (c matches SqliteValue::Text(t) && t@
            == uuid_text_of(u)),
        PrismaValue::Uuid(u) => (c matches SqliteValue::Text(t) && t@ == uuid_text_of(u)),
        PrismaValue::Int(n) => c == SqliteValue::Integer(n),
        PrismaValue::Boolean(b) => c == SqliteValue::Integer(
            if b {
                1i64
            } else {
                0i64
            },
        ),
        PrismaValue::DateTime(ms) => c == SqliteValue::Integer(ms),
        PrismaValue::Float(bits) => c == SqliteValue::Real(bits),
        PrismaValue::Null => c == SqliteValue::Null,
    }
}

/// The column a domain value is stored into; see `bound` for the exact shape.
pub fn bind_value(v: &PrismaValue) -> (r: SqliteValue)
    ensures
        bound(*v, r),
{
    match v {
        PrismaValue::String(s) => SqliteValue::Text(s.clone()),
        PrismaValue::Enum(s) => SqliteValue::Text(s.clone()),
        PrismaValue::Json(s) => SqliteValue::Text(s.clone()),
        PrismaValue::GraphqlId(GraphqlId::Int(n)) => SqliteValue::Integer(*n),
        PrismaValue::GraphqlId(GraphqlId::String(s)) => SqliteValue::Text(s.clone()),
        PrismaValue::GraphqlId(GraphqlId::Uuid(u)) => SqliteValue::Text(uuid_format(*u)),
        PrismaValue::Uuid(u) => SqliteValue::Text(uuid_format(*u)),
        PrismaValue::Int(n) => SqliteValue::Integer(*n),
        PrismaValue::Boolean(b) => SqliteValue::Integer(
            if *b {
                1
            } else {
                0
            },
        ),
        PrismaValue::DateTime(ms) => SqliteValue::Integer(*ms),
        PrismaValue::Float(bits) => SqliteValue::Real(*bits),
        PrismaValue::Null => SqliteValue::Null,
    }
}

/// A `null` domain value round-trips through storage for every declared
/// type: whatever column a `null` is stored into is the engine's `NULL`,
/// and decoding it back yields `null` again, independent of the declared
/// type.
pub proof fn lemma_null_round_trip(typ: TypeIdentifier, c: SqliteValue)
    requires
        bound(PrismaValue::Null, c),
    ensures
        decoded(typ, c) == Some(PrismaValue::Null),
{
}

/// The columns a whole argument row is stored into, element by element.
pub fn bind_all(vals: &Vec<PrismaValue>) -> (r: Vec<SqliteValue>)
    ensures
        r@.len() == vals@.len(),
        forall|j: int| 0 <= j < vals@.len() ==> bound(vals@[j], r@[j]),
{
    let mut r: Vec<SqliteValue> = Vec::new();
    let mut i: usize = 0;
    while i < vals.len()
        invariant
            i <= vals@.len(),
            r@.len() == i,
            forall|j: int| 0 <= j < i ==> bound(vals@[j], r@[j]),
        decreases vals@.len() - i,
    {
        r.push(bind_value(&vals[i]));
        i = i + 1;
    }
    r
}

/// The first column of a row as a bare integer, with 0 standing in when the
/// row is empty or the column is not an integer.
pub fn fetch_int(row: &Vec<SqliteValue>) -> (r: i64)
    ensures
        row@.len() > 0 ==> (match row@[0] {
            SqliteValue::Integer(n) => r == n,
            _ => r == 0i64,
        }),
        row@.len() == 0 ==> r == 0i64,
{
    if row.len() > 0 {
        match &row[0] {
            SqliteValue::Integer(n) => *n,
            _ => 0,
        }
    } else {
        0
    }
}

/// Splits a millisecond epoch timestamp into whole seconds and a nanosecond
/// remainder, the shape a UTC timestamp is reassembled from.
pub fn datetime_parts(ms: i64) -> (r: (i64, u32))
    ensures
        r.0 * 1_000_000_000 + r.1 == ms * 1_000_000,
        r.1 < 1_000_000_000,
{
    let q: i64 = ms / 1000;
    let rem: i64 = ms % 1000;
    if rem < 0 {
        ((q - 1), ((rem + 1000) * 1_000_000) as u32)
    } else {
        (q, (rem * 1_000_000) as u32)
    }
}

} // verus!
