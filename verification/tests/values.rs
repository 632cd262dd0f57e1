use sqlite_connector::values::{
    bind_all, bind_value, copy_id, copy_value, datetime_parts, fetch_int, fetch_value, uuid_format,
    uuid_parse, ConnectorError, GraphqlId, PrismaValue, SqliteValue, TypeIdentifier,
};

#[test]
fn decode_string() {
    let row = vec![SqliteValue::Text("hello".to_string())];
    assert_eq!(
        fetch_value(TypeIdentifier::String, &row, 0),
        Ok(PrismaValue::String("hello".to_string()))
    );
}

#[test]
fn decode_int_and_boolean() {
    let row = vec![SqliteValue::Integer(42), SqliteValue::Integer(0), SqliteValue::Integer(7)];
    assert_eq!(fetch_value(TypeIdentifier::Int, &row, 0), Ok(PrismaValue::Int(42)));
    assert_eq!(fetch_value(TypeIdentifier::Boolean, &row, 1), Ok(PrismaValue::Boolean(false)));
    assert_eq!(fetch_value(TypeIdentifier::Boolean, &row, 2), Ok(PrismaValue::Boolean(true)));
}

#[test]
fn decode_enum_and_json() {
    let row = vec![SqliteValue::Text("RED".to_string()), SqliteValue::Text("{}".to_string())];
    assert_eq!(fetch_value(TypeIdentifier::Enum, &row, 0), Ok(PrismaValue::Enum("RED".to_string())));
    assert_eq!(fetch_value(TypeIdentifier::Json, &row, 1), Ok(PrismaValue::Json("{}".to_string())));
}

#[test]
fn decode_graphql_id_both_shapes() {
    let row = vec![SqliteValue::Integer(5), SqliteValue::Text("abc".to_string())];
    assert_eq!(
        fetch_value(TypeIdentifier::GraphQLID, &row, 0),
        Ok(PrismaValue::GraphqlId(GraphqlId::Int(5)))
    );
    assert_eq!(
        fetch_value(TypeIdentifier::GraphQLID, &row, 1),
        Ok(PrismaValue::GraphqlId(GraphqlId::String("abc".to_string())))
    );
}

#[test]
fn decode_uuid_parses_text() {
    let u = 0x0011_2233_4455_6677_8899_aabb_ccdd_eeffu128;
    let text = uuid_format(u);
    let row = vec![SqliteValue::Text(text)];
    assert_eq!(fetch_value(TypeIdentifier::UUID, &row, 0), Ok(PrismaValue::Uuid(u)));
}

#[test]
fn decode_uuid_falls_back_to_string() {
    let row = vec![SqliteValue::Text("not-a-uuid".to_string())];
    assert_eq!(
        fetch_value(TypeIdentifier::UUID, &row, 0),
        Ok(PrismaValue::String("not-a-uuid".to_string()))
    );
}

#[test]
fn uuid_parse_rejects_garbage() {
    assert_eq!(uuid_parse("zzz"), None);
    let u = 0xdead_beef_0000_0000_0000_0000_0000_0001u128;
    assert_eq!(uuid_parse(&uuid_format(u)), Some(u));
}

#[test]
fn decode_datetime_millis() {
    let row = vec![SqliteValue::Integer(1_500)];
    assert_eq!(fetch_value(TypeIdentifier::DateTime, &row, 0), Ok(PrismaValue::DateTime(1_500)));
}

#[test]
fn datetime_parts_splits_millis() {
    assert_eq!(datetime_parts(1_500), (1, 500_000_000));
    assert_eq!(datetime_parts(0), (0, 0));
    assert_eq!(datetime_parts(-1), (-1, 999_000_000));
    assert_eq!(datetime_parts(123_456), (123, 456_000_000));
}

#[test]
fn decode_float_keeps_bits() {
    let bits = (2.5f64).to_bits();
    let row = vec![SqliteValue::Real(bits)];
    assert_eq!(fetch_value(TypeIdentifier::Float, &row, 0), Ok(PrismaValue::Float(bits)));
}

#[test]
fn null_column_decodes_to_null_for_every_type() {
    let row = vec![SqliteValue::Null];
    for typ in [
        TypeIdentifier::String,
        TypeIdentifier::GraphQLID,
        TypeIdentifier::UUID,
        TypeIdentifier::Int,
        TypeIdentifier::Boolean,
        TypeIdentifier::Enum,
        TypeIdentifier::Json,
        TypeIdentifier::DateTime,
        TypeIdentifier::Float,
    ] {
        assert_eq!(fetch_value(typ, &row, 0), Ok(PrismaValue::Null));
    }
}

#[test]
fn type_mismatch_is_a_decode_error() {
    let row = vec![SqliteValue::Text("x".to_string())];
    assert!(matches!(
        fetch_value(TypeIdentifier::Int, &row, 0),
        Err(ConnectorError::ValueDecodeError(_))
    ));
    assert!(matches!(
        fetch_value(TypeIdentifier::Boolean, &row, 0),
        Err(ConnectorError::ValueDecodeError(_))
    ));
}

#[test]
fn out_of_range_column_is_a_decode_error() {
    let row = vec![SqliteValue::Integer(1)];
    assert!(matches!(
        fetch_value(TypeIdentifier::Int, &row, 5),
        Err(ConnectorError::ValueDecodeError(_))
    ));
}

#[test]
fn bind_null_is_engine_null() {
    assert_eq!(bind_value(&PrismaValue::Null), SqliteValue::Null);
}

#[test]
fn bind_values_keep_their_shapes() {
    assert_eq!(
        bind_value(&PrismaValue::String("s".to_string())),
        SqliteValue::Text("s".to_string())
    );
    assert_eq!(bind_value(&PrismaValue::Int(-3)), SqliteValue::Integer(-3));
    assert_eq!(bind_value(&PrismaValue::Boolean(true)), SqliteValue::Integer(1));
    assert_eq!(bind_value(&PrismaValue::Boolean(false)), SqliteValue::Integer(0));
    assert_eq!(bind_value(&PrismaValue::DateTime(99)), SqliteValue::Integer(99));
    assert_eq!(
        bind_value(&PrismaValue::GraphqlId(GraphqlId::Int(7))),
        SqliteValue::Integer(7)
    );
    let bits = (0.5f64).to_bits();
    assert_eq!(bind_value(&PrismaValue::Float(bits)), SqliteValue::Real(bits));
}

#[test]
fn bind_uuid_writes_parseable_text() {
    let u = 0x1234_5678_9abc_def0_1234_5678_9abc_def0u128;
    match bind_value(&PrismaValue::Uuid(u)) {
        SqliteValue::Text(t) => assert_eq!(uuid_parse(&t), Some(u)),
        other => panic!("expected text, got {:?}", other),
    }
}

#[test]
fn null_value_round_trips_through_every_type() {
    let col = bind_value(&PrismaValue::Null);
    let row = vec![col];
    for typ in [
        TypeIdentifier::String,
        TypeIdentifier::GraphQLID,
        TypeIdentifier::UUID,
        TypeIdentifier::Int,
        TypeIdentifier::Boolean,
        TypeIdentifier::Enum,
        TypeIdentifier::Json,
        TypeIdentifier::DateTime,
        TypeIdentifier::Float,
    ] {
        assert_eq!(fetch_value(typ, &row, 0), Ok(PrismaValue::Null));
    }
}

#[test]
fn bind_all_is_elementwise() {
    let vals = vec![PrismaValue::Int(1), PrismaValue::Null, PrismaValue::String("x".to_string())];
    assert_eq!(
        bind_all(&vals),
        vec![
            SqliteValue::Integer(1),
            SqliteValue::Null,
            SqliteValue::Text("x".to_string())
        ]
    );
}

#[test]
fn fetch_int_reads_first_integer_or_zero() {
    assert_eq!(fetch_int(&vec![SqliteValue::Integer(9)]), 9);
    assert_eq!(fetch_int(&vec![SqliteValue::Text("x".to_string())]), 0);
    assert_eq!(fetch_int(&vec![]), 0);
}

#[test]
fn copies_equal_their_originals() {
    let id = GraphqlId::String("k".to_string());
    assert_eq!(copy_id(&id), id);
    let v = PrismaValue::GraphqlId(GraphqlId::Uuid(3));
    assert_eq!(copy_value(&v), v);
}
