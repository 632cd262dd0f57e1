use sqlite_connector::model::{Field, Filter, Model};
use sqlite_connector::sql::{
    render_delete_list, render_insert_list, render_insert_row, render_select, render_update_rows,
};
use sqlite_connector::values::{GraphqlId, PrismaValue, SqliteValue, TypeIdentifier};

fn user_model() -> Model {
    Model {
        name: "User".to_string(),
        fields: vec![
            Field {
                name: "id".to_string(),
                typ: TypeIdentifier::GraphQLID,
                is_list: false,
                is_id: true,
            },
            Field {
                name: "name".to_string(),
                typ: TypeIdentifier::String,
                is_list: false,
                is_id: false,
            },
            Field {
                name: "tags".to_string(),
                typ: TypeIdentifier::String,
                is_list: true,
                is_id: false,
            },
        ],
    }
}

#[test]
fn insert_row_sql_shape() {
    let cols = vec!["name".to_string(), "email".to_string()];
    let vals = vec![
        PrismaValue::String("Ada".to_string()),
        PrismaValue::String("a@b.c".to_string()),
    ];
    let stmt = render_insert_row("main", "User", &cols, &vals);
    assert_eq!(
        stmt.sql,
        "INSERT INTO \"main\".\"User\" (\"name\", \"email\") VALUES (?, ?)"
    );
    assert_eq!(
        stmt.params,
        vec![
            SqliteValue::Text("Ada".to_string()),
            SqliteValue::Text("a@b.c".to_string())
        ]
    );
}

#[test]
fn insert_row_with_no_args_uses_default_values() {
    let stmt = render_insert_row("main", "User", &vec![], &vec![]);
    assert_eq!(stmt.sql, "INSERT INTO \"main\".\"User\" DEFAULT VALUES");
    assert_eq!(stmt.params, vec![]);
}

#[test]
fn update_rows_sql_shape() {
    let cols = vec!["name".to_string()];
    let vals = vec![PrismaValue::String("Bo".to_string())];
    let ids = vec![GraphqlId::Int(1), GraphqlId::Int(2)];
    let stmt = render_update_rows("main", "User", "id", &cols, &vals, &ids);
    assert_eq!(
        stmt.sql,
        "UPDATE \"main\".\"User\" SET \"name\" = ? WHERE \"id\" IN (?, ?)"
    );
    assert_eq!(
        stmt.params,
        vec![
            SqliteValue::Text("Bo".to_string()),
            SqliteValue::Integer(1),
            SqliteValue::Integer(2)
        ]
    );
}

#[test]
fn delete_list_sql_shape() {
    let ids = vec![GraphqlId::Int(4)];
    let stmt = render_delete_list("main", "User", "tags", &ids);
    assert_eq!(
        stmt.sql,
        "DELETE FROM \"main\".\"User_tags\" WHERE \"nodeId\" IN (?)"
    );
    assert_eq!(stmt.params, vec![SqliteValue::Integer(4)]);
}

#[test]
fn insert_list_sql_and_param_layout() {
    let id = GraphqlId::Int(9);
    let values = vec![
        PrismaValue::String("a".to_string()),
        PrismaValue::String("b".to_string()),
    ];
    let stmt = render_insert_list("main", "User", "tags", &id, &values);
    assert_eq!(
        stmt.sql,
        "INSERT INTO \"main\".\"User_tags\" (\"nodeId\", \"position\", \"value\") VALUES (?, ?, ?), (?, ?, ?)"
    );
    assert_eq!(
        stmt.params,
        vec![
            SqliteValue::Integer(9),
            SqliteValue::Integer(0),
            SqliteValue::Text("a".to_string()),
            SqliteValue::Integer(9),
            SqliteValue::Integer(1),
            SqliteValue::Text("b".to_string())
        ]
    );
}

#[test]
fn select_sql_shapes() {
    let cols = vec!["id".to_string()];
    let all = render_select("main", "User", &cols, &Filter::All, None);
    assert_eq!(all.sql, "SELECT \"id\" FROM \"main\".\"User\"");
    assert_eq!(all.params, vec![]);

    let filt = Filter::FieldEquals("name".to_string(), PrismaValue::String("Ada".to_string()));
    let order = "position".to_string();
    let sel = render_select("main", "User", &cols, &filt, Some(&order));
    assert_eq!(
        sel.sql,
        "SELECT \"id\" FROM \"main\".\"User\" WHERE \"name\" = ? ORDER BY \"position\""
    );
    assert_eq!(sel.params, vec![SqliteValue::Text("Ada".to_string())]);
}

#[test]
fn model_projection_and_id_field() {
    let m = user_model();
    let idf = m.id_field().unwrap();
    assert_eq!(idf.name, "id");
    let proj = m.scalar_non_list();
    let names: Vec<String> = proj.iter().map(|f| f.name.clone()).collect();
    assert_eq!(names, vec!["id".to_string(), "name".to_string()]);
    assert!(m.find_field(&"tags".to_string()).unwrap().is_list);
    assert!(m.find_field(&"missing".to_string()).is_none());
}

#[test]
fn read_row_decodes_positionally() {
    let m = user_model();
    let proj = m.scalar_non_list();
    let row = vec![SqliteValue::Integer(1), SqliteValue::Text("Ada".to_string())];
    let node = sqlite_connector::model::read_row(&row, &proj).unwrap();
    assert_eq!(
        node.values,
        vec![
            PrismaValue::GraphqlId(GraphqlId::Int(1)),
            PrismaValue::String("Ada".to_string())
        ]
    );
}

#[test]
fn read_row_narrow_row_is_an_error() {
    let m = user_model();
    let proj = m.scalar_non_list();
    let row = vec![SqliteValue::Integer(1)];
    assert!(sqlite_connector::model::read_row(&row, &proj).is_err());
}

#[test]
fn build_create_list_stmts_skips_empty_arguments() {
    let db = "main".to_string();
    let model = "User".to_string();
    let id = GraphqlId::Int(7);
    let la = vec![
        ("tags".to_string(), vec![PrismaValue::String("a".to_string())]),
        ("empty".to_string(), vec![]),
    ];
    let stmts = sqlite_connector::plan::build_create_list_stmts(&db, &model, &id, &la);
    assert_eq!(stmts.len(), 1);
    assert_eq!(
        stmts[0].sql,
        "INSERT INTO \"main\".\"User_tags\" (\"nodeId\", \"position\", \"value\") VALUES (?, ?, ?)"
    );
    assert_eq!(
        stmts[0].params,
        vec![
            SqliteValue::Integer(7),
            SqliteValue::Integer(0),
            SqliteValue::Text("a".to_string())
        ]
    );
}

#[test]
fn build_update_list_stmts_deletes_then_inserts_per_identifier() {
    let db = "main".to_string();
    let model = "User".to_string();
    let ids = vec![GraphqlId::Int(1), GraphqlId::Int(2)];
    let la = vec![("tags".to_string(), vec![PrismaValue::String("x".to_string())])];
    let stmts = sqlite_connector::plan::build_update_list_stmts(&db, &model, &ids, &la);
    assert_eq!(stmts.len(), 3);
    assert_eq!(
        stmts[0].sql,
        "DELETE FROM \"main\".\"User_tags\" WHERE \"nodeId\" IN (?, ?)"
    );
    assert_eq!(stmts[1].sql, stmts[2].sql);
    assert_eq!(stmts[1].params[0], SqliteValue::Integer(1));
    assert_eq!(stmts[2].params[0], SqliteValue::Integer(2));
}

#[test]
fn build_update_list_stmts_empty_sequence_only_deletes() {
    let db = "main".to_string();
    let model = "User".to_string();
    let ids = vec![GraphqlId::Int(1)];
    let la: Vec<(String, Vec<PrismaValue>)> = vec![("tags".to_string(), vec![])];
    let stmts = sqlite_connector::plan::build_update_list_stmts(&db, &model, &ids, &la);
    assert_eq!(stmts.len(), 1);
    assert_eq!(
        stmts[0].sql,
        "DELETE FROM \"main\".\"User_tags\" WHERE \"nodeId\" IN (?)"
    );
}

#[test]
fn build_update_mutation_stmts_row_update_only_with_args() {
    let db = "main".to_string();
    let model = "User".to_string();
    let idf = "id".to_string();
    let ids = vec![GraphqlId::Int(1)];
    let la = vec![("tags".to_string(), vec![PrismaValue::String("x".to_string())])];
    let with_args = sqlite_connector::plan::build_update_mutation_stmts(
        &db,
        &model,
        &idf,
        &ids,
        &vec!["name".to_string()],
        &vec![PrismaValue::String("Bo".to_string())],
        &la,
    );
    assert_eq!(with_args.len(), 3);
    assert_eq!(
        with_args[0].sql,
        "UPDATE \"main\".\"User\" SET \"name\" = ? WHERE \"id\" IN (?)"
    );

    let without_args = sqlite_connector::plan::build_update_mutation_stmts(
        &db,
        &model,
        &idf,
        &ids,
        &vec![],
        &vec![],
        &la,
    );
    assert_eq!(without_args.len(), 2);
    assert_eq!(
        without_args[0].sql,
        "DELETE FROM \"main\".\"User_tags\" WHERE \"nodeId\" IN (?)"
    );
}

#[test]
fn decode_rows_is_complete_and_in_order() {
    let m = user_model();
    let proj = m.scalar_non_list();
    let rows = vec![
        vec![SqliteValue::Integer(1), SqliteValue::Text("Ada".to_string())],
        vec![SqliteValue::Integer(2), SqliteValue::Null],
    ];
    let nodes = sqlite_connector::sqlite::decode_rows(&rows, &proj).unwrap();
    assert_eq!(nodes.len(), 2);
    assert_eq!(
        nodes[0].values,
        vec![
            PrismaValue::GraphqlId(GraphqlId::Int(1)),
            PrismaValue::String("Ada".to_string())
        ]
    );
    assert_eq!(
        nodes[1].values,
        vec![PrismaValue::GraphqlId(GraphqlId::Int(2)), PrismaValue::Null]
    );
}

#[test]
fn decode_rows_aborts_on_one_bad_row() {
    let m = user_model();
    let proj = m.scalar_non_list();
    let rows = vec![
        vec![SqliteValue::Integer(1), SqliteValue::Text("Ada".to_string())],
        vec![SqliteValue::Integer(2)],
    ];
    assert!(sqlite_connector::sqlite::decode_rows(&rows, &proj).is_err());
}

#[test]
fn decode_id_rows_reads_column_zero() {
    let rows = vec![
        vec![SqliteValue::Integer(5)],
        vec![SqliteValue::Text("k".to_string()), SqliteValue::Integer(9)],
    ];
    let ids = sqlite_connector::sqlite::decode_id_rows(&rows).unwrap();
    assert_eq!(
        ids,
        vec![GraphqlId::Int(5), GraphqlId::String("k".to_string())]
    );
    let bad = vec![vec![SqliteValue::Null]];
    assert!(sqlite_connector::sqlite::decode_id_rows(&bad).is_err());
    let empty_row = vec![vec![]];
    assert!(sqlite_connector::sqlite::decode_id_rows(&empty_row).is_err());
}
