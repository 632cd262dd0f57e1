use sqlite_connector::model::{
    CreateNode, DeleteNode, Field, Filter, Model, NodeSelector, Node, UpdateNode, UpdateNodes,
    UpsertNode, DatabaseMutactionResultType,
};
use sqlite_connector::sql::Stmt;
use sqlite_connector::sqlite::{SelectQuery, Sqlite, TxEnd, UpsertChoice, first_or_unresolved, is_attached, tx_disposition, upsert_decision};
use sqlite_connector::values::{ConnectorError, GraphqlId, PrismaValue, SqliteValue, TypeIdentifier};

fn connector() -> Sqlite {
    Sqlite::new(1, false).unwrap()
}

fn ddl(s: &Sqlite, sql: &str) {
    s.run_statement("main".to_string(), sql.to_string()).unwrap();
}

fn user_model() -> Model {
    Model {
        name: "User".to_string(),
        fields: vec![
            Field {
                name: "id".to_string(),
                typ: TypeIdentifier::GraphQLID,
                is_list: false,
                is_id: true,
            },
            Field {
                name: "name".to_string(),
                typ: TypeIdentifier::String,
                is_list: false,
                is_id: false,
            },
            Field {
                name: "tags".to_string(),
                typ: TypeIdentifier::String,
                is_list: true,
                is_id: false,
            },
        ],
    }
}

fn user_tables(s: &Sqlite) {
    ddl(s, "CREATE TABLE \"User\" (id INTEGER PRIMARY KEY, name TEXT)");
    ddl(s, "CREATE TABLE \"User_tags\" (nodeId INTEGER, position INTEGER, value TEXT)");
}

fn string_field(name: &str) -> Field {
    Field {
        name: name.to_string(),
        typ: TypeIdentifier::String,
        is_list: false,
        is_id: false,
    }
}

fn read_names(s: &Sqlite, filter: Filter) -> Vec<Node> {
    let q = SelectQuery {
        table: "User".to_string(),
        columns: vec!["name".to_string()],
        filter,
        order_by: None,
    };
    s.with_rows(&q, "main".to_string(), &vec![string_field("name")]).unwrap()
}

fn read_tags(s: &Sqlite, id: &GraphqlId) -> Vec<PrismaValue> {
    let q = SelectQuery {
        table: "User_tags".to_string(),
        columns: vec!["value".to_string()],
        filter: Filter::FieldEquals(
            "nodeId".to_string(),
            PrismaValue::GraphqlId(id.clone()),
        ),
        order_by: Some("position".to_string()),
    };
    let nodes = s.with_rows(&q, "main".to_string(), &vec![string_field("value")]).unwrap();
    nodes.into_iter().map(|n| n.values.into_iter().next().unwrap()).collect()
}

fn create_user(s: &Sqlite, name: &str, tags: &[&str]) -> GraphqlId {
    let mutaction = CreateNode {
        model: user_model(),
        non_list_args: vec![("name".to_string(), PrismaValue::String(name.to_string()))],
        list_args: vec![(
            "tags".to_string(),
            tags.iter().map(|t| PrismaValue::String(t.to_string())).collect(),
        )],
    };
    s.execute_create("main".to_string(), &mutaction).unwrap()
}

#[test]
fn create_with_list_args_and_read_back() {
    let s = connector();
    user_tables(&s);
    let id = create_user(&s, "Ada", &["a", "b"]);

    let resolved = s
        .with_transaction("main", |mut conn| {
            let sel = NodeSelector {
                model: user_model(),
                field: "name".to_string(),
                value: PrismaValue::String("Ada".to_string()),
            };
            let r = Sqlite::id_for(&mut conn, "main", &sel);
            (conn, r)
        })
        .unwrap();
    assert_eq!(resolved, id);

    assert_eq!(
        read_tags(&s, &id),
        vec![
            PrismaValue::String("a".to_string()),
            PrismaValue::String("b".to_string())
        ]
    );
}

#[test]
fn create_returns_the_identifier_the_args_carry() {
    let s = connector();
    user_tables(&s);
    let mutaction = CreateNode {
        model: user_model(),
        non_list_args: vec![
            ("id".to_string(), PrismaValue::GraphqlId(GraphqlId::Int(42))),
            ("name".to_string(), PrismaValue::String("Zed".to_string())),
        ],
        list_args: vec![],
    };
    let id = s.execute_create("main".to_string(), &mutaction).unwrap();
    assert_eq!(id, GraphqlId::Int(42));
}

#[test]
fn update_replaces_list_with_empty_sequence() {
    let s = connector();
    user_tables(&s);
    let id = create_user(&s, "Ada", &["a", "b"]);
    assert_eq!(read_tags(&s, &id).len(), 2);

    let update = UpdateNode {
        where_: NodeSelector {
            model: user_model(),
            field: "name".to_string(),
            value: PrismaValue::String("Ada".to_string()),
        },
        non_list_args: vec![],
        list_args: vec![("tags".to_string(), vec![])],
    };
    let out = s.execute_update("main".to_string(), &update).unwrap();
    assert_eq!(out, id);
    assert_eq!(read_tags(&s, &id), vec![]);
}

#[test]
fn update_twice_is_idempotent() {
    let s = connector();
    user_tables(&s);
    let id = create_user(&s, "Ada", &["a"]);

    let update = UpdateNode {
        where_: NodeSelector {
            model: user_model(),
            field: "name".to_string(),
            value: PrismaValue::String("Ada".to_string()),
        },
        non_list_args: vec![("name".to_string(), PrismaValue::String("Ada".to_string()))],
        list_args: vec![(
            "tags".to_string(),
            vec![
                PrismaValue::String("x".to_string()),
                PrismaValue::String("y".to_string()),
            ],
        )],
    };
    s.execute_update("main".to_string(), &update).unwrap();
    let names_once = read_names(&s, Filter::All);
    let tags_once = read_tags(&s, &id);

    s.execute_update("main".to_string(), &update).unwrap();
    let names_twice = read_names(&s, Filter::All);
    let tags_twice = read_tags(&s, &id);

    assert_eq!(names_once, names_twice);
    assert_eq!(tags_once, tags_twice);
    assert_eq!(
        tags_twice,
        vec![
            PrismaValue::String("x".to_string()),
            PrismaValue::String("y".to_string())
        ]
    );
}

#[test]
fn update_many_returns_matched_count() {
    let s = connector();
    user_tables(&s);
    create_user(&s, "X", &[]);
    create_user(&s, "X", &[]);
    create_user(&s, "Y", &[]);

    let many = UpdateNodes {
        model: user_model(),
        filter: Filter::FieldEquals("name".to_string(), PrismaValue::String("X".to_string())),
        non_list_args: vec![],
        list_args: vec![],
    };
    assert_eq!(s.execute_update_many("main".to_string(), &many).unwrap(), 2);

    let none = UpdateNodes {
        model: user_model(),
        filter: Filter::FieldEquals("name".to_string(), PrismaValue::String("Z".to_string())),
        non_list_args: vec![],
        list_args: vec![],
    };
    assert_eq!(s.execute_update_many("main".to_string(), &none).unwrap(), 0);
}

#[test]
fn upsert_creates_then_updates() {
    let s = connector();
    ddl(&s, "CREATE TABLE \"Account\" (id INTEGER PRIMARY KEY, email TEXT)");
    let model = Model {
        name: "Account".to_string(),
        fields: vec![
            Field {
                name: "id".to_string(),
                typ: TypeIdentifier::GraphQLID,
                is_list: false,
                is_id: true,
            },
            Field {
                name: "email".to_string(),
                typ: TypeIdentifier::String,
                is_list: false,
                is_id: false,
            },
        ],
    };
    let selector = NodeSelector {
        model: model.clone(),
        field: "email".to_string(),
        value: PrismaValue::String("x@y.z".to_string()),
    };
    let upsert = UpsertNode {
        where_: selector.clone(),
        create: CreateNode {
            model: model.clone(),
            non_list_args: vec![(
                "email".to_string(),
                PrismaValue::String("x@y.z".to_string()),
            )],
            list_args: vec![],
        },
        update: UpdateNode {
            where_: selector.clone(),
            non_list_args: vec![(
                "email".to_string(),
                PrismaValue::String("x@y.z".to_string()),
            )],
            list_args: vec![],
        },
    };

    let (id1, outcome1) = s.execute_upsert("main".to_string(), &upsert).unwrap();
    assert_eq!(outcome1, DatabaseMutactionResultType::Create);

    let (id2, outcome2) = s.execute_upsert("main".to_string(), &upsert).unwrap();
    assert_eq!(outcome2, DatabaseMutactionResultType::Update);
    assert_eq!(id1, id2);
}

#[test]
fn null_round_trips_through_the_engine() {
    let s = connector();
    user_tables(&s);
    let mutaction = CreateNode {
        model: user_model(),
        non_list_args: vec![("name".to_string(), PrismaValue::Null)],
        list_args: vec![],
    };
    s.execute_create("main".to_string(), &mutaction).unwrap();
    let nodes = read_names(&s, Filter::All);
    assert_eq!(nodes.len(), 1);
    assert_eq!(nodes[0].values, vec![PrismaValue::Null]);
}

#[test]
fn float_and_datetime_round_trip_through_the_engine() {
    let s = connector();
    ddl(
        &s,
        "CREATE TABLE \"Reading\" (id INTEGER PRIMARY KEY, score REAL, at INTEGER)",
    );
    let model = Model {
        name: "Reading".to_string(),
        fields: vec![
            Field {
                name: "id".to_string(),
                typ: TypeIdentifier::GraphQLID,
                is_list: false,
                is_id: true,
            },
            Field {
                name: "score".to_string(),
                typ: TypeIdentifier::Float,
                is_list: false,
                is_id: false,
            },
            Field {
                name: "at".to_string(),
                typ: TypeIdentifier::DateTime,
                is_list: false,
                is_id: false,
            },
        ],
    };
    let bits = (2.75f64).to_bits();
    let mutaction = CreateNode {
        model: model.clone(),
        non_list_args: vec![
            ("score".to_string(), PrismaValue::Float(bits)),
            ("at".to_string(), PrismaValue::DateTime(1_500)),
        ],
        list_args: vec![],
    };
    s.execute_create("main".to_string(), &mutaction).unwrap();

    let q = SelectQuery {
        table: "Reading".to_string(),
        columns: vec!["score".to_string(), "at".to_string()],
        filter: Filter::All,
        order_by: None,
    };
    let fields = vec![
        Field {
            name: "score".to_string(),
            typ: TypeIdentifier::Float,
            is_list: false,
            is_id: false,
        },
        Field {
            name: "at".to_string(),
            typ: TypeIdentifier::DateTime,
            is_list: false,
            is_id: false,
        },
    ];
    let nodes = s.with_rows(&q, "main".to_string(), &fields).unwrap();
    assert_eq!(
        nodes[0].values,
        vec![PrismaValue::Float(bits), PrismaValue::DateTime(1_500)]
    );
}

#[test]
fn failed_transaction_leaves_no_effects() {
    let s = connector();
    ddl(&s, "CREATE TABLE \"T9\" (v INTEGER)");
    let stmt = |sql: &str| Stmt { sql: sql.to_string(), params: vec![] };

    let r: Result<(), ConnectorError> = s.with_transaction("main", |mut conn| {
        if let Err(e) = Sqlite::execute_one(&mut conn, &stmt("INSERT INTO \"main\".\"T9\" (v) VALUES (1)")) {
            return (conn, Err(e));
        }
        if let Err(e) = Sqlite::execute_one(&mut conn, &stmt("INSERT INTO \"main\".\"NoSuchTable\" (v) VALUES (2)")) {
            return (conn, Err(e));
        }
        if let Err(e) = Sqlite::execute_one(&mut conn, &stmt("INSERT INTO \"main\".\"T9\" (v) VALUES (3)")) {
            return (conn, Err(e));
        }
        (conn, Ok(()))
    });
    assert!(matches!(r, Err(ConnectorError::DriverError(_))));

    let q = SelectQuery {
        table: "T9".to_string(),
        columns: vec!["v".to_string()],
        filter: Filter::All,
        order_by: None,
    };
    let fields = vec![Field {
        name: "v".to_string(),
        typ: TypeIdentifier::Int,
        is_list: false,
        is_id: false,
    }];
    let nodes = s.with_rows(&q, "main".to_string(), &fields).unwrap();
    assert_eq!(nodes.len(), 0);
}

#[test]
fn unresolved_selector_carries_its_details() {
    let s = connector();
    user_tables(&s);
    let update = UpdateNode {
        where_: NodeSelector {
            model: user_model(),
            field: "name".to_string(),
            value: PrismaValue::String("Nobody".to_string()),
        },
        non_list_args: vec![],
        list_args: vec![],
    };
    match s.execute_update("main".to_string(), &update) {
        Err(ConnectorError::NodeNotFoundForWhere { model, field, value }) => {
            assert_eq!(model, "User");
            assert_eq!(field, "name");
            assert_eq!(value, PrismaValue::String("Nobody".to_string()));
        },
        other => panic!("expected an unresolved selector error, got {:?}", other),
    }
}

#[test]
fn bad_statement_is_a_driver_error() {
    let s = connector();
    let r = s.run_statement("main".to_string(), "NOT A STATEMENT".to_string());
    assert!(matches!(r, Err(ConnectorError::DriverError(_))));
}

#[test]
fn delete_is_an_explicit_gap() {
    let s = connector();
    user_tables(&s);
    let delete = DeleteNode {
        where_: NodeSelector {
            model: user_model(),
            field: "name".to_string(),
            value: PrismaValue::String("Ada".to_string()),
        },
    };
    assert!(matches!(
        s.execute_delete("main".to_string(), &delete),
        Err(ConnectorError::ContractViolation(_))
    ));
}

#[test]
fn execute_raw_is_disabled() {
    let s = connector();
    assert_eq!(
        s.execute_raw("SELECT 1".to_string()),
        Ok(PrismaValue::String("hello world!".to_string()))
    );
}

#[test]
fn upsert_decision_branches() {
    assert_eq!(
        upsert_decision(Ok(GraphqlId::Int(1))),
        UpsertChoice::DoUpdate(GraphqlId::Int(1))
    );
    assert_eq!(
        upsert_decision(Err(ConnectorError::NodeNotFoundForWhere {
            model: "M".to_string(),
            field: "f".to_string(),
            value: PrismaValue::Null,
        })),
        UpsertChoice::DoCreate
    );
    let e = ConnectorError::DriverError("boom".to_string());
    assert_eq!(upsert_decision(Err(e.clone())), UpsertChoice::Abort(e));
}

#[test]
fn transactions_commit_exactly_on_success() {
    assert_eq!(tx_disposition(true), TxEnd::Commit);
    assert_eq!(tx_disposition(false), TxEnd::Rollback);
}

#[test]
fn first_or_unresolved_picks_first_or_reports_the_selector() {
    let sel = NodeSelector {
        model: user_model(),
        field: "name".to_string(),
        value: PrismaValue::String("Ada".to_string()),
    };
    let ids = vec![GraphqlId::Int(3), GraphqlId::Int(4)];
    assert_eq!(first_or_unresolved(&ids, &sel), Ok(GraphqlId::Int(3)));
    match first_or_unresolved(&vec![], &sel) {
        Err(ConnectorError::NodeNotFoundForWhere { model, field, value }) => {
            assert_eq!(model, "User");
            assert_eq!(field, "name");
            assert_eq!(value, PrismaValue::String("Ada".to_string()));
        },
        other => panic!("expected an unresolved selector error, got {:?}", other),
    }
}

#[test]
fn attached_registry_scan() {
    let rows = vec![
        vec![SqliteValue::Integer(0), SqliteValue::Text("main".to_string())],
        vec![SqliteValue::Integer(2), SqliteValue::Text("tenant".to_string())],
    ];
    assert!(is_attached(&rows, "tenant"));
    assert!(is_attached(&rows, "main"));
    assert!(!is_attached(&rows, "other"));
    assert!(!is_attached(&vec![], "main"));
}
