use vstd::prelude::*;

verus! {

use vstd::string::StringExecFns;
use crate::driver::{
    Conn,
    PoolHandle,
    conn_execute,
    conn_query,
    last_insert_rowid,
    pool_bound,
    pool_get,
    pool_new,
    r2d2_error_text,
    rusqlite_error_text,
};
use crate::model::{
    CreateNode,
    DatabaseMutactionResultType,
    DeleteNode,
    Field,
    Filter,
    Model,
    Node,
    NodeSelector,
    UpdateNode,
    UpdateNodes,
    UpsertNode,
    find_id,
    model_wf,
};
use crate::sql::{Stmt, render_insert_row, render_select};
use crate::values::{
    ConnectorError,
    ConnectorResult,
    GraphqlId,
    PrismaValue,
    SqliteValue,
    TypeIdentifier,
    copy_id,
    copy_value,
};

/// The connector: a bounded pool of connections into one in-memory primary
/// database, with tenant databases attached by name on demand under a
/// configured root path. In test mode a tenant database is detached again
/// when a call's scope ends.
pub struct Sqlite {
    pub pool: PoolHandle,
    pub test_mode: bool,
    pub server_root: String,
}

/// A read descriptor: the table to project from, the columns in order, an
/// optional single-field equality filter, and an optional ordering column.
#[derive(Clone, PartialEq, Debug)]
pub struct SelectQuery {
    pub table: String,
    pub columns: Vec<String>,
    pub filter: Filter,
    pub order_by: Option<String>,
}

/// Which branch an upsert takes, given what resolving its selector
/// returned.
#[derive(Clone, PartialEq, Debug)]
pub enum UpsertChoice {
    DoCreate,
    DoUpdate(GraphqlId),
    Abort(ConnectorError),
}

/// The upsert fallback rule: a selector that resolved drives an update of
/// the found identifier; one that failed precisely with "selector
/// unresolved" drives a create; any other error aborts, propagated
/// unchanged.
pub fn upsert_decision(res: ConnectorResult<GraphqlId>) -> (r: UpsertChoice)
    ensures
        (match res {
            Ok(id) => r == UpsertChoice::DoUpdate(id),
            Err(ConnectorError::NodeNotFoundForWhere { .. }) => r == UpsertChoice::DoCreate,
            Err(e) => r == UpsertChoice::Abort(e),
        }),
{
    match res {
        Ok(id) => UpsertChoice::DoUpdate(id),
        Err(ConnectorError::NodeNotFoundForWhere { model: _, field: _, value: _ }) => (
        UpsertChoice::DoCreate),
        Err(e) => UpsertChoice::Abort(e),
    }
}

/// Whether a finished unit of work's transaction is committed: exactly on
/// success, never on an error.
#[derive(Clone, Copy, PartialEq, Eq, Structural, Debug)]
pub enum TxEnd {
    Commit,
    Rollback,
}

pub fn tx_disposition(ok: bool) -> (r: TxEnd)
    ensures
        r == (if ok {
            TxEnd::Commit
        } else {
            TxEnd::Rollback
        }),
{
    if ok {
        TxEnd::Commit
    } else {
        TxEnd::Rollback
    }
}

/// Splits an argument mapping into its column names and its values, in
/// order, position by position.
pub fn split_args(args: &Vec<(String, PrismaValue)>) -> (r: (Vec<String>, Vec<PrismaValue>))
    ensures
        r.0@.len() == args@.len(),
        r.1@.len() == args@.len(),
        forall|j: int| 0 <= j < args@.len() ==> r.0@[j] == args@[j].0 && r.1@[j] == args@[j].1,
{
    let mut cols: Vec<String> = Vec::new();
    let mut vals: Vec<PrismaValue> = Vec::new();
    let mut i: usize = 0;
    while i < args.len()
        invariant
            i <= args@.len(),
            cols@.len() == i,
            vals@.len() == i,
            forall|j: int| 0 <= j < i ==> cols@[j] == args@[j].0 && vals@[j] == args@[j].1,
        decreases args@.len() - i,
    {
        cols.push(args[i].0.clone());
        vals.push(copy_value(&args[i].1));
        i = i + 1;
    }
    (cols, vals)
}

/// The domain value an identifier argument carries, read back as an
/// identifier; `None` when the value cannot address a row.
pub open spec fn as_id(v: PrismaValue) -> Option<GraphqlId> {
    match v {
        PrismaValue::GraphqlId(g) => Some(g),
        PrismaValue::Int(n) => Some(GraphqlId::Int(n)),
        PrismaValue::String(s) => Some(GraphqlId::String(s)),
        PrismaValue::Uuid(u) => Some(GraphqlId::Uuid(u)),
        _ => None,
    }
}

/// The first argument naming a column, if any.
pub open spec fn find_arg(args: Seq<(String, PrismaValue)>, name: Seq<char>) -> Option<
    PrismaValue,
>
    decreases args.len(),
{
    if args.len() == 0 {
        None
    } else if args[0].0@ == name {
        Some(args[0].1)
    } else {
        find_arg(args.drop_first(), name)
    }
}

/// The identifier a create statement itself returns, when its arguments
/// carry one for the model's identifier field.
pub fn returned_id(id_field_name: &String, args: &Vec<(String, PrismaValue)>) -> (r: Option<
    GraphqlId,
>)
    ensures
        r == (match find_arg(args@, id_field_name@) {
            Some(v) => as_id(v),
            None => None::<GraphqlId>,
        }),
{
    let mut i: usize = 0;
    proof {
        assert(args@.skip(0) =~= args@);
    }
    while i < args.len()
        invariant
            i <= args@.len(),
            find_arg(args@, id_field_name@) == find_arg(args@.skip(i as int), id_field_name@),
        decreases args@.len() - i,
    {
        proof {
            assert(args@.skip(i as int)[0] == args@[i as int]);
        }
        if args[i].0 == *id_field_name {
            let v = &args[i].1;
            return match v {
                PrismaValue::GraphqlId(g) => Some(copy_id(g)),
                PrismaValue::Int(n) => Some(GraphqlId::Int(*n)),
                PrismaValue::String(s) => Some(GraphqlId::String(s.clone())),
                PrismaValue::Uuid(u) => Some(GraphqlId::Uuid(*u)),
                _ => None,
            };
        }
        proof {
            assert(args@.skip(i as int).drop_first() =~= args@.skip(i + 1));
        }
        i = i + 1;
    }
    proof {
        assert(args@.skip(i as int).len() == 0);
    }
    None
}

/// The errors the plumbing around a unit of work can raise itself: a
/// driver failure or pool exhaustion.
pub open spec fn plumbing_error(e: ConnectorError) -> bool {
    e matches ConnectorError::DriverError(_) || e matches ConnectorError::PoolExhausted(_)
}

/// The errors statement execution and row decoding can raise: a driver
/// failure or a value that does not decode.
pub open spec fn execution_error(e: ConnectorError) -> bool {
    e matches ConnectorError::DriverError(_) || e matches ConnectorError::ValueDecodeError(_)
}

/// Whether the engine's attached-database registry rows name a database:
/// some row's second column holds exactly that text.
pub open spec fn attached_in(rows: Seq<Vec<SqliteValue>>, name: Seq<char>) -> bool {
    exists|i: int|
        0 <= i < rows.len() && rows[i]@.len() > 1 && (rows[i]@[1] matches SqliteValue::Text(s)
            && s@ == name)
}

/// Scans the registry rows for a database name; see `attached_in`.
pub fn is_attached(rows: &Vec<Vec<SqliteValue>>, db_name: &str) -> (r: bool)
    ensures
        r == attached_in(rows@, db_name@),
{
    let mut i: usize = 0;
    while i < rows.len()
        invariant
            i <= rows@.len(),
            forall|j: int|
                0 <= j < i ==> !(rows@[j]@.len() > 1 && (rows@[j]@[1] matches SqliteValue::Text(s)
                    && s@ == db_name@)),
        decreases rows@.len() - i,
    {
        let row = &rows[i];
        if row.len() > 1 {
            match &row[1] {
                SqliteValue::Text(name) => {
                    if *name == String::from_str(db_name) {
                        return true;
                    }
                },
                _ => {},
            }
        }
        i = i + 1;
    }
    false
}

/// Whether one fetched row decodes through a projection: at least as wide
/// as the projection, every column decoding against its field's type.
pub open spec fn row_decodes(row: Vec<SqliteValue>, fields: Seq<Field>) -> bool {
    row@.len() >= fields.len() && (forall|j: int|
        0 <= j < fields.len() ==> crate::values::decoded(fields[j].typ, row@[j]) is Some)
}

/// Says of nodes that they are exactly the projection-decode of a fetched
/// row set: one node per row, in row order, no row skipped, none added,
/// each column the decode of its row's column.
pub open spec fn nodes_decode_of(
    rows: Seq<Vec<SqliteValue>>,
    fields: Seq<Field>,
    nodes: Seq<Node>,
) -> bool {
    nodes.len() == rows.len() && (forall|n: int|
        0 <= n < rows.len() ==> #[trigger] nodes[n].values@.len() == fields.len()) && (forall|
        n: int,
        j: int,
    |
        0 <= n < rows.len() && 0 <= j < fields.len() ==> #[trigger] crate::values::decoded(
            fields[j].typ,
            rows[n]@[j],
        ) == Some(nodes[n].values@[j]))
}

/// Decodes a whole fetched row set through a projection: succeeds exactly
/// when every row decodes, and then returns their decodes completely and
/// in row order; one undecodable row aborts the whole call with a decode
/// error and no partial result.
pub fn decode_rows(rows: &Vec<Vec<SqliteValue>>, fields: &Vec<Field>) -> (r: ConnectorResult<
    Vec<Node>,
>)
    requires
        forall|j: int| 0 <= j < fields@.len() ==> fields@[j].typ != TypeIdentifier::Relation,
    ensures
        r is Ok <==> (forall|n: int| 0 <= n < rows@.len() ==> #[trigger] row_decodes(
            rows@[n],
            fields@,
        )),
        r matches Ok(nodes) ==> nodes_decode_of(rows@, fields@, nodes@),
        r matches Err(e) ==> e matches ConnectorError::ValueDecodeError(_),
{
    let mut nodes: Vec<Node> = Vec::new();
    let mut i: usize = 0;
    while i < rows.len()
        invariant
            i <= rows@.len(),
            nodes@.len() == i,
            forall|j: int| 0 <= j < fields@.len() ==> fields@[j].typ != TypeIdentifier::Relation,
            forall|n: int| 0 <= n < i ==> #[trigger] row_decodes(rows@[n], fields@),
            forall|n: int| 0 <= n < i ==> #[trigger] nodes@[n].values@.len() == fields@.len(),
            forall|n: int, j: int|
                0 <= n < i && 0 <= j < fields@.len() ==> #[trigger] crate::values::decoded(
                    fields@[j].typ,
                    rows@[n]@[j],
                ) == Some(nodes@[n].values@[j]),
        decreases rows@.len() - i,
    {
        match crate::model::read_row(&rows[i], fields) {
            Ok(node) => {
                proof {
                    if fields@.len() > 0 {
                        assert(crate::values::decoded(
                            fields@[fields@.len() - 1].typ,
                            rows@[i as int]@[fields@.len() - 1],
                        ) is Some);
                        assert(rows@[i as int]@.len() >= fields@.len());
                    }
                    assert(row_decodes(rows@[i as int], fields@));
                }
                nodes.push(node);
            },
            Err(e) => {
                proof {
                    assert(!row_decodes(rows@[i as int], fields@));
                }
                return Err(e);
            },
        }
        i = i + 1;
    }
    Ok(nodes)
}

/// The identifier the resolver reads from one fetched row: the decode of
/// its first column against the identifier type, when that yields an
/// identifier.
pub open spec fn id_of_row(row: Vec<SqliteValue>) -> Option<GraphqlId> {
    if row@.len() > 0 {
        match crate::values::decoded(TypeIdentifier::GraphQLID, row@[0]) {
            Some(PrismaValue::GraphqlId(g)) => Some(g),
            _ => None,
        }
    } else {
        None
    }
}

/// Says of identifiers that they are exactly the identifier-decode of a
/// fetched row set: one per row, in row order, complete.
pub open spec fn ids_decode_of(rows: Seq<Vec<SqliteValue>>, ids: Seq<GraphqlId>) -> bool {
    ids.len() == rows.len() && (forall|n: int|
        0 <= n < rows.len() ==> #[trigger] id_of_row(rows[n]) == Some(ids[n]))
}

/// Decodes a whole fetched row set into identifiers: succeeds exactly when
/// every row's first column decodes to an identifier, and then returns
/// them completely and in row order; anything else aborts with a decode
/// error and no partial result.
pub fn decode_id_rows(rows: &Vec<Vec<SqliteValue>>) -> (r: ConnectorResult<Vec<GraphqlId>>)
    ensures
        r is Ok <==> (forall|n: int| 0 <= n < rows@.len() ==> #[trigger] id_of_row(rows@[n])
            is Some),
        r matches Ok(ids) ==> ids_decode_of(rows@, ids@),
        r matches Err(e) ==> e matches ConnectorError::ValueDecodeError(_),
{
    let mut ids: Vec<GraphqlId> = Vec::new();
    let mut i: usize = 0;
    while i < rows.len()
        invariant
            i <= rows@.len(),
            ids@.len() == i,
            forall|n: int| 0 <= n < i ==> #[trigger] id_of_row(rows@[n]) == Some(ids@[n]),
        decreases rows@.len() - i,
    {
        match crate::values::fetch_value(TypeIdentifier::GraphQLID, &rows[i], 0) {
            Ok(PrismaValue::GraphqlId(g)) => {
                proof {
                    assert(id_of_row(rows@[i as int]) == Some(g));
                }
                ids.push(g);
            },
            Ok(_) => {
                proof {
                    assert(id_of_row(rows@[i as int]) is None);
                }
                return Err(ConnectorError::ValueDecodeError(String::from_str(
                    "identifier column did not hold an identifier",
                )));
            },
            Err(e) => {
                proof {
                    assert(id_of_row(rows@[i as int]) is None);
                }
                return Err(e);
            },
        }
        i = i + 1;
    }
    Ok(ids)
}

/// The identifier-resolution decision: the first resolved identifier, or
/// exactly the "selector unresolved" error carrying the selector's model,
/// field and value when nothing resolved.
pub fn first_or_unresolved(ids: &Vec<GraphqlId>, selector: &NodeSelector) -> (r: ConnectorResult<
    GraphqlId,
>)
    ensures
        ids@.len() > 0 ==> r == Ok::<GraphqlId, ConnectorError>(ids@[0]),
        ids@.len() == 0 ==> r == Err::<GraphqlId, ConnectorError>(
            (ConnectorError::NodeNotFoundForWhere {
                model: selector.model.name,
                field: selector.field,
                value: selector.value,
            }),
        ),
{
    if ids.len() > 0 {
        Ok(copy_id(&ids[0]))
    } else {
        Err(ConnectorError::NodeNotFoundForWhere {
            model: selector.model.name.clone(),
            field: selector.field.clone(),
            value: copy_value(&selector.value),
        })
    }
}

impl Sqlite {
    /// A new connector whose pool holds at most `connection_limit`
    /// connections into local memory; tenant databases are created under
    /// the default root when first attached. A zero limit cannot be asked
    /// for: the pool refuses it by panicking, so it is kept out here.
    pub fn new(connection_limit: u32, test_mode: bool) -> (r: ConnectorResult<Sqlite>)
        requires
            connection_limit > 0,
        ensures
            r matches Ok(s) ==> s.test_mode == test_mode && s.server_root@ == "."@ && pool_bound(
                s.pool,
            ) == connection_limit,
            r matches Err(e) ==> e matches ConnectorError::DriverError(_),
    {
        Self::with_server_root(connection_limit, test_mode, String::from_str("."))
    }

    /// As `new`, with the root path under which tenant database files live
    /// made explicit instead of read from the process environment.
    pub fn with_server_root(connection_limit: u32, test_mode: bool, server_root: String) -> (r:
        ConnectorResult<Sqlite>)
        requires
            connection_limit > 0,
        ensures
            r matches Ok(s) ==> s.test_mode == test_mode && s.server_root == server_root
                && pool_bound(s.pool) == connection_limit,
            r matches Err(e) ==> e matches ConnectorError::DriverError(_),
    {
        match pool_new(connection_limit) {
            Ok(pool) => Ok(Sqlite { pool, test_mode, server_root }),
            Err(e) => Err(ConnectorError::DriverError(r2d2_error_text(&e))),
        }
    }

    /// Where a tenant database's file lives: `<root>/db/<name>.db`.
    pub fn attach_path(server_root: &str, db_name: &str) -> (r: String)
        ensures
            r@ == server_root@ + "/db/"@ + db_name@ + ".db"@,
    {
        let mut p = String::new();
        p.append(server_root);
        p.append("/db/");
        p.append(db_name);
        p.append(".db");
        proof {
            assert(p@ =~= server_root@ + "/db/"@ + db_name@ + ".db"@);
        }
        p
    }

    /// Runs one rendered statement, folding a driver failure into the
    /// connector's error taxonomy.
    pub fn execute_one(conn: &mut Conn, stmt: &Stmt) -> (r: ConnectorResult<()>)
        ensures
            r matches Err(e) ==> e matches ConnectorError::DriverError(_),
    {
        match conn_execute(conn, stmt.sql.as_str(), &stmt.params) {
            Ok(_) => Ok(()),
            Err(e) => Err(ConnectorError::DriverError(rusqlite_error_text(&e))),
        }
    }

    /// Runs a statement sequence in order, stopping at the first failure;
    /// an empty sequence always succeeds.
    pub fn execute_many(conn: &mut Conn, stmts: &Vec<Stmt>) -> (r: ConnectorResult<()>)
        ensures
            r matches Err(e) ==> e matches ConnectorError::DriverError(_),
            stmts@.len() == 0 ==> r is Ok,
    {
        let mut i: usize = 0;
        while i < stmts.len()
            invariant
                i <= stmts@.len(),
            decreases stmts@.len() - i,
        {
            match Self::execute_one(conn, &stmts[i]) {
                Ok(()) => {},
                Err(e) => {
                    return Err(e);
                },
            }
            i = i + 1;
        }
        Ok(())
    }

    /// Runs a read and decodes every result row through the projection via
    /// `decode_rows`: on success the result is exactly the projection-decode
    /// of the fetched rows, complete and in row order; a decode failure for
    /// any row aborts the whole call with no partial result. A failure is
    /// the driver's, or a decode error; nothing else.
    pub fn query(conn: &mut Conn, stmt: &Stmt, fields: &Vec<Field>) -> (r: ConnectorResult<
        Vec<Node>,
    >)
        requires
            forall|j: int|
                0 <= j < fields@.len() ==> fields@[j].typ != TypeIdentifier::Relation,
        ensures
            r matches Ok(nodes) ==> (exists|rows: Seq<Vec<SqliteValue>>|
                nodes_decode_of(rows, fields@, nodes@)),
            r matches Ok(nodes) ==> forall|n: int|
                0 <= n < nodes@.len() ==> #[trigger] nodes@[n].values@.len() == fields@.len(),
            r matches Err(e) ==> execution_error(e),
    {
        let rows = match conn_query(conn, stmt.sql.as_str(), &stmt.params) {
            Ok(rows) => rows,
            Err(e) => {
                return Err(ConnectorError::DriverError(rusqlite_error_text(&e)));
            },
        };
        let r = decode_rows(&rows, fields);
        proof {
            match &r {
                Ok(nodes) => {
                    assert(nodes_decode_of(rows@, fields@, nodes@));
                },
                Err(_) => {},
            }
        }
        r
    }

    /// Resolves a filter to the identifiers of every row it matches, by
    /// projecting the model's identifier field alone and decoding the
    /// fetched rows via `decode_id_rows`: on success the result is exactly
    /// their identifier-decode, complete and in result order.
    pub fn ids_for(conn: &mut Conn, db: &str, model: &Model, filter: &Filter) -> (r:
        ConnectorResult<Vec<GraphqlId>>)
        requires
            model_wf(*model),
        ensures
            r matches Ok(ids) ==> (exists|rows: Seq<Vec<SqliteValue>>| ids_decode_of(rows, ids@)),
            r matches Err(e) ==> execution_error(e),
    {
        let idf = match model.id_field() {
            Some(f) => f,
            None => {
                proof {
                    assert(false);
                }
                return Err(ConnectorError::ContractViolation(String::from_str(
                    "model has no identifier field",
                )));
            },
        };
        let mut cols: Vec<String> = Vec::new();
        cols.push(idf.name.clone());
        let stmt = render_select(db, model.name.as_str(), &cols, filter, None);
        let rows = match conn_query(conn, stmt.sql.as_str(), &stmt.params) {
            Ok(rows) => rows,
            Err(e) => {
                return Err(ConnectorError::DriverError(rusqlite_error_text(&e)));
            },
        };
        let r = decode_id_rows(&rows);
        proof {
            match &r {
                Ok(ids) => {
                    assert(ids_decode_of(rows@, ids@));
                },
                Err(_) => {},
            }
        }
        r
    }

    /// Resolves a selector to the one identifier it matches: the first
    /// resolved identifier, or the "selector unresolved" error carrying the
    /// selector's model, field and value when it matches nothing.
    pub fn id_for(conn: &mut Conn, db: &str, selector: &NodeSelector) -> (r: ConnectorResult<
        GraphqlId,
    >)
        requires
            model_wf(selector.model),
        ensures
            r matches Err(ConnectorError::NodeNotFoundForWhere { model: m, field: f, value: v })
                ==> m@ == selector.model.name@ && f@ == selector.field@ && v == selector.value,
            r matches Err(e) ==> (execution_error(e) || e matches
                ConnectorError::NodeNotFoundForWhere { .. }),
    {
        let filt = Filter::FieldEquals(selector.field.clone(), copy_value(&selector.value));
        let ids = match Self::ids_for(conn, db, &selector.model, &filt) {
            Ok(ids) => ids,
            Err(e) => {
                return Err(e);
            },
        };
        first_or_unresolved(&ids, selector)
    }

    /// Materialises a create's list arguments for the new row, issuing, in
    /// order, exactly the renderings of the create list plan's statements:
    /// one insert per list field with any elements, keyed by the row's
    /// identifier.
    pub fn create_list_args(
        conn: &mut Conn,
        db: &String,
        id: &GraphqlId,
        model: &Model,
        list_args: &Vec<(String, Vec<PrismaValue>)>,
    ) -> (r: ConnectorResult<()>)
        requires
            forall|j: int| 0 <= j < list_args@.len() ==> #[trigger] list_args@[j].1@.len() <= i64::MAX,
        ensures
            r matches Err(e) ==> e matches ConnectorError::DriverError(_),
            list_args@.len() == 0 ==> r is Ok,
            (forall|j: int| 0 <= j < list_args@.len() ==> #[trigger] list_args@[j].1@.len() == 0)
                ==> r is Ok,
    {
        let stmts = crate::plan::build_create_list_stmts(db, &model.name, id, list_args);
        proof {
            crate::plan::lemma_create_plan_all_empty(*db, model.name, *id, list_args@);
        }
        Self::execute_many(conn, &stmts)
    }

    /// Replaces list fields for a whole identifier set, issuing, in
    /// order, exactly the renderings of the update list plan's statements:
    /// per list argument, the delete clearing the field for every
    /// identifier, then the refilling inserts. An empty identifier set
    /// addresses nothing and issues nothing.
    pub fn update_list_args(
        conn: &mut Conn,
        db: &String,
        ids: &Vec<GraphqlId>,
        model: &Model,
        list_args: &Vec<(String, Vec<PrismaValue>)>,
    ) -> (r: ConnectorResult<()>)
        requires
            forall|j: int| 0 <= j < list_args@.len() ==> #[trigger] list_args@[j].1@.len() <= i64::MAX,
        ensures
            r matches Err(e) ==> e matches ConnectorError::DriverError(_),
            ids@.len() == 0 ==> r is Ok,
            list_args@.len() == 0 ==> r is Ok,
    {
        if ids.len() == 0 {
            return Ok(());
        }
        let stmts = crate::plan::build_update_list_stmts(db, &model.name, ids, list_args);
        Self::execute_many(conn, &stmts)
    }

    /// Creates one row: the insert first, then the new identifier — the
    /// one the arguments carried for the identifier field, or else the
    /// engine's last-insert rowid — then the list materialisation keyed by
    /// it.
    pub fn create_node(conn: &mut Conn, db: &String, mutaction: &CreateNode) -> (r: ConnectorResult<
        GraphqlId,
    >)
        requires
            model_wf(mutaction.model),
            forall|j: int|
                0 <= j < mutaction.list_args@.len() ==> #[trigger] mutaction.list_args@[j].1@.len()
                    <= i64::MAX,
        ensures
            (match find_id(mutaction.model.fields@) {
                Some(idf) => (match find_arg(mutaction.non_list_args@, idf.name@) {
                    Some(v) => (match as_id(v) {
                        Some(g) => (r matches Ok(gid) ==> gid == g),
                        None => true,
                    }),
                    None => true,
                }),
                None => true,
            }),
            (match find_id(mutaction.model.fields@) {
                Some(idf) => ((match find_arg(mutaction.non_list_args@, idf.name@) {
                    Some(v) => as_id(v) is None,
                    None => true,
                }) ==> (r matches Ok(gid) ==> gid matches GraphqlId::Int(_))),
                None => true,
            }),
            r matches Err(e) ==> e matches ConnectorError::DriverError(_),
    {
        let idf = match mutaction.model.id_field() {
            Some(f) => f,
            None => {
                proof {
                    assert(false);
                }
                return Err(ConnectorError::ContractViolation(String::from_str(
                    "model has no identifier field",
                )));
            },
        };
        let (cols, vals) = split_args(&mutaction.non_list_args);
        let stmt = render_insert_row(db.as_str(), mutaction.model.name.as_str(), &cols, &vals);
        match Self::execute_one(conn, &stmt) {
            Ok(()) => {},
            Err(e) => {
                return Err(e);
            },
        }
        let id = match returned_id(&idf.name, &mutaction.non_list_args) {
            Some(g) => g,
            None => GraphqlId::Int(last_insert_rowid(conn)),
        };
        match Self::create_list_args(conn, db, &id, &mutaction.model, &mutaction.list_args) {
            Ok(()) => {},
            Err(e) => {
                return Err(e);
            },
        }
        Ok(id)
    }

    /// Updates the one row an already-resolved identifier addresses,
    /// issuing, in order, exactly the renderings of the update mutation
    /// plan's statements: the row update only when there are non-list
    /// arguments — none means no row statement at all — then the list
    /// replacements. Returns the same identifier it was given.
    pub fn update_node(conn: &mut Conn, db: &String, id: GraphqlId, mutaction: &UpdateNode) -> (r:
        ConnectorResult<GraphqlId>)
        requires
            model_wf(mutaction.where_.model),
            forall|j: int|
                0 <= j < mutaction.list_args@.len() ==> #[trigger] mutaction.list_args@[j].1@.len()
                    <= i64::MAX,
        ensures
            r matches Ok(out) ==> out == id,
            r matches Err(e) ==> e matches ConnectorError::DriverError(_),
    {
        let model = &mutaction.where_.model;
        let idf = match model.id_field() {
            Some(f) => f,
            None => {
                proof {
                    assert(false);
                }
                return Err(ConnectorError::ContractViolation(String::from_str(
                    "model has no identifier field",
                )));
            },
        };
        let (cols, vals) = split_args(&mutaction.non_list_args);
        let mut one_id: Vec<GraphqlId> = Vec::new();
        one_id.push(copy_id(&id));
        let stmts = crate::plan::build_update_mutation_stmts(
            db,
            &model.name,
            &idf.name,
            &one_id,
            &cols,
            &vals,
            &mutaction.list_args,
        );
        match Self::execute_many(conn, &stmts) {
            Ok(()) => {},
            Err(e) => {
                return Err(e);
            },
        }
        Ok(id)
    }

    /// Updates every row of an already-resolved identifier set, issuing
    /// exactly the renderings of the update mutation plan's statements,
    /// and returns the count of identifiers the filter matched at
    /// resolution, whatever the update itself changed. An empty set
    /// addresses nothing and issues nothing.
    pub fn update_nodes(
        conn: &mut Conn,
        db: &String,
        ids: Vec<GraphqlId>,
        mutaction: &UpdateNodes,
    ) -> (r: ConnectorResult<usize>)
        requires
            model_wf(mutaction.model),
            forall|j: int|
                0 <= j < mutaction.list_args@.len() ==> #[trigger] mutaction.list_args@[j].1@.len()
                    <= i64::MAX,
        ensures
            r matches Ok(n) ==> n == ids@.len(),
            ids@.len() == 0 ==> r is Ok,
            r matches Err(e) ==> e matches ConnectorError::DriverError(_),
    {
        let count = ids.len();
        if ids.len() == 0 {
            return Ok(count);
        }
        let idf = match mutaction.model.id_field() {
            Some(f) => f,
            None => {
                proof {
                    assert(false);
                }
                return Err(ConnectorError::ContractViolation(String::from_str(
                    "model has no identifier field",
                )));
            },
        };
        let (cols, vals) = split_args(&mutaction.non_list_args);
        let stmts = crate::plan::build_update_mutation_stmts(
            db,
            &mutaction.model.name,
            &idf.name,
            &ids,
            &cols,
            &vals,
            &mutaction.list_args,
        );
        match Self::execute_many(conn, &stmts) {
            Ok(()) => {},
            Err(e) => {
                return Err(e);
            },
        }
        Ok(count)
    }

    /// Attaches the named tenant database to this connection when the
    /// engine's registry does not list it yet — a repeated call finds it
    /// listed and issues no further `ATTACH` — then enables foreign-key
    /// enforcement. Any failure is the driver's.
    fn attach_database(conn: &mut Conn, server_root: &str, db_name: &str) -> (r: ConnectorResult<
        (),
    >)
        ensures
            r matches Err(e) ==> e matches ConnectorError::DriverError(_),
    {
        let no_params: Vec<SqliteValue> = Vec::new();
        let rows = match conn_query(conn, "PRAGMA database_list", &no_params) {
            Ok(rows) => rows,
            Err(e) => {
                return Err(ConnectorError::DriverError(rusqlite_error_text(&e)));
            },
        };
        let attached = is_attached(&rows, db_name);
        if !attached {
            let path = Self::attach_path(server_root, db_name);
            let mut params: Vec<SqliteValue> = Vec::new();
            params.push(SqliteValue::Text(path));
            params.push(SqliteValue::Text(String::from_str(db_name)));
            match conn_execute(conn, "ATTACH DATABASE ? AS ?", &params) {
                Ok(_) => {},
                Err(e) => {
                    return Err(ConnectorError::DriverError(rusqlite_error_text(&e)));
                },
            }
        }
        match conn_execute(conn, "PRAGMA foreign_keys = ON", &no_params) {
            Ok(_) => Ok(()),
            Err(e) => Err(ConnectorError::DriverError(rusqlite_error_text(&e))),
        }
    }

    fn checkout(&self, db_name: &str) -> (r: ConnectorResult<Conn>)
        ensures
            r matches Err(e) ==> plumbing_error(e),
    {
        let mut conn = match pool_get(&self.pool) {
            Ok(c) => c,
            Err(e) => {
                return Err(ConnectorError::PoolExhausted(r2d2_error_text(&e)));
            },
        };
        match Self::attach_database(&mut conn, self.server_root.as_str(), db_name) {
            Ok(()) => Ok(conn),
            Err(e) => Err(e),
        }
    }

    fn scope_end(&self, conn: &mut Conn, db_name: &str) -> (r: ConnectorResult<()>)
        ensures
            r matches Err(e) ==> e matches ConnectorError::DriverError(_),
    {
        if self.test_mode {
            let mut params: Vec<SqliteValue> = Vec::new();
            params.push(SqliteValue::Text(String::from_str(db_name)));
            match conn_execute(conn, "DETACH DATABASE ?", &params) {
                Ok(_) => Ok(()),
                Err(e) => Err(ConnectorError::DriverError(rusqlite_error_text(&e))),
            }
        } else {
            Ok(())
        }
    }

    fn tx_begin(conn: &mut Conn) -> (r: ConnectorResult<()>)
        ensures
            r matches Err(e) ==> e matches ConnectorError::DriverError(_),
    {
        let no_params: Vec<SqliteValue> = Vec::new();
        match conn_execute(conn, "BEGIN", &no_params) {
            Ok(_) => Ok(()),
            Err(e) => Err(ConnectorError::DriverError(rusqlite_error_text(&e))),
        }
    }

    /// Ends a transaction around a finished unit of work: commit exactly
    /// when it succeeded, rollback when it failed — the unit's own error
    /// propagating unchanged in that case, a failing commit surfacing as a
    /// driver error.
    fn tx_finish<T>(conn: &mut Conn, result: ConnectorResult<T>) -> (r: ConnectorResult<T>)
        ensures
            result matches Err(e) ==> r == Err::<T, ConnectorError>(e),
            result matches Ok(v) ==> (r == Ok::<T, ConnectorError>(v) || (r matches Err(
                ConnectorError::DriverError(_),
            ))),
    {
        let no_params: Vec<SqliteValue> = Vec::new();
        let ok = result.is_ok();
        match tx_disposition(ok) {
            TxEnd::Commit => {
                match conn_execute(conn, "COMMIT", &no_params) {
                    Ok(_) => result,
                    Err(e) => Err(ConnectorError::DriverError(rusqlite_error_text(&e))),
                }
            },
            TxEnd::Rollback => {
                let _ = conn_execute(conn, "ROLLBACK", &no_params);
                result
            },
        }
    }

    /// Checks a connection out, attaches the tenant database, and hands the
    /// connection to the unit of work; in test mode the tenant database is
    /// detached again before the connection drops back into the pool.
    pub fn with_connection<T, F: FnOnce(Conn) -> (Conn, ConnectorResult<T>)>(
        &self,
        db_name: &str,
        f: F,
    ) -> (r: ConnectorResult<T>)
        requires
            forall|c: Conn| f.requires((c,)),
        ensures
            r matches Ok(v) ==> (exists|c1: Conn, c2: Conn|
                f.ensures((c1,), (c2, Ok::<T, ConnectorError>(v)))),
            r matches Err(e) ==> (plumbing_error(e) || (exists|c1: Conn, c2: Conn|
                f.ensures((c1,), (c2, Err::<T, ConnectorError>(e))))),
    {
        let conn = match self.checkout(db_name) {
            Ok(c) => c,
            Err(e) => {
                return Err(e);
            },
        };
        let ghost pre = conn;
        let (conn2, result) = f(conn);
        proof {
            assert(f.ensures((pre,), (conn2, result)));
        }
        let mut conn = conn2;
        let ghost mid = conn;
        match self.scope_end(&mut conn, db_name) {
            Ok(()) => {
                proof {
                    match &result {
                        Ok(v) => assert(f.ensures((pre,), (mid, Ok::<T, ConnectorError>(*v)))),
                        Err(e) => assert(f.ensures((pre,), (mid, Err::<T, ConnectorError>(*e)))),
                    }
                }
                result
            },
            Err(e) => Err(e),
        }
    }

    /// Wraps the unit of work in a transaction on a freshly checked-out
    /// connection: committed exactly when the unit returns success, its
    /// effects discarded otherwise, with the unit's own error propagating
    /// unchanged.
    pub fn with_transaction<T, F: FnOnce(Conn) -> (Conn, ConnectorResult<T>)>(
        &self,
        db_name: &str,
        f: F,
    ) -> (r: ConnectorResult<T>)
        requires
            forall|c: Conn| f.requires((c,)),
        ensures
            r matches Ok(v) ==> (exists|c1: Conn, c2: Conn|
                f.ensures((c1,), (c2, Ok::<T, ConnectorError>(v)))),
            r matches Err(e) ==> (plumbing_error(e) || (exists|c1: Conn, c2: Conn|
                f.ensures((c1,), (c2, Err::<T, ConnectorError>(e))))),
    {
        let mut conn = match self.checkout(db_name) {
            Ok(c) => c,
            Err(e) => {
                return Err(e);
            },
        };
        match Self::tx_begin(&mut conn) {
            Ok(()) => {},
            Err(e) => {
                return Err(e);
            },
        }
        let ghost pre = conn;
        let (conn2, unit_result) = f(conn);
        proof {
            assert(f.ensures((pre,), (conn2, unit_result)));
        }
        let mut conn = conn2;
        let ghost mid = conn;
        let ghost orig = unit_result;
        let result = Self::tx_finish(&mut conn, unit_result);
        match self.scope_end(&mut conn, db_name) {
            Ok(()) => {
                proof {
                    match &result {
                        Ok(v) => {
                            assert(orig == Ok::<T, ConnectorError>(*v));
                            assert(f.ensures((pre,), (mid, Ok::<T, ConnectorError>(*v))));
                        },
                        Err(e) => {
                            if orig == Err::<T, ConnectorError>(*e) {
                                assert(f.ensures((pre,), (mid, Err::<T, ConnectorError>(*e))));
                            }
                        },
                    }
                }
                result
            },
            Err(e) => Err(e),
        }
    }

    /// Runs a read inside one transaction and returns the decoded rows in
    /// result order, every row decoded through the given projection.
    pub fn with_rows(&self, query: &SelectQuery, db_name: String, fields: &Vec<Field>) -> (r:
        ConnectorResult<Vec<Node>>)
        requires
            forall|j: int|
                0 <= j < fields@.len() ==> fields@[j].typ != TypeIdentifier::Relation,
        ensures
            r matches Ok(nodes) ==> (exists|rows: Seq<Vec<SqliteValue>>|
                nodes_decode_of(rows, fields@, nodes@)),
            r matches Ok(nodes) ==> forall|n: int|
                0 <= n < nodes@.len() ==> #[trigger] nodes@[n].values@.len() == fields@.len(),
            r matches Err(e) ==> (plumbing_error(e) || e matches ConnectorError::ValueDecodeError(
                _,
            )),
    {
        let mut conn = match self.checkout(db_name.as_str()) {
            Ok(c) => c,
            Err(e) => {
                return Err(e);
            },
        };
        match Self::tx_begin(&mut conn) {
            Ok(()) => {},
            Err(e) => {
                return Err(e);
            },
        }
        let stmt = render_select(
            db_name.as_str(),
            query.table.as_str(),
            &query.columns,
            &query.filter,
            query.order_by.as_ref(),
        );
        let result = Self::query(&mut conn, &stmt, fields);
        let result = Self::tx_finish(&mut conn, result);
        match self.scope_end(&mut conn, db_name.as_str()) {
            Ok(()) => result,
            Err(e) => Err(e),
        }
    }

    /// The unmediated-statement boundary is disabled: the given text is not
    /// executed, and a fixed placeholder value comes back.
    pub fn execute_raw(&self, _query: String) -> (r: ConnectorResult<PrismaValue>)
        ensures
            r matches Ok(PrismaValue::String(s)) && s@ == "hello world!"@,
    {
        Ok(PrismaValue::String(String::from_str("hello world!")))
    }

    /// Runs one statement against a tenant database in its own transaction:
    /// the schema-setup path for embedders, outside the mutation model.
    pub fn run_statement(&self, db_name: String, sql: String) -> (r: ConnectorResult<usize>)
        ensures
            r matches Err(e) ==> plumbing_error(e),
    {
        let mut conn = match self.checkout(db_name.as_str()) {
            Ok(c) => c,
            Err(e) => {
                return Err(e);
            },
        };
        let no_params: Vec<SqliteValue> = Vec::new();
        let result = match conn_execute(&mut conn, sql.as_str(), &no_params) {
            Ok(n) => Ok(n),
            Err(e) => Err(ConnectorError::DriverError(rusqlite_error_text(&e))),
        };
        match self.scope_end(&mut conn, db_name.as_str()) {
            Ok(()) => result,
            Err(e) => Err(e),
        }
    }

    /// Runs a create mutation in one transaction and returns the new row's
    /// identifier.
    pub fn execute_create(&self, db_name: String, mutaction: &CreateNode) -> (r: ConnectorResult<
        GraphqlId,
    >)
        requires
            model_wf(mutaction.model),
            forall|j: int|
                0 <= j < mutaction.list_args@.len() ==> #[trigger] mutaction.list_args@[j].1@.len()
                    <= i64::MAX,
        ensures
            (match find_id(mutaction.model.fields@) {
                Some(idf) => (match find_arg(mutaction.non_list_args@, idf.name@) {
                    Some(v) => (match as_id(v) {
                        Some(g) => (r matches Ok(gid) ==> gid == g),
                        None => true,
                    }),
                    None => true,
                }),
                None => true,
            }),
            (match find_id(mutaction.model.fields@) {
                Some(idf) => ((match find_arg(mutaction.non_list_args@, idf.name@) {
                    Some(v) => as_id(v) is None,
                    None => true,
                }) ==> (r matches Ok(gid) ==> gid matches GraphqlId::Int(_))),
                None => true,
            }),
            r matches Err(e) ==> plumbing_error(e),
    {
        let mut conn = match self.checkout(db_name.as_str()) {
            Ok(c) => c,
            Err(e) => {
                return Err(e);
            },
        };
        match Self::tx_begin(&mut conn) {
            Ok(()) => {},
            Err(e) => {
                return Err(e);
            },
        }
        let result = Self::create_node(&mut conn, &db_name, mutaction);
        let result = Self::tx_finish(&mut conn, result);
        match self.scope_end(&mut conn, db_name.as_str()) {
            Ok(()) => result,
            Err(e) => Err(e),
        }
    }

    /// Runs an update mutation in one transaction: resolves the selector —
    /// failing if it resolves nothing — then updates that one row.
    pub fn execute_update(&self, db_name: String, mutaction: &UpdateNode) -> (r: ConnectorResult<
        GraphqlId,
    >)
        requires
            model_wf(mutaction.where_.model),
            forall|j: int|
                0 <= j < mutaction.list_args@.len() ==> #[trigger] mutaction.list_args@[j].1@.len()
                    <= i64::MAX,
        ensures
            r matches Err(ConnectorError::NodeNotFoundForWhere { model: m, field: f, value: v })
                ==> m@ == mutaction.where_.model.name@ && f@ == mutaction.where_.field@ && v
                == mutaction.where_.value,
            r matches Err(e) ==> (plumbing_error(e) || e matches ConnectorError::ValueDecodeError(
                _,
            ) || e matches ConnectorError::NodeNotFoundForWhere { .. }),
    {
        let mut conn = match self.checkout(db_name.as_str()) {
            Ok(c) => c,
            Err(e) => {
                return Err(e);
            },
        };
        match Self::tx_begin(&mut conn) {
            Ok(()) => {},
            Err(e) => {
                return Err(e);
            },
        }
        let result = match Self::id_for(&mut conn, db_name.as_str(), &mutaction.where_) {
            Ok(id) => Self::update_node(&mut conn, &db_name, id, mutaction),
            Err(e) => Err(e),
        };
        let result = Self::tx_finish(&mut conn, result);
        match self.scope_end(&mut conn, db_name.as_str()) {
            Ok(()) => result,
            Err(e) => Err(e),
        }
    }

    /// Runs an update-many mutation in one transaction: resolves the filter
    /// to an identifier set, updates them all, and returns how many the
    /// filter matched at resolution — also when the update itself changes
    /// nothing.
    pub fn execute_update_many(&self, db_name: String, mutaction: &UpdateNodes) -> (r:
        ConnectorResult<usize>)
        requires
            model_wf(mutaction.model),
            forall|j: int|
                0 <= j < mutaction.list_args@.len() ==> #[trigger] mutaction.list_args@[j].1@.len()
                    <= i64::MAX,
        ensures
            r matches Err(e) ==> (plumbing_error(e) || e matches ConnectorError::ValueDecodeError(
                _,
            )),
    {
        let mut conn = match self.checkout(db_name.as_str()) {
            Ok(c) => c,
            Err(e) => {
                return Err(e);
            },
        };
        match Self::tx_begin(&mut conn) {
            Ok(()) => {},
            Err(e) => {
                return Err(e);
            },
        }
        let result = match Self::ids_for(
            &mut conn,
            db_name.as_str(),
            &mutaction.model,
            &mutaction.filter,
        ) {
            Ok(ids) => Self::update_nodes(&mut conn, &db_name, ids, mutaction),
            Err(e) => Err(e),
        };
        let result = Self::tx_finish(&mut conn, result);
        match self.scope_end(&mut conn, db_name.as_str()) {
            Ok(()) => result,
            Err(e) => Err(e),
        }
    }

    /// Runs an upsert in one transaction, driven by `upsert_decision`: a
    /// selector that resolves nothing creates the create sub-mutation's row
    /// and reports a create outcome with the new identifier; one that
    /// resolves drives the update sub-mutation on the found identifier and
    /// reports an update outcome with that identifier unchanged; any other
    /// resolution error propagates unchanged.
    pub fn execute_upsert(&self, db_name: String, mutaction: &UpsertNode) -> (r: ConnectorResult<
        (GraphqlId, DatabaseMutactionResultType),
    >)
        requires
            model_wf(mutaction.where_.model),
            model_wf(mutaction.create.model),
            model_wf(mutaction.update.where_.model),
            forall|j: int|
                0 <= j < mutaction.create.list_args@.len()
                    ==> #[trigger] mutaction.create.list_args@[j].1@.len() <= i64::MAX,
            forall|j: int|
                0 <= j < mutaction.update.list_args@.len()
                    ==> #[trigger] mutaction.update.list_args@[j].1@.len() <= i64::MAX,
        ensures
            (match find_id(mutaction.create.model.fields@) {
                Some(idf) => (match find_arg(mutaction.create.non_list_args@, idf.name@) {
                    Some(v) => (match as_id(v) {
                        Some(g) => (match r {
                            Ok(p) => p.1 == DatabaseMutactionResultType::Create ==> p.0 == g,
                            Err(_) => true,
                        }),
                        None => true,
                    }),
                    None => true,
                }),
                None => true,
            }),
            r matches Err(e) ==> (plumbing_error(e) || e matches ConnectorError::ValueDecodeError(
                _,
            )),
    {
        let mut conn = match self.checkout(db_name.as_str()) {
            Ok(c) => c,
            Err(e) => {
                return Err(e);
            },
        };
        match Self::tx_begin(&mut conn) {
            Ok(()) => {},
            Err(e) => {
                return Err(e);
            },
        }
        let resolution = Self::id_for(&mut conn, db_name.as_str(), &mutaction.where_);
        let result = match upsert_decision(resolution) {
            UpsertChoice::DoCreate => {
                match Self::create_node(&mut conn, &db_name, &mutaction.create) {
                    Ok(id) => Ok((id, DatabaseMutactionResultType::Create)),
                    Err(e) => Err(e),
                }
            },
            UpsertChoice::DoUpdate(id) => {
                match Self::update_node(&mut conn, &db_name, id, &mutaction.update) {
                    Ok(id) => Ok((id, DatabaseMutactionResultType::Update)),
                    Err(e) => Err(e),
                }
            },
            UpsertChoice::Abort(e) => Err(e),
        };
        let result = Self::tx_finish(&mut conn, result);
        match self.scope_end(&mut conn, db_name.as_str()) {
            Ok(()) => result,
            Err(e) => Err(e),
        }
    }

    /// The delete path is an explicit gap: what a delete should return, and
    /// whether it clears auxiliary rows, is unsettled, so it surfaces a
    /// contract violation instead of guessing or silently doing nothing.
    pub fn execute_delete(&self, _db_name: String, _mutaction: &DeleteNode) -> (r: ConnectorResult<
        Node,
    >)
        ensures
            r matches Err(ConnectorError::ContractViolation(_)),
    {
        Err(ConnectorError::ContractViolation(String::from_str(
            "the delete mutation is not supported",
        )))
    }

    /// See `crate::values::fetch_int`.
    pub fn fetch_int(row: &Vec<SqliteValue>) -> (r: i64)
        ensures
            row@.len() > 0 ==> (match row@[0] {
                SqliteValue::Integer(n) => r == n,
                _ => r == 0i64,
            }),
            row@.len() == 0 ==> r == 0i64,
    {
        crate::values::fetch_int(row)
    }

    /// See `crate::values::fetch_value`.
    pub fn fetch_value(typ: TypeIdentifier, row: &Vec<SqliteValue>, i: usize) -> (r:
        ConnectorResult<PrismaValue>)
        requires
            typ != TypeIdentifier::Relation,
        ensures
            i < row@.len() ==> (match crate::values::decoded(typ, row@[i as int]) {
                Some(v) => r == Ok::<PrismaValue, ConnectorError>(v),
                None => r matches Err(ConnectorError::ValueDecodeError(_)),
            }),
            i >= row@.len() ==> (r matches Err(ConnectorError::ValueDecodeError(_))),
    {
        crate::values::fetch_value(typ, row, i)
    }

    /// See `crate::model::read_row`; the contract is that function's.
    pub fn read_row(row: &Vec<SqliteValue>, selected_fields: &Vec<Field>) -> (r: ConnectorResult<
        Node,
    >)
        requires
            forall|j: int|
                0 <= j < selected_fields@.len() ==> selected_fields@[j].typ
                    != TypeIdentifier::Relation,
        ensures
            r matches Ok(node) ==> node.values@.len() == selected_fields@.len(),
            r matches Ok(node) ==> forall|j: int|
                0 <= j < selected_fields@.len() ==> (j < row@.len() && crate::values::decoded(
                    selected_fields@[j].typ,
                    row@[j],
                ) == Some(node.values@[j])),
            (row@.len() >= selected_fields@.len() && (forall|j: int|
                0 <= j < selected_fields@.len() ==> crate::values::decoded(
                    selected_fields@[j].typ,
                    row@[j],
                ) is Some)) ==> r is Ok,
            r matches Err(e) ==> e matches ConnectorError::ValueDecodeError(_),
    {
        crate::model::read_row(row, selected_fields)
    }
}

} // verus!
