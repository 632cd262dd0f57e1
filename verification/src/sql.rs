use vstd::prelude::*;

verus! {

use vstd::string::StringExecFns;
use crate::values::{GraphqlId, PrismaValue, SqliteValue, bind_value, bound, copy_id};

/// One concrete statement: its SQL text and its positional parameters.
#[derive(Clone, PartialEq, Debug)]
pub struct Stmt {
    pub sql: String,
    pub params: Vec<SqliteValue>,
}

/// An identifier wrapped in the dialect's double quotes.
pub open spec fn quoted(s: Seq<char>) -> Seq<char> {
    "\""@ + s + "\""@
}

/// A table reference qualified by its tenant database.
pub open spec fn qualified(db: Seq<char>, t: Seq<char>) -> Seq<char> {
    quoted(db) + "."@ + quoted(t)
}

/// The name of the auxiliary table of one list field.
pub open spec fn list_table(model: Seq<char>, field: Seq<char>) -> Seq<char> {
    model + "_"@ + field
}

/// Column names, each quoted and followed by `suffix`, joined by commas.
pub open spec fn cols_quoted(cols: Seq<String>, suffix: Seq<char>) -> Seq<char>
    decreases cols.len(),
{
    if cols.len() == 0 {
        Seq::empty()
    } else if cols.len() == 1 {
        quoted(cols[0]@) + suffix
    } else {
        quoted(cols[0]@) + suffix + ", "@ + cols_quoted(cols.drop_first(), suffix)
    }
}

/// `n` parameter marks, joined by commas.
pub open spec fn marks(n: nat) -> Seq<char>
    decreases n,
{
    if n == 0 {
        Seq::empty()
    } else if n == 1 {
        "?"@
    } else {
        "?, "@ + marks((n - 1) as nat)
    }
}

/// `n` three-column row tuples of parameter marks, joined by commas.
pub open spec fn triple_marks(n: nat) -> Seq<char>
    decreases n,
{
    if n == 0 {
        Seq::empty()
    } else if n == 1 {
        "(?, ?, ?)"@
    } else {
        "(?, ?, ?), "@ + triple_marks((n - 1) as nat)
    }
}

fn push_quoted(out: &mut String, name: &str)
    ensures
        final(out)@ == old(out)@ + quoted(name@),
{
    out.append("\"");
    out.append(name);
    out.append("\"");
    proof {
        assert(out@ =~= old(out)@ + quoted(name@));
    }
}

fn push_qualified(out: &mut String, db: &str, t: &str)
    ensures
        final(out)@ == old(out)@ + qualified(db@, t@),
{
    push_quoted(out, db);
    out.append(".");
    push_quoted(out, t);
    proof {
        assert(out@ =~= old(out)@ + qualified(db@, t@));
    }
}

fn push_list_table(out: &mut String, db: &str, model: &str, field: &str)
    ensures
        final(out)@ == old(out)@ + qualified(db@, list_table(model@, field@)),
{
    push_quoted(out, db);
    out.append(".");
    out.append("\"");
    out.append(model);
    out.append("_");
    out.append(field);
    out.append("\"");
    proof {
        assert(out@ =~= old(out)@ + qualified(db@, list_table(model@, field@)));
    }
}

fn push_cols(out: &mut String, cols: &Vec<String>, i: usize, suffix: &str)
    requires
        i <= cols@.len(),
    ensures
        final(out)@ == old(out)@ + cols_quoted(cols@.skip(i as int), suffix@),
    decreases cols@.len() - i,
{
    if i < cols.len() {
        push_quoted(out, cols[i].as_str());
        out.append(suffix);
        if i + 1 < cols.len() {
            out.append(", ");
        }
        push_cols(out, cols, i + 1, suffix);
        proof {
            assert(cols@.skip(i as int).drop_first() =~= cols@.skip(i + 1));
            assert(cols@.skip(i as int)[0] == cols@[i as int]);
            assert(out@ =~= old(out)@ + cols_quoted(cols@.skip(i as int), suffix@));
        }
    } else {
        proof {
            assert(cols@.skip(i as int).len() == 0);
            assert(out@ =~= old(out)@ + cols_quoted(cols@.skip(i as int), suffix@));
        }
    }
}

fn push_marks(out: &mut String, n: usize)
    ensures
        final(out)@ == old(out)@ + marks(n as nat),
    decreases n,
{
    if n == 1 {
        out.append("?");
    } else if n > 1 {
        out.append("?, ");
        push_marks(out, n - 1);
        proof {
            assert(out@ =~= old(out)@ + marks(n as nat));
        }
    }
}

fn push_triple_marks(out: &mut String, n: usize)
    ensures
        final(out)@ == old(out)@ + triple_marks(n as nat),
    decreases n,
{
    if n == 1 {
        out.append("(?, ?, ?)");
    } else if n > 1 {
        out.append("(?, ?, ?), ");
        push_triple_marks(out, n - 1);
        proof {
            assert(out@ =~= old(out)@ + triple_marks(n as nat));
        }
    }
}

/// The text of a row insert: the named columns and one mark per column, or
/// the dialect's empty-row form when a create carries no non-list
/// arguments.
pub open spec fn insert_row_sql(db: Seq<char>, model: Seq<char>, cols: Seq<String>) -> Seq<
    char,
> {
    if cols.len() == 0 {
        "INSERT INTO "@ + qualified(db, model) + " DEFAULT VALUES"@
    } else {
        "INSERT INTO "@ + qualified(db, model) + " ("@ + cols_quoted(cols, Seq::empty())
            + ") VALUES ("@ + marks(cols.len()) + ")"@
    }
}

/// The text of an update of every row whose identifier is among `n` marks.
pub open spec fn update_rows_sql(
    db: Seq<char>,
    model: Seq<char>,
    id_field: Seq<char>,
    cols: Seq<String>,
    n: nat,
) -> Seq<char> {
    "UPDATE "@ + qualified(db, model) + " SET "@ + cols_quoted(cols, " = ?"@) + " WHERE "@
        + quoted(id_field) + " IN ("@ + marks(n) + ")"@
}

/// The text of the delete clearing one list field's auxiliary rows for the
/// identifiers among `n` marks.
pub open spec fn delete_list_sql(
    db: Seq<char>,
    model: Seq<char>,
    field: Seq<char>,
    n: nat,
) -> Seq<char> {
    "DELETE FROM "@ + qualified(db, list_table(model, field)) + " WHERE \"nodeId\" IN ("@ + marks(
        n,
    ) + ")"@
}

/// The text of the insert refilling one list field: one (owner, position,
/// value) row per element.
pub open spec fn insert_list_sql(
    db: Seq<char>,
    model: Seq<char>,
    field: Seq<char>,
    n: nat,
) -> Seq<char> {
    "INSERT INTO "@ + qualified(db, list_table(model, field))
        + " (\"nodeId\", \"position\", \"value\") VALUES "@ + triple_marks(n)
}

/// Renders the row insert of a create; the parameters are the argument
/// values in argument order.
pub fn render_insert_row(
    db: &str,
    model: &str,
    cols: &Vec<String>,
    vals: &Vec<PrismaValue>,
) -> (r: Stmt)
    requires
        cols@.len() == vals@.len(),
    ensures
        r.sql@ == insert_row_sql(db@, model@, cols@),
        r.params@.len() == vals@.len(),
        forall|j: int| 0 <= j < vals@.len() ==> bound(vals@[j], r.params@[j]),
{
    let mut sql = String::new();
    sql.append("INSERT INTO ");
    push_qualified(&mut sql, db, model);
    if cols.len() == 0 {
        sql.append(" DEFAULT VALUES");
        proof {
            assert(sql@ =~= insert_row_sql(db@, model@, cols@));
        }
    } else {
        sql.append(" (");
        push_cols(&mut sql, cols, 0, "");
        sql.append(") VALUES (");
        push_marks(&mut sql, cols.len());
        sql.append(")");
        proof {
            assert(cols@.skip(0) =~= cols@);
            reveal_strlit("");
            assert(""@ =~= Seq::<char>::empty());
            assert(sql@ =~= insert_row_sql(db@, model@, cols@));
        }
    }
    Stmt { sql, params: crate::values::bind_all(vals) }
}

/// Renders an update of the rows a non-empty identifier set addresses; the
/// parameters are the argument values in order, then the identifiers in
/// order.
pub fn render_update_rows(
    db: &str,
    model: &str,
    id_field: &str,
    cols: &Vec<String>,
    vals: &Vec<PrismaValue>,
    ids: &Vec<GraphqlId>,
) -> (r: Stmt)
    requires
        cols@.len() == vals@.len(),
        cols@.len() > 0,
        ids@.len() > 0,
    ensures
        r.sql@ == update_rows_sql(db@, model@, id_field@, cols@, ids@.len() as nat),
        r.params@.len() == vals@.len() + ids@.len(),
        forall|j: int| 0 <= j < vals@.len() ==> bound(vals@[j], r.params@[j]),
        forall|k: int|
            0 <= k < ids@.len() ==> bound(
                PrismaValue::GraphqlId(ids@[k]),
                r.params@[vals@.len() + k],
            ),
{
    let mut sql = String::new();
    sql.append("UPDATE ");
    push_qualified(&mut sql, db, model);
    sql.append(" SET ");
    push_cols(&mut sql, cols, 0, " = ?");
    sql.append(" WHERE ");
    push_quoted(&mut sql, id_field);
    sql.append(" IN (");
    push_marks(&mut sql, ids.len());
    sql.append(")");
    proof {
        assert(cols@.skip(0) =~= cols@);
        assert(sql@ =~= update_rows_sql(db@, model@, id_field@, cols@, ids@.len() as nat));
    }
    let mut params = crate::values::bind_all(vals);
    let mut k: usize = 0;
    while k < ids.len()
        invariant
            k <= ids@.len(),
            params@.len() == vals@.len() + k,
            forall|j: int| 0 <= j < vals@.len() ==> bound(vals@[j], params@[j]),
            forall|j: int|
                0 <= j < k ==> bound(PrismaValue::GraphqlId(ids@[j]), params@[vals@.len() + j]),
        decreases ids@.len() - k,
    {
        let pv = PrismaValue::GraphqlId(copy_id(&ids[k]));
        params.push(bind_value(&pv));
        k = k + 1;
    }
    Stmt { sql, params }
}

/// Renders the delete clearing one list field for a non-empty identifier
/// set; the parameters are the identifiers in order.
pub fn render_delete_list(db: &str, model: &str, field: &str, ids: &Vec<GraphqlId>) -> (r:
    Stmt)
    requires
        ids@.len() > 0,
    ensures
        r.sql@ == delete_list_sql(db@, model@, field@, ids@.len() as nat),
        r.params@.len() == ids@.len(),
        forall|k: int| 0 <= k < ids@.len() ==> bound(PrismaValue::GraphqlId(ids@[k]), r.params@[k]),
{
    let mut sql = String::new();
    sql.append("DELETE FROM ");
    push_list_table(&mut sql, db, model, field);
    sql.append(" WHERE \"nodeId\" IN (");
    push_marks(&mut sql, ids.len());
    sql.append(")");
    proof {
        assert(sql@ =~= delete_list_sql(db@, model@, field@, ids@.len() as nat));
    }
    let mut params: Vec<SqliteValue> = Vec::new();
    let mut k: usize = 0;
    while k < ids.len()
        invariant
            k <= ids@.len(),
            params@.len() == k,
            forall|j: int| 0 <= j < k ==> bound(PrismaValue::GraphqlId(ids@[j]), params@[j]),
        decreases ids@.len() - k,
    {
        let pv = PrismaValue::GraphqlId(copy_id(&ids[k]));
        params.push(bind_value(&pv));
        k = k + 1;
    }
    Stmt { sql, params }
}

/// Renders the insert refilling one list field for one identifier with a
/// non-empty element sequence; the parameters are, per element in order,
/// the owner identifier, the element's position, and the element.
pub fn render_insert_list(
    db: &str,
    model: &str,
    field: &str,
    id: &GraphqlId,
    values: &Vec<PrismaValue>,
) -> (r: Stmt)
    requires
        values@.len() > 0,
        values@.len() <= i64::MAX,
    ensures
        r.sql@ == insert_list_sql(db@, model@, field@, values@.len() as nat),
        r.params@.len() == 3 * values@.len(),
        forall|j: int|
            0 <= j < values@.len() ==> bound(PrismaValue::GraphqlId(*id), #[trigger] r.params@[3 * j])
                && r.params@[3 * j + 1] == SqliteValue::Integer(j as i64) && bound(
                values@[j],
                r.params@[3 * j + 2],
            ),
{
    let mut sql = String::new();
    sql.append("INSERT INTO ");
    push_list_table(&mut sql, db, model, field);
    sql.append(" (\"nodeId\", \"position\", \"value\") VALUES ");
    push_triple_marks(&mut sql, values.len());
    proof {
        assert(sql@ =~= insert_list_sql(db@, model@, field@, values@.len() as nat));
    }
    let mut params: Vec<SqliteValue> = Vec::new();
    let mut j: usize = 0;
    while j < values.len()
        invariant
            j <= values@.len(),
            values@.len() <= i64::MAX,
            params@.len() == 3 * j,
            forall|m: int|
                0 <= m < j ==> bound(PrismaValue::GraphqlId(*id), #[trigger] params@[3 * m])
                    && params@[3 * m + 1] == SqliteValue::Integer(m as i64) && bound(
                    values@[m],
                    params@[3 * m + 2],
                ),
        decreases values@.len() - j,
    {
        let pv = PrismaValue::GraphqlId(copy_id(id));
        let c0 = bind_value(&pv);
        let c1 = SqliteValue::Integer(j as i64);
        let c2 = bind_value(&values[j]);
        let ghost pre = params@;
        params.push(c0);
        params.push(c1);
        params.push(c2);
        proof {
            assert(params@ =~= pre.push(c0).push(c1).push(c2));
            assert forall|m: int| 0 <= m < j + 1 implies bound(
                PrismaValue::GraphqlId(*id),
                #[trigger] params@[3 * m],
            ) && params@[3 * m + 1] == SqliteValue::Integer(m as i64) && bound(
                values@[m],
                params@[3 * m + 2],
            ) by {
                if m < j {
                    assert(params@[3 * m] == pre[3 * m]);
                    assert(params@[3 * m + 1] == pre[3 * m + 1]);
                    assert(params@[3 * m + 2] == pre[3 * m + 2]);
                } else {
                    assert(params@[3 * m] == c0);
                    assert(params@[3 * m + 1] == c1);
                    assert(params@[3 * m + 2] == c2);
                }
            }
        }
        j = j + 1;
    }
    Stmt { sql, params }
}

/// The text of a single-column projection read over one model table, with
/// an optional single-field equality filter and an optional ordering
/// column.
pub open spec fn select_sql(
    db: Seq<char>,
    table: Seq<char>,
    cols: Seq<String>,
    where_field: Option<Seq<char>>,
    order_by: Option<Seq<char>>,
) -> Seq<char> {
    "SELECT "@ + cols_quoted(cols, Seq::empty()) + " FROM "@ + qualified(db, table) + (
    match where_field {
        Some(f) => " WHERE "@ + quoted(f) + " = ?"@,
        None => Seq::empty(),
    }) + (match order_by {
        Some(c) => " ORDER BY "@ + quoted(c),
        None => Seq::empty(),
    })
}

/// Renders a projection read; the one parameter, if any, is the filter's
/// comparison value.
pub fn render_select(
    db: &str,
    table: &str,
    cols: &Vec<String>,
    filter: &crate::model::Filter,
    order_by: Option<&String>,
) -> (r: Stmt)
    ensures
        (match *filter {
            crate::model::Filter::All => r.sql@ == select_sql(
                db@,
                table@,
                cols@,
                None,
                match order_by {
                    Some(c) => Some(c@),
                    None => None,
                },
            ) && r.params@.len() == 0,
            crate::model::Filter::FieldEquals(f, v) => r.sql@ == select_sql(
                db@,
                table@,
                cols@,
                Some(f@),
                match order_by {
                    Some(c) => Some(c@),
                    None => None,
                },
            ) && r.params@.len() == 1 && bound(v, r.params@[0]),
        }),
{
    let mut sql = String::new();
    sql.append("SELECT ");
    push_cols(&mut sql, cols, 0, "");
    sql.append(" FROM ");
    push_qualified(&mut sql, db, table);
    let mut params: Vec<SqliteValue> = Vec::new();
    match filter {
        crate::model::Filter::All => {},
        crate::model::Filter::FieldEquals(f, v) => {
            sql.append(" WHERE ");
            push_quoted(&mut sql, f.as_str());
            sql.append(" = ?");
            params.push(bind_value(v));
        },
    }
    match order_by {
        Some(c) => {
            sql.append(" ORDER BY ");
            push_quoted(&mut sql, c.as_str());
        },
        None => {},
    }
    proof {
        assert(cols@.skip(0) =~= cols@);
        reveal_strlit("");
        assert(""@ =~= Seq::<char>::empty());
        match filter {
            crate::model::Filter::All => {
                match order_by {
                    Some(c) => assert(sql@ =~= select_sql(db@, table@, cols@, None, Some(c@))),
                    None => assert(sql@ =~= select_sql(db@, table@, cols@, None, None)),
                }
            },
            crate::model::Filter::FieldEquals(f, _v) => {
                match order_by {
                    Some(c) => assert(sql@ =~= select_sql(db@, table@, cols@, Some(f@), Some(c@))),
                    None => assert(sql@ =~= select_sql(db@, table@, cols@, Some(f@), None)),
                }
            },
        }
    }
    Stmt { sql, params }
}

} // verus!
