use vstd::prelude::*;

verus! {

use crate::values::{GraphqlId, PrismaValue};

/// One write statement of a mutation, in the shape the dialect renders:
/// an update of the rows a set of identifiers addresses, the deletion of
/// every auxiliary row a list field holds for those identifiers, or the
/// insertion of a whole element sequence for one identifier. The row
/// `INSERT` of a create stands apart, because the engine assigns the new
/// row its identifier only while it runs.
#[derive(Clone, PartialEq, Debug)]
pub enum WriteOp {
    UpdateRows {
        db: String,
        model: String,
        id_field: String,
        ids: Vec<GraphqlId>,
        cols: Vec<String>,
        vals: Vec<PrismaValue>,
    },
    DeleteList { db: String, model: String, field: String, ids: Vec<GraphqlId> },
    InsertList { db: String, model: String, field: String, id: GraphqlId, values: Vec<PrismaValue> },
}

/// An identifier as the store model compares it: by what it addresses, not
/// by which copy of it a descriptor holds.
pub enum IdView {
    IntId(int),
    StrId(Seq<char>),
    UuidId(int),
}

pub open spec fn id_view(id: GraphqlId) -> IdView {
    match id {
        GraphqlId::Int(n) => IdView::IntId(n as int),
        GraphqlId::String(s) => IdView::StrId(s@),
        GraphqlId::Uuid(u) => IdView::UuidId(u as int),
    }
}

pub open spec fn has_id_view(ids: Seq<GraphqlId>, idv: IdView) -> bool {
    exists|k: int| 0 <= k < ids.len() && id_view(ids[k]) == idv
}

pub open spec fn distinct_id_views(ids: Seq<GraphqlId>) -> bool {
    forall|i: int, j: int| 0 <= i < j < ids.len() ==> id_view(ids[i]) != id_view(ids[j])
}

/// The abstract state of one tenant database: for each model, its rows
/// (a column-name-to-value map per identifier), and for each list field and
/// owning identifier, the ordered auxiliary rows.
pub struct Store {
    pub rows: Map<(Seq<char>, IdView), Map<Seq<char>, PrismaValue>>,
    pub lists: Map<(Seq<char>, Seq<char>, IdView), Seq<PrismaValue>>,
}

/// The auxiliary rows of one list field for one identifier; no entry means
/// none.
pub open spec fn list_rows(s: Store, model: Seq<char>, field: Seq<char>, id: IdView) -> Seq<
    PrismaValue,
> {
    if s.lists.contains_key((model, field, id)) {
        s.lists[(model, field, id)]
    } else {
        Seq::empty()
    }
}

pub open spec fn row_exists(s: Store, model: Seq<char>, id: IdView) -> bool {
    s.rows.contains_key((model, id))
}

/// The value a row holds for a column, if the row exists and has one.
pub open spec fn field_val(s: Store, model: Seq<char>, id: IdView, f: Seq<char>) -> Option<
    PrismaValue,
> {
    if s.rows.contains_key((model, id)) && s.rows[(model, id)].contains_key(f) {
        Some(s.rows[(model, id)][f])
    } else {
        None
    }
}

/// Writing an argument list into a row, first argument first, so a later
/// argument for the same column wins. The engine leaves a column named
/// twice in one `SET` unspecified; an argument mapping names each column
/// once, and the laws below assume that.
pub open spec fn write_cols(
    row: Map<Seq<char>, PrismaValue>,
    cols: Seq<String>,
    vals: Seq<PrismaValue>,
) -> Map<Seq<char>, PrismaValue>
    decreases cols.len(),
{
    if cols.len() == 0 || vals.len() == 0 {
        row
    } else {
        write_cols(row.insert(cols[0]@, vals[0]), cols.drop_first(), vals.drop_first())
    }
}

/// The index of the last argument naming a column, the one whose value the
/// row ends up holding.
pub open spec fn last_index(cols: Seq<String>, f: Seq<char>) -> Option<int>
    decreases cols.len(),
{
    if cols.len() == 0 {
        None
    } else {
        match last_index(cols.drop_first(), f) {
            Some(k) => Some(k + 1),
            None => if cols[0]@ == f {
                Some(0int)
            } else {
                None
            },
        }
    }
}

/// What one write statement does to the store: an update rewrites the
/// addressed rows that exist and nothing else; a list delete removes every
/// auxiliary entry of one field for the addressed identifiers; a list
/// insert appends one identifier's element sequence.
pub open spec fn apply(s: Store, op: WriteOp) -> Store {
    match op {
        WriteOp::UpdateRows { db, model, id_field, ids, cols, vals } => Store {
            rows: Map::new(
                |k: (Seq<char>, IdView)| s.rows.contains_key(k),
                |k: (Seq<char>, IdView)|
                    if k.0 == model@ && has_id_view(ids@, k.1) {
                        write_cols(s.rows[k], cols@, vals@)
                    } else {
                        s.rows[k]
                    },
            ),
            lists: s.lists,
        },
        WriteOp::DeleteList { db, model, field, ids } => Store {
            rows: s.rows,
            lists: Map::new(
                |k: (Seq<char>, Seq<char>, IdView)|
                    s.lists.contains_key(k) && !(k.0 == model@ && k.1 == field@ && has_id_view(
                        ids@,
                        k.2,
                    )),
                |k: (Seq<char>, Seq<char>, IdView)| s.lists[k],
            ),
        },
        WriteOp::InsertList { db, model, field, id, values } => Store {
            rows: s.rows,
            lists: s.lists.insert(
                (model@, field@, id_view(id)),
                list_rows(s, model@, field@, id_view(id)) + values@,
            ),
        },
    }
}

pub open spec fn apply_all(s: Store, ops: Seq<WriteOp>) -> Store
    decreases ops.len(),
{
    if ops.len() == 0 {
        s
    } else {
        apply_all(apply(s, ops[0]), ops.drop_first())
    }
}

/// A freshly created row: the non-list arguments written into an empty row
/// under the identifier the engine assigned.
pub open spec fn store_insert_row(
    s: Store,
    model: Seq<char>,
    id: IdView,
    cols: Seq<String>,
    vals: Seq<PrismaValue>,
) -> Store {
    Store {
        rows: s.rows.insert((model, id), write_cols(Map::empty(), cols, vals)),
        lists: s.lists,
    }
}

/// The list statements of a create: one insert per list argument with any
/// elements, in argument order, keyed by the new row's identifier.
pub open spec fn create_list_plan(
    db: String,
    model: String,
    id: GraphqlId,
    la: Seq<(String, Vec<PrismaValue>)>,
) -> Seq<WriteOp>
    decreases la.len(),
{
    if la.len() == 0 {
        Seq::empty()
    } else {
        (if la[0].1@.len() > 0 {
            seq![
                (WriteOp::InsertList { db, model, field: la[0].0, id, values: la[0].1 }),
            ]
        } else {
            Seq::empty()
        }) + create_list_plan(db, model, id, la.drop_first())
    }
}

/// The inserts that refill one list field for a whole identifier set, one
/// per identifier, each carrying the same element sequence; an empty
/// sequence inserts nothing.
pub open spec fn inserts_for(
    db: String,
    model: String,
    field: String,
    ids: Seq<GraphqlId>,
    values: Vec<PrismaValue>,
) -> Seq<WriteOp>
    decreases ids.len(),
{
    if ids.len() == 0 {
        Seq::empty()
    } else {
        (if values@.len() > 0 {
            seq![(WriteOp::InsertList { db, model, field, id: ids[0], values })]
        } else {
            Seq::empty()
        }) + inserts_for(db, model, field, ids.drop_first(), values)
    }
}

/// The list statements of an update: per list argument, in order, first the
/// delete of every auxiliary row of that field for the addressed
/// identifiers, then the refilling inserts. Replacement is always
/// delete-then-insert, whatever the field held before.
pub open spec fn update_list_plan(
    db: String,
    model: String,
    ids: Vec<GraphqlId>,
    la: Seq<(String, Vec<PrismaValue>)>,
) -> Seq<WriteOp>
    decreases la.len(),
{
    if la.len() == 0 {
        Seq::empty()
    } else {
        seq![(WriteOp::DeleteList { db, model, field: la[0].0, ids })] + inserts_for(
            db,
            model,
            la[0].0,
            ids@,
            la[0].1,
        ) + update_list_plan(db, model, ids, la.drop_first())
    }
}

/// The whole statement sequence of an update mutation: the row update if
/// there are non-list arguments (none means no row statement at all), then
/// the list replacements.
pub open spec fn update_mutation_plan(
    db: String,
    model: String,
    id_field: String,
    ids: Vec<GraphqlId>,
    cols: Vec<String>,
    vals: Vec<PrismaValue>,
    la: Seq<(String, Vec<PrismaValue>)>,
) -> Seq<WriteOp> {
    (if cols@.len() > 0 {
        seq![(WriteOp::UpdateRows { db, model, id_field, ids, cols, vals })]
    } else {
        Seq::empty()
    }) + update_list_plan(db, model, ids, la)
}

pub open spec fn distinct_fields(la: Seq<(String, Vec<PrismaValue>)>) -> bool {
    forall|i: int, j: int| 0 <= i < j < la.len() ==> la[i].0@ != la[j].0@
}

pub open spec fn field_of(la: Seq<(String, Vec<PrismaValue>)>, f: Seq<char>) -> bool {
    exists|j: int| 0 <= j < la.len() && la[j].0@ == f
}

pub open spec fn distinct_cols(cols: Seq<String>) -> bool {
    forall|i: int, j: int| 0 <= i < j < cols.len() ==> cols[i]@ != cols[j]@
}

/// Running a statement sequence is running its first part, then its second.
pub proof fn lemma_apply_all_append(s: Store, a: Seq<WriteOp>, b: Seq<WriteOp>)
    ensures
        apply_all(s, a + b) == apply_all(apply_all(s, a), b),
    decreases a.len(),
{
    if a.len() == 0 {
        assert(a + b =~= b);
    } else {
        assert((a + b).drop_first() =~= a.drop_first() + b);
        assert((a + b)[0] == a[0]);
        lemma_apply_all_append(apply(s, a[0]), a.drop_first(), b);
    }
}

/// What the value of a column is after writing an argument list: the last
/// argument naming it, or what the row held before when none does.
pub proof fn lemma_write_cols_at(
    row: Map<Seq<char>, PrismaValue>,
    cols: Seq<String>,
    vals: Seq<PrismaValue>,
    f: Seq<char>,
)
    requires
        cols.len() == vals.len(),
    ensures
        (match last_index(cols, f) {
            Some(k) => 0 <= k < cols.len() && cols[k]@ == f && write_cols(
                row,
                cols,
                vals,
            ).contains_key(f) && write_cols(row, cols, vals)[f] == vals[k],
            None => (write_cols(row, cols, vals).contains_key(f) == row.contains_key(f)) && (
            row.contains_key(f) ==> write_cols(row, cols, vals)[f] == row[f]),
        }),
    decreases cols.len(),
{
    if cols.len() == 0 {
    } else {
        lemma_write_cols_at(row.insert(cols[0]@, vals[0]), cols.drop_first(), vals.drop_first(), f);
    }
}

/// Refilling one list field sets exactly the addressed identifiers'
/// auxiliary rows to the element sequence, touches no other list entry and
/// no row, provided the field was just cleared for those identifiers.
pub proof fn lemma_inserts_for_effect(
    s: Store,
    db: String,
    model: String,
    field: String,
    ids: Seq<GraphqlId>,
    values: Vec<PrismaValue>,
)
    requires
        distinct_id_views(ids),
        forall|k: int|
            0 <= k < ids.len() ==> list_rows(s, model@, field@, id_view(ids[k])) == Seq::<
                PrismaValue,
            >::empty(),
    ensures
        ({
            let r = apply_all(s, inserts_for(db, model, field, ids, values));
            r.rows == s.rows && (forall|k: int|
                0 <= k < ids.len() ==> #[trigger] list_rows(r, model@, field@, id_view(ids[k]))
                    == values@) && (forall|m2: Seq<char>, f2: Seq<char>, i2: IdView|
                !(m2 == model@ && f2 == field@ && has_id_view(ids, i2)) ==> #[trigger] list_rows(
                    r,
                    m2,
                    f2,
                    i2,
                ) == list_rows(s, m2, f2, i2))
        }),
    decreases ids.len(),
{
    let plan = inserts_for(db, model, field, ids, values);
    if ids.len() == 0 {
    } else {
        let rest = ids.drop_first();
        let restplan = inserts_for(db, model, field, rest, values);
        assert forall|i2: IdView| has_id_view(rest, i2) implies has_id_view(ids, i2) by {
            let k = choose|k: int| 0 <= k < rest.len() && id_view(rest[k]) == i2;
            assert(rest[k] == ids[k + 1]);
        }
        assert(has_id_view(ids, id_view(ids[0])));
        assert(!has_id_view(rest, id_view(ids[0]))) by {
            if has_id_view(rest, id_view(ids[0])) {
                let k = choose|k: int| 0 <= k < rest.len() && id_view(rest[k]) == id_view(ids[0]);
                assert(rest[k] == ids[k + 1]);
            }
        }
        if values@.len() > 0 {
            let op = (WriteOp::InsertList { db, model, field, id: ids[0], values });
            let s1 = apply(s, op);
            assert(plan[0] == op);
            assert(plan.drop_first() =~= restplan);
            assert(apply_all(s, plan) == apply_all(s1, restplan));
            assert(list_rows(s1, model@, field@, id_view(ids[0])) =~= values@);
            assert forall|k: int| 0 <= k < rest.len() implies list_rows(
                s1,
                model@,
                field@,
                id_view(rest[k]),
            ) =~= Seq::<PrismaValue>::empty() by {
                assert(rest[k] == ids[k + 1]);
                assert(id_view(rest[k]) != id_view(ids[0]));
            }
            lemma_inserts_for_effect(s1, db, model, field, rest, values);
            let r = apply_all(s1, restplan);
            assert(list_rows(r, model@, field@, id_view(ids[0])) == values@);
            assert forall|k: int| 0 <= k < ids.len() implies #[trigger] list_rows(
                r,
                model@,
                field@,
                id_view(ids[k]),
            ) == values@ by {
                if k > 0 {
                    assert(rest[k - 1] == ids[k]);
                }
            }
            assert forall|m2: Seq<char>, f2: Seq<char>, i2: IdView| !(m2 == model@ && f2 == field@
                && has_id_view(ids, i2)) implies #[trigger] list_rows(r, m2, f2, i2) == list_rows(
                s,
                m2,
                f2,
                i2,
            ) by {
                assert(!(m2 == model@ && f2 == field@ && has_id_view(rest, i2)));
                assert((m2, f2, i2) != (model@, field@, id_view(ids[0])));
                assert(list_rows(s1, m2, f2, i2) == list_rows(s, m2, f2, i2));
            }
        } else {
            assert(plan =~= restplan);
            lemma_inserts_for_effect(s, db, model, field, rest, values);
            let r = apply_all(s, restplan);
            assert forall|k: int| 0 <= k < ids.len() implies #[trigger] list_rows(
                r,
                model@,
                field@,
                id_view(ids[k]),
            ) == values@ by {
                if k > 0 {
                    assert(rest[k - 1] == ids[k]);
                } else {
                    assert(!has_id_view(rest, id_view(ids[0])));
                    assert(list_rows(r, model@, field@, id_view(ids[0])) == list_rows(
                        s,
                        model@,
                        field@,
                        id_view(ids[0]),
                    ));
                }
                assert(values@ =~= Seq::<PrismaValue>::empty());
            }
        }
    }
}

/// Materialising the list arguments of a create, keyed by an identifier
/// none of whose list fields holds anything yet, leaves each list field's
/// auxiliary rows exactly equal to its argument's element sequence, in
/// order, with no extras — and touches no row and no other list entry.
pub proof fn lemma_create_list_plan_effect(
    s: Store,
    db: String,
    model: String,
    id: GraphqlId,
    la: Seq<(String, Vec<PrismaValue>)>,
)
    requires
        distinct_fields(la),
        forall|j: int|
            0 <= j < la.len() ==> list_rows(s, model@, la[j].0@, id_view(id)) == Seq::<
                PrismaValue,
            >::empty(),
    ensures
        ({
            let r = apply_all(s, create_list_plan(db, model, id, la));
            r.rows == s.rows && (forall|j: int|
                0 <= j < la.len() ==> #[trigger] list_rows(r, model@, la[j].0@, id_view(id))
                    == la[j].1@) && (forall|m2: Seq<char>, f2: Seq<char>, i2: IdView|
                !(m2 == model@ && field_of(la, f2) && i2 == id_view(id)) ==> #[trigger] list_rows(
                    r,
                    m2,
                    f2,
                    i2,
                ) == list_rows(s, m2, f2, i2))
        }),
    decreases la.len(),
{
    let plan = create_list_plan(db, model, id, la);
    if la.len() == 0 {
    } else {
        let rest = la.drop_first();
        let restplan = create_list_plan(db, model, id, rest);
        assert(field_of(la, la[0].0@));
        assert(!field_of(rest, la[0].0@)) by {
            if field_of(rest, la[0].0@) {
                let j = choose|j: int| 0 <= j < rest.len() && rest[j].0@ == la[0].0@;
                assert(rest[j] == la[j + 1]);
            }
        }
        let s1: Store = if la[0].1@.len() > 0 {
            apply(s, (WriteOp::InsertList { db, model, field: la[0].0, id, values: la[0].1 }))
        } else {
            s
        };
        if la[0].1@.len() > 0 {
            let op = (WriteOp::InsertList { db, model, field: la[0].0, id, values: la[0].1 });
            assert(plan[0] == op);
            assert(plan.drop_first() =~= restplan);
            assert(apply_all(s, plan) == apply_all(s1, restplan));
        } else {
            assert(plan =~= restplan);
        }
        assert(list_rows(s1, model@, la[0].0@, id_view(id)) =~= la[0].1@);
        assert forall|j: int| 0 <= j < rest.len() implies list_rows(
            s1,
            model@,
            rest[j].0@,
            id_view(id),
        ) =~= Seq::<PrismaValue>::empty() by {
            assert(rest[j] == la[j + 1]);
            assert(rest[j].0@ != la[0].0@);
            assert(list_rows(s, model@, la[j + 1].0@, id_view(id)) == Seq::<
                PrismaValue,
            >::empty());
        }
        lemma_create_list_plan_effect(s1, db, model, id, rest);
        let r = apply_all(s1, restplan);
        assert forall|j: int| 0 <= j < la.len() implies #[trigger] list_rows(
            r,
            model@,
            la[j].0@,
            id_view(id),
        ) == la[j].1@ by {
            if j > 0 {
                assert(rest[j - 1] == la[j]);
                assert(list_rows(r, model@, rest[j - 1].0@, id_view(id)) == rest[j - 1].1@);
            } else {
                assert(list_rows(r, model@, la[0].0@, id_view(id)) == list_rows(
                    s1,
                    model@,
                    la[0].0@,
                    id_view(id),
                ));
            }
        }
        assert forall|m2: Seq<char>, f2: Seq<char>, i2: IdView| !(m2 == model@ && field_of(la, f2)
            && i2 == id_view(id)) implies #[trigger] list_rows(r, m2, f2, i2) == list_rows(
            s,
            m2,
            f2,
            i2,
        ) by {
            assert(!(m2 == model@ && field_of(rest, f2) && i2 == id_view(id))) by {
                if m2 == model@ && field_of(rest, f2) {
                    let j = choose|j: int| 0 <= j < rest.len() && rest[j].0@ == f2;
                    assert(rest[j] == la[j + 1]);
                    assert(field_of(la, f2));
                }
            }
            assert(list_rows(s1, m2, f2, i2) == list_rows(s, m2, f2, i2));
        }
    }
}

/// The whole effect of a create: after the row insert under the engine's
/// fresh identifier and the list materialisation, the row exists with its
/// non-list arguments written, and each list field holds exactly its input
/// sequence.
pub proof fn lemma_create_mutation_effect(
    s: Store,
    db: String,
    model: String,
    id: GraphqlId,
    cols: Vec<String>,
    vals: Vec<PrismaValue>,
    la: Seq<(String, Vec<PrismaValue>)>,
)
    requires
        distinct_fields(la),
        forall|j: int|
            0 <= j < la.len() ==> list_rows(s, model@, la[j].0@, id_view(id)) == Seq::<
                PrismaValue,
            >::empty(),
    ensures
        ({
            let s1 = store_insert_row(s, model@, id_view(id), cols@, vals@);
            let r = apply_all(s1, create_list_plan(db, model, id, la));
            row_exists(r, model@, id_view(id)) && (forall|j: int|
                0 <= j < la.len() ==> #[trigger] list_rows(r, model@, la[j].0@, id_view(id))
                    == la[j].1@) && (forall|m2: Seq<char>, f2: Seq<char>, i2: IdView|
                !(m2 == model@ && field_of(la, f2) && i2 == id_view(id)) ==> #[trigger] list_rows(
                    r,
                    m2,
                    f2,
                    i2,
                ) == list_rows(s, m2, f2, i2))
        }),
{
    let s1 = store_insert_row(s, model@, id_view(id), cols@, vals@);
    assert(forall|j: int|
        0 <= j < la.len() ==> list_rows(s1, model@, la[j].0@, id_view(id)) == list_rows(
            s,
            model@,
            la[j].0@,
            id_view(id),
        ));
    lemma_create_list_plan_effect(s1, db, model, id, la);
}

/// Replacing a list field with an empty sequence leaves zero auxiliary
/// rows for that field: the delete runs, and there is nothing to insert.
pub proof fn lemma_update_empty_list(
    s: Store,
    db: String,
    model: String,
    ids: Vec<GraphqlId>,
    la: Seq<(String, Vec<PrismaValue>)>,
    j: int,
    k: int,
)
    requires
        distinct_fields(la),
        distinct_id_views(ids@),
        0 <= j < la.len(),
        la[j].1@.len() == 0,
        0 <= k < ids@.len(),
    ensures
        list_rows(
            apply_all(s, update_list_plan(db, model, ids, la)),
            model@,
            la[j].0@,
            id_view(ids@[k]),
        ).len() == 0,
{
    lemma_update_list_plan_effect(s, db, model, ids, la);
}

/// Replacing list fields for an identifier set leaves, for every addressed
/// identifier, exactly each argument's element sequence as that field's
/// auxiliary rows — an empty argument leaving zero rows — and touches no
/// row and no other list entry.
pub proof fn lemma_update_list_plan_effect(
    s: Store,
    db: String,
    model: String,
    ids: Vec<GraphqlId>,
    la: Seq<(String, Vec<PrismaValue>)>,
)
    requires
        distinct_fields(la),
        distinct_id_views(ids@),
    ensures
        ({
            let r = apply_all(s, update_list_plan(db, model, ids, la));
            r.rows == s.rows && (forall|j: int, k: int|
                0 <= j < la.len() && 0 <= k < ids@.len() ==> #[trigger] list_rows(
                    r,
                    model@,
                    la[j].0@,
                    id_view(ids@[k]),
                ) == la[j].1@) && (forall|m2: Seq<char>, f2: Seq<char>, i2: IdView|
                !(m2 == model@ && field_of(la, f2) && has_id_view(ids@, i2))
                    ==> #[trigger] list_rows(r, m2, f2, i2) == list_rows(s, m2, f2, i2))
        }),
    decreases la.len(),
{
    if la.len() == 0 {
    } else {
        let rest = la.drop_first();
        let del = (WriteOp::DeleteList { db, model, field: la[0].0, ids });
        let ins = inserts_for(db, model, la[0].0, ids@, la[0].1);
        let tail = update_list_plan(db, model, ids, rest);
        assert(update_list_plan(db, model, ids, la) =~= seq![del] + ins + tail);
        let s1 = apply(s, del);
        lemma_apply_all_append(s, seq![del] + ins, tail);
        lemma_apply_all_append(s, seq![del], ins);
        assert(apply_all(s, seq![del] + ins) == apply_all(s1, ins)) by {
            assert((seq![del] + ins)[0] == del);
            assert((seq![del] + ins).drop_first() =~= ins);
            assert(apply(s, (seq![del] + ins)[0]) == s1);
        }
        assert(forall|k: int|
            0 <= k < ids@.len() ==> list_rows(s1, model@, la[0].0@, id_view(ids@[k])) =~= Seq::<
                PrismaValue,
            >::empty()) by {
            assert forall|k: int| 0 <= k < ids@.len() implies list_rows(
                s1,
                model@,
                la[0].0@,
                id_view(ids@[k]),
            ) =~= Seq::<PrismaValue>::empty() by {
                assert(has_id_view(ids@, id_view(ids@[k])));
            }
        }
        lemma_inserts_for_effect(s1, db, model, la[0].0, ids@, la[0].1);
        let s2 = apply_all(s1, ins);
        lemma_update_list_plan_effect(s2, db, model, ids, rest);
        let r = apply_all(s2, tail);
        assert(apply_all(s, update_list_plan(db, model, ids, la)) == r);
        // the head field is untouched by the tail: its name differs from
        // every later field's
        assert forall|k: int| 0 <= k < ids@.len() implies list_rows(
            r,
            model@,
            la[0].0@,
            id_view(ids@[k]),
        ) == la[0].1@ by {
            assert(!field_of(rest, la[0].0@)) by {
                if field_of(rest, la[0].0@) {
                    let j = choose|j: int| 0 <= j < rest.len() && rest[j].0@ == la[0].0@;
                    assert(rest[j] == la[j + 1]);
                }
            }
            assert(has_id_view(ids@, id_view(ids@[k])));
            assert(list_rows(s2, model@, la[0].0@, id_view(ids@[k])) == la[0].1@);
        }
        assert forall|j: int, k: int| 0 <= j < la.len() && 0 <= k < ids@.len()
            implies #[trigger] list_rows(r, model@, la[j].0@, id_view(ids@[k])) == la[j].1@ by {
            if j > 0 {
                assert(rest[j - 1] == la[j]);
                assert(list_rows(r, model@, rest[j - 1].0@, id_view(ids@[k])) == rest[j - 1].1@);
            }
        }
        assert forall|m2: Seq<char>, f2: Seq<char>, i2: IdView| !(m2 == model@ && field_of(la, f2)
            && has_id_view(ids@, i2)) implies #[trigger] list_rows(r, m2, f2, i2) == list_rows(
            s,
            m2,
            f2,
            i2,
        ) by {
            assert(!(m2 == model@ && f2 == la[0].0@ && has_id_view(ids@, i2))) by {
                if m2 == model@ && f2 == la[0].0@ {
                    assert(field_of(la, f2));
                }
            }
            assert(!(m2 == model@ && field_of(rest, f2) && has_id_view(ids@, i2))) by {
                if m2 == model@ && field_of(rest, f2) {
                    let j = choose|j: int| 0 <= j < rest.len() && rest[j].0@ == f2;
                    assert(la[j + 1].0@ == f2);
                    assert(field_of(la, f2));
                }
            }
            assert(list_rows(s1, m2, f2, i2) == list_rows(s, m2, f2, i2));
            assert(list_rows(s2, m2, f2, i2) == list_rows(s1, m2, f2, i2));
        }
    }
}

/// Says of a rendered statement that it is exactly the rendering of one
/// plan statement: the dialect's text for it, with the right parameters in
/// the right positions.
pub open spec fn stmt_renders(st: crate::sql::Stmt, op: WriteOp) -> bool {
    match op {
        WriteOp::UpdateRows { db, model, id_field, ids, cols, vals } => st.sql@
            == crate::sql::update_rows_sql(db@, model@, id_field@, cols@, ids@.len())
            && st.params@.len() == vals@.len() + ids@.len() && (forall|j: int|
            0 <= j < vals@.len() ==> crate::values::bound(vals@[j], #[trigger] st.params@[j])) && (
        forall|k: int|
            0 <= k < ids@.len() ==> crate::values::bound(
                PrismaValue::GraphqlId(ids@[k]),
                #[trigger] st.params@[vals@.len() + k],
            )),
        WriteOp::DeleteList { db, model, field, ids } => st.sql@ == crate::sql::delete_list_sql(
            db@,
            model@,
            field@,
            ids@.len(),
        ) && st.params@.len() == ids@.len() && (forall|k: int|
            0 <= k < ids@.len() ==> crate::values::bound(
                PrismaValue::GraphqlId(ids@[k]),
                #[trigger] st.params@[k],
            )),
        WriteOp::InsertList { db, model, field, id, values } => st.sql@
            == crate::sql::insert_list_sql(db@, model@, field@, values@.len()) && st.params@.len()
            == 3 * values@.len() && (forall|j: int|
            0 <= j < values@.len() ==> crate::values::bound(
                PrismaValue::GraphqlId(id),
                #[trigger] st.params@[3 * j],
            ) && st.params@[3 * j + 1] == crate::values::SqliteValue::Integer(j as i64)
                && crate::values::bound(values@[j], st.params@[3 * j + 2])),
    }
}

/// A statement list renders a plan when it has one statement per plan
/// statement, each the rendering of its counterpart, in order.
pub open spec fn stmts_render(stmts: Seq<crate::sql::Stmt>, plan: Seq<WriteOp>) -> bool {
    stmts.len() == plan.len() && (forall|k: int|
        0 <= k < plan.len() ==> stmt_renders(#[trigger] stmts[k], plan[k]))
}

pub proof fn lemma_stmts_render_push(
    stmts: Seq<crate::sql::Stmt>,
    plan: Seq<WriteOp>,
    st: crate::sql::Stmt,
    op: WriteOp,
)
    requires
        stmts_render(stmts, plan),
        stmt_renders(st, op),
    ensures
        stmts_render(stmts.push(st), plan.push(op)),
{
    assert forall|k: int| 0 <= k < plan.push(op).len() implies stmt_renders(
        #[trigger] stmts.push(st)[k],
        plan.push(op)[k],
    ) by {
        if k < plan.len() {
            assert(stmts.push(st)[k] == stmts[k]);
            assert(plan.push(op)[k] == plan[k]);
        } else {
            assert(stmts.push(st)[k] == st);
            assert(plan.push(op)[k] == op);
        }
    }
}

/// The create list plan over concatenated argument lists is the
/// concatenation of the plans.
pub proof fn lemma_create_plan_append(
    db: String,
    model: String,
    id: GraphqlId,
    a: Seq<(String, Vec<PrismaValue>)>,
    b: Seq<(String, Vec<PrismaValue>)>,
)
    ensures
        create_list_plan(db, model, id, a + b) == create_list_plan(db, model, id, a)
            + create_list_plan(db, model, id, b),
    decreases a.len(),
{
    if a.len() == 0 {
        assert(a + b =~= b);
        assert(create_list_plan(db, model, id, a) + create_list_plan(db, model, id, b)
            =~= create_list_plan(db, model, id, b));
    } else {
        assert((a + b).drop_first() =~= a.drop_first() + b);
        assert((a + b)[0] == a[0]);
        lemma_create_plan_append(db, model, id, a.drop_first(), b);
        assert(create_list_plan(db, model, id, a + b) =~= create_list_plan(db, model, id, a)
            + create_list_plan(db, model, id, b));
    }
}

/// As `lemma_create_plan_append`, for the update list plan.
pub proof fn lemma_update_plan_append(
    db: String,
    model: String,
    ids: Vec<GraphqlId>,
    a: Seq<(String, Vec<PrismaValue>)>,
    b: Seq<(String, Vec<PrismaValue>)>,
)
    ensures
        update_list_plan(db, model, ids, a + b) == update_list_plan(db, model, ids, a)
            + update_list_plan(db, model, ids, b),
    decreases a.len(),
{
    if a.len() == 0 {
        assert(a + b =~= b);
        assert(update_list_plan(db, model, ids, a) + update_list_plan(db, model, ids, b)
            =~= update_list_plan(db, model, ids, b));
    } else {
        assert((a + b).drop_first() =~= a.drop_first() + b);
        assert((a + b)[0] == a[0]);
        lemma_update_plan_append(db, model, ids, a.drop_first(), b);
        assert(update_list_plan(db, model, ids, a + b) =~= update_list_plan(db, model, ids, a)
            + update_list_plan(db, model, ids, b));
    }
}

/// The refilling inserts over a concatenated identifier list are the
/// concatenation of the inserts.
pub proof fn lemma_inserts_for_append(
    db: String,
    model: String,
    field: String,
    a: Seq<GraphqlId>,
    b: Seq<GraphqlId>,
    values: Vec<PrismaValue>,
)
    ensures
        inserts_for(db, model, field, a + b, values) == inserts_for(db, model, field, a, values)
            + inserts_for(db, model, field, b, values),
    decreases a.len(),
{
    if a.len() == 0 {
        assert(a + b =~= b);
        assert(inserts_for(db, model, field, a, values) + inserts_for(db, model, field, b, values)
            =~= inserts_for(db, model, field, b, values));
    } else {
        assert((a + b).drop_first() =~= a.drop_first() + b);
        assert((a + b)[0] == a[0]);
        lemma_inserts_for_append(db, model, field, a.drop_first(), b, values);
        assert(inserts_for(db, model, field, a + b, values) =~= inserts_for(
            db,
            model,
            field,
            a,
            values,
        ) + inserts_for(db, model, field, b, values));
    }
}

/// An empty element sequence inserts nothing, for any identifier set.
pub proof fn lemma_inserts_for_none(
    db: String,
    model: String,
    field: String,
    ids: Seq<GraphqlId>,
    values: Vec<PrismaValue>,
)
    requires
        values@.len() == 0,
    ensures
        inserts_for(db, model, field, ids, values) == Seq::<WriteOp>::empty(),
    decreases ids.len(),
{
    if ids.len() > 0 {
        lemma_inserts_for_none(db, model, field, ids.drop_first(), values);
        assert(inserts_for(db, model, field, ids, values) =~= Seq::<WriteOp>::empty());
    }
}

/// Renders the list statements of a create: exactly the statements of
/// `create_list_plan`, statement for statement, in order.
pub fn build_create_list_stmts(
    db: &String,
    model_name: &String,
    id: &GraphqlId,
    la: &Vec<(String, Vec<PrismaValue>)>,
) -> (r: Vec<crate::sql::Stmt>)
    requires
        forall|j: int| 0 <= j < la@.len() ==> #[trigger] la@[j].1@.len() <= i64::MAX,
    ensures
        stmts_render(r@, create_list_plan(*db, *model_name, *id, la@)),
{
    let mut r: Vec<crate::sql::Stmt> = Vec::new();
    let mut i: usize = 0;
    proof {
        assert(la@.take(0) =~= Seq::<(String, Vec<PrismaValue>)>::empty());
    }
    while i < la.len()
        invariant
            i <= la@.len(),
            forall|j: int| 0 <= j < la@.len() ==> #[trigger] la@[j].1@.len() <= i64::MAX,
            stmts_render(r@, create_list_plan(*db, *model_name, *id, la@.take(i as int))),
        decreases la@.len() - i,
    {
        let ghost pre = create_list_plan(*db, *model_name, *id, la@.take(i as int));
        let ghost single = create_list_plan(*db, *model_name, *id, seq![la@[i as int]]);
        proof {
            assert(seq![la@[i as int]].drop_first() =~= Seq::<(String, Vec<PrismaValue>)>::empty());
            assert(seq![la@[i as int]][0] == la@[i as int]);
            assert(create_list_plan(*db, *model_name, *id, seq![la@[i as int]].drop_first()) =~= Seq::<
                WriteOp,
            >::empty());
            assert(la@.take(i + 1) =~= la@.take(i as int) + seq![la@[i as int]]);
            lemma_create_plan_append(
                *db,
                *model_name,
                *id,
                la@.take(i as int),
                seq![la@[i as int]],
            );
        }
        if la[i].1.len() > 0 {
            let ghost op = (WriteOp::InsertList {
                db: *db,
                model: *model_name,
                field: la@[i as int].0,
                id: *id,
                values: la@[i as int].1,
            });
            proof {
                assert(single =~= seq![op]);
            }
            let st = crate::sql::render_insert_list(
                db.as_str(),
                model_name.as_str(),
                la[i].0.as_str(),
                id,
                &la[i].1,
            );
            proof {
                assert(stmt_renders(st, op));
                lemma_stmts_render_push(r@, pre, st, op);
                assert(pre.push(op) =~= pre + single);
            }
            r.push(st);
        } else {
            proof {
                assert(single =~= Seq::<WriteOp>::empty());
                assert(pre + single =~= pre);
            }
        }
        i = i + 1;
    }
    proof {
        assert(la@.take(la@.len() as int) =~= la@);
    }
    r
}

/// Renders the list statements of an update for a non-empty identifier
/// set: exactly the statements of `update_list_plan`, statement for
/// statement, in order.
pub fn build_update_list_stmts(
    db: &String,
    model_name: &String,
    ids: &Vec<GraphqlId>,
    la: &Vec<(String, Vec<PrismaValue>)>,
) -> (r: Vec<crate::sql::Stmt>)
    requires
        ids@.len() > 0,
        forall|j: int| 0 <= j < la@.len() ==> #[trigger] la@[j].1@.len() <= i64::MAX,
    ensures
        stmts_render(r@, update_list_plan(*db, *model_name, *ids, la@)),
{
    let mut r: Vec<crate::sql::Stmt> = Vec::new();
    let mut i: usize = 0;
    proof {
        assert(la@.take(0) =~= Seq::<(String, Vec<PrismaValue>)>::empty());
    }
    while i < la.len()
        invariant
            i <= la@.len(),
            ids@.len() > 0,
            forall|j: int| 0 <= j < la@.len() ==> #[trigger] la@[j].1@.len() <= i64::MAX,
            stmts_render(r@, update_list_plan(*db, *model_name, *ids, la@.take(i as int))),
        decreases la@.len() - i,
    {
        let ghost pre = update_list_plan(*db, *model_name, *ids, la@.take(i as int));
        let ghost del_op = (WriteOp::DeleteList {
            db: *db,
            model: *model_name,
            field: la@[i as int].0,
            ids: *ids,
        });
        let ghost ins_plan = inserts_for(
            *db,
            *model_name,
            la@[i as int].0,
            ids@,
            la@[i as int].1,
        );
        proof {
            assert(seq![la@[i as int]].drop_first() =~= Seq::<(String, Vec<PrismaValue>)>::empty());
            assert(seq![la@[i as int]][0] == la@[i as int]);
            assert(update_list_plan(*db, *model_name, *ids, seq![la@[i as int]].drop_first()) =~= Seq::<
                WriteOp,
            >::empty());
            assert(la@.take(i + 1) =~= la@.take(i as int) + seq![la@[i as int]]);
            lemma_update_plan_append(
                *db,
                *model_name,
                *ids,
                la@.take(i as int),
                seq![la@[i as int]],
            );
            assert(update_list_plan(*db, *model_name, *ids, seq![la@[i as int]]) =~= seq![del_op]
                + ins_plan);
        }
        let del = crate::sql::render_delete_list(
            db.as_str(),
            model_name.as_str(),
            la[i].0.as_str(),
            ids,
        );
        proof {
            assert(stmt_renders(del, del_op));
            lemma_stmts_render_push(r@, pre, del, del_op);
            assert(pre.push(del_op) =~= pre + seq![del_op]);
        }
        r.push(del);
        if la[i].1.len() > 0 {
            let mut k: usize = 0;
            proof {
                assert(ids@.take(0) =~= Seq::<GraphqlId>::empty());
                assert(inserts_for(*db, *model_name, la@[i as int].0, ids@.take(0), la@[i as int].1)
                    =~= Seq::<WriteOp>::empty());
                assert(pre + seq![del_op] + inserts_for(
                    *db,
                    *model_name,
                    la@[i as int].0,
                    ids@.take(0),
                    la@[i as int].1,
                ) =~= pre + seq![del_op]);
            }
            while k < ids.len()
                invariant
                    k <= ids@.len(),
                    la@[i as int].1@.len() > 0,
                    la@[i as int].1@.len() <= i64::MAX,
                    0 <= i < la@.len(),
                    la@[i as int].1 == la[i as int].1,
                    stmts_render(
                        r@,
                        pre + seq![del_op] + inserts_for(
                            *db,
                            *model_name,
                            la@[i as int].0,
                            ids@.take(k as int),
                            la@[i as int].1,
                        ),
                    ),
                decreases ids@.len() - k,
            {
                let ghost seg = pre + seq![del_op] + inserts_for(
                    *db,
                    *model_name,
                    la@[i as int].0,
                    ids@.take(k as int),
                    la@[i as int].1,
                );
                let ghost op = (WriteOp::InsertList {
                    db: *db,
                    model: *model_name,
                    field: la@[i as int].0,
                    id: ids@[k as int],
                    values: la@[i as int].1,
                });
                let st = crate::sql::render_insert_list(
                    db.as_str(),
                    model_name.as_str(),
                    la[i].0.as_str(),
                    &ids[k],
                    &la[i].1,
                );
                proof {
                    assert(stmt_renders(st, op));
                    lemma_stmts_render_push(r@, seg, st, op);
                    assert(ids@.take(k + 1) =~= ids@.take(k as int) + seq![ids@[k as int]]);
                    lemma_inserts_for_append(
                        *db,
                        *model_name,
                        la@[i as int].0,
                        ids@.take(k as int),
                        seq![ids@[k as int]],
                        la@[i as int].1,
                    );
                    assert(seq![ids@[k as int]].drop_first() =~= Seq::<GraphqlId>::empty());
                    assert(seq![ids@[k as int]][0] == ids@[k as int]);
                    assert(inserts_for(
                        *db,
                        *model_name,
                        la@[i as int].0,
                        seq![ids@[k as int]].drop_first(),
                        la@[i as int].1,
                    ) =~= Seq::<WriteOp>::empty());
                    assert(inserts_for(
                        *db,
                        *model_name,
                        la@[i as int].0,
                        seq![ids@[k as int]],
                        la@[i as int].1,
                    ) =~= seq![op]);
                    assert(seg.push(op) =~= pre + seq![del_op] + inserts_for(
                        *db,
                        *model_name,
                        la@[i as int].0,
                        ids@.take(k + 1),
                        la@[i as int].1,
                    ));
                }
                r.push(st);
                k = k + 1;
            }
            proof {
                assert(ids@.take(ids@.len() as int) =~= ids@);
                assert(pre + seq![del_op] + ins_plan =~= pre + update_list_plan(
                    *db,
                    *model_name,
                    *ids,
                    seq![la@[i as int]],
                ));
                assert(stmts_render(r@, update_list_plan(*db, *model_name, *ids, la@.take(i + 1))));
            }
        } else {
            proof {
                lemma_inserts_for_none(*db, *model_name, la@[i as int].0, ids@, la@[i as int].1);
                assert(pre + seq![del_op] + ins_plan =~= pre + seq![del_op]);
                assert(stmts_render(r@, update_list_plan(*db, *model_name, *ids, la@.take(i + 1))));
            }
        }
        i = i + 1;
    }
    proof {
        assert(la@.take(la@.len() as int) =~= la@);
    }
    r
}

/// Statement lists rendering plans concatenate to a rendering of the
/// concatenated plan.
pub proof fn lemma_stmts_render_concat(
    s1: Seq<crate::sql::Stmt>,
    p1: Seq<WriteOp>,
    s2: Seq<crate::sql::Stmt>,
    p2: Seq<WriteOp>,
)
    requires
        stmts_render(s1, p1),
        stmts_render(s2, p2),
    ensures
        stmts_render(s1 + s2, p1 + p2),
{
    assert forall|k: int| 0 <= k < (p1 + p2).len() implies stmt_renders(
        #[trigger] (s1 + s2)[k],
        (p1 + p2)[k],
    ) by {
        if k < p1.len() {
            assert((s1 + s2)[k] == s1[k]);
            assert((p1 + p2)[k] == p1[k]);
        } else {
            assert((s1 + s2)[k] == s2[k - p1.len()]);
            assert((p1 + p2)[k] == p2[k - p1.len()]);
        }
    }
}

/// A create whose list arguments all carry empty sequences plans no
/// statement at all.
pub proof fn lemma_create_plan_all_empty(
    db: String,
    model: String,
    id: GraphqlId,
    la: Seq<(String, Vec<PrismaValue>)>,
)
    ensures
        (forall|j: int| 0 <= j < la.len() ==> #[trigger] la[j].1@.len() == 0)
            ==> create_list_plan(db, model, id, la) == Seq::<WriteOp>::empty(),
    decreases la.len(),
{
    if la.len() > 0 {
        lemma_create_plan_all_empty(db, model, id, la.drop_first());
        if forall|j: int| 0 <= j < la.len() ==> #[trigger] la[j].1@.len() == 0 {
            assert(la[0].1@.len() == 0);
            assert forall|j: int| 0 <= j < la.drop_first().len() implies #[trigger] la.drop_first()[j].1@.len()
                == 0 by {
                assert(la.drop_first()[j] == la[j + 1]);
            }
            assert(create_list_plan(db, model, id, la) =~= Seq::<WriteOp>::empty());
        }
    }
}

/// Renders a whole update mutation for a non-empty identifier set: exactly
/// the statements of `update_mutation_plan`, statement for statement — the
/// row update only when there are non-list arguments, then the list
/// replacements.
pub fn build_update_mutation_stmts(
    db: &String,
    model_name: &String,
    id_field: &String,
    ids: &Vec<GraphqlId>,
    cols: &Vec<String>,
    vals: &Vec<PrismaValue>,
    la: &Vec<(String, Vec<PrismaValue>)>,
) -> (r: Vec<crate::sql::Stmt>)
    requires
        ids@.len() > 0,
        cols@.len() == vals@.len(),
        forall|j: int| 0 <= j < la@.len() ==> #[trigger] la@[j].1@.len() <= i64::MAX,
    ensures
        stmts_render(
            r@,
            update_mutation_plan(*db, *model_name, *id_field, *ids, *cols, *vals, la@),
        ),
{
    let ghost upd_part: Seq<WriteOp> = if cols@.len() > 0 {
        seq![
            (WriteOp::UpdateRows {
                db: *db,
                model: *model_name,
                id_field: *id_field,
                ids: *ids,
                cols: *cols,
                vals: *vals,
            }),
        ]
    } else {
        Seq::empty()
    };
    let mut r: Vec<crate::sql::Stmt> = Vec::new();
    if cols.len() > 0 {
        let st = crate::sql::render_update_rows(
            db.as_str(),
            model_name.as_str(),
            id_field.as_str(),
            cols,
            vals,
            ids,
        );
        r.push(st);
    }
    proof {
        assert(stmts_render(r@, upd_part));
    }
    let mut rest = build_update_list_stmts(db, model_name, ids, la);
    proof {
        lemma_stmts_render_concat(
            r@,
            upd_part,
            rest@,
            update_list_plan(*db, *model_name, *ids, la@),
        );
    }
    r.append(&mut rest);
    r
}

/// Two stores no read can tell apart: the same rows exist, every row holds
/// the same column values, and every list field holds the same auxiliary
/// rows.
pub open spec fn same_visible(s1: Store, s2: Store) -> bool {
    (forall|m: Seq<char>, i: IdView| #[trigger] row_exists(s1, m, i) == row_exists(s2, m, i))
        && (forall|m: Seq<char>, i: IdView, f: Seq<char>| #[trigger] field_val(s1, m, i, f)
        == field_val(s2, m, i, f)) && (forall|m: Seq<char>, f: Seq<char>, i: IdView|
        #[trigger] list_rows(s1, m, f, i) == list_rows(s2, m, f, i))
}

/// Running the same update mutation twice with identical arguments leaves
/// the same visible state as running it once: rewriting a row with the same
/// arguments writes the same values, and every list replacement is a
/// delete-then-insert of the same sequences.
pub proof fn lemma_update_idempotent(
    s: Store,
    db: String,
    model: String,
    id_field: String,
    ids: Vec<GraphqlId>,
    cols: Vec<String>,
    vals: Vec<PrismaValue>,
    la: Seq<(String, Vec<PrismaValue>)>,
)
    requires
        distinct_fields(la),
        distinct_id_views(ids@),
        distinct_cols(cols@),
        cols@.len() == vals@.len(),
    ensures
        ({
            let plan = update_mutation_plan(db, model, id_field, ids, cols, vals, la);
            same_visible(apply_all(apply_all(s, plan), plan), apply_all(s, plan))
        }),
{
    let plan = update_mutation_plan(db, model, id_field, ids, cols, vals, la);
    let op = (WriteOp::UpdateRows { db, model, id_field, ids, cols, vals });
    let upd: Seq<WriteOp> = if cols@.len() > 0 {
        seq![op]
    } else {
        Seq::empty()
    };
    let lp = update_list_plan(db, model, ids, la);
    assert(plan =~= upd + lp);
    lemma_apply_all_append(s, upd, lp);
    let u1 = apply_all(s, upd);
    lemma_update_list_plan_effect(u1, db, model, ids, la);
    let s1 = apply_all(u1, lp);
    lemma_apply_all_append(s1, upd, lp);
    let u2 = apply_all(s1, upd);
    lemma_update_list_plan_effect(u2, db, model, ids, la);
    let s2 = apply_all(u2, lp);
    assert(apply_all(s, plan) == s1);
    assert(apply_all(s1, plan) == s2);
    if cols@.len() > 0 {
        assert(u1 == apply(s, op)) by {
            assert(upd[0] == op);
            assert(upd.drop_first() =~= Seq::<WriteOp>::empty());
            assert(apply_all(apply(s, op), Seq::<WriteOp>::empty()) == apply(s, op));
        }
        assert(u2 == apply(s1, op)) by {
            assert(upd[0] == op);
            assert(upd.drop_first() =~= Seq::<WriteOp>::empty());
            assert(apply_all(apply(s1, op), Seq::<WriteOp>::empty()) == apply(s1, op));
        }
    }
    // rows: the list statements never touch them, and rewriting a row with
    // the same arguments a second time changes nothing a lookup can see
    assert(s1.rows == u1.rows);
    assert(s2.rows == u2.rows);
    assert forall|m: Seq<char>, i: IdView| #[trigger] row_exists(s2, m, i) == row_exists(
        s1,
        m,
        i,
    ) by {
        if cols@.len() > 0 {
            assert(u1.rows.contains_key((m, i)) == s.rows.contains_key((m, i)));
            assert(u2.rows.contains_key((m, i)) == s1.rows.contains_key((m, i)));
        }
    }
    assert forall|m: Seq<char>, i: IdView, f: Seq<char>| #[trigger] field_val(s2, m, i, f)
        == field_val(s1, m, i, f) by {
        if cols@.len() == 0 {
        } else {
            let k = (m, i);
            if m == model@ && has_id_view(ids@, i) {
                if s.rows.contains_key(k) {
                    let row0 = s.rows[k];
                    let row1 = write_cols(row0, cols@, vals@);
                    assert(u1.rows[k] == row1);
                    assert(s1.rows.contains_key(k) && s1.rows[k] == row1);
                    assert(u2.rows[k] == write_cols(row1, cols@, vals@));
                    lemma_write_cols_at(row0, cols@, vals@, f);
                    lemma_write_cols_at(row1, cols@, vals@, f);
                } else {
                    assert(!u1.rows.contains_key(k));
                    assert(!u2.rows.contains_key(k));
                }
            } else {
                assert(u1.rows.contains_key(k) ==> u1.rows[k] == s.rows[k]);
                assert(u2.rows.contains_key(k) ==> u2.rows[k] == s1.rows[k]);
            }
        }
    }
    // lists: the row statement never touches them; a replaced field holds
    // its argument's sequence after either run, and everything else is
    // untouched both times
    assert(u1.lists == s.lists);
    assert(u2.lists == s1.lists);
    assert forall|m: Seq<char>, f: Seq<char>, i: IdView| #[trigger] list_rows(s2, m, f, i)
        == list_rows(s1, m, f, i) by {
        if m == model@ && field_of(la, f) && has_id_view(ids@, i) {
            let j = choose|j: int| 0 <= j < la.len() && la[j].0@ == f;
            let k = choose|k: int| 0 <= k < ids@.len() && id_view(ids@[k]) == i;
            assert(list_rows(s1, model@, la[j].0@, id_view(ids@[k])) == la[j].1@);
            assert(list_rows(s2, model@, la[j].0@, id_view(ids@[k])) == la[j].1@);
        } else {
            assert(list_rows(s1, m, f, i) == list_rows(u1, m, f, i));
            assert(list_rows(s2, m, f, i) == list_rows(u2, m, f, i));
            assert(list_rows(u1, m, f, i) == list_rows(s, m, f, i));
            assert(list_rows(u2, m, f, i) == list_rows(s1, m, f, i));
        }
    }
}

} // verus!
