use vstd::prelude::*;

verus! {

use vstd::string::StringExecFns;
use crate::values::{
    ConnectorError,
    ConnectorResult,
    PrismaValue,
    SqliteValue,
    TypeIdentifier,
    decoded,
    fetch_value,
};

/// One field of a model: its name, declared type, and whether it is
/// list-valued or the model's identifier field.
#[derive(Clone, PartialEq, Debug)]
pub struct Field {
    pub name: String,
    pub typ: TypeIdentifier,
    pub is_list: bool,
    pub is_id: bool,
}

/// An exact copy of a field, field by field, so that verified code knows
/// the copy equals the original.
pub fn copy_field(f: &Field) -> (r: Field)
    ensures
        r == *f,
{
    Field { name: f.name.clone(), typ: f.typ, is_list: f.is_list, is_id: f.is_id }
}

/// A named entity type with an ordered set of fields, shared read-only
/// across operations.
#[derive(Clone, PartialEq, Debug)]
pub struct Model {
    pub name: String,
    pub fields: Vec<Field>,
}

/// The first identifier field of a field list, if any.
pub open spec fn find_id(fields: Seq<Field>) -> Option<Field>
    decreases fields.len(),
{
    if fields.len() == 0 {
        None
    } else if fields[0].is_id {
        Some(fields[0])
    } else {
        find_id(fields.drop_first())
    }
}

/// A model is usable when it has an identifier field that is itself a plain
/// scalar column.
pub open spec fn model_wf(m: Model) -> bool {
    match find_id(m.fields@) {
        Some(f) => !f.is_list && f.typ != TypeIdentifier::Relation,
        None => false,
    }
}

/// The scalar non-list fields of a field list, in order: the row projection
/// that reads and decodes use. Relation and list fields never appear in it.
pub open spec fn projection(fields: Seq<Field>) -> Seq<Field> {
    fields.filter(|f: Field| !f.is_list && f.typ != TypeIdentifier::Relation)
}

impl Model {
    /// The model's identifier field: the first field flagged as such.
    pub fn id_field(&self) -> (r: Option<Field>)
        ensures
            r == find_id(self.fields@),
    {
        let mut i: usize = 0;
        proof {
            assert(self.fields@.skip(0) =~= self.fields@);
        }
        while i < self.fields.len()
            invariant
                i <= self.fields@.len(),
                find_id(self.fields@) == find_id(self.fields@.skip(i as int)),
            decreases self.fields@.len() - i,
        {
            proof {
                assert(self.fields@.skip(i as int).len() > 0);
                assert(self.fields@.skip(i as int)[0] == self.fields@[i as int]);
            }
            if self.fields[i].is_id {
                return Some(copy_field(&self.fields[i]));
            }
            proof {
                assert(self.fields@.skip(i as int).drop_first() =~= self.fields@.skip(i + 1));
            }
            i = i + 1;
        }
        proof {
            assert(self.fields@.skip(i as int).len() == 0);
        }
        None
    }

    /// The row projection of this model; see `projection`.
    pub fn scalar_non_list(&self) -> (r: Vec<Field>)
        ensures
            r@ == projection(self.fields@),
    {
        let mut r: Vec<Field> = Vec::new();
        let mut i: usize = 0;
        proof {
            reveal_with_fuel(Seq::<Field>::filter, 1);
            assert(r@ =~= projection(self.fields@.take(0)));
        }
        while i < self.fields.len()
            invariant
                i <= self.fields@.len(),
                r@ == projection(self.fields@.take(i as int)),
            decreases self.fields@.len() - i,
        {
            let f = &self.fields[i];
            proof {
                reveal_with_fuel(Seq::<Field>::filter, 1);
                assert(self.fields@.take(i + 1).drop_last() =~= self.fields@.take(i as int));
                assert(self.fields@.take(i + 1).last() == self.fields@[i as int]);
            }
            if !f.is_list && !matches!(f.typ, TypeIdentifier::Relation) {
                r.push(copy_field(f));
                proof {
                    assert(r@ =~= projection(self.fields@.take(i + 1)));
                }
            } else {
                proof {
                    assert(r@ =~= projection(self.fields@.take(i + 1)));
                }
            }
            i = i + 1;
        }
        proof {
            assert(self.fields@.take(self.fields@.len() as int) =~= self.fields@);
        }
        r
    }

    /// Looks a field up by name.
    pub fn find_field(&self, name: &String) -> (r: Option<Field>)
        ensures
            r matches Some(f) ==> self.fields@.contains(f) && f.name@ == name@,
            r is None ==> forall|j: int|
                0 <= j < self.fields@.len() ==> self.fields@[j].name@ != name@,
    {
        let mut i: usize = 0;
        while i < self.fields.len()
            invariant
                i <= self.fields@.len(),
                forall|j: int| 0 <= j < i ==> self.fields@[j].name@ != name@,
            decreases self.fields@.len() - i,
        {
            if self.fields[i].name == *name {
                let r = copy_field(&self.fields[i]);
                assert(self.fields@.contains(self.fields@[i as int]));
                return Some(r);
            }
            i = i + 1;
        }
        None
    }
}

/// A (field, value) predicate identifying at most one row of a model.
#[derive(Clone, PartialEq, Debug)]
pub struct NodeSelector {
    pub model: Model,
    pub field: String,
    pub value: PrismaValue,
}

/// The filter shapes a resolution accepts: every row, or the rows whose
/// named field equals a value (a selector).
#[derive(Clone, PartialEq, Debug)]
pub enum Filter {
    All,
    FieldEquals(String, PrismaValue),
}

/// A decoded result row, positionally aligned with the projection it was
/// read through.
#[derive(Clone, PartialEq, Debug)]
pub struct Node {
    pub values: Vec<PrismaValue>,
}

impl Node {
    pub fn new(values: Vec<PrismaValue>) -> (r: Node)
        ensures
            r.values == values,
    {
        Node { values }
    }
}

/// A create mutation: the target model, its non-list column arguments, and
/// the ordered element sequences of its list-valued fields.
#[derive(Clone, PartialEq, Debug)]
pub struct CreateNode {
    pub model: Model,
    pub non_list_args: Vec<(String, PrismaValue)>,
    pub list_args: Vec<(String, Vec<PrismaValue>)>,
}

/// An update of the single row a selector resolves to.
#[derive(Clone, PartialEq, Debug)]
pub struct UpdateNode {
    pub where_: NodeSelector,
    pub non_list_args: Vec<(String, PrismaValue)>,
    pub list_args: Vec<(String, Vec<PrismaValue>)>,
}

/// An update of every row a filter resolves to.
#[derive(Clone, PartialEq, Debug)]
pub struct UpdateNodes {
    pub model: Model,
    pub filter: Filter,
    pub non_list_args: Vec<(String, PrismaValue)>,
    pub list_args: Vec<(String, Vec<PrismaValue>)>,
}

/// Create-or-update: the selector decides, its failure to resolve selecting
/// the create branch.
#[derive(Clone, PartialEq, Debug)]
pub struct UpsertNode {
    pub where_: NodeSelector,
    pub create: CreateNode,
    pub update: UpdateNode,
}

/// A delete of the single row a selector resolves to; its behaviour is an
/// explicit gap, surfaced as an error rather than guessed at.
#[derive(Clone, PartialEq, Debug)]
pub struct DeleteNode {
    pub where_: NodeSelector,
}

/// Which branch a mutation took, reported beside its identifier.
#[derive(Clone, Copy, PartialEq, Eq, Structural, Debug)]
pub enum DatabaseMutactionResultType {
    Create,
    Update,
}

/// Reads a whole result row through a projection, decoding each column
/// against its field's declared type in order. A decode failure for any
/// column aborts the row; a row at least as wide as the projection whose
/// columns all decode is always read successfully.
pub fn read_row(row: &Vec<SqliteValue>, selected_fields: &Vec<Field>) -> (r: ConnectorResult<
    Node,
>)
    requires
        forall|j: int|
            0 <= j < selected_fields@.len() ==> selected_fields@[j].typ
                != TypeIdentifier::Relation,
    ensures
        r matches Ok(node) ==> node.values@.len() == selected_fields@.len(),
        r matches Ok(node) ==> forall|j: int|
            0 <= j < selected_fields@.len() ==> (j < row@.len() && decoded(
                selected_fields@[j].typ,
                row@[j],
            ) == Some(node.values@[j])),
        (row@.len() >= selected_fields@.len() && (forall|j: int|
            0 <= j < selected_fields@.len() ==> decoded(selected_fields@[j].typ, row@[j])
                is Some)) ==> r is Ok,
        r matches Err(e) ==> e matches ConnectorError::ValueDecodeError(_),
{
    let mut values: Vec<PrismaValue> = Vec::new();
    let mut i: usize = 0;
    while i < selected_fields.len()
        invariant
            i <= selected_fields@.len(),
            values@.len() == i,
            forall|j: int|
                0 <= j < selected_fields@.len() ==> selected_fields@[j].typ
                    != TypeIdentifier::Relation,
            forall|j: int|
                0 <= j < i ==> (j < row@.len() && decoded(selected_fields@[j].typ, row@[j])
                    == Some(values@[j])),
        decreases selected_fields@.len() - i,
    {
        if i >= row.len() {
            return Err(ConnectorError::ValueDecodeError(String::from_str(
                "row is narrower than the projection",
            )));
        }
        match fetch_value(selected_fields[i].typ, row, i) {
            Ok(v) => values.push(v),
            Err(e) => {
                return Err(e);
            },
        }
        i = i + 1;
    }
    Ok(Node::new(values))
}

} // verus!
