use vstd::prelude::*;

verus! {

/// A node label of the graph that the import creates or matches.
#[derive(Clone, Copy, PartialEq, Eq, Structural, Debug)]
pub enum Label {
    Agency,
    Stop,
    Route,
    Service,
    ServiceException,
    Trip,
    SubDistrict,
}

/// The label as it is written in a statement.
pub open spec fn label_text(l: Label) -> Seq<char> {
    match l {
        Label::Agency => "Agency"@,
        Label::Stop => "Stop"@,
        Label::Route => "Route"@,
        Label::Service => "Service"@,
        Label::ServiceException => "ServiceException"@,
        Label::Trip => "Trip"@,
        Label::SubDistrict => "SubDistrict"@,
    }
}

impl Label {
    /// The label as it is written in a statement.
    pub fn name(self) -> (r: &'static str)
        ensures
            r@ == label_text(self),
    {
        match self {
            Label::Agency => "Agency",
            Label::Stop => "Stop",
            Label::Route => "Route",
            Label::Service => "Service",
            Label::ServiceException => "ServiceException",
            Label::Trip => "Trip",
            Label::SubDistrict => "SubDistrict",
        }
    }
}

/// One property of an entity's natural key and the expression over the
/// source row that gives its value.
#[derive(Debug)]
pub struct KeyBinding {
    pub property: String,
    pub value: String,
}

/// A node pattern `(var:Label {key: value, ...})` that identifies one entity
/// by its natural key.
#[derive(Debug)]
pub struct NodePattern {
    pub var: String,
    pub label: Label,
    pub keys: Vec<KeyBinding>,
}

/// What a stage upserts: an entity keyed by its natural identifier, or a
/// relationship keyed by its properties between two already bound nodes.
#[derive(Debug)]
pub enum Upsert {
    Node(NodePattern),
    Link { from: String, var: String, rel: String, keys: Vec<KeyBinding>, to: String },
}

/// One load unit: a bulk upsert over one source file.
///
/// The statement is read row by row from `source`; each row first matches
/// the entities named in `lookups` (which earlier stages must have created),
/// then merges `upsert`, then applies `assignments`. With `chunk_rows` the
/// rows are committed in sub-transactions of that many rows each. `name`
/// identifies the stage in errors and in the run's record; `status` is the
/// text shown while it runs.
#[derive(Debug)]
pub struct Stage {
    pub name: String,
    pub status: String,
    pub source: String,
    pub delimiter: Option<String>,
    pub lookups: Vec<NodePattern>,
    pub upsert: Upsert,
    pub assignments: String,
    pub chunk_rows: Option<u32>,
}

/// The label of the entities that a stage creates, if it creates entities
/// rather than relationships only.
pub open spec fn creates(s: Stage) -> Option<Label> {
    match s.upsert {
        Upsert::Node(p) => Some(p.label),
        Upsert::Link { .. } => None,
    }
}

/// Every entity that a stage matches by identifier is created by a stage
/// strictly before it.
pub open spec fn well_ordered(stages: Seq<Stage>) -> bool {
    forall|i: int, k: int|
        #![trigger stages[i].lookups@[k]]
        0 <= i < stages.len() && 0 <= k < stages[i].lookups@.len()
            ==> exists|j: int| 0 <= j < i && creates(#[trigger] stages[j]) == Some(stages[i].lookups@[k].label)
}

/// Whether a schema declaration is a uniqueness constraint or a plain index.
#[derive(Clone, Copy, PartialEq, Eq, Structural, Debug)]
pub enum DeclarationKind {
    Constraint,
    Index,
}

/// A uniqueness constraint or index, on the entity or relationship pattern
/// `target` and the property expression `property`.
#[derive(Debug)]
pub struct SchemaDeclaration {
    pub kind: DeclarationKind,
    pub target: String,
    pub property: String,
}

/// The two datasets that the import loads.
#[derive(Clone, Copy, PartialEq, Eq, Structural, Debug)]
pub enum DatasetKind {
    Transit,
    Demographics,
}

/// A named unit of import: the labels whose presence shows it is loaded,
/// the schema it needs, and its stages in dependency order.
#[derive(Debug)]
pub struct Dataset {
    pub kind: DatasetKind,
    pub presence_labels: Vec<Label>,
    pub declarations: Vec<SchemaDeclaration>,
    pub stages: Vec<Stage>,
}

} // verus!
