//! The catalog of migration steps and the schema operations they are made of.

use vstd::prelude::*;
use vstd::string::*;
use crate::db::text::{decimal, push_decimal};

verus! {

/// The mathematical value of a `FieldKind`.
pub enum FieldKindView {
    Int,
    Text,
    Bool,
    Record(Seq<char>),
}

/// The type that a field is constrained to. `Record` names the collection
/// that the field links to; an empty name stands for any collection.
#[derive(Debug, PartialEq, Eq)]
pub enum FieldKind {
    Int,
    Text,
    Bool,
    Record(String),
}

impl View for FieldKind {
    type V = FieldKindView;

    open spec fn view(&self) -> FieldKindView {
        match self {
            FieldKind::Int => FieldKindView::Int,
            FieldKind::Text => FieldKindView::Text,
            FieldKind::Bool => FieldKindView::Bool,
            FieldKind::Record(collection) => FieldKindView::Record(collection@),
        }
    }
}

impl Clone for FieldKind {
    fn clone(&self) -> (copy: FieldKind)
        ensures
            copy@ == self@,
    {
        match self {
            FieldKind::Int => FieldKind::Int,
            FieldKind::Text => FieldKind::Text,
            FieldKind::Bool => FieldKind::Bool,
            FieldKind::Record(collection) => FieldKind::Record(collection.clone()),
        }
    }
}

/// What identifies a schema artifact: two operations with the same key
/// speak of the same artifact.
pub enum ArtifactKey {
    Collection { name: Seq<char> },
    Field { collection: Seq<char>, field: Seq<char> },
    Seed { collection: Seq<char>, key: Seq<char> },
}

/// The mathematical value of an `Operation`.
pub enum OperationView {
    CreateCollection { name: Seq<char> },
    DefineField { collection: Seq<char>, field: Seq<char>, kind: FieldKindView, required: bool },
    SeedReferenceData { collection: Seq<char>, key: Seq<char>, value: Seq<char> },
}

impl FieldKindView {
    /// The kind as the store's definition language writes it.
    pub open spec fn text(self) -> Seq<char> {
        match self {
            FieldKindView::Int => "int"@,
            FieldKindView::Text => "string"@,
            FieldKindView::Bool => "bool"@,
            FieldKindView::Record(collection) => "record("@ + collection + ")"@,
        }
    }
}

impl OperationView {
    /// The artifact that the operation brings about.
    pub open spec fn key(self) -> ArtifactKey {
        match self {
            OperationView::CreateCollection { name } => ArtifactKey::Collection { name },
            OperationView::DefineField { collection, field, .. } => ArtifactKey::Field {
                collection,
                field,
            },
            OperationView::SeedReferenceData { collection, key, .. } => ArtifactKey::Seed {
                collection,
                key,
            },
        }
    }

    /// The statement that asks the store for the operation.
    pub open spec fn statement(self) -> Seq<char> {
        match self {
            OperationView::CreateCollection { name } => "DEFINE TABLE "@ + name + " SCHEMAFULL;"@,
            OperationView::DefineField { collection, field, kind, required } => "DEFINE FIELD "@
                + field + " ON TABLE "@ + collection + " TYPE "@ + kind.text() + (if required {
                " ASSERT $value != NONE;"@
            } else {
                ";"@
            }),
            OperationView::SeedReferenceData { collection, key, value } => "UPDATE "@ + collection
                + ":"@ + key + " CONTENT "@ + value + ";"@,
        }
    }
}

/// One schema operation. Each is safe to repeat: it brings its artifact
/// about where the store lacks it and leaves the store alone otherwise.
#[derive(Debug, PartialEq, Eq)]
pub enum Operation {
    /// Creates a collection unless one of that name exists.
    CreateCollection { name: String },
    /// Defines a field of a collection, with its type and whether a value is
    /// required.
    DefineField { collection: String, field: String, kind: FieldKind, required: bool },
    /// Stores one record of reference data under a key; `value` is the
    /// record's content as the store's language writes it.
    SeedReferenceData { collection: String, key: String, value: String },
}

impl View for Operation {
    type V = OperationView;

    open spec fn view(&self) -> OperationView {
        match self {
            Operation::CreateCollection { name } => OperationView::CreateCollection { name: name@ },
            Operation::DefineField { collection, field, kind, required } => {
                OperationView::DefineField {
                    collection: collection@,
                    field: field@,
                    kind: kind@,
                    required: *required,
                }
            },
            Operation::SeedReferenceData { collection, key, value } => {
                OperationView::SeedReferenceData {
                    collection: collection@,
                    key: key@,
                    value: value@,
                }
            },
        }
    }
}

impl Clone for Operation {
    fn clone(&self) -> (copy: Operation)
        ensures
            copy@ == self@,
    {
        match self {
            Operation::CreateCollection { name } => Operation::CreateCollection {
                name: name.clone(),
            },
            Operation::DefineField { collection, field, kind, required } => Operation::DefineField {
                collection: collection.clone(),
                field: field.clone(),
                kind: kind.clone(),
                required: *required,
            },
            Operation::SeedReferenceData { collection, key, value } => {
                Operation::SeedReferenceData {
                    collection: collection.clone(),
                    key: key.clone(),
                    value: value.clone(),
                }
            },
        }
    }
}

impl FieldKind {
    /// The kind as the store's definition language writes it.
    pub fn text(&self) -> (text: String)
        ensures
            text@ == self@.text(),
    {
        match self {
            FieldKind::Int => String::from_str("int"),
            FieldKind::Text => String::from_str("string"),
            FieldKind::Bool => String::from_str("bool"),
            FieldKind::Record(collection) => {
                let mut text = String::from_str("record(");
                text.append(collection.as_str());
                text.append(")");
                text
            },
        }
    }
}

impl Operation {
    /// The operation that creates the collection `name` if it is absent.
    pub fn create_collection(name: &str) -> (operation: Operation)
        ensures
            operation@ == (OperationView::CreateCollection { name: name@ }),
    {
        Operation::CreateCollection { name: String::from_str(name) }
    }

    /// The operation that defines `field` of `collection`.
    pub fn define_field(collection: &str, field: &str, kind: FieldKind, required: bool) -> (operation:
        Operation)
        ensures
            operation@ == (OperationView::DefineField {
                collection: collection@,
                field: field@,
                kind: kind@,
                required,
            }),
    {
        Operation::DefineField {
            collection: String::from_str(collection),
            field: String::from_str(field),
            kind,
            required,
        }
    }

    /// The operation that stores `value` under `key` in `collection`.
    pub fn seed_reference_data(collection: &str, key: &str, value: &str) -> (operation: Operation)
        ensures
            operation@ == (OperationView::SeedReferenceData {
                collection: collection@,
                key: key@,
                value: value@,
            }),
    {
        Operation::SeedReferenceData {
            collection: String::from_str(collection),
            key: String::from_str(key),
            value: String::from_str(value),
        }
    }

    /// Whether the two operations bring about the same artifact.
    pub fn same_artifact(&self, other: &Operation) -> (same: bool)
        ensures
            same == (self@.key() == other@.key()),
    {
        match (self, other) {
            (Operation::CreateCollection { name }, Operation::CreateCollection { name: other_name }) => {
                *name == *other_name
            },
            (
                Operation::DefineField { collection, field, .. },
                Operation::DefineField { collection: other_collection, field: other_field, .. },
            ) => *collection == *other_collection && *field == *other_field,
            (
                Operation::SeedReferenceData { collection, key, .. },
                Operation::SeedReferenceData { collection: other_collection, key: other_key, .. },
            ) => *collection == *other_collection && *key == *other_key,
            _ => false,
        }
    }

    /// The statement that asks the store for the operation.
    pub fn statement(&self) -> (text: String)
        ensures
            text@ == self@.statement(),
    {
        match self {
            Operation::CreateCollection { name } => {
                let mut text = String::from_str("DEFINE TABLE ");
                text.append(name.as_str());
                text.append(" SCHEMAFULL;");
                text
            },
            Operation::DefineField { collection, field, kind, required } => {
                let mut text = String::from_str("DEFINE FIELD ");
                text.append(field.as_str());
                text.append(" ON TABLE ");
                text.append(collection.as_str());
                text.append(" TYPE ");
                let kind_text = kind.text();
                text.append(kind_text.as_str());
                if *required {
                    text.append(" ASSERT $value != NONE;");
                } else {
                    text.append(";");
                }
                text
            },
            Operation::SeedReferenceData { collection, key, value } => {
                let mut text = String::from_str("UPDATE ");
                text.append(collection.as_str());
                text.append(":");
                text.append(key.as_str());
                text.append(" CONTENT ");
                text.append(value.as_str());
                text.append(";");
                text
            },
        }
    }
}

/// The values of a sequence of operations, in their order.
pub open spec fn operation_views(operations: Seq<Operation>) -> Seq<OperationView> {
    operations.map_values(|operation: Operation| operation@)
}

/// The mathematical value of a `MigrationStep`.
pub struct StepView {
    pub target_version: nat,
    pub operations: Seq<OperationView>,
}

/// One schema transition: the operations that take a store from version
/// `target_version - 1` to `target_version`.
#[derive(Debug, PartialEq, Eq)]
pub struct MigrationStep {
    target_version: u64,
    operations: Vec<Operation>,
}

impl View for MigrationStep {
    type V = StepView;

    closed spec fn view(&self) -> StepView {
        StepView {
            target_version: self.target_version as nat,
            operations: operation_views(self.operations@),
        }
    }
}

impl MigrationStep {
    /// The step that leads to `target_version` by `operations`, in order.
    pub fn new(target_version: u64, operations: Vec<Operation>) -> (step: MigrationStep)
        ensures
            step@ == (StepView {
                target_version: target_version as nat,
                operations: operation_views(operations@),
            }),
    {
        MigrationStep { target_version, operations }
    }

    /// The version that the step leads to.
    pub fn target_version(&self) -> (version: u64)
        ensures
            version == self@.target_version,
    {
        self.target_version
    }

    /// The number of operations in the step.
    pub fn len(&self) -> (n: usize)
        ensures
            n == self@.operations.len(),
    {
        self.operations.len()
    }

    /// The operation at position `index`, if the step has that many.
    pub fn operation(&self, index: usize) -> (operation: Option<&Operation>)
        ensures
            match operation {
                Some(operation) => index < self@.operations.len() && operation@
                    == self@.operations[index as int],
                None => index >= self@.operations.len(),
            },
    {
        if index < self.operations.len() {
            Some(&self.operations[index])
        } else {
            None
        }
    }
}

/// The text that reports the step to `version` as applied.
pub open spec fn step_description(version: nat) -> Seq<char> {
    "Upgraded to version "@ + decimal(version)
}

/// The text that reports the step to `version` as applied.
pub fn describe_step(version: u64) -> (text: String)
    ensures
        text@ == step_description(version as nat),
{
    let mut text = String::from_str("Upgraded to version ");
    push_decimal(&mut text, version);
    text
}

/// The operations of the step to version 1: the ledger's own collection,
/// the collections of the content model, and their required fields.
pub open spec fn version_1_operations() -> Seq<OperationView> {
    seq![
        OperationView::CreateCollection { name: "database_version"@ },
        OperationView::DefineField {
            collection: "database_version"@,
            field: "version"@,
            kind: FieldKindView::Int,
            required: true,
        },
        OperationView::DefineField {
            collection: "database_version"@,
            field: "timestamp"@,
            kind: FieldKindView::Int,
            required: true,
        },
        OperationView::CreateCollection { name: "Article"@ },
        OperationView::CreateCollection { name: "Element"@ },
        OperationView::CreateCollection { name: "DataType"@ },
        OperationView::DefineField {
            collection: "Article"@,
            field: "timestamp_created"@,
            kind: FieldKindView::Int,
            required: true,
        },
        OperationView::DefineField {
            collection: "Element"@,
            field: "article_id"@,
            kind: FieldKindView::Record("Article"@),
            required: true,
        },
        OperationView::DefineField {
            collection: "Element"@,
            field: "data_type_id"@,
            kind: FieldKindView::Record(""@),
            required: true,
        },
        OperationView::DefineField {
            collection: "DataType"@,
            field: "name"@,
            kind: FieldKindView::Text,
            required: true,
        },
        OperationView::DefineField {
            collection: "DataType"@,
            field: "table_id"@,
            kind: FieldKindView::Record("Element"@),
            required: true,
        },
        OperationView::DefineField {
            collection: "DataType"@,
            field: "data_type"@,
            kind: FieldKindView::Int,
            required: true,
        },
    ]
}

/// The step to version 1.
pub open spec fn version_1_step() -> StepView {
    StepView { target_version: 1, operations: version_1_operations() }
}

/// The catalog that the engine ships with.
pub open spec fn standard_catalog() -> Seq<StepView> {
    seq![version_1_step()]
}

/// The version that the standard catalog leads to.
pub const CURRENT_VERSION: u64 = 1;

impl MigrationStep {
    /// The step to version 1.
    pub fn version_1() -> (step: MigrationStep)
        ensures
            step@ == version_1_step(),
    {
        let mut operations: Vec<Operation> = Vec::new();
        operations.push(Operation::create_collection("database_version"));
        operations.push(Operation::define_field("database_version", "version", FieldKind::Int, true));
        operations.push(
            Operation::define_field("database_version", "timestamp", FieldKind::Int, true),
        );
        operations.push(Operation::create_collection("Article"));
        operations.push(Operation::create_collection("Element"));
        operations.push(Operation::create_collection("DataType"));
        operations.push(Operation::define_field("Article", "timestamp_created", FieldKind::Int, true));
        operations.push(
            Operation::define_field(
                "Element",
                "article_id",
                FieldKind::Record(String::from_str("Article")),
                true,
            ),
        );
        operations.push(
            Operation::define_field(
                "Element",
                "data_type_id",
                FieldKind::Record(String::from_str("")),
                true,
            ),
        );
        operations.push(Operation::define_field("DataType", "name", FieldKind::Text, true));
        operations.push(
            Operation::define_field(
                "DataType",
                "table_id",
                FieldKind::Record(String::from_str("Element")),
                true,
            ),
        );
        operations.push(Operation::define_field("DataType", "data_type", FieldKind::Int, true));
        proof {
            assert(operation_views(operations@) =~= version_1_operations());
        }
        MigrationStep { target_version: 1, operations }
    }
}

impl Catalog {
    /// The catalog that the engine ships with: the step to version 1.
    pub fn standard() -> (catalog: Catalog)
        ensures
            catalog@ == standard_catalog(),
            catalog.wf(),
            catalog@.len() == CURRENT_VERSION,
    {
        let mut steps: Vec<MigrationStep> = Vec::new();
        steps.push(MigrationStep::version_1());
        proof {
            assert(step_views(steps@) =~= standard_catalog());
        }
        let catalog = Catalog { steps };
        proof {
            catalog.lemma_countable();
        }
        catalog
    }
}

/// Whether the steps are numbered 1, 2, 3 and so on without a gap.
pub open spec fn gap_free(steps: Seq<StepView>) -> bool {
    forall|i: int| 0 <= i < steps.len() ==> (#[trigger] steps[i]).target_version == i + 1
}

/// Whether each step has no more operations than a machine can count.
pub open spec fn countable(steps: Seq<StepView>) -> bool {
    forall|i: int| 0 <= i < steps.len() ==> (#[trigger] steps[i]).operations.len() <= usize::MAX
}

/// The values of a sequence of steps, in their order.
pub open spec fn step_views(steps: Seq<MigrationStep>) -> Seq<StepView> {
    steps.map_values(|step: MigrationStep| step@)
}

/// The ordered table of migration steps, beginning at version 1. Its steps
/// are numbered without a gap.
#[derive(Debug)]
pub struct Catalog {
    steps: Vec<MigrationStep>,
}

impl View for Catalog {
    type V = Seq<StepView>;

    closed spec fn view(&self) -> Seq<StepView> {
        step_views(self.steps@)
    }
}

impl Catalog {
    /// Whether the catalog keeps its invariant.
    pub open spec fn wf(&self) -> bool {
        gap_free(self@) && countable(self@)
    }

    /// The catalog of `steps`, where they are numbered from 1 on without a
    /// gap; `None` otherwise.
    pub fn new(steps: Vec<MigrationStep>) -> (catalog: Option<Catalog>)
        ensures
            catalog is Some <==> gap_free(step_views(steps@)),
            catalog is Some ==> catalog->Some_0@ == step_views(steps@) && catalog->Some_0.wf(),
    {
        let mut i: usize = 0;
        while i < steps.len()
            invariant
                i <= steps.len(),
                forall|j: int| 0 <= j < i ==> (#[trigger] step_views(steps@)[j]).target_version == j + 1,
            decreases steps.len() - i,
        {
            let position: u64 = i as u64;
            if position == u64::MAX || steps[i].target_version != position + 1 {
                proof {
                    assert(step_views(steps@)[i as int].target_version != i + 1);
                }
                return None;
            }
            i += 1;
        }
        let catalog = Catalog { steps };
        proof {
            catalog.lemma_countable();
        }
        Some(catalog)
    }

    /// The operations of each step are held in a vector, so they can be
    /// counted.
    proof fn lemma_countable(&self)
        ensures
            countable(self@),
    {
        assert forall|i: int| 0 <= i < self@.len() implies (#[trigger] self@[i]).operations.len()
            <= usize::MAX by {
            assert(self@[i].operations.len() == self.steps@[i].operations@.len());
            vstd::std_specs::vec::axiom_spec_len(&self.steps@[i].operations);
        }
    }

    /// The number of steps, which is the highest version that the catalog
    /// leads to.
    pub fn latest_version(&self) -> (version: u64)
        ensures
            version == self@.len(),
    {
        self.steps.len() as u64
    }

    /// The step that leads to `version`, if the catalog has one.
    pub fn step(&self, version: u64) -> (step: Option<&MigrationStep>)
        ensures
            match step {
                Some(step) => 1 <= version <= self@.len() && step@ == self@[version - 1],
                None => version < 1 || version > self@.len(),
            },
    {
        if version >= 1 && version - 1 < self.steps.len() as u64 {
            Some(&self.steps[(version - 1) as usize])
        } else {
            None
        }
    }
}

} // verus!
