//! The fixed index schema, the idempotent open policy over one index
//! directory, and the shape of a search.
//!
//! The schema is created once, when the index directory does not already
//! hold a valid index, and is immutable thereafter for the lifetime of that
//! directory. Searches run over the `subject` and `body` fields and return
//! the top-ranked hits' `path` and `subject`.

use vstd::prelude::*;

verus! {

/// How a field's values are indexed.
#[derive(Clone, Copy, Debug, PartialEq, Eq, Structural)]
pub enum FieldKind {
    /// Text matched exactly, as one token.
    ExactText,
    /// Text tokenized for full-text search.
    TokenizedText,
    /// A signed integer.
    Integer,
}

/// One field of the index schema.
pub struct FieldDef {
    /// The field's name.
    pub name: String,
    /// How the field's values are indexed.
    pub kind: FieldKind,
    /// Whether the field's values are stored for retrieval.
    pub stored: bool,
}

/// Spec-level picture of one schema field.
pub ghost struct FieldDefView {
    pub name: Seq<char>,
    pub kind: FieldKind,
    pub stored: bool,
}

impl View for FieldDef {
    type V = FieldDefView;

    open spec fn view(&self) -> FieldDefView {
        FieldDefView { name: self.name@, kind: self.kind, stored: self.stored }
    }
}

/// The fixed field set: `id` exact and stored, `path` exact and stored,
/// `date` an indexed integer, `subject` full-text and stored, `body`
/// full-text and not stored.
pub open spec fn spec_schema() -> Seq<FieldDefView> {
    seq![
        FieldDefView { name: "id"@, kind: FieldKind::ExactText, stored: true },
        FieldDefView { name: "path"@, kind: FieldKind::ExactText, stored: true },
        FieldDefView { name: "date"@, kind: FieldKind::Integer, stored: false },
        FieldDefView { name: "subject"@, kind: FieldKind::TokenizedText, stored: true },
        FieldDefView { name: "body"@, kind: FieldKind::TokenizedText, stored: false },
    ]
}

/// Builds the fixed field set of the index schema.
pub fn schema_fields() -> (r: Vec<FieldDef>)
    ensures
        r@.map_values(|f: FieldDef| f@) == spec_schema(),
{
    let mut r: Vec<FieldDef> = Vec::new();
    r.push(FieldDef { name: "id".to_owned(), kind: FieldKind::ExactText, stored: true });
    r.push(FieldDef { name: "path".to_owned(), kind: FieldKind::ExactText, stored: true });
    r.push(FieldDef { name: "date".to_owned(), kind: FieldKind::Integer, stored: false });
    r.push(
        FieldDef { name: "subject".to_owned(), kind: FieldKind::TokenizedText, stored: true },
    );
    r.push(FieldDef { name: "body".to_owned(), kind: FieldKind::TokenizedText, stored: false });
    proof {
        assert(r@.map_values(|f: FieldDef| f@) =~= spec_schema());
    }
    r
}

/// What opening an index directory does: attach to the index already there,
/// or create a fresh one with the fixed schema.
#[derive(Clone, Copy, Debug, PartialEq, Eq, Structural)]
pub enum OpenAction {
    /// A valid index is already there: attach to it, touching nothing.
    Attach,
    /// No valid index is there: create the schema and a fresh index.
    CreateFresh,
}

/// Model of one index directory: the schema of the valid index it holds, or
/// `None` when it holds no valid index.
pub ghost struct DirModel {
    pub schema: Option<Seq<FieldDefView>>,
}

/// The open policy over one index directory: an absent or invalid index is
/// created with the fixed schema; a valid one is attached to unchanged.
pub open spec fn spec_open(d: DirModel) -> (DirModel, OpenAction) {
    match d.schema {
        Some(_) => (d, OpenAction::Attach),
        None => (DirModel { schema: Some(spec_schema()) }, OpenAction::CreateFresh),
    }
}

/// Decides what opening an index directory must do, from whether the
/// directory already holds a valid index.
pub fn open_action(has_valid_index: bool) -> (r: OpenAction)
    ensures
        has_valid_index ==> r == OpenAction::Attach,
        !has_valid_index ==> r == OpenAction::CreateFresh,
{
    if has_valid_index {
        OpenAction::Attach
    } else {
        OpenAction::CreateFresh
    }
}

/// Opening is idempotent: one open leaves the directory with a valid index,
/// and every later open attaches to it without touching its schema. In
/// particular a second `index` run against the same directory finds the
/// schema of the first run intact.
pub proof fn lemma_open_idempotent(d: DirModel)
    ensures
        spec_open(d).0.schema is Some,
        spec_open(spec_open(d).0) == (spec_open(d).0, OpenAction::Attach),
{
}

/// How many ranked hits a search returns at most.
pub const SEARCH_LIMIT: usize = 25;

/// One search hit: what is reported for a retrieved document.
pub struct SearchHit {
    /// Path of the indexed message file.
    pub path: String,
    /// Subject of the indexed message.
    pub subject: String,
}

/// The names of the fields a query is parsed against: `subject` and `body`.
pub fn query_field_names() -> (r: Vec<String>)
    ensures
        r@.len() == 2,
        r@[0]@ == "subject"@,
        r@[1]@ == "body"@,
{
    let mut r: Vec<String> = Vec::new();
    r.push("subject".to_owned());
    r.push("body".to_owned());
    r
}

} // verus!
