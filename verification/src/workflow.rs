//! The decisions of the store workflows. Each workflow alternates calls to
//! the vector store and the embedding model, which its caller performs,
//! with decisions taken here: a step function maps what the last call
//! reported to the next call to make, or to the workflow's answer.
use vstd::prelude::*;
use crate::columns::vectors_fit;
use crate::error::LanceDbError;
use crate::text::{is_blank, lemma_trim_blank, query_prompt, query_prompt_text, trim, trimmed};
use crate::types::{SeedRecipe, RECIPES_TABLE, VECTOR_DIM};

verus! {

/// The operations of the library that can fail.
#[derive(Debug, Clone, Copy, PartialEq, Eq, Structural)]
pub enum Operation {
    Connect,
    ListTables,
    IsSeeded,
    Seed,
    Search,
    AddDocument,
    Embed,
}

/// The outside calls that an operation makes and that can fail.
#[derive(Debug, Clone, Copy, PartialEq, Eq, Structural)]
pub enum Stage {
    Connect,
    LoadModel,
    ListTables,
    OpenTable,
    CountRows,
    DecodeJson,
    DropTable,
    CreateTable,
    NearestTo,
    RunQuery,
    CollectRows,
    AddRows,
    LockModel,
    Embed,
    NoEmbedding,
}

/// Whether `op` makes the call `stage`.
pub open spec fn makes_call(op: Operation, stage: Stage) -> bool {
    match op {
        Operation::Connect => stage == Stage::Connect || stage == Stage::LoadModel,
        Operation::ListTables => stage == Stage::ListTables,
        Operation::IsSeeded => stage == Stage::ListTables || stage == Stage::OpenTable || stage
            == Stage::CountRows,
        Operation::Seed => stage == Stage::DecodeJson || stage == Stage::ListTables || stage
            == Stage::DropTable || stage == Stage::CreateTable,
        Operation::Search => stage == Stage::OpenTable || stage == Stage::NearestTo || stage
            == Stage::RunQuery || stage == Stage::CollectRows,
        Operation::AddDocument => stage == Stage::OpenTable || stage == Stage::AddRows,
        Operation::Embed => stage == Stage::LockModel || stage == Stage::Embed || stage
            == Stage::NoEmbedding,
    }
}

/// The error that `op` reports when its call `stage` fails.
pub open spec fn failure_of(op: Operation, stage: Stage) -> LanceDbError {
    match op {
        Operation::Connect => if stage == Stage::Connect {
            LanceDbError::ConnectionFailed
        } else {
            LanceDbError::EmbeddingFailed
        },
        Operation::ListTables => LanceDbError::Internal,
        Operation::IsSeeded => LanceDbError::Internal,
        Operation::Seed => LanceDbError::SeedFailed,
        Operation::Search => if stage == Stage::OpenTable {
            LanceDbError::TableNotFound
        } else {
            LanceDbError::SearchFailed
        },
        Operation::AddDocument => if stage == Stage::OpenTable {
            LanceDbError::TableNotFound
        } else {
            LanceDbError::Internal
        },
        Operation::Embed => if stage == Stage::LockModel {
            LanceDbError::Internal
        } else {
            LanceDbError::EmbeddingFailed
        },
    }
}

/// The error that `op` reports when its call `stage` fails.
pub fn failure(op: Operation, stage: Stage) -> (e: LanceDbError)
    requires
        makes_call(op, stage),
    ensures
        e == failure_of(op, stage),
{
    match op {
        Operation::Connect => match stage {
            Stage::Connect => LanceDbError::ConnectionFailed,
            _ => LanceDbError::EmbeddingFailed,
        },
        Operation::ListTables => LanceDbError::Internal,
        Operation::IsSeeded => LanceDbError::Internal,
        Operation::Seed => LanceDbError::SeedFailed,
        Operation::Search => match stage {
            Stage::OpenTable => LanceDbError::TableNotFound,
            _ => LanceDbError::SearchFailed,
        },
        Operation::AddDocument => match stage {
            Stage::OpenTable => LanceDbError::TableNotFound,
            _ => LanceDbError::Internal,
        },
        Operation::Embed => match stage {
            Stage::LockModel => LanceDbError::Internal,
            _ => LanceDbError::EmbeddingFailed,
        },
    }
}

/// The names of a list of tables.
pub open spec fn table_names(tables: Seq<String>) -> Seq<Seq<char>> {
    tables.map_values(|t: String| t@)
}

/// Whether the recipes table is among the listed tables.
pub open spec fn lists_recipes(tables: Seq<String>) -> bool {
    table_names(tables).contains(RECIPES_TABLE@)
}

/// Tells whether the recipes table is among the listed tables.
pub fn has_recipes_table(tables: &Vec<String>) -> (b: bool)
    ensures
        b == lists_recipes(tables@),
{
    let target = String::from_str(RECIPES_TABLE);
    let n: usize = tables.len();
    for i in 0..n
        invariant
            n == tables@.len(),
            target@ == RECIPES_TABLE@,
            forall|k: int| 0 <= k < i ==> #[trigger] tables@[k]@ != RECIPES_TABLE@,
    {
        if tables[i] == target {
            assert(table_names(tables@)[i as int] == RECIPES_TABLE@);
            return true;
        }
    }
    assert forall|k: int| 0 <= k < table_names(tables@).len() implies #[trigger] table_names(
        tables@,
    )[k] != RECIPES_TABLE@ by {
        assert(table_names(tables@)[k] == tables@[k]@);
    }
    false
}

/// What the store reported to the check for seeded data.
pub enum SeededEvent {
    TablesListed(Vec<String>),
    RowsCounted(usize),
    Failed(Stage),
}

/// What the check for seeded data does next. It starts with `ListTables`.
#[derive(Debug)]
pub enum SeededAction {
    ListTables,
    CountRows,
    Finish(Result<bool, LanceDbError>),
}

/// The decision of the check for seeded data on each report: the data is
/// seeded when the recipes table exists and holds at least one row.
pub open spec fn seeded_next(e: SeededEvent) -> SeededAction {
    match e {
        SeededEvent::TablesListed(tables) => if lists_recipes(tables@) {
            SeededAction::CountRows
        } else {
            SeededAction::Finish(Ok(false))
        },
        SeededEvent::RowsCounted(rows) => SeededAction::Finish(Ok(rows > 0)),
        SeededEvent::Failed(stage) => SeededAction::Finish(
            Err(failure_of(Operation::IsSeeded, stage)),
        ),
    }
}

/// Takes the check for seeded data one step further.
pub fn is_seeded_step(e: &SeededEvent) -> (a: SeededAction)
    requires
        e matches SeededEvent::Failed(stage) ==> makes_call(Operation::IsSeeded, *stage),
    ensures
        a == seeded_next(*e),
{
    match e {
        SeededEvent::TablesListed(tables) => if has_recipes_table(tables) {
            SeededAction::CountRows
        } else {
            SeededAction::Finish(Ok(false))
        },
        SeededEvent::RowsCounted(rows) => SeededAction::Finish(Ok(*rows > 0)),
        SeededEvent::Failed(stage) => SeededAction::Finish(
            Err(failure(Operation::IsSeeded, *stage)),
        ),
    }
}

/// What the store reported to the seeding workflow.
pub enum SeedEvent {
    /// The JSON text was decoded into these recipes.
    Decoded(Vec<SeedRecipe>),
    /// The store listed these tables.
    TablesListed(Vec<String>),
    /// The old recipes table was dropped.
    TableDropped,
    /// The recipes table was created with the new recipes.
    TableCreated,
    /// The index build finished, whether or not it succeeded.
    IndexAttempted,
    Failed(Stage),
}

/// What the seeding workflow does next. It starts by decoding the JSON
/// text.
#[derive(Debug)]
pub enum SeedAction {
    ListTables,
    DropTable,
    CreateTable,
    CreateIndex,
    Finish(Result<(), LanceDbError>),
}

/// Whether a decoded set of recipes may be seeded: there is at least one,
/// and every embedding has `VECTOR_DIM` entries.
pub open spec fn seedable(recipes: Seq<SeedRecipe>) -> bool {
    recipes.len() > 0 && vectors_fit(recipes)
}

/// The decision of the seeding workflow on each report. An existing
/// recipes table is dropped before the new one is created, and a failed
/// index build does not fail the seeding.
pub open spec fn seed_next(e: SeedEvent) -> SeedAction {
    match e {
        SeedEvent::Decoded(recipes) => if seedable(recipes@) {
            SeedAction::ListTables
        } else {
            SeedAction::Finish(Err(LanceDbError::SeedFailed))
        },
        SeedEvent::TablesListed(tables) => if lists_recipes(tables@) {
            SeedAction::DropTable
        } else {
            SeedAction::CreateTable
        },
        SeedEvent::TableDropped => SeedAction::CreateTable,
        SeedEvent::TableCreated => SeedAction::CreateIndex,
        SeedEvent::IndexAttempted => SeedAction::Finish(Ok(())),
        SeedEvent::Failed(stage) => SeedAction::Finish(Err(failure_of(Operation::Seed, stage))),
    }
}

/// Checks the decoded recipes: fails with `SeedFailed` when there are none
/// or when an embedding does not have `VECTOR_DIM` entries.
pub fn check_seed_recipes(recipes: &Vec<SeedRecipe>) -> (r: Result<(), LanceDbError>)
    ensures
        r is Ok <==> seedable(recipes@),
        r matches Err(e) ==> e == LanceDbError::SeedFailed,
{
    if recipes.len() == 0 {
        return Err(LanceDbError::SeedFailed);
    }
    let n: usize = recipes.len();
    for i in 0..n
        invariant
            n == recipes@.len(),
            forall|k: int| 0 <= k < i ==> #[trigger] recipes@[k].vector@.len() == VECTOR_DIM,
    {
        if recipes[i].vector.len() != VECTOR_DIM {
            return Err(LanceDbError::SeedFailed);
        }
    }
    Ok(())
}

/// Takes the seeding workflow one step further.
pub fn seed_step(e: &SeedEvent) -> (a: SeedAction)
    requires
        e matches SeedEvent::Failed(stage) ==> makes_call(Operation::Seed, *stage),
    ensures
        a == seed_next(*e),
{
    match e {
        SeedEvent::Decoded(recipes) => match check_seed_recipes(recipes) {
            Ok(()) => SeedAction::ListTables,
            Err(err) => SeedAction::Finish(Err(err)),
        },
        SeedEvent::TablesListed(tables) => if has_recipes_table(tables) {
            SeedAction::DropTable
        } else {
            SeedAction::CreateTable
        },
        SeedEvent::TableDropped => SeedAction::CreateTable,
        SeedEvent::TableCreated => SeedAction::CreateIndex,
        SeedEvent::IndexAttempted => SeedAction::Finish(Ok(())),
        SeedEvent::Failed(stage) => SeedAction::Finish(Err(failure(Operation::Seed, *stage))),
    }
}

/// Seeding and then checking for seeded data answers `true`, for a store
/// that lists exactly the tables it holds and counts the rows it was given.
/// Seeding valid recipes lists the tables, drops an existing recipes table,
/// creates the new one, builds the index and succeeds; the check then finds
/// the recipes table and, counting as many rows as there were recipes,
/// answers `true`.
pub proof fn lemma_seeded_after_seeding(
    recipes: Vec<SeedRecipe>,
    existing: Set<Seq<char>>,
    before: Vec<String>,
    after: Vec<String>,
    rows: usize,
)
    requires
        seedable(recipes@),
        table_names(before@).to_set() == existing,
        table_names(after@).to_set() == existing.insert(RECIPES_TABLE@),
        rows == recipes@.len(),
    ensures
        seed_next(SeedEvent::Decoded(recipes)) is ListTables,
        seed_next(SeedEvent::TablesListed(before)) == (if existing.contains(RECIPES_TABLE@) {
            SeedAction::DropTable
        } else {
            SeedAction::CreateTable
        }),
        seed_next(SeedEvent::TableDropped) is CreateTable,
        seed_next(SeedEvent::TableCreated) is CreateIndex,
        seed_next(SeedEvent::IndexAttempted) == SeedAction::Finish(Ok(())),
        seeded_next(SeededEvent::TablesListed(after)) is CountRows,
        seeded_next(SeededEvent::RowsCounted(rows)) == SeededAction::Finish(Ok(true)),
{
    assert(table_names(before@).to_set().contains(RECIPES_TABLE@) == table_names(
        before@,
    ).contains(RECIPES_TABLE@));
    assert(table_names(after@).to_set().contains(RECIPES_TABLE@));
}

/// The check for seeded data counts rows exactly when a listed table is
/// named `recipes`; otherwise it answers `false` at once. A row count
/// answers whether there is at least one row.
pub proof fn lemma_seeded_check_needs_the_table(tables: Vec<String>, rows: usize)
    ensures
        seeded_next(SeededEvent::TablesListed(tables)) is CountRows <==> exists|i: int|
            0 <= i < tables@.len() && #[trigger] tables@[i]@ == "recipes"@,
        !(seeded_next(SeededEvent::TablesListed(tables)) is CountRows) ==> seeded_next(
            SeededEvent::TablesListed(tables),
        ) == SeededAction::Finish(Ok(false)),
        seeded_next(SeededEvent::RowsCounted(rows)) == SeededAction::Finish(Ok(rows >= 1)),
{
    if exists|i: int| 0 <= i < tables@.len() && #[trigger] tables@[i]@ == "recipes"@ {
        let i = choose|i: int| 0 <= i < tables@.len() && #[trigger] tables@[i]@ == "recipes"@;
        assert(table_names(tables@)[i] == tables@[i]@);
    }
    if lists_recipes(tables@) {
        let i = choose|i: int|
            0 <= i < table_names(tables@).len() && table_names(tables@)[i] == RECIPES_TABLE@;
        assert(tables@[i]@ == table_names(tables@)[i]);
    }
}

/// Decoded recipes are seeded exactly when there is at least one and every
/// one of them has an embedding of 384 entries; any other set fails the
/// seeding with `SeedFailed`.
pub proof fn lemma_seed_accepts_only_full_embeddings(recipes: Vec<SeedRecipe>)
    ensures
        seed_next(SeedEvent::Decoded(recipes)) is ListTables <==> (recipes@.len() > 0 && forall|
            i: int,
        | 0 <= i < recipes@.len() ==> #[trigger] recipes@[i].vector@.len() == 384),
        !(seed_next(SeedEvent::Decoded(recipes)) is ListTables) ==> seed_next(
            SeedEvent::Decoded(recipes),
        ) == SeedAction::Finish(Err(LanceDbError::SeedFailed)),
{
}

/// How a search goes on after its query is read.
pub enum SearchPlan {
    /// The query is blank: the search answers with no results and makes
    /// no call.
    NoResults,
    /// Embed `prompt`, then ask the store for the `limit` nearest recipes.
    Run { prompt: String, limit: usize },
}

/// Reads a search query: a blank query gives no results; any other is
/// trimmed and turned into the text that the embedding model receives.
pub fn plan_search(query: &str, limit: u32) -> (p: SearchPlan)
    ensures
        p is NoResults <==> is_blank(query@),
        p matches SearchPlan::Run { prompt, limit: l } ==> prompt@ == query_prompt(trimmed(query@))
            && l == limit,
{
    proof {
        lemma_trim_blank(query@);
    }
    let t = trim(query);
    if t.is_empty() {
        SearchPlan::NoResults
    } else {
        SearchPlan::Run { prompt: query_prompt_text(t), limit: limit as usize }
    }
}

/// Checks the embedding of a search query: it must have `VECTOR_DIM`
/// entries, else the search fails with `EmbeddingFailed`.
pub fn check_query_embedding(len: usize) -> (r: Result<(), LanceDbError>)
    ensures
        r is Ok <==> len == VECTOR_DIM,
        r matches Err(e) ==> e == LanceDbError::EmbeddingFailed,
{
    if len != VECTOR_DIM {
        Err(LanceDbError::EmbeddingFailed)
    } else {
        Ok(())
    }
}

/// Where the embedding model comes from.
#[derive(Debug, Clone, Copy, PartialEq, Eq, Structural)]
pub enum ModelSource {
    /// The ONNX model and tokenizer files found in the model directory.
    ModelDirectory,
    /// The stock all-MiniLM-L6-v2 model of the embedding library.
    Stock,
}

/// Picks the embedding model: the one of the model directory when both its
/// ONNX file and its tokenizer file are there, the stock model otherwise.
pub fn model_source(onnx_present: bool, tokenizer_present: bool) -> (s: ModelSource)
    ensures
        s == (if onnx_present && tokenizer_present {
            ModelSource::ModelDirectory
        } else {
            ModelSource::Stock
        }),
{
    if onnx_present && tokenizer_present {
        ModelSource::ModelDirectory
    } else {
        ModelSource::Stock
    }
}

} // verus!
