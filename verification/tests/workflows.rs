use lancedb_kmp::workflow::{
    check_query_embedding, check_seed_recipes, failure, has_recipes_table, is_seeded_step,
    model_source, plan_search, seed_step, ModelSource, Operation, SearchPlan, SeedAction,
    SeedEvent, SeededAction, SeededEvent, Stage,
};
use lancedb_kmp::{LanceDbError, SeedRecipe, VECTOR_DIM};

fn recipe(id: &str, title: &str, dims: usize) -> SeedRecipe {
    SeedRecipe {
        id: id.to_string(),
        title: title.to_string(),
        description: "d".to_string(),
        ingredients: "i".to_string(),
        vector: vec![0.0f32.to_bits(); dims],
    }
}

fn names(v: &[&str]) -> Vec<String> {
    v.iter().map(|s| s.to_string()).collect()
}

#[test]
fn error_messages() {
    assert_eq!(LanceDbError::ConnectionFailed.message(), "connection failed");
    assert_eq!(LanceDbError::TableNotFound.message(), "table not found");
    assert_eq!(LanceDbError::SearchFailed.message(), "search failed");
    assert_eq!(LanceDbError::SeedFailed.message(), "seed failed");
    assert_eq!(LanceDbError::EmbeddingFailed.message(), "embedding failed");
    assert_eq!(LanceDbError::InvalidInput.message(), "invalid input");
    assert_eq!(LanceDbError::Internal.message(), "internal error");
}

#[test]
fn failures_map_to_the_errors_of_each_operation() {
    assert_eq!(failure(Operation::Connect, Stage::Connect), LanceDbError::ConnectionFailed);
    assert_eq!(failure(Operation::Connect, Stage::LoadModel), LanceDbError::EmbeddingFailed);
    assert_eq!(failure(Operation::ListTables, Stage::ListTables), LanceDbError::Internal);
    assert_eq!(failure(Operation::IsSeeded, Stage::ListTables), LanceDbError::Internal);
    assert_eq!(failure(Operation::IsSeeded, Stage::OpenTable), LanceDbError::Internal);
    assert_eq!(failure(Operation::IsSeeded, Stage::CountRows), LanceDbError::Internal);
    assert_eq!(failure(Operation::Seed, Stage::DecodeJson), LanceDbError::SeedFailed);
    assert_eq!(failure(Operation::Seed, Stage::ListTables), LanceDbError::SeedFailed);
    assert_eq!(failure(Operation::Seed, Stage::DropTable), LanceDbError::SeedFailed);
    assert_eq!(failure(Operation::Seed, Stage::CreateTable), LanceDbError::SeedFailed);
    assert_eq!(failure(Operation::Search, Stage::OpenTable), LanceDbError::TableNotFound);
    assert_eq!(failure(Operation::Search, Stage::NearestTo), LanceDbError::SearchFailed);
    assert_eq!(failure(Operation::Search, Stage::RunQuery), LanceDbError::SearchFailed);
    assert_eq!(failure(Operation::Search, Stage::CollectRows), LanceDbError::SearchFailed);
    assert_eq!(failure(Operation::AddDocument, Stage::OpenTable), LanceDbError::TableNotFound);
    assert_eq!(failure(Operation::AddDocument, Stage::AddRows), LanceDbError::Internal);
    assert_eq!(failure(Operation::Embed, Stage::LockModel), LanceDbError::Internal);
    assert_eq!(failure(Operation::Embed, Stage::Embed), LanceDbError::EmbeddingFailed);
    assert_eq!(failure(Operation::Embed, Stage::NoEmbedding), LanceDbError::EmbeddingFailed);
}

#[test]
fn recipes_table_is_found_by_exact_name() {
    assert!(has_recipes_table(&names(&["a", "recipes", "b"])));
    assert!(!has_recipes_table(&names(&[])));
    assert!(!has_recipes_table(&names(&["Recipes", "recipes2", " recipes"])));
}

#[test]
fn is_seeded_steps() {
    assert!(matches!(
        is_seeded_step(&SeededEvent::TablesListed(names(&["recipes"]))),
        SeededAction::CountRows
    ));
    assert!(matches!(
        is_seeded_step(&SeededEvent::TablesListed(names(&["other"]))),
        SeededAction::Finish(Ok(false))
    ));
    assert!(matches!(
        is_seeded_step(&SeededEvent::RowsCounted(0)),
        SeededAction::Finish(Ok(false))
    ));
    assert!(matches!(
        is_seeded_step(&SeededEvent::RowsCounted(25)),
        SeededAction::Finish(Ok(true))
    ));
    assert!(matches!(
        is_seeded_step(&SeededEvent::Failed(Stage::CountRows)),
        SeededAction::Finish(Err(LanceDbError::Internal))
    ));
}

#[test]
fn seed_checks_the_decoded_recipes() {
    assert!(matches!(check_seed_recipes(&vec![]), Err(LanceDbError::SeedFailed)));
    assert!(matches!(
        check_seed_recipes(&vec![recipe("1", "a", VECTOR_DIM), recipe("2", "b", 3)]),
        Err(LanceDbError::SeedFailed)
    ));
    assert!(check_seed_recipes(&vec![recipe("1", "a", VECTOR_DIM)]).is_ok());
    assert!(matches!(
        seed_step(&SeedEvent::Decoded(vec![])),
        SeedAction::Finish(Err(LanceDbError::SeedFailed))
    ));
    assert!(matches!(
        seed_step(&SeedEvent::Decoded(vec![recipe("1", "a", 383)])),
        SeedAction::Finish(Err(LanceDbError::SeedFailed))
    ));
}

#[test]
fn seed_replaces_an_existing_table() {
    assert!(matches!(
        seed_step(&SeedEvent::TablesListed(names(&["recipes"]))),
        SeedAction::DropTable
    ));
    assert!(matches!(
        seed_step(&SeedEvent::TablesListed(names(&["notes"]))),
        SeedAction::CreateTable
    ));
    assert!(matches!(seed_step(&SeedEvent::TableDropped), SeedAction::CreateTable));
    assert!(matches!(seed_step(&SeedEvent::TableCreated), SeedAction::CreateIndex));
    assert!(matches!(seed_step(&SeedEvent::IndexAttempted), SeedAction::Finish(Ok(()))));
    assert!(matches!(
        seed_step(&SeedEvent::Failed(Stage::DropTable)),
        SeedAction::Finish(Err(LanceDbError::SeedFailed))
    ));
}

#[test]
fn seeding_then_checking_answers_true() {
    let recipes = vec![recipe("1", "Spicy Shakshuka", VECTOR_DIM)];
    assert!(matches!(seed_step(&SeedEvent::Decoded(recipes.clone())), SeedAction::ListTables));
    assert!(matches!(
        seed_step(&SeedEvent::TablesListed(names(&[]))),
        SeedAction::CreateTable
    ));
    assert!(matches!(seed_step(&SeedEvent::TableCreated), SeedAction::CreateIndex));
    assert!(matches!(seed_step(&SeedEvent::IndexAttempted), SeedAction::Finish(Ok(()))));
    assert!(matches!(
        is_seeded_step(&SeededEvent::TablesListed(names(&["recipes"]))),
        SeededAction::CountRows
    ));
    assert!(matches!(
        is_seeded_step(&SeededEvent::RowsCounted(recipes.len())),
        SeededAction::Finish(Ok(true))
    ));
}

#[test]
fn blank_queries_give_no_results() {
    assert!(matches!(plan_search("", 10), SearchPlan::NoResults));
    assert!(matches!(plan_search(" \t\n\u{3000}", 10), SearchPlan::NoResults));
}

#[test]
fn queries_are_trimmed_and_prefixed() {
    match plan_search("  spicy breakfast with eggs ", 5) {
        SearchPlan::Run { prompt, limit } => {
            assert_eq!(prompt, "query: spicy breakfast with eggs");
            assert_eq!(limit, 5);
        }
        SearchPlan::NoResults => panic!("a query with words was taken as blank"),
    }
}

#[test]
fn query_embeddings_must_have_the_vector_dimension() {
    assert!(check_query_embedding(VECTOR_DIM).is_ok());
    assert_eq!(check_query_embedding(383), Err(LanceDbError::EmbeddingFailed));
    assert_eq!(check_query_embedding(0), Err(LanceDbError::EmbeddingFailed));
}

#[test]
fn model_comes_from_the_directory_only_when_both_files_are_there() {
    assert_eq!(model_source(true, true), ModelSource::ModelDirectory);
    assert_eq!(model_source(true, false), ModelSource::Stock);
    assert_eq!(model_source(false, true), ModelSource::Stock);
    assert_eq!(model_source(false, false), ModelSource::Stock);
}
