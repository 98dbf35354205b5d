use vstd::prelude::*;

verus! {

/// Name of the table that holds the recipes.
pub const RECIPES_TABLE: &'static str = "recipes";

/// Number of entries of every embedding vector.
pub const VECTOR_DIM: usize = 384;

/// A recipe as it is seeded into the store. The embedding is held as the
/// IEEE-754 single-precision bit pattern of each entry.
#[derive(Debug, Clone)]
pub struct SeedRecipe {
    pub id: String,
    pub title: String,
    pub description: String,
    pub ingredients: String,
    pub vector: Vec<u32>,
}

impl View for SeedRecipe {
    type V = (Seq<char>, Seq<char>, Seq<char>, Seq<char>, Seq<u32>);

    open spec fn view(&self) -> Self::V {
        (self.id@, self.title@, self.description@, self.ingredients@, self.vector@)
    }
}

/// A recipe as it is handed back to callers. The score is held as the
/// IEEE-754 double-precision bit pattern of the similarity score.
#[derive(Debug, Clone)]
pub struct RecipeResult {
    pub id: String,
    pub title: String,
    pub description: String,
    pub ingredients: String,
    pub score_bits: u64,
    pub latency_ms: u64,
}

impl View for RecipeResult {
    type V = (Seq<char>, Seq<char>, Seq<char>, Seq<char>, u64, u64);

    open spec fn view(&self) -> Self::V {
        (self.id@, self.title@, self.description@, self.ingredients@, self.score_bits, self.latency_ms)
    }
}

} // verus!
