//! Verified core of an offline recipe search library backed by a vector
//! store: validation, text preparation, identifiers, column assembly and
//! the decisions of each store workflow.

pub mod columns;
pub mod documents;
pub mod error;
pub mod ids;
pub mod text;
pub mod types;
pub mod workflow;

pub use error::LanceDbError;
pub use ids::uuid_simple;
pub use types::{RecipeResult, SeedRecipe, RECIPES_TABLE, VECTOR_DIM};
