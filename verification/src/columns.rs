use vstd::prelude::*;
use arrow_array::StringArray;
use crate::error::LanceDbError;
use crate::types::{RecipeResult, SeedRecipe, VECTOR_DIM};

verus! {

/// A string column of the store's record batches. Verus sees nothing of
/// the column itself; what it holds is named by `text_column_values`. The
/// array is a public field because the column type cannot stand in any
/// signature that Verus reads, and the caller hands columns to and from
/// record batches.
#[verifier::external_body]
pub struct TextColumn {
    pub array: StringArray,
}

/// The strings that a string column holds, in row order.
pub uninterp spec fn text_column_values(c: TextColumn) -> Seq<Seq<char>>;

/// Number of bytes of the UTF-8 encodings of all the strings together.
pub open spec fn utf8_total(values: Seq<Seq<char>>) -> nat
    decreases values.len(),
{
    if values.len() == 0 {
        0
    } else {
        utf8_total(values.drop_last()) + vstd::utf8::encode_utf8(values.last()).len()
    }
}

/// `StringArray::from(Vec<&str>)`: the column holds the given strings in
/// order. The constructor panics when the bytes overflow 32-bit offsets.
#[verifier::external_body]
fn string_array_from(values: Vec<&str>) -> (a: TextColumn)
    requires
        utf8_total(values@.map_values(|s: &str| s@)) <= i32::MAX,
    ensures
        text_column_values(a) == values@.map_values(|s: &str| s@),
{
    TextColumn { array: StringArray::from(values) }
}

/// `GenericByteArray::value`: the string of row `i`, which must exist.
#[verifier::external_body]
fn string_array_value(a: &TextColumn, i: usize) -> (s: &str)
    requires
        i < text_column_values(*a).len(),
    ensures
        s@ == text_column_values(*a)[i as int],
{
    a.array.value(i)
}

/// The four text columns of a recipe batch, in the order id, title,
/// description, ingredients.
pub struct TextColumns {
    pub ids: TextColumn,
    pub titles: TextColumn,
    pub descriptions: TextColumn,
    pub ingredients: TextColumn,
}

/// Whether every recipe has an embedding of `VECTOR_DIM` entries.
pub open spec fn vectors_fit(recipes: Seq<SeedRecipe>) -> bool {
    forall|i: int| 0 <= i < recipes.len() ==> #[trigger] recipes[i].vector@.len() == VECTOR_DIM
}

/// Every recipe, not only some, must have an embedding of 384 entries.
pub proof fn lemma_vectors_fit_every_recipe(recipes: Seq<SeedRecipe>)
    ensures
        vectors_fit(recipes) <==> forall|i: int|
            0 <= i < recipes.len() ==> #[trigger] recipes[i].vector@.len() == 384,
{
}

pub open spec fn ids_of(recipes: Seq<SeedRecipe>) -> Seq<Seq<char>> {
    recipes.map_values(|r: SeedRecipe| r.id@)
}

pub open spec fn titles_of(recipes: Seq<SeedRecipe>) -> Seq<Seq<char>> {
    recipes.map_values(|r: SeedRecipe| r.title@)
}

pub open spec fn descriptions_of(recipes: Seq<SeedRecipe>) -> Seq<Seq<char>> {
    recipes.map_values(|r: SeedRecipe| r.description@)
}

pub open spec fn ingredients_of(recipes: Seq<SeedRecipe>) -> Seq<Seq<char>> {
    recipes.map_values(|r: SeedRecipe| r.ingredients@)
}

/// Whether each text column of the recipes fits in a column with 32-bit
/// offsets.
pub open spec fn text_fits(recipes: Seq<SeedRecipe>) -> bool {
    &&& utf8_total(ids_of(recipes)) <= i32::MAX
    &&& utf8_total(titles_of(recipes)) <= i32::MAX
    &&& utf8_total(descriptions_of(recipes)) <= i32::MAX
    &&& utf8_total(ingredients_of(recipes)) <= i32::MAX
}

/// Whether the columns hold exactly the text fields of the recipes.
pub open spec fn columns_hold(c: TextColumns, recipes: Seq<SeedRecipe>) -> bool {
    &&& text_column_values(c.ids) == ids_of(recipes)
    &&& text_column_values(c.titles) == titles_of(recipes)
    &&& text_column_values(c.descriptions) == descriptions_of(recipes)
    &&& text_column_values(c.ingredients) == ingredients_of(recipes)
}

/// Checks that every recipe has an embedding of `VECTOR_DIM` entries and
/// lays the text fields of the recipes out as the columns of a batch.
pub fn recipes_to_columns(recipes: &Vec<SeedRecipe>) -> (r: Result<TextColumns, LanceDbError>)
    requires
        vectors_fit(recipes@) ==> text_fits(recipes@),
    ensures
        r is Ok <==> vectors_fit(recipes@),
        r matches Ok(c) ==> columns_hold(c, recipes@),
        r matches Err(e) ==> e == LanceDbError::SeedFailed,
{
    let n: usize = recipes.len();
    for i in 0..n
        invariant
            n == recipes@.len(),
            forall|k: int| 0 <= k < i ==> #[trigger] recipes@[k].vector@.len() == VECTOR_DIM,
    {
        if recipes[i].vector.len() != VECTOR_DIM {
            return Err(LanceDbError::SeedFailed);
        }
    }
    let mut ids: Vec<&str> = Vec::new();
    let mut titles: Vec<&str> = Vec::new();
    let mut descriptions: Vec<&str> = Vec::new();
    let mut ingredients: Vec<&str> = Vec::new();
    for i in 0..n
        invariant
            n == recipes@.len(),
            ids@.len() == i,
            titles@.len() == i,
            descriptions@.len() == i,
            ingredients@.len() == i,
            forall|k: int| 0 <= k < i ==> #[trigger] ids@[k]@ == recipes@[k].id@,
            forall|k: int| 0 <= k < i ==> #[trigger] titles@[k]@ == recipes@[k].title@,
            forall|k: int|
                0 <= k < i ==> #[trigger] descriptions@[k]@ == recipes@[k].description@,
            forall|k: int|
                0 <= k < i ==> #[trigger] ingredients@[k]@ == recipes@[k].ingredients@,
    {
        let r = &recipes[i];
        ids.push(r.id.as_str());
        titles.push(r.title.as_str());
        descriptions.push(r.description.as_str());
        ingredients.push(r.ingredients.as_str());
    }
    assert(ids@.map_values(|s: &str| s@) =~= ids_of(recipes@));
    assert(titles@.map_values(|s: &str| s@) =~= titles_of(recipes@));
    assert(descriptions@.map_values(|s: &str| s@) =~= descriptions_of(recipes@));
    assert(ingredients@.map_values(|s: &str| s@) =~= ingredients_of(recipes@));
    Ok(
        TextColumns {
            ids: string_array_from(ids),
            titles: string_array_from(titles),
            descriptions: string_array_from(descriptions),
            ingredients: string_array_from(ingredients),
        },
    )
}

/// What one batch of search results holds, as the library reads it: the
/// number of rows, each text column that was found by name, and the
/// similarity score of each row as IEEE-754 double-precision bits, which
/// is there when the distance column was found. A column that is missing
/// is `None`.
pub struct ResultBatch {
    pub rows: usize,
    pub ids: Option<TextColumn>,
    pub titles: Option<TextColumn>,
    pub descriptions: Option<TextColumn>,
    pub ingredients: Option<TextColumn>,
    pub score_bits: Option<Vec<u64>>,
}

/// Whether a column that is present has one value per row.
pub open spec fn column_has_rows(c: Option<TextColumn>, rows: usize) -> bool {
    c matches Some(col) ==> text_column_values(col).len() == rows
}

/// Whether every column that is present in the batch has one value per row.
pub open spec fn batch_well_shaped(b: ResultBatch) -> bool {
    &&& column_has_rows(b.ids, b.rows)
    &&& column_has_rows(b.titles, b.rows)
    &&& column_has_rows(b.descriptions, b.rows)
    &&& column_has_rows(b.ingredients, b.rows)
    &&& (b.score_bits matches Some(v) ==> v@.len() == b.rows)
}

/// Whether the batch has every column that a search result is read from.
pub open spec fn batch_complete(b: ResultBatch) -> bool {
    &&& b.ids is Some
    &&& b.titles is Some
    &&& b.descriptions is Some
    &&& b.ingredients is Some
    &&& b.score_bits is Some
}

/// The results that a complete batch stands for, one per row.
pub open spec fn batch_results(b: ResultBatch, latency_ms: u64) -> Seq<
    (Seq<char>, Seq<char>, Seq<char>, Seq<char>, u64, u64),
> {
    Seq::new(
        b.rows as nat,
        |i: int|
            (
                text_column_values(b.ids.unwrap())[i],
                text_column_values(b.titles.unwrap())[i],
                text_column_values(b.descriptions.unwrap())[i],
                text_column_values(b.ingredients.unwrap())[i],
                b.score_bits.unwrap()@[i],
                latency_ms,
            ),
    )
}

/// The results of all batches, batch after batch.
pub open spec fn search_results(bs: Seq<ResultBatch>, latency_ms: u64) -> Seq<
    (Seq<char>, Seq<char>, Seq<char>, Seq<char>, u64, u64),
>
    decreases bs.len(),
{
    if bs.len() == 0 {
        Seq::empty()
    } else {
        search_results(bs.drop_last(), latency_ms) + batch_results(bs.last(), latency_ms)
    }
}

/// Whether every batch has every column that a result is read from.
pub open spec fn all_complete(bs: Seq<ResultBatch>) -> bool {
    forall|i: int| 0 <= i < bs.len() ==> #[trigger] batch_complete(bs[i])
}

/// What is written is read back: when the columns of a batch are the text
/// columns laid out from some recipes, each search result read from that
/// batch carries the fields of the recipe of its row, with the row's score
/// and the given latency.
pub proof fn lemma_columns_read_back(
    recipes: Seq<SeedRecipe>,
    columns: TextColumns,
    score_bits: Vec<u64>,
    latency_ms: u64,
)
    requires
        columns_hold(columns, recipes),
        score_bits@.len() == recipes.len(),
        recipes.len() <= usize::MAX,
    ensures
        ({
            let b = ResultBatch {
                rows: recipes.len() as usize,
                ids: Some(columns.ids),
                titles: Some(columns.titles),
                descriptions: Some(columns.descriptions),
                ingredients: Some(columns.ingredients),
                score_bits: Some(score_bits),
            };
            &&& batch_complete(b)
            &&& batch_well_shaped(b)
            &&& batch_results(b, latency_ms).len() == recipes.len()
            &&& forall|i: int|
                0 <= i < recipes.len() ==> #[trigger] batch_results(b, latency_ms)[i] == (
                    recipes[i].id@,
                    recipes[i].title@,
                    recipes[i].description@,
                    recipes[i].ingredients@,
                    score_bits@[i],
                    latency_ms,
                )
        }),
{
}

/// Reads the search results out of the batches that the store returned,
/// row after row, each with the given latency. Fails with `SearchFailed`
/// when a batch lacks one of the columns.
pub fn parse_search_results(batches: &Vec<ResultBatch>, latency_ms: u64) -> (r: Result<
    Vec<RecipeResult>,
    LanceDbError,
>)
    requires
        forall|i: int| 0 <= i < batches@.len() ==> #[trigger] batch_well_shaped(batches@[i]),
    ensures
        r is Ok <==> all_complete(batches@),
        r matches Ok(v) ==> v@.map_values(|x: RecipeResult| x@) == search_results(
            batches@,
            latency_ms,
        ),
        r matches Err(e) ==> e == LanceDbError::SearchFailed,
{
    let mut results: Vec<RecipeResult> = Vec::new();
    let nb: usize = batches.len();
    for b in 0..nb
        invariant
            nb == batches@.len(),
            forall|i: int| 0 <= i < batches@.len() ==> #[trigger] batch_well_shaped(batches@[i]),
            all_complete(batches@.take(b as int)),
            results@.map_values(|x: RecipeResult| x@) == search_results(
                batches@.take(b as int),
                latency_ms,
            ),
    {
        let batch = &batches[b];
        assert(batch_well_shaped(batches@[b as int]));
        let (ids, titles, descriptions, ingredients, scores) = match (
            &batch.ids,
            &batch.titles,
            &batch.descriptions,
            &batch.ingredients,
            &batch.score_bits,
        ) {
            (Some(a), Some(t), Some(d), Some(g), Some(s)) => (a, t, d, g, s),
            _ => {
                assert(!batch_complete(batches@[b as int]));
                assert(!all_complete(batches@));
                return Err(LanceDbError::SearchFailed);
            },
        };
        let ghost before = results@.map_values(|x: RecipeResult| x@);
        let n: usize = batch.rows;
        for row in 0..n
            invariant
                n == batch.rows,
                batch == batches@[b as int],
                batch_complete(*batch),
                batch_well_shaped(*batch),
                *ids == batch.ids.unwrap(),
                *titles == batch.titles.unwrap(),
                *descriptions == batch.descriptions.unwrap(),
                *ingredients == batch.ingredients.unwrap(),
                *scores == batch.score_bits.unwrap(),
                results@.map_values(|x: RecipeResult| x@) == before + batch_results(
                    *batch,
                    latency_ms,
                ).take(row as int),
        {
            let result = RecipeResult {
                id: String::from_str(string_array_value(ids, row)),
                title: String::from_str(string_array_value(titles, row)),
                description: String::from_str(string_array_value(descriptions, row)),
                ingredients: String::from_str(string_array_value(ingredients, row)),
                score_bits: scores[row],
                latency_ms,
            };
            let ghost prev = results@;
            results.push(result);
            assert(results@.map_values(|x: RecipeResult| x@) =~= prev.map_values(
                |x: RecipeResult| x@,
            ).push(result@));
            assert(batch_results(*batch, latency_ms).take(row + 1) =~= batch_results(
                *batch,
                latency_ms,
            ).take(row as int).push(result@));
            assert(results@.map_values(|x: RecipeResult| x@) =~= before + batch_results(
                *batch,
                latency_ms,
            ).take(row + 1));
        }
        assert(batch_results(*batch, latency_ms).take(n as int) =~= batch_results(
            *batch,
            latency_ms,
        ));
        assert(batches@.take(b + 1).drop_last() =~= batches@.take(b as int));
        assert(all_complete(batches@.take(b + 1))) by {
            assert forall|i: int| 0 <= i < b + 1 implies #[trigger] batch_complete(
                batches@.take(b + 1)[i],
            ) by {
                if i < b {
                    assert(batches@.take(b + 1)[i] == batches@.take(b as int)[i]);
                }
            }
        }
    }
    assert(batches@.take(nb as int) =~= batches@);
    Ok(results)
}

} // verus!
