//! Recipes that a user adds one at a time.
use vstd::prelude::*;
use crate::error::LanceDbError;
use crate::ids::{
    hex_value, lemma_lower_hex_injective, lemma_lower_hex_round_trip, lower_hex, read_clock,
    stamp_from_elapsed, stamp_of, to_lower_hex, ClockReading,
};
use crate::text::{document_prompt, document_prompt_text, is_blank, lemma_trim_blank, trim, trimmed};
use crate::types::{RecipeResult, SeedRecipe};

verus! {

/// IEEE-754 double-precision bits of the score 1.0, which an added recipe
/// is reported with.
pub const EXACT_SCORE_BITS: u64 = 0x3FF0_0000_0000_0000;

/// The identifier of a recipe added at the clock reading `stamp`
/// nanoseconds after the Unix epoch.
pub open spec fn document_id(stamp: nat) -> Seq<char> {
    "user-"@ + lower_hex(stamp)
}

/// A recipe that a user adds, before it has its embedding: its
/// identifier, its trimmed fields, and the text to embed.
pub struct NewDocument {
    pub id: String,
    pub title: String,
    pub description: String,
    pub ingredients: String,
    pub passage: String,
    /// The clock reading that the identifier was made from, when the
    /// recipe was prepared by reading the clock.
    pub taken_at: Option<ClockReading>,
}

/// Whether `d` is the recipe made of the given fields under the given
/// identifier.
pub open spec fn document_of(
    d: NewDocument,
    id: Seq<char>,
    title: Seq<char>,
    description: Seq<char>,
    ingredients: Seq<char>,
) -> bool {
    &&& d.id@ == id
    &&& d.title@ == trimmed(title)
    &&& d.description@ == trimmed(description)
    &&& d.ingredients@ == trimmed(ingredients)
    &&& d.passage@ == document_prompt(trimmed(title), trimmed(description), trimmed(ingredients))
}

/// Puts a recipe together from its identifier and its trimmed fields.
fn assemble(id: String, title: &str, description: &str, ingredients: &str) -> (d: NewDocument)
    ensures
        d.id@ == id@,
        d.title@ == title@,
        d.description@ == description@,
        d.ingredients@ == ingredients@,
        d.passage@ == document_prompt(title@, description@, ingredients@),
        d.taken_at is None,
{
    NewDocument {
        id,
        title: String::from_str(title),
        description: String::from_str(description),
        ingredients: String::from_str(ingredients),
        passage: document_prompt_text(title, description, ingredients),
        taken_at: None,
    }
}

/// Prepares a recipe added at the clock reading `stamp`: fails with
/// `InvalidInput` when the title is blank; otherwise the fields are
/// trimmed and the identifier is `user-` and the reading in hexadecimal.
pub fn prepare_document(title: &str, description: &str, ingredients: &str, stamp: u128) -> (r:
    Result<NewDocument, LanceDbError>)
    ensures
        r is Err <==> is_blank(title@),
        r matches Err(e) ==> e == LanceDbError::InvalidInput,
        r matches Ok(d) ==> document_of(
            d,
            document_id(stamp as nat),
            title@,
            description@,
            ingredients@,
        ) && d.taken_at is None,
{
    proof {
        lemma_trim_blank(title@);
    }
    let t = trim(title);
    if t.is_empty() {
        return Err(LanceDbError::InvalidInput);
    }
    let mut id = String::from_str("user-");
    let hex = to_lower_hex(stamp);
    id.append(hex.as_str());
    Ok(assemble(id, t, trim(description), trim(ingredients)))
}

/// Distinct stamps give distinct recipe identifiers.
pub proof fn lemma_document_ids_distinct(a: nat, b: nat)
    ensures
        a != b ==> document_id(a) != document_id(b),
{
    if document_id(a) == document_id(b) {
        let k = "user-"@.len() as int;
        assert(document_id(a).skip(k) =~= lower_hex(a));
        assert(document_id(b).skip(k) =~= lower_hex(b));
        lemma_lower_hex_injective(a, b);
    }
}

/// Prepares a recipe that a user adds now: once the title has been found
/// not blank, the clock is read and the recipe is prepared at the stamp of
/// that reading, which the recipe keeps.
pub fn new_document(title: &str, description: &str, ingredients: &str) -> (r: Result<
    NewDocument,
    LanceDbError,
>)
    ensures
        r is Err <==> is_blank(title@),
        r matches Err(e) ==> e == LanceDbError::InvalidInput,
        r matches Ok(d) ==> (d.taken_at matches Some(reading) && document_of(
            d,
            document_id(stamp_of(reading@) as nat),
            title@,
            description@,
            ingredients@,
        )),
{
    proof {
        lemma_trim_blank(title@);
    }
    if trim(title).is_empty() {
        return Err(LanceDbError::InvalidInput);
    }
    let reading = read_clock();
    let stamp = stamp_from_elapsed(reading.elapsed());
    match prepare_document(title, description, ingredients, stamp) {
        Ok(mut d) => {
            d.taken_at = Some(reading);
            Ok(d)
        },
        Err(e) => Err(e),
    }
}

/// An added recipe's identifier is `user-` followed by a hexadecimal
/// numeral that reads back as the stamp it was made from.
pub proof fn lemma_document_id_reads_back(stamp: nat)
    ensures
        document_id(stamp).take(5) == seq!['u', 's', 'e', 'r', '-'],
        hex_value(document_id(stamp).skip(5)) == stamp,
{
    reveal_strlit("user-");
    assert(document_id(stamp).take(5) =~= seq!['u', 's', 'e', 'r', '-']);
    assert(document_id(stamp).skip(5) =~= lower_hex(stamp));
    lemma_lower_hex_round_trip(stamp);
}

impl NewDocument {
    /// The recipe to store, with the embedding given as IEEE-754
    /// single-precision bits.
    pub fn to_seed_recipe(&self, vector: Vec<u32>) -> (r: SeedRecipe)
        ensures
            r@ == (self.id@, self.title@, self.description@, self.ingredients@, vector@),
    {
        SeedRecipe {
            id: self.id.clone(),
            title: self.title.clone(),
            description: self.description.clone(),
            ingredients: self.ingredients.clone(),
            vector,
        }
    }

    /// The result that reports the stored recipe: score 1.0, no latency.
    pub fn to_result(&self) -> (r: RecipeResult)
        ensures
            r@ == (self.id@, self.title@, self.description@, self.ingredients@, EXACT_SCORE_BITS, 0u64),
    {
        RecipeResult {
            id: self.id.clone(),
            title: self.title.clone(),
            description: self.description.clone(),
            ingredients: self.ingredients.clone(),
            score_bits: EXACT_SCORE_BITS,
            latency_ms: 0,
        }
    }
}

} // verus!
