use lancedb_kmp::documents::{new_document, prepare_document, EXACT_SCORE_BITS};
use lancedb_kmp::ids::{clock_elapsed, id_of_elapsed, stamp_from_elapsed, to_lower_hex};
use lancedb_kmp::text::{document_prompt_text, is_white_space_char, query_prompt_text, trim};
use lancedb_kmp::uuid_simple;
use lancedb_kmp::LanceDbError;

#[test]
fn trim_removes_ascii_white_space_at_both_ends() {
    assert_eq!(trim("  spicy breakfast with eggs \t\n"), "spicy breakfast with eggs");
    assert_eq!(trim("inner  space kept"), "inner  space kept");
}

#[test]
fn trim_of_blank_text_is_empty() {
    assert_eq!(trim(""), "");
    assert_eq!(trim("   "), "");
    assert_eq!(trim("\t\r\n\u{0b}\u{0c}"), "");
}

#[test]
fn trim_removes_unicode_white_space() {
    assert_eq!(trim("\u{3000}tofu\u{2003}\u{a0}"), "tofu");
    assert_eq!(trim("\u{85}\u{1680}x\u{2028}\u{2029}\u{202f}\u{205f}"), "x");
}

#[test]
fn trim_keeps_characters_that_are_not_white_space() {
    // U+200B ZERO WIDTH SPACE does not carry the White_Space property.
    assert_eq!(trim("\u{200b}a\u{200b}"), "\u{200b}a\u{200b}");
}

#[test]
fn trim_agrees_with_std_trim() {
    let samples = [
        "", " ", "a", " a ", "\u{a0}b\u{a0}", "\u{2000}\u{200a}c d\u{3000}", "\n\n e \r",
        "\u{feff}f\u{feff}", "ü ", " 日本 ", "\u{180e}g",
    ];
    for s in samples.iter() {
        assert_eq!(trim(s), s.trim(), "sample {:?}", s);
    }
}

#[test]
fn trim_is_idempotent_on_examples() {
    for s in ["  a b  ", "\u{3000}x", "", "   "].iter() {
        let once = trim(s);
        assert_eq!(trim(once), once);
    }
}

#[test]
fn white_space_agrees_with_std() {
    for u in 0u32..0x3100 {
        if let Some(c) = char::from_u32(u) {
            assert_eq!(is_white_space_char(c), c.is_whitespace(), "code point {:x}", u);
        }
    }
}

#[test]
fn query_prompt_is_prefixed() {
    assert_eq!(query_prompt_text("spicy eggs"), "query: spicy eggs");
    assert_eq!(query_prompt_text(""), "query: ");
}

#[test]
fn document_prompt_has_the_passage_layout() {
    assert_eq!(
        document_prompt_text("Spicy Shakshuka", "Eggs poached in spicy tomato sauce", "eggs, tomatoes"),
        "passage: Spicy Shakshuka. Eggs poached in spicy tomato sauce. Ingredients: eggs, tomatoes"
    );
}

#[test]
fn hex_of_small_and_large_numbers() {
    assert_eq!(to_lower_hex(0), "0");
    assert_eq!(to_lower_hex(9), "9");
    assert_eq!(to_lower_hex(10), "a");
    assert_eq!(to_lower_hex(255), "ff");
    assert_eq!(to_lower_hex(256), "100");
    assert_eq!(to_lower_hex(u128::MAX), "ffffffffffffffffffffffffffffffff");
}

#[test]
fn hex_agrees_with_format() {
    for n in [1u128, 15, 16, 4095, 1_700_000_000_123_456_789, 0xdead_beef_0000_0001].iter() {
        assert_eq!(to_lower_hex(*n), format!("{:x}", n));
    }
}

#[test]
fn hex_reads_back_as_its_number() {
    for n in [0u128, 1, 17, 1_234_567_890_123, u128::MAX].iter() {
        assert_eq!(u128::from_str_radix(&to_lower_hex(*n), 16).unwrap(), *n);
    }
}

#[test]
fn uuid_simple_is_a_lower_hex_numeral() {
    let id = uuid_simple();
    assert!(!id.is_empty());
    assert!(id.chars().all(|c| c.is_ascii_digit() || ('a'..='f').contains(&c)));
    assert!(id == "0" || !id.starts_with('0'));
    assert!(u128::from_str_radix(&id, 16).is_ok());
}

#[test]
fn prepare_document_rejects_a_blank_title() {
    assert!(matches!(
        prepare_document("   ", "desc", "ingr", 1),
        Err(LanceDbError::InvalidInput)
    ));
    assert!(matches!(prepare_document("", "", "", 1), Err(LanceDbError::InvalidInput)));
}

#[test]
fn prepare_document_trims_fields_and_names_the_recipe() {
    let d = prepare_document("  Miso Soup ", " warm\n", "\tmiso, tofu ", 255).unwrap();
    assert_eq!(d.id, "user-ff");
    assert_eq!(d.title, "Miso Soup");
    assert_eq!(d.description, "warm");
    assert_eq!(d.ingredients, "miso, tofu");
    assert_eq!(d.passage, "passage: Miso Soup. warm. Ingredients: miso, tofu");
}

#[test]
fn new_document_uses_a_clock_identifier() {
    let d = new_document("Pancakes", "", "flour").unwrap();
    let hex = d.id.strip_prefix("user-").unwrap();
    assert!(u128::from_str_radix(hex, 16).is_ok());
    assert_eq!(d.title, "Pancakes");
    assert!(matches!(new_document(" \n", "x", "y"), Err(LanceDbError::InvalidInput)));
}

#[test]
fn added_recipe_result_has_score_one_and_no_latency() {
    let d = prepare_document("Toast", "bread", "bread, butter", 16).unwrap();
    let r = d.to_result();
    assert_eq!(r.id, "user-10");
    assert_eq!(r.title, "Toast");
    assert_eq!(r.description, "bread");
    assert_eq!(r.ingredients, "bread, butter");
    assert_eq!(r.score_bits, 1.0f64.to_bits());
    assert_eq!(EXACT_SCORE_BITS, 1.0f64.to_bits());
    assert_eq!(r.latency_ms, 0);
    let s = d.to_seed_recipe(vec![0.5f32.to_bits(); 3]);
    assert_eq!(s.id, "user-10");
    assert_eq!(s.vector, vec![0.5f32.to_bits(); 3]);
}

#[test]
fn identifier_of_a_clock_reading() {
    assert_eq!(id_of_elapsed(Some(255)), "ff");
    assert_eq!(id_of_elapsed(Some(1_700_000_000_000_000_000)), format!("{:x}", 1_700_000_000_000_000_000u128));
    assert_eq!(id_of_elapsed(None), "0");
    assert_eq!(stamp_from_elapsed(Some(42)), 42);
    assert_eq!(stamp_from_elapsed(None), 0);
}

#[test]
fn distinct_readings_give_distinct_identifiers() {
    assert_ne!(id_of_elapsed(Some(16)), id_of_elapsed(Some(1)));
    assert_ne!(id_of_elapsed(Some(256)), id_of_elapsed(Some(16)));
    let a = prepare_document("Soup", "", "", 10).unwrap();
    let b = prepare_document("Soup", "", "", 11).unwrap();
    assert_ne!(a.id, b.id);
}

#[test]
fn clock_reading_is_after_the_epoch() {
    let now = std::time::SystemTime::now()
        .duration_since(std::time::UNIX_EPOCH)
        .unwrap()
        .as_nanos();
    let read = clock_elapsed().expect("the test machine's clock is after the epoch");
    assert!(read >= now);
    let id = uuid_simple();
    assert!(u128::from_str_radix(&id, 16).unwrap() >= now);
}
