use std::str::FromStr;

use manifests::range::{Range, RangeModifier, RangeSyntaxError};

/// Reads the `range` entry of a one-line document, as a string or as an
/// integer.
fn range_from_toml(text: &str) -> Result<Range, String> {
    let table: toml::Table = toml::from_str(text).map_err(|e| e.to_string())?;
    match table.get("range") {
        Some(toml::Value::String(s)) => Range::parse(s).map_err(|e| format!("{:?}", e)),
        Some(toml::Value::Integer(i)) => Range::from_integer(*i).map_err(|e| format!("{:?}", e)),
        _ => Err("no range".to_string()),
    }
}

/// Writes a one-line document whose `range` entry is the range's text.
fn range_to_toml(range: &Range) -> Result<String, String> {
    let mut table = toml::Table::new();
    table.insert("range".to_string(), toml::Value::String(range.to_string()));
    toml::to_string(&table).map_err(|e| e.to_string())
}

fn range(min: u8, max: u8, modifier: Option<RangeModifier>) -> Range {
    Range { min, max, modifier }
}

#[test]
fn deserialize_an_exact_count_as_string() {
    let toml = "range = \"1\"\n";
    let r = range_from_toml(toml).expect("Failed to deserialize from TOML");
    assert_eq!(r, range(1, 1, None));
}

#[test]
fn deserialize_an_exact_count_as_integer() {
    let toml = "range = 7\n";
    let r = range_from_toml(toml).expect("Failed to deserialize from TOML");
    assert_eq!(r, range(7, 7, None));
}

#[test]
fn deserialize_a_min_and_max() {
    let toml = "range = \"1-3\"\n";
    let r = range_from_toml(toml).expect("Failed to deserialize from TOML");
    assert_eq!(r, range(1, 3, None));
}

#[test]
fn deserialize_with_no_max() {
    let toml = "range = \"1+\"\n";
    let r = range_from_toml(toml).expect("Failed to deserialize from TOML");
    assert_eq!(r, range(1, 0, None));
}

#[test]
fn deserialize_a_range_with_even() {
    let toml = "range = \"1-4[even]\"\n";
    let r = range_from_toml(toml).expect("Failed to deserialize from TOML");
    assert_eq!(r, range(1, 4, Some(RangeModifier::Even)));
}

#[test]
fn deserialize_a_range_with_odd() {
    let toml = "range = \"1-4[odd]\"\n";
    let r = range_from_toml(toml).expect("Failed to deserialize from TOML");
    assert_eq!(r, range(1, 4, Some(RangeModifier::Odd)));
}

#[test]
fn deserialize_a_min_with_even() {
    let toml = "range = \"2+[even]\"\n";
    let r = range_from_toml(toml).expect("Failed to deserialize from TOML");
    assert_eq!(r, range(2, 0, Some(RangeModifier::Even)));
}

#[test]
fn serialize_an_exact_count() {
    let toml = range_to_toml(&range(1, 1, None)).expect("Failed to serialize to TOML");
    assert_eq!(toml, "range = \"1\"\n");
}

#[test]
fn serialize_a_min_and_max() {
    let toml = range_to_toml(&range(1, 3, None)).expect("Failed to serialize to TOML");
    assert_eq!(toml, "range = \"1-3\"\n");
}

#[test]
fn serialize_a_min_with_no_max() {
    let toml = range_to_toml(&range(1, 0, None)).expect("Failed to serialize to TOML");
    assert_eq!(toml, "range = \"1+\"\n");
}

#[test]
fn serialize_a_range_with_even() {
    let toml = range_to_toml(&range(1, 4, Some(RangeModifier::Even)))
        .expect("Failed to serialize to TOML");
    assert_eq!(toml, "range = \"1-4[even]\"\n");
}

#[test]
fn serialize_a_range_with_odd() {
    let toml = range_to_toml(&range(1, 5, Some(RangeModifier::Odd)))
        .expect("Failed to serialize to TOML");
    assert_eq!(toml, "range = \"1-5[odd]\"\n");
}

#[test]
fn serialize_a_min_with_odd() {
    let toml = range_to_toml(&range(1, 0, Some(RangeModifier::Odd)))
        .expect("Failed to serialize to TOML");
    assert_eq!(toml, "range = \"1+[odd]\"\n");
}

#[test]
fn it_parses_a_single_number() {
    let r = Range::from_str("5").expect("Failed to parse range");
    assert_eq!(r, range(5, 5, None));
}

#[test]
fn it_parses_a_single_long_number() {
    let r = Range::from_str("200").expect("Failed to parse range");
    assert_eq!(r, range(200, 200, None));
}

#[test]
fn it_parses_a_min_number() {
    let r = Range::from_str("5+").expect("Failed to parse range");
    assert_eq!(r, range(5, 0, None));
}

#[test]
fn it_parses_a_range_of_numbers() {
    let r = Range::from_str("5-10").expect("Failed to parse range");
    assert_eq!(r, range(5, 10, None));
}

#[test]
fn it_parses_a_range_with_even() {
    let r = Range::from_str("5-10[even]").expect("Failed to parse range");
    assert_eq!(r, range(5, 10, Some(RangeModifier::Even)));
}

#[test]
fn it_parses_a_range_with_odd() {
    let r = Range::from_str("5-10[odd]").expect("Failed to parse range");
    assert_eq!(r, range(5, 10, Some(RangeModifier::Odd)));
}

#[test]
fn it_parses_a_min_with_odd() {
    let r = Range::from_str("5+[odd]").expect("Failed to parse range");
    assert_eq!(r, range(5, 0, Some(RangeModifier::Odd)));
}

#[test]
fn it_parses_a_min_with_even() {
    let r = Range::from_str("5+[even]").expect("Failed to parse range");
    assert_eq!(r, range(5, 0, Some(RangeModifier::Even)));
}

#[test]
fn formats_the_canonical_texts() {
    assert_eq!(range(5, 5, None).to_string(), "5");
    assert_eq!(range(5, 0, None).to_string(), "5+");
    assert_eq!(range(5, 10, None).to_string(), "5-10");
    assert_eq!(range(5, 10, Some(RangeModifier::Even)).to_string(), "5-10[even]");
    assert_eq!(range(5, 0, Some(RangeModifier::Odd)).to_string(), "5+[odd]");
}

#[test]
fn formats_the_largest_and_smallest_bounds() {
    assert_eq!(range(0, 0, None).to_string(), "0");
    assert_eq!(range(255, 255, None).to_string(), "255");
    assert_eq!(range(0, 255, Some(RangeModifier::Odd)).to_string(), "0-255[odd]");
    assert_eq!(range(99, 100, None).to_string(), "99-100");
}

#[test]
fn parses_the_listed_examples() {
    assert_eq!(Range::parse("200"), Ok(range(200, 200, None)));
    assert_eq!(Range::parse("1-4[even]"), Ok(range(1, 4, Some(RangeModifier::Even))));
    assert_eq!(Range::parse("2+[even]"), Ok(range(2, 0, Some(RangeModifier::Even))));
}

#[test]
fn every_range_reads_back_from_its_text() {
    let modifiers = [None, Some(RangeModifier::Even), Some(RangeModifier::Odd)];
    for min in 0..=255u8 {
        for max in min..=255u8 {
            for m in modifiers.iter() {
                let r = range(min, max, *m);
                assert_eq!(Range::parse(&r.to_string()), Ok(r));
            }
        }
    }
}

#[test]
fn open_ranges_read_back_too() {
    let r = range(7, 0, Some(RangeModifier::Even));
    assert_eq!(Range::parse(&r.to_string()), Ok(r));
}

#[test]
fn leading_zeros_are_read_as_numbers() {
    assert_eq!(Range::parse("007"), Ok(range(7, 7, None)));
    assert_eq!(Range::parse("0255-3"), Ok(range(255, 3, None)));
}

#[test]
fn a_missing_number_is_refused() {
    assert_eq!(Range::parse(""), Err(RangeSyntaxError::MissingNumber(0)));
    assert_eq!(Range::parse("+"), Err(RangeSyntaxError::MissingNumber(0)));
    assert_eq!(Range::parse("5-"), Err(RangeSyntaxError::MissingNumber(2)));
    assert_eq!(Range::parse("5--10"), Err(RangeSyntaxError::MissingNumber(2)));
    assert_eq!(Range::parse("12-[even]"), Err(RangeSyntaxError::MissingNumber(3)));
}

#[test]
fn a_bound_above_255_is_refused() {
    assert_eq!(Range::parse("256"), Err(RangeSyntaxError::OutOfRange(0)));
    assert_eq!(Range::parse("1-300"), Err(RangeSyntaxError::OutOfRange(2)));
    assert_eq!(Range::parse("99999999999999999999"), Err(RangeSyntaxError::OutOfRange(0)));
}

#[test]
fn unknown_trailing_text_is_refused() {
    assert_eq!(Range::parse("5[eve]"), Err(RangeSyntaxError::UnexpectedText(1)));
    assert_eq!(Range::parse("5-10[even"), Err(RangeSyntaxError::UnexpectedText(4)));
    assert_eq!(Range::parse("5 "), Err(RangeSyntaxError::UnexpectedText(1)));
    assert_eq!(Range::parse("5+[odd]x"), Err(RangeSyntaxError::UnexpectedText(2)));
}

#[test]
fn integers_outside_a_byte_are_refused() {
    assert_eq!(Range::from_integer(255), Ok(range(255, 255, None)));
    assert_eq!(Range::from_integer(0), Ok(range(0, 0, None)));
    assert_eq!(Range::from_integer(256), Err(RangeSyntaxError::OutOfRange(0)));
    assert_eq!(Range::from_integer(-1), Err(RangeSyntaxError::OutOfRange(0)));
}

#[test]
fn modifier_words() {
    assert_eq!(RangeModifier::Even.to_string(), "even");
    assert_eq!(RangeModifier::Odd.to_string(), "odd");
}

#[test]
fn range_getters_and_exact() {
    let r = Range::exact(4);
    assert_eq!((r.min(), r.max(), r.modifier()), (4, 4, None));
}
