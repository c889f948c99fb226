use mlb_parser::derivs::next_valid_characters;
use mlb_parser::parser::Parser;

#[test]
fn next_characters_of_simple_alternation() {
    let chars = next_valid_characters("a", "ab|ac").unwrap();
    assert_eq!(chars, vec!['b', 'c']);
}

#[test]
fn next_characters_of_empty_prefix() {
    let chars = next_valid_characters("", "ab|ac").unwrap();
    assert_eq!(chars, vec!['a']);
}

#[test]
fn next_characters_after_no_continuation() {
    let chars = next_valid_characters("ab", "ab|ac").unwrap();
    assert!(chars.is_empty());
}

#[test]
fn next_characters_of_counted_pattern() {
    let chars = next_valid_characters("aa", "a{1,3}b").unwrap();
    assert_eq!(chars, vec!['a', 'b']);
}

#[test]
fn next_characters_of_class_pattern() {
    let chars = next_valid_characters("", "[0-2]x").unwrap();
    assert_eq!(chars, vec!['0', '1', '2']);
}

#[test]
fn next_characters_of_inner_play_pattern() {
    // The synthesized inner pattern of a pitcher-only play starts with
    // the [PLAY] tag; the only valid first character is the bracket.
    let parser = Parser::new(false);
    let pattern = parser.inner_pattern_from_play_type(&mlb_parser::play_type::PlayType::Balk);
    let chars = next_valid_characters("", &pattern).unwrap();
    assert_eq!(chars, vec!['[']);
}

#[test]
fn next_characters_rejects_overflowing_count_bound() {
    // A repetition bound too wide for a machine integer is rejected up
    // front rather than handed to the engine.
    assert!(next_valid_characters("", "a{99999999999999999999}").is_none());
    assert!(next_valid_characters("", "a{99999999999999999999,}").is_none());
}

#[test]
fn next_characters_none_for_rejected_pattern() {
    assert!(next_valid_characters("", "(").is_none());
}
