use merge_tools::command::{CommandNameAndArgs, NonEmptyCommandArgsVec};
use merge_tools::text::{
    copy_words, decimal_text, join_words, signed_decimal_text, split_spaces,
};

fn owned(words: &[&str]) -> Vec<String> {
    words.iter().map(|word| word.to_string()).collect()
}

#[test]
fn text_is_split_at_each_space() {
    assert_eq!(split_spaces(""), [""]);
    assert_eq!(split_spaces("a"), ["a"]);
    assert_eq!(split_spaces("a  b "), ["a", "", "b", ""]);
    assert_eq!(split_spaces("\u{e9}\t1 2"), ["\u{e9}\t1", "2"]);
}

#[test]
fn joined_pieces_are_the_text() {
    for text in ["", " ", "a", " a  b ", "foo --bar"] {
        let pieces = split_spaces(text);
        assert!(pieces.iter().all(|piece| !piece.contains(' ')));
        assert_eq!(join_words(&pieces, ' '), text);
    }
}

#[test]
fn words_are_joined_with_a_separator() {
    assert_eq!(join_words(&vec![], '/'), "");
    assert_eq!(join_words(&owned(&["a", "", "b"]), '/'), "a//b");
}

#[test]
fn words_are_copied_from_a_position() {
    let words = owned(&["a", "b", "c"]);
    assert_eq!(copy_words(&words, 0), ["a", "b", "c"]);
    assert_eq!(copy_words(&words, 1), ["b", "c"]);
    assert!(copy_words(&words, 3).is_empty());
}

#[test]
fn numbers_are_written_in_decimal() {
    assert_eq!(decimal_text(0), "0");
    assert_eq!(decimal_text(10), "10");
    assert_eq!(decimal_text(907), "907");
    assert_eq!(decimal_text(u64::MAX), "18446744073709551615");
    assert_eq!(signed_decimal_text(-1), "-1");
    assert_eq!(signed_decimal_text(127), "127");
    assert_eq!(signed_decimal_text(i32::MIN), "-2147483648");
}

#[test]
fn lines_are_split_into_name_and_args() {
    let command = CommandNameAndArgs::String("emacs -nw  x".to_owned());
    let (name, args) = command.split_name_and_args();
    assert_eq!(name, "emacs");
    assert_eq!(args, ["-nw", "", "x"]);
    assert_eq!(command.to_string(), "emacs -nw  x");
}

#[test]
fn empty_line_has_an_empty_name() {
    let (name, args) = CommandNameAndArgs::String(String::new()).split_name_and_args();
    assert_eq!(name, "");
    assert!(args.is_empty());
}

#[test]
fn lists_are_taken_as_they_are() {
    let words = NonEmptyCommandArgsVec::new(owned(&["a b", "c"])).unwrap();
    assert_eq!(*words.words(), ["a b", "c"]);
    let command = CommandNameAndArgs::Vec(words);
    let (name, args) = command.split_name_and_args();
    assert_eq!(name, "a b");
    assert_eq!(args, ["c"]);
    assert_eq!(command.to_string(), "a b c");
}

#[test]
fn empty_list_is_no_command() {
    assert!(NonEmptyCommandArgsVec::new(vec![]).is_none());
}

#[test]
fn environment_is_part_of_the_line_only() {
    let command = CommandNameAndArgs::Structured {
        env: vec![
            ("A".to_owned(), "1".to_owned()),
            ("B".to_owned(), "2".to_owned()),
        ],
        command: NonEmptyCommandArgsVec::new(owned(&["x", "y"])).unwrap(),
    };
    let (name, args) = command.clone().split_name_and_args();
    assert_eq!(name, "x");
    assert_eq!(args, ["y"]);
    assert_eq!(command.clone().to_string(), "A=1 B=2 x y");
}
