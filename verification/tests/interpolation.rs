use merge_tools::interpolate::{interpolate_variables, Variables};

#[test]
fn test_interpolate_variables() {
    let mut patterns = Variables::new();
    patterns.insert("left", "LEFT");
    patterns.insert("right", "RIGHT");
    patterns.insert("left_right", "$left $right");

    assert_eq!(
        interpolate_variables(
            &["$left", "$1", "$right", "$2"].map(ToOwned::to_owned),
            &patterns
        ),
        ["LEFT", "$1", "RIGHT", "$2"],
    );

    // Option-like
    assert_eq!(
        interpolate_variables(&["-o$left$right".to_owned()], &patterns),
        ["-oLEFTRIGHT"],
    );

    // Sexp-like
    assert_eq!(
        interpolate_variables(&["($unknown $left $right)".to_owned()], &patterns),
        ["($unknown LEFT RIGHT)"],
    );

    // Not a word "$left"
    assert_eq!(
        interpolate_variables(&["$lefty".to_owned()], &patterns),
        ["$lefty"],
    );

    // Patterns in pattern: not expanded recursively
    assert_eq!(
        interpolate_variables(&["$left_right".to_owned()], &patterns),
        ["$left $right"],
    );
}

fn interpolate(arg: &str, variables: &[(&str, &str)]) -> String {
    let mut table = Variables::new();
    for (name, value) in variables {
        table.insert(name, value);
    }
    interpolate_variables(&[arg.to_owned()], &table).remove(0)
}

#[test]
fn references_are_replaced_independently() {
    let variables = [("a", "1"), ("b", "$a")];
    assert_eq!(interpolate("x$a y$b$c", &variables), "x1 y$a$c");
    assert_eq!(interpolate("x", &variables), "x");
    assert_eq!(interpolate(" y$b$c", &variables), " y$a$c");
}

#[test]
fn unknown_references_stay() {
    assert_eq!(interpolate("$b $ $$ $-a a$", &[("a", "1")]), "$b $ $$ $-a a$");
    assert_eq!(interpolate("", &[("a", "1")]), "");
    assert_eq!(interpolate("$", &[("", "1")]), "$");
}

#[test]
fn upper_case_names_stay() {
    assert_eq!(interpolate("$LEFT $Left", &[("LEFT", "1"), ("Left", "2")]), "$LEFT $Left");
}

#[test]
fn names_end_where_words_end() {
    let variables = [("left", "1"), ("left_2", "2")];
    assert_eq!(interpolate("$leftA", &variables), "$leftA");
    assert_eq!(interpolate("$left\u{e9}", &variables), "$left\u{e9}");
    assert_eq!(interpolate("$left\u{2014}x", &variables), "1\u{2014}x");
    assert_eq!(interpolate("$left-A", &variables), "1-A");
    assert_eq!(interpolate("$left_2", &variables), "2");
    assert_eq!(interpolate("$$left", &variables), "$1");
    assert_eq!(interpolate("\u{e9}$left", &variables), "\u{e9}1");
}

#[test]
fn whole_references_become_values() {
    assert_eq!(interpolate("$a1_", &[("a1_", "x y")]), "x y");
    assert_eq!(interpolate("$a1_", &[]), "$a1_");
    assert_eq!(interpolate("$a", &[("a", "")]), "");
}

#[test]
fn last_value_of_a_variable_holds() {
    assert_eq!(interpolate("$a", &[("a", "1"), ("a", "2")]), "2");
}

#[test]
fn no_arguments_stay_none() {
    assert!(interpolate_variables(&[], &Variables::new()).is_empty());
}
