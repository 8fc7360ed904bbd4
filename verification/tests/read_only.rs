use merge_tools::readonly::ReadonlyWalk;

/// Walks over the paths that `list` describes, and collects what is made read-only.
fn walk(start: &str, list: &[(&str, &[Result<&str, u8>])]) -> (Vec<String>, Option<u8>) {
    let mut made: Vec<String> = vec![];
    let mut walk: ReadonlyWalk<String, u8> = ReadonlyWalk::new(start.to_owned());
    while let Some(entry) = walk.next() {
        let path = match entry {
            Ok(path) => path,
            Err(e) => return (made, Some(e)),
        };
        let listing = list.iter().find(|(dir, _)| *dir == path).map(|(_, entries)| {
            entries.iter().map(|entry| entry.map(ToOwned::to_owned)).collect()
        });
        made.extend(walk.visit(path, listing));
    }
    (made, None)
}

#[test]
fn single_file_is_made_read_only() {
    assert_eq!(walk("f", &[]), (vec!["f".to_owned()], None));
}

#[test]
fn each_file_is_made_read_only() {
    let (made, error) = walk(
        "d",
        &[
            ("d", &[Ok("d/a"), Ok("d/e"), Ok("d/z")]),
            ("d/e", &[Ok("d/e/1"), Ok("d/e/empty"), Ok("d/e/2")]),
            ("d/e/empty", &[]),
        ],
    );
    assert_eq!(made, ["d/a", "d/e/1", "d/e/2", "d/z"]);
    assert_eq!(error, None);
}

#[test]
fn a_walk_takes_one_visit_for_each_path() {
    let mut walk: ReadonlyWalk<&str, u8> = ReadonlyWalk::new("d");
    assert_eq!(walk.next(), Some(Ok("d")));
    assert_eq!(walk.visit("d", Some(vec![Ok("d/a"), Ok("d/b")])), None);
    assert_eq!(walk.next(), Some(Ok("d/a")));
    assert_eq!(walk.visit("d/a", None), Some("d/a"));
    assert_eq!(walk.next(), Some(Ok("d/b")));
    assert_eq!(walk.visit("d/b", None), Some("d/b"));
    assert_eq!(walk.next(), None);
}

#[test]
fn unreadable_entry_takes_its_turn() {
    let (made, error) = walk(
        "d",
        &[
            ("d", &[Ok("d/e"), Err(7), Ok("d/z")]),
            ("d/e", &[Ok("d/e/1")]),
        ],
    );
    assert_eq!(made, ["d/e/1"]);
    assert_eq!(error, Some(7));
}
