use epub_tools::metadata::MetadataRecord;
use epub_tools::paths::{destination, file_name_for, has_package_extension};
use epub_tools::plan::{Candidate, Notice, NoticeKind, RenameError, RenamePlan};
use epub_tools::rename::{Located, Rename};
use epub_tools::report::{Action, Line};

fn titled(path: &str, title: &str) -> Candidate {
    let mut record = MetadataRecord::new();
    record.push("creator".to_string(), "Somebody".to_string());
    record.push("title".to_string(), title.to_string());
    Candidate { path: path.to_string(), exists: true, package: Some(record), occupied: false }
}

fn untitled(path: &str) -> Candidate {
    let mut record = MetadataRecord::new();
    record.push("creator".to_string(), "Somebody".to_string());
    Candidate { path: path.to_string(), exists: true, package: Some(record), occupied: false }
}

fn command(execute: bool) -> Rename {
    Rename { paths: vec!["library".to_string()], execute }
}

fn pairs(plan: &RenamePlan) -> Vec<(String, String)> {
    let mut out = Vec::new();
    let mut i = 0;
    while let Some(pair) = plan.get(i) {
        out.push(pair);
        i += 1;
    }
    out
}

fn texts(actions: &[Action]) -> Vec<String> {
    actions
        .iter()
        .map(|action| match action {
            Action::Say(line) => line.text(),
            Action::Move { from, to } => format!("mv {} {}", from, to),
        })
        .collect()
}

#[test]
fn file_name_is_trimmed_title_and_extension() {
    assert_eq!(file_name_for("Foo"), "Foo.epub");
    assert_eq!(file_name_for("  Foo Bar \n"), "Foo Bar.epub");
    assert_eq!(file_name_for("\tA  B\r\n"), "A  B.epub");
    assert_eq!(file_name_for(""), ".epub");
    assert_eq!(file_name_for("   "), ".epub");
}

#[test]
fn every_white_space_character_is_trimmed() {
    let spaces = [
        '\u{9}', '\u{a}', '\u{b}', '\u{c}', '\u{d}', '\u{20}', '\u{85}', '\u{a0}', '\u{1680}',
        '\u{2000}', '\u{2001}', '\u{2002}', '\u{2003}', '\u{2004}', '\u{2005}', '\u{2006}',
        '\u{2007}', '\u{2008}', '\u{2009}', '\u{200a}', '\u{2028}', '\u{2029}', '\u{202f}',
        '\u{205f}', '\u{3000}',
    ];
    for c in spaces {
        let title = format!("{}Foo{}", c, c);
        assert_eq!(file_name_for(&title), "Foo.epub");
    }
}

#[test]
fn other_characters_are_not_trimmed() {
    let others = ['\u{8}', '\u{e}', '\u{1f}', '\u{200b}', '\u{2060}', '\u{feff}', '\u{180e}', '_'];
    for c in others {
        let title = format!("{}Foo{}", c, c);
        assert_eq!(file_name_for(&title), format!("{}Foo{}.epub", c, c));
    }
}

#[test]
fn destination_keeps_the_directory() {
    assert_eq!(destination("library/sub/book1.epub", "Foo"), "library/sub/Foo.epub");
    assert_eq!(destination("book1.epub", " Foo "), "Foo.epub");
    assert_eq!(destination("/abs/book1", "Foo"), "/abs/Foo.epub");
}

#[test]
fn package_extension_is_matched_letter_for_letter() {
    assert!(has_package_extension("a/b.epub"));
    assert!(has_package_extension("b.tar.epub"));
    assert!(!has_package_extension("a/b.txt"));
    assert!(!has_package_extension("a/b.EPUB"));
    assert!(!has_package_extension("a/epub"));
    assert!(!has_package_extension("a/.epub"));
    assert!(!has_package_extension("a.epub/b"));
}

#[test]
fn two_books_are_planned_under_their_titles() {
    let found = vec![
        Located::Below(titled("dir/book1.epub", "Foo")),
        Located::Below(titled("dir/book2.epub", "Bar")),
    ];
    let survey = command(false).plan(&found);
    assert!(survey.notices.is_empty());
    let plan = survey.outcome.unwrap();
    assert_eq!(plan.len(), 2);
    assert_eq!(
        pairs(&plan),
        vec![
            ("dir/Foo.epub".to_string(), "dir/book1.epub".to_string()),
            ("dir/Bar.epub".to_string(), "dir/book2.epub".to_string()),
        ]
    );
    assert_eq!(plan.source_of(&"dir/Bar.epub".to_string()), Some("dir/book2.epub".to_string()));
    assert_eq!(plan.source_of(&"dir/Baz.epub".to_string()), None);
}

#[test]
fn execute_announces_and_makes_each_move() {
    let found = vec![
        Located::Below(titled("dir/book1.epub", "Foo")),
        Located::Below(titled("dir/book2.epub", "Bar")),
    ];
    let run = command(true).run(&found);
    assert!(run.notices.is_empty());
    let actions = run.outcome.unwrap();
    assert_eq!(
        texts(&actions),
        vec![
            "  Renaming dir/book1.epub to dir/Foo.epub".to_string(),
            "mv dir/book1.epub dir/Foo.epub".to_string(),
            "  Renaming dir/book2.epub to dir/Bar.epub".to_string(),
            "mv dir/book2.epub dir/Bar.epub".to_string(),
            "\n  Done".to_string(),
        ]
    );
}

#[test]
fn dry_run_shows_each_move_and_makes_none() {
    let found = vec![
        Located::Below(titled("dir/book1.epub", "Foo")),
        Located::Below(titled("dir/book2.epub", "Bar")),
    ];
    let run = command(false).run(&found);
    let actions = run.outcome.unwrap();
    assert!(actions.iter().all(|action| matches!(action, Action::Say(_))));
    assert_eq!(
        texts(&actions),
        vec![
            "  Would rename dir/book1.epub to dir/Foo.epub".to_string(),
            "  Would rename dir/book2.epub to dir/Bar.epub".to_string(),
            "\n  Rerun with --execute to actually make changes.".to_string(),
        ]
    );
}

#[test]
fn same_title_twice_is_a_collision() {
    let found = vec![
        Located::File(titled("dir/a.epub", "Same")),
        Located::File(titled("dir/b.epub", " Same ")),
        Located::File(untitled("dir/c.epub")),
    ];
    for execute in [false, true] {
        let run = command(execute).run(&found);
        assert!(run.notices.is_empty());
        let error = run.outcome.unwrap_err();
        assert_eq!(
            error,
            RenameError::Collision {
                first: "dir/a.epub".to_string(),
                second: "dir/b.epub".to_string(),
                destination: "dir/Same.epub".to_string(),
            }
        );
        assert_eq!(
            error.message(),
            "Collision detected: dir/a.epub and dir/b.epub resolve to dir/Same.epub"
        );
    }
}

#[test]
fn same_title_in_two_directories_is_no_collision() {
    let found = vec![
        Located::File(titled("one/a.epub", "Same")),
        Located::File(titled("two/b.epub", "Same")),
    ];
    let plan = command(false).plan(&found).outcome.unwrap();
    assert_eq!(
        pairs(&plan),
        vec![
            ("one/Same.epub".to_string(), "one/a.epub".to_string()),
            ("two/Same.epub".to_string(), "two/b.epub".to_string()),
        ]
    );
}

#[test]
fn file_without_title_is_noted_and_planning_goes_on() {
    let found = vec![
        Located::File(untitled("dir/a.epub")),
        Located::File(Candidate {
            path: "dir/broken.epub".to_string(),
            exists: true,
            package: None,
            occupied: false,
        }),
        Located::File(titled("dir/b.epub", "Bar")),
    ];
    let survey = command(false).plan(&found);
    assert_eq!(
        survey.notices,
        vec![
            Notice { kind: NoticeKind::CannotRename, path: "dir/a.epub".to_string() },
            Notice { kind: NoticeKind::CannotRename, path: "dir/broken.epub".to_string() },
        ]
    );
    assert_eq!(
        survey.notices[0].line().text(),
        "  Cannot rename: dir/a.epub. The file is invalid or does not have title metadata"
    );
    let plan = survey.outcome.unwrap();
    assert_eq!(pairs(&plan), vec![("dir/Bar.epub".to_string(), "dir/b.epub".to_string())]);
}

#[test]
fn missing_file_is_noted_and_planning_goes_on() {
    let mut gone = titled("dir/gone.epub", "Gone");
    gone.exists = false;
    let found = vec![Located::File(gone), Located::File(titled("dir/b.epub", "Bar"))];
    let survey = command(false).plan(&found);
    assert_eq!(
        survey.notices,
        vec![Notice { kind: NoticeKind::InvalidPath, path: "dir/gone.epub".to_string() }]
    );
    assert_eq!(survey.notices[0].line().text(), "  INVALID PATH: dir/gone.epub");
    assert_eq!(survey.outcome.unwrap().len(), 1);
}

#[test]
fn file_named_after_its_title_stays_out() {
    let found = vec![
        Located::File(titled("dir/Foo.epub", "Foo")),
        Located::Below(titled("dir/Bar.epub", "  Bar ")),
    ];
    let run = command(true).run(&found);
    assert_eq!(
        run.notices,
        vec![
            Notice { kind: NoticeKind::AlreadyNamed, path: "dir/Foo.epub".to_string() },
            Notice { kind: NoticeKind::AlreadyNamed, path: "dir/Bar.epub".to_string() },
        ]
    );
    assert_eq!(
        run.notices[0].line().text(),
        "  Skipping dir/Foo.epub as its name already matches the title"
    );
    let actions = run.outcome.unwrap();
    assert_eq!(actions, vec![Action::Say(Line::nothing())]);
    assert_eq!(texts(&actions), vec!["\n  No eligible files found to rename.".to_string()]);
}

#[test]
fn taken_destination_stops_the_run() {
    let mut second = titled("dir/b.epub", "Bar");
    second.occupied = true;
    let found = vec![
        Located::File(titled("dir/a.epub", "Foo")),
        Located::File(second),
        Located::File(untitled("dir/c.epub")),
    ];
    let run = command(true).run(&found);
    assert!(run.notices.is_empty());
    let error = run.outcome.unwrap_err();
    assert_eq!(
        error,
        RenameError::WouldOverwrite {
            destination: "dir/Bar.epub".to_string(),
            source: "dir/b.epub".to_string(),
        }
    );
    assert_eq!(error.message(), "dir/Bar.epub would be overwritten by dir/b.epub");
}

#[test]
fn taken_destination_does_not_matter_to_a_file_in_place() {
    let mut only = titled("dir/Foo.epub", "Foo");
    only.occupied = true;
    let survey = command(false).plan(&vec![Located::File(only)]);
    assert_eq!(survey.notices.len(), 1);
    assert!(survey.outcome.unwrap().is_empty());
}

#[test]
fn argument_that_is_neither_file_nor_directory_stops_the_run() {
    let found = vec![
        Located::File(untitled("dir/a.epub")),
        Located::Neither("nowhere".to_string()),
        Located::File(titled("dir/b.epub", "Bar")),
    ];
    for execute in [false, true] {
        let run = command(execute).run(&found);
        assert!(run.notices.is_empty());
        let error = run.outcome.unwrap_err();
        assert_eq!(error, RenameError::InvalidArgument { path: "nowhere".to_string() });
        assert_eq!(error.message(), "nowhere is neither a file nor a directory");
    }
}

#[test]
fn unusable_argument_fails_before_anything_is_planned() {
    let mut taken = titled("dir/c.epub", "Baz");
    taken.occupied = true;
    let found = vec![
        Located::File(titled("dir/a.epub", "Same")),
        Located::File(titled("dir/b.epub", "Same")),
        Located::File(taken),
        Located::Neither("first".to_string()),
        Located::Neither("second".to_string()),
    ];
    let survey = command(false).plan(&found);
    assert!(survey.notices.is_empty());
    assert_eq!(
        survey.outcome.unwrap_err(),
        RenameError::InvalidArgument { path: "first".to_string() }
    );
    let alone = command(true).plan(&vec![Located::Neither("only".to_string())]);
    assert!(alone.notices.is_empty());
    assert_eq!(
        alone.outcome.unwrap_err(),
        RenameError::InvalidArgument { path: "only".to_string() }
    );
}

#[test]
fn no_file_is_planned_for_two_destinations() {
    let found = vec![
        Located::File(titled("dir/a.epub", "Foo")),
        Located::Below(titled("dir/b.epub", "Bar")),
        Located::Below(titled("other/a.epub", "Foo")),
    ];
    let plan = command(false).plan(&found).outcome.unwrap();
    let moves = pairs(&plan);
    assert_eq!(moves.len(), 3);
    for (i, first) in moves.iter().enumerate() {
        for second in moves.iter().skip(i + 1) {
            assert_ne!(first.1, second.1);
            assert_ne!(first.0, second.0);
        }
    }
    let twice = vec![
        Located::File(titled("dir/a.epub", "Foo")),
        Located::File(titled("dir/a.epub", "Foo")),
    ];
    assert!(command(false).plan(&twice).outcome.is_err());
}

#[test]
fn file_below_a_directory_needs_the_extension() {
    let found = vec![
        Located::Below(titled("dir/notes.txt", "Notes")),
        Located::Below(titled("dir/book", "Book")),
        Located::File(titled("dir/given", "Given")),
    ];
    let survey = command(false).plan(&found);
    assert!(survey.notices.is_empty());
    assert_eq!(
        pairs(&survey.outcome.unwrap()),
        vec![("dir/Given.epub".to_string(), "dir/given".to_string())]
    );
}

#[test]
fn nothing_found_plans_nothing() {
    let run = command(true).run(&Vec::new());
    assert!(run.notices.is_empty());
    assert_eq!(run.outcome.unwrap(), vec![Action::Say(Line::nothing())]);
}

#[test]
fn consider_applies_the_rule_to_a_given_destination() {
    let mut plan = RenamePlan::new();
    let a = "x/a".to_string();
    let b = "x/b".to_string();
    assert_eq!(plan.consider(&a, true, Some("x/T.epub".to_string()), false), Ok(None));
    assert_eq!(
        plan.consider(&b, true, Some("x/T.epub".to_string()), false),
        Err(RenameError::Collision {
            first: "x/a".to_string(),
            second: "x/b".to_string(),
            destination: "x/T.epub".to_string(),
        })
    );
    assert_eq!(
        plan.consider(&b, true, Some("x/b".to_string()), true),
        Ok(Some(Notice { kind: NoticeKind::AlreadyNamed, path: "x/b".to_string() }))
    );
    assert_eq!(
        plan.consider(&b, true, None, false),
        Ok(Some(Notice { kind: NoticeKind::CannotRename, path: "x/b".to_string() }))
    );
    assert_eq!(
        plan.consider(&b, false, Some("x/U.epub".to_string()), false),
        Ok(Some(Notice { kind: NoticeKind::InvalidPath, path: "x/b".to_string() }))
    );
    assert_eq!(
        plan.consider(&b, true, Some("x/U.epub".to_string()), true),
        Err(RenameError::WouldOverwrite {
            destination: "x/U.epub".to_string(),
            source: "x/b".to_string(),
        })
    );
    assert_eq!(plan.len(), 1);
    assert_eq!(plan.get(0), Some(("x/T.epub".to_string(), "x/a".to_string())));
    assert_eq!(plan.get(1), None);
}

#[test]
fn process_file_path_uses_the_first_title() {
    let mut record = MetadataRecord::new();
    record.push("title".to_string(), " First ".to_string());
    record.push("language".to_string(), "en".to_string());
    record.push("title".to_string(), "Second".to_string());
    let candidate = Candidate {
        path: "d/x.epub".to_string(),
        exists: true,
        package: Some(record),
        occupied: false,
    };
    let mut plan = RenamePlan::new();
    assert_eq!(command(false).process_file_path(&candidate, &mut plan), Ok(None));
    assert_eq!(plan.get(0), Some(("d/First.epub".to_string(), "d/x.epub".to_string())));
}

#[test]
fn paths_count_as_the_standard_library_compares_them() {
    let found = vec![
        Located::File(titled("dir//Foo.epub", "Foo")),
        Located::File(titled("dir/a.epub", "Bar")),
        Located::File(titled("dir//b.epub", "Bar")),
    ];
    let survey = command(false).plan(&found);
    assert_eq!(
        survey.notices,
        vec![Notice { kind: NoticeKind::AlreadyNamed, path: "dir//Foo.epub".to_string() }]
    );
    assert_eq!(
        survey.outcome.unwrap_err(),
        RenameError::Collision {
            first: "dir/a.epub".to_string(),
            second: "dir//b.epub".to_string(),
            destination: "dir/Bar.epub".to_string(),
        }
    );
    let mut plan = RenamePlan::new();
    assert_eq!(
        plan.consider(&"dir/a.epub".to_string(), true, Some("dir/Bar.epub".to_string()), false),
        Ok(None)
    );
    assert_eq!(plan.source_of(&"dir//Bar.epub".to_string()), Some("dir/a.epub".to_string()));
    assert_eq!(plan.source_of(&"dir/bar.epub".to_string()), None);
}
