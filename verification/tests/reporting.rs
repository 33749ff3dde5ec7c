use epub_tools::cli::{Cli, CliError, Commands, Findings};
use epub_tools::info::{Info, InfoError, Opened};
use epub_tools::metadata::MetadataRecord;
use epub_tools::plan::{Candidate, RenameError};
use epub_tools::rename::{Located, Rename};
use epub_tools::report::{Action, Line, Span};
use epub_tools::style::{paint, Tone};

fn sample() -> MetadataRecord {
    let mut record = MetadataRecord::new();
    record.push("title".to_string(), "Foo".to_string());
    record.push("creator".to_string(), "Ann".to_string());
    record.push("language".to_string(), "en".to_string());
    record.push("creator".to_string(), "Bob".to_string());
    record
}

#[test]
fn record_groups_values_under_their_keys() {
    let record = sample();
    assert_eq!(record.len(), 3);
    assert_eq!(record.first("title"), Some("Foo".to_string()));
    assert_eq!(record.first("creator"), Some("Ann".to_string()));
    assert_eq!(record.first("publisher"), None);
    assert_eq!(MetadataRecord::new().first("title"), None);
}

#[test]
fn record_lines_show_each_key_once_with_its_values() {
    assert_eq!(
        sample().lines(),
        vec!["title", "  Foo", "creator", "  Ann", "  Bob", "language", "  en"]
    );
    assert!(MetadataRecord::new().lines().is_empty());
}

#[test]
fn key_without_a_value_is_shown_alone() {
    let mut record = MetadataRecord::new();
    record.push("title".to_string(), "Foo".to_string());
    record.push("creator".to_string(), "Ann".to_string());
    record.push("creator".to_string(), "Bob".to_string());
    record.add_key("subject".to_string());
    assert_eq!(record.len(), 3);
    assert_eq!(record.first("subject"), None);
    let info = Info { file: "book.epub".to_string() };
    let lines = info.run(&Opened::Package(record.clone())).unwrap();
    assert_eq!(lines, vec!["title", "  Foo", "creator", "  Ann", "  Bob", "subject"]);

    record.add_key("creator".to_string());
    assert_eq!(record.len(), 3);
    assert_eq!(record.lines(), lines);
    record.push("subject".to_string(), "Tales".to_string());
    assert_eq!(record.first("subject"), Some("Tales".to_string()));
    assert_eq!(
        record.lines(),
        vec!["title", "  Foo", "creator", "  Ann", "  Bob", "subject", "  Tales"]
    );
}

#[test]
fn package_without_a_title_value_cannot_be_renamed() {
    let mut record = MetadataRecord::new();
    record.add_key("title".to_string());
    let candidate = Candidate {
        path: "d/a.epub".to_string(),
        exists: true,
        package: Some(record),
        occupied: false,
    };
    assert_eq!(candidate.new_name(), None);
}

#[test]
fn info_prints_the_metadata() {
    let info = Info { file: "book.epub".to_string() };
    let lines = info.run(&Opened::Package(sample())).unwrap();
    assert_eq!(lines, vec!["title", "  Foo", "creator", "  Ann", "  Bob", "language", "  en"]);
}

#[test]
fn info_fails_on_a_missing_file() {
    let info = Info { file: "book.epub".to_string() };
    let error = info.run(&Opened::Missing).unwrap_err();
    assert_eq!(error, InfoError::InvalidPath { path: "book.epub".to_string() });
    assert_eq!(error.message(), "File 'book.epub' does not exist");
}

#[test]
fn info_fails_on_a_file_that_is_no_package() {
    let info = Info { file: "book.epub".to_string() };
    let error = info.run(&Opened::Unreadable("invalid archive".to_string())).unwrap_err();
    assert_eq!(error, InfoError::UnreadableMetadata { cause: "invalid archive".to_string() });
    assert_eq!(error.message(), "Failed to open as epub file");
}

#[test]
fn paint_follows_the_console() {
    console::set_colors_enabled(true);
    assert_eq!(paint(Tone::Attention, "x"), "\u{1b}[35mx\u{1b}[0m");
    assert_eq!(paint(Tone::Highlight, "x"), "\u{1b}[33mx\u{1b}[0m");
    assert_eq!(paint(Tone::Success, "x"), "\u{1b}[32mx\u{1b}[0m");
    assert_eq!(paint(Tone::Failure, "x"), "\u{1b}[31mx\u{1b}[0m");
    assert_eq!(paint(Tone::Plain, "x"), "x");
    let line = Line::renaming("a", "b");
    assert_eq!(line.render(), "  Renaming \u{1b}[33ma\u{1b}[0m to \u{1b}[33mb\u{1b}[0m");
    console::set_colors_enabled(false);
    for tone in [Tone::Plain, Tone::Attention, Tone::Highlight, Tone::Success, Tone::Failure] {
        assert_eq!(paint(tone, "x y"), "x y");
    }
    assert_eq!(line.render(), "  Renaming a to b");
    assert_eq!(line.render(), line.text());
}

#[test]
fn lines_are_made_of_toned_spans() {
    assert_eq!(
        Line::would_rename("a", "b").spans,
        vec![
            Span { tone: Tone::Plain, text: "  Would rename ".to_string() },
            Span { tone: Tone::Highlight, text: "a".to_string() },
            Span { tone: Tone::Plain, text: " to ".to_string() },
            Span { tone: Tone::Highlight, text: "b".to_string() },
        ]
    );
    assert_eq!(
        Line::done().spans,
        vec![
            Span { tone: Tone::Plain, text: "\n  ".to_string() },
            Span { tone: Tone::Success, text: "Done".to_string() },
        ]
    );
    assert_eq!(Line::rerun().spans[1].tone, Tone::Attention);
    assert_eq!(Line::nothing().spans[1].tone, Tone::Highlight);
    assert_eq!(Line::plain("abc").text(), "abc");
    assert_eq!(Line { spans: Vec::new() }.text(), "");
    assert_eq!(Line { spans: Vec::new() }.render(), "");
}

#[test]
fn cli_runs_the_info_command() {
    let cli = Cli { command: Commands::Info(Info { file: "book.epub".to_string() }) };
    let found = Findings { opened: Opened::Package(sample()), located: Vec::new() };
    let outcome = cli.run(&found);
    assert!(outcome.notices.is_empty());
    let actions = outcome.result.unwrap();
    assert_eq!(actions.len(), 7);
    assert_eq!(actions[0], Action::Say(Line::plain("title")));
    assert_eq!(actions[4], Action::Say(Line::plain("  Bob")));

    let missing = Findings { opened: Opened::Missing, located: Vec::new() };
    let error = cli.run(&missing).result.unwrap_err();
    assert_eq!(error, CliError::Info(InfoError::InvalidPath { path: "book.epub".to_string() }));
    assert_eq!(error.message(), "File 'book.epub' does not exist");
}

#[test]
fn commands_run_the_rename_command() {
    let mut record = MetadataRecord::new();
    record.push("title".to_string(), "Foo".to_string());
    let candidate = Candidate {
        path: "d/a.epub".to_string(),
        exists: true,
        package: Some(record),
        occupied: false,
    };
    let command = Commands::Rename(Rename { paths: vec!["d".to_string()], execute: true });
    let found = Findings {
        opened: Opened::Missing,
        located: vec![Located::Below(candidate.clone()), Located::Below(candidate)],
    };
    let outcome = command.run(&found);
    let error = outcome.result.unwrap_err();
    assert_eq!(
        error,
        CliError::Rename(RenameError::Collision {
            first: "d/a.epub".to_string(),
            second: "d/a.epub".to_string(),
            destination: "d/Foo.epub".to_string(),
        })
    );
    assert_eq!(
        error.message(),
        "Collision detected: d/a.epub and d/a.epub resolve to d/Foo.epub"
    );

    let one = Findings { opened: Opened::Missing, located: found.located[..1].to_vec() };
    let actions = command.run(&one).result.unwrap();
    assert_eq!(
        actions,
        vec![
            Action::Say(Line::renaming("d/a.epub", "d/Foo.epub")),
            Action::Move { from: "d/a.epub".to_string(), to: "d/Foo.epub".to_string() },
            Action::Say(Line::done()),
        ]
    );
}
