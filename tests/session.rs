use rename_rules::session::{Action, Event, Failure, Flags, Note, Options, PathKind, Session, SetupError, Stage};

fn flags() -> Flags {
    Flags { force: false, interactive: false, dry_run: false, verbose: false, ignore_dir: false }
}

fn options(find: &str, rep: &str, files: &[&str], flags: Flags) -> Options {
    Options {
        pattern: (find.to_string(), rep.to_string()),
        patterns: Vec::new(),
        global: false,
        files: files.iter().map(|f| f.to_string()).collect(),
        flags,
    }
}

fn session(opts: &Options) -> Session {
    Session::new(opts).ok().unwrap()
}

#[test]
fn force_with_interactive_is_refused_without_files() {
    let f = Flags { force: true, interactive: true, ..flags() };
    let opts = options("(", "x", &[], f);
    assert_eq!(Session::new(&opts).err(), Some(SetupError::ConflictingOptions));
}

#[test]
fn bad_pattern_stops_setup() {
    let mut opts = options("a", "b", &["a.txt"], flags());
    opts.patterns.push(("[".to_string(), "c".to_string()));
    assert_eq!(Session::new(&opts).err(), Some(SetupError::PatternCompile("[".to_string())));
}

#[test]
fn notes_txt_is_renamed_to_notes_md() {
    let opts = options(r"\.txt$", ".md", &["notes.txt"], flags());
    let mut s = session(&opts);
    assert_eq!(s.action(), Action::Inspect("notes.txt".to_string()));
    assert_eq!(s.step(Event::Kind(PathKind::File)), None);
    assert_eq!(s.action(), Action::Inspect("notes.md".to_string()));
    assert_eq!(s.step(Event::Kind(PathKind::Other)), None);
    assert_eq!(s.action(), Action::Rename("notes.txt".to_string(), "notes.md".to_string()));
    assert_eq!(s.step(Event::Renamed), None);
    assert_eq!(s.action(), Action::Finish(Ok(())));
}

#[test]
fn dry_run_reports_and_never_renames() {
    let f = Flags { dry_run: true, ..flags() };
    let opts = options(r"\.txt$", ".md", &["notes.txt"], f);
    let mut s = session(&opts);
    assert_eq!(s.step(Event::Kind(PathKind::File)), None);
    assert_eq!(s.step(Event::Kind(PathKind::Other)), Some(Note::Renaming));
    assert_eq!(s.action(), Action::Finish(Ok(())));
}

#[test]
fn existing_target_file_is_not_overwritten() {
    let opts = options(r"\.txt$", ".md", &["notes.txt", "more.txt"], flags());
    let mut s = session(&opts);
    s.step(Event::Kind(PathKind::File));
    s.step(Event::Kind(PathKind::File));
    assert_eq!(s.action(), Action::Finish(Err(Failure::OverwriteRefused)));
    assert_eq!(s.target(), "notes.md");
    assert_eq!(s.source(), Some("notes.txt"));
}

#[test]
fn force_overwrites_existing_target() {
    let f = Flags { force: true, verbose: true, ..flags() };
    let opts = options(r"\.txt$", ".md", &["notes.txt"], f);
    let mut s = session(&opts);
    s.step(Event::Kind(PathKind::File));
    assert_eq!(s.step(Event::Kind(PathKind::File)), Some(Note::Renaming));
    assert_eq!(s.action(), Action::Rename("notes.txt".to_string(), "notes.md".to_string()));
}

#[test]
fn target_directory_fails_whatever_the_switches() {
    for f in [flags(), Flags { force: true, ..flags() }, Flags { interactive: true, ..flags() }] {
        let opts = options(r"\.txt$", ".md", &["notes.txt"], f);
        let mut s = session(&opts);
        s.step(Event::Kind(PathKind::File));
        s.step(Event::Kind(PathKind::Directory));
        assert_eq!(s.action(), Action::Finish(Err(Failure::TargetIsDirectory)));
    }
}

#[test]
fn interactive_asks_and_respects_answer() {
    let f = Flags { interactive: true, ..flags() };
    let opts = options(r"\.txt$", ".md", &["a.txt", "b.txt"], f);
    let mut s = session(&opts);
    s.step(Event::Kind(PathKind::File));
    s.step(Event::Kind(PathKind::File));
    assert_eq!(s.action(), Action::Confirm("a.md".to_string()));
    assert_eq!(s.step(Event::Answer(false)), None);
    assert_eq!(s.action(), Action::Inspect("b.txt".to_string()));
    s.step(Event::Kind(PathKind::File));
    s.step(Event::Kind(PathKind::File));
    s.step(Event::Answer(true));
    assert_eq!(s.action(), Action::Rename("b.txt".to_string(), "b.md".to_string()));
}

#[test]
fn unchanged_name_is_skipped() {
    let f = Flags { verbose: true, force: true, ..flags() };
    let opts = options("zzz", "y", &["notes.txt"], f);
    let mut s = session(&opts);
    assert_eq!(s.step(Event::Kind(PathKind::File)), Some(Note::NoMatch));
    assert_eq!(s.action(), Action::Finish(Ok(())));
    let quiet = options("zzz", "y", &["notes.txt"], flags());
    let mut q = session(&quiet);
    assert_eq!(q.step(Event::Kind(PathKind::File)), None);
    assert_eq!(q.stage(), Stage::Complete);
}

#[test]
fn non_file_fails_unless_ignored() {
    let opts = options("a", "b", &["dir", "a.txt"], flags());
    let mut s = session(&opts);
    s.step(Event::Kind(PathKind::Directory));
    assert_eq!(s.action(), Action::Finish(Err(Failure::NotAFile)));
    let f = Flags { ignore_dir: true, verbose: true, ..flags() };
    let opts = options("a", "b", &["dir", "a.txt"], f);
    let mut s = session(&opts);
    assert_eq!(s.step(Event::Kind(PathKind::Directory)), Some(Note::IgnoringDirectory));
    assert_eq!(s.action(), Action::Inspect("a.txt".to_string()));
}

#[test]
fn failed_rename_stops_run() {
    let opts = options("a", "b", &["a.txt"], flags());
    let mut s = session(&opts);
    s.step(Event::Kind(PathKind::File));
    s.step(Event::Kind(PathKind::Other));
    s.step(Event::RenameFailed);
    assert_eq!(s.action(), Action::Finish(Err(Failure::FilesystemOperation)));
}

#[test]
fn stray_event_changes_nothing() {
    let opts = options("a", "b", &["a.txt"], flags());
    let mut s = session(&opts);
    assert_eq!(s.step(Event::Renamed), None);
    assert_eq!(s.stage(), Stage::Source);
    assert_eq!(s.flags(), flags());
}

#[test]
fn empty_file_list_finishes_at_once() {
    let opts = options("a", "b", &[], flags());
    let s = session(&opts);
    assert_eq!(s.action(), Action::Finish(Ok(())));
}
