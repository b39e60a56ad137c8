use vstd::prelude::*;
use crate::paths::{get_renamed_path, renamed_path, same_path, same_path_of};
use crate::matcher::compiles_of;
use crate::rules::PatternSet;

verus! {

/// What the filesystem holds at a path.
#[derive(Clone, Copy, PartialEq, Eq, Structural, Debug)]
pub enum PathKind {
    File,
    Directory,
    /// Nothing, or something that is neither a regular file nor a directory.
    Other,
}

/// The switches that govern a run.
#[derive(Clone, Copy, PartialEq, Eq, Structural, Debug)]
pub struct Flags {
    /// Overwrite an existing target without asking.
    pub force: bool,
    /// Ask before overwriting an existing target.
    pub interactive: bool,
    /// Decide and report, but never rename.
    pub dry_run: bool,
    /// Also report paths that no rule changes and directories skipped.
    pub verbose: bool,
    /// Skip a path that is not a regular file instead of failing.
    pub ignore_dir: bool,
}

/// Everything a run is given.
pub struct Options {
    /// The first rule: pattern text and replacement template.
    pub pattern: (String, String),
    /// The rules after the first, in order.
    pub patterns: Vec<(String, String)>,
    /// Replace every match of each rule rather than the first.
    pub global: bool,
    /// The paths to rename, in order.
    pub files: Vec<String>,
    pub flags: Flags,
}

/// Why a run refuses to start.
#[derive(PartialEq, Eq, Debug)]
pub enum SetupError {
    /// Both `force` and `interactive` were asked for.
    ConflictingOptions,
    /// This pattern text is not a regular expression.
    PatternCompile(String),
}

/// Why a run stopped early. The paths concerned are the session's current
/// source and target.
#[derive(Clone, Copy, PartialEq, Eq, Structural, Debug)]
pub enum Failure {
    /// The source is not a regular file, and directories are not skipped.
    NotAFile,
    /// The target already exists as a directory.
    TargetIsDirectory,
    /// The target already exists as a file, and overwriting is not allowed.
    OverwriteRefused,
    /// The rename itself failed.
    FilesystemOperation,
}

/// Where a session stands.
#[derive(Clone, Copy, PartialEq, Eq, Structural, Debug)]
pub enum Stage {
    /// Waiting for the kind of the current source path.
    Source,
    /// Waiting for the kind of the target path.
    Target,
    /// Waiting for the operator to allow overwriting the target.
    Answer,
    /// Waiting for the rename of the source to the target.
    Move,
    /// Every path has been handled.
    Complete,
    /// The run stopped.
    Failed(Failure),
}

/// What the caller reports back after performing an action.
#[derive(Clone, Copy, PartialEq, Eq, Structural, Debug)]
pub enum Event {
    /// The kind of the inspected path.
    Kind(PathKind),
    /// The operator's answer.
    Answer(bool),
    /// The rename succeeded.
    Renamed,
    /// The rename failed.
    RenameFailed,
}

/// A line to report, about the session's current source and target.
#[derive(Clone, Copy, PartialEq, Eq, Structural, Debug)]
pub enum Note {
    /// No rule changes the source.
    NoMatch,
    /// The source is not a regular file and is skipped.
    IgnoringDirectory,
    /// The source is renamed (or, in a dry run, would be) to the target.
    Renaming,
}

/// What the session asks the caller to do next.
#[derive(PartialEq, Eq, Debug)]
pub enum Action {
    /// Report the kind of this path.
    Inspect(String),
    /// Ask the operator whether this existing target may be overwritten.
    Confirm(String),
    /// Rename the first path to the second.
    Rename(String, String),
    /// The run is over, with this result.
    Finish(Result<(), Failure>),
}

/// The state of a session, in mathematical terms.
pub struct SessionModel {
    pub flags: Flags,
    pub rules: Seq<(Seq<char>, Seq<char>)>,
    pub all: bool,
    pub files: Seq<Seq<char>>,
    pub index: int,
    pub target: Seq<char>,
    pub stage: Stage,
}

/// On to the next path, or done when there is none.
pub open spec fn advanced(m: SessionModel) -> SessionModel {
    SessionModel {
        index: m.index + 1,
        stage: if m.index + 1 < m.files.len() { Stage::Source } else { Stage::Complete },
        ..m
    }
}

/// The rename of the current source is allowed: report it where asked, then
/// perform it, or in a dry run pass on.
pub open spec fn committed(m: SessionModel) -> (SessionModel, Option<Note>) {
    let note = if m.flags.verbose || m.flags.dry_run { Some(Note::Renaming) } else { None };
    if m.flags.dry_run {
        (advanced(m), note)
    } else {
        (SessionModel { stage: Stage::Move, ..m }, note)
    }
}

/// The state after `e`, and the line to report, if any.
pub open spec fn next(m: SessionModel, e: Event) -> (SessionModel, Option<Note>) {
    match (m.stage, e) {
        (Stage::Source, Event::Kind(k)) => {
            let source = m.files[m.index];
            match renamed_path(source, m.all, m.rules) {
                Some(t) if k == PathKind::File => {
                    if same_path_of(source, t) {
                        (advanced(m), if m.flags.verbose { Some(Note::NoMatch) } else { None })
                    } else {
                        (SessionModel { target: t, stage: Stage::Target, ..m }, None)
                    }
                },
                _ => {
                    if m.flags.ignore_dir {
                        (advanced(m), if m.flags.verbose { Some(Note::IgnoringDirectory) } else { None })
                    } else {
                        (SessionModel { stage: Stage::Failed(Failure::NotAFile), ..m }, None)
                    }
                },
            }
        },
        (Stage::Target, Event::Kind(PathKind::Directory)) => {
            (SessionModel { stage: Stage::Failed(Failure::TargetIsDirectory), ..m }, None)
        },
        (Stage::Target, Event::Kind(PathKind::File)) => {
            if m.flags.interactive {
                (SessionModel { stage: Stage::Answer, ..m }, None)
            } else if m.flags.force {
                committed(m)
            } else {
                (SessionModel { stage: Stage::Failed(Failure::OverwriteRefused), ..m }, None)
            }
        },
        (Stage::Target, Event::Kind(PathKind::Other)) => committed(m),
        (Stage::Answer, Event::Answer(yes)) => {
            if yes {
                committed(m)
            } else {
                (advanced(m), None)
            }
        },
        (Stage::Move, Event::Renamed) => (advanced(m), None),
        (Stage::Move, Event::RenameFailed) => {
            (SessionModel { stage: Stage::Failed(Failure::FilesystemOperation), ..m }, None)
        },
        _ => (m, None),
    }
}

/// The rules that `opts` give, in order, as (pattern text, template) pairs.
pub open spec fn option_rules(opts: &Options) -> Seq<(Seq<char>, Seq<char>)> {
    seq![opts.pattern].add(opts.patterns@).map_values(|rule: (String, String)| (rule.0@, rule.1@))
}

/// A source that the rules leave where it is is passed over: nothing is
/// renamed, and "no match" is reported when reports are asked for, whatever
/// the other switches say.
pub proof fn lemma_unchanged_is_skipped(m: SessionModel, t: Seq<char>)
    requires
        model_wf(m),
        m.stage is Source,
        renamed_path(m.files[m.index], m.all, m.rules) == Some(t),
        same_path_of(m.files[m.index], t),
    ensures
        next(m, Event::Kind(PathKind::File)).0 == advanced(m),
        !(next(m, Event::Kind(PathKind::File)).0.stage is Move),
        next(m, Event::Kind(PathKind::File)).1 == (if m.flags.verbose { Some(Note::NoMatch) } else { None::<Note> }),
{
}

/// A dry run never reaches a rename, whatever happens; where the target is
/// free it reports the rename it would make and moves on.
pub proof fn lemma_dry_run_never_renames(m: SessionModel, e: Event)
    requires
        model_wf(m),
        m.flags.dry_run,
    ensures
        model_wf(next(m, e).0),
        !(next(m, e).0.stage is Move),
        m.stage is Target && e == Event::Kind(PathKind::Other) ==> next(m, e) == (advanced(m), Some(Note::Renaming)),
{
}

/// One run of the renamer: the rules, the paths, and how far it has got.
pub struct Session {
    flags: Flags,
    set: PatternSet,
    files: Vec<String>,
    index: usize,
    target: String,
    stage: Stage,
}

impl View for Session {
    type V = SessionModel;

    closed spec fn view(&self) -> SessionModel {
        SessionModel {
            flags: self.flags,
            rules: self.set.rules(),
            all: self.set.all(),
            files: self.files@.map_values(|f: String| f@),
            index: self.index as int,
            target: self.target@,
            stage: self.stage,
        }
    }
}

/// The session's own bookkeeping: the index is that of a path while one is
/// being handled, and a dry run never has a rename pending.
pub open spec fn model_wf(m: SessionModel) -> bool {
    &&& 0 <= m.index <= m.files.len()
    &&& m.index < m.files.len() <==> !(m.stage is Complete)
    &&& m.flags.dry_run ==> !(m.stage is Move)
}

impl Session {
    pub open spec fn wf(&self) -> bool {
        model_wf(self@)
    }

    /// Checks the options and compiles the rules, before any path is looked at.
    pub fn new(opts: &Options) -> (r: Result<Session, SetupError>)
        ensures
            opts.flags.force && opts.flags.interactive <==> r == Err::<Session, SetupError>(SetupError::ConflictingOptions),
            r is Ok <==> !(opts.flags.force && opts.flags.interactive)
                && forall|i: int| 0 <= i < option_rules(opts).len() ==> compiles_of(#[trigger] option_rules(opts)[i].0),
            r matches Err(SetupError::PatternCompile(p)) ==> exists|i: int|
                0 <= i < option_rules(opts).len() && !compiles_of(#[trigger] option_rules(opts)[i].0)
                && p@ == option_rules(opts)[i].0
                && forall|j: int| 0 <= j < i ==> compiles_of(#[trigger] option_rules(opts)[j].0),
            r matches Ok(s) ==> s.wf() && s@.flags == opts.flags && s@.all == opts.global
                && s@.rules == option_rules(opts)
                && s@.files == opts.files@.map_values(|f: String| f@)
                && s@.index == 0,
    {
        if opts.flags.force && opts.flags.interactive {
            return Err(SetupError::ConflictingOptions);
        }
        let mut rules: Vec<(String, String)> = Vec::new();
        rules.push((opts.pattern.0.clone(), opts.pattern.1.clone()));
        let mut i: usize = 0;
        while i < opts.patterns.len()
            invariant
                0 <= i <= opts.patterns@.len(),
                rules@.len() == i + 1,
                rules@[0].0@ == opts.pattern.0@ && rules@[0].1@ == opts.pattern.1@,
                forall|j: int| 0 <= j < i ==> (#[trigger] rules@[j + 1]).0@ == opts.patterns@[j].0@
                    && rules@[j + 1].1@ == opts.patterns@[j].1@,
            decreases opts.patterns@.len() - i,
        {
            rules.push((opts.patterns[i].0.clone(), opts.patterns[i].1.clone()));
            i = i + 1;
        }
        proof {
            let want = option_rules(opts);
            let got = rules@.map_values(|rule: (String, String)| (rule.0@, rule.1@));
            assert forall|j: int| 0 <= j < want.len() implies got[j] == want[j] by {
                if j > 0 {
                    assert(rules@[(j - 1) + 1] == rules@[j]);
                }
            }
            assert(got =~= want);
            assert forall|j: int| 0 <= j < rules@.len() implies rules@[j].0@ == want[j].0 by {
                assert(got[j] == want[j]);
            }
        }
        let set = match PatternSet::new(&rules, opts.global) {
            Ok(set) => set,
            Err(e) => {
                proof {
                    let i = choose|i: int|
                        0 <= i < rules@.len() && !compiles_of(#[trigger] rules@[i].0@) && e@ == rules@[i].0@
                        && forall|j: int| 0 <= j < i ==> compiles_of(#[trigger] rules@[j].0@);
                    assert(rules@[i].0@ == option_rules(opts)[i].0);
                    assert forall|j: int| 0 <= j < i implies compiles_of(#[trigger] option_rules(opts)[j].0) by {
                        assert(rules@[j].0@ == option_rules(opts)[j].0);
                    }
                }
                return Err(SetupError::PatternCompile(e));
            },
        };
        let stage = if opts.files.len() > 0 { Stage::Source } else { Stage::Complete };
        let s = Session { flags: opts.flags, set, files: opts.files.clone(), index: 0, target: String::new(), stage };
        assert(s@.files =~= opts.files@.map_values(|f: String| f@));
        Ok(s)
    }

    /// Moves on to the next path.
    fn advance(&mut self)
        requires
            old(self).wf(),
            old(self).index < old(self).files@.len(),
        ensures
            final(self)@ == advanced(old(self)@),
            final(self).wf(),
    {
        let n = self.files.len();
        self.index = self.index + 1;
        self.stage = if self.index < n { Stage::Source } else { Stage::Complete };
    }

    /// Reports the rename where asked, then asks for it, or in a dry run
    /// moves on.
    fn commit(&mut self) -> (note: Option<Note>)
        requires
            old(self).wf(),
            old(self).index < old(self).files@.len(),
        ensures
            (final(self)@, note) == committed(old(self)@),
            final(self).wf(),
    {
        let note = if self.flags.verbose || self.flags.dry_run { Some(Note::Renaming) } else { None };
        if self.flags.dry_run {
            self.advance();
        } else {
            self.stage = Stage::Move;
        }
        note
    }

    /// Takes in what the caller observed after performing `action()`, and
    /// returns the line to report, if any. An event that does not answer the
    /// pending action changes nothing.
    pub fn step(&mut self, e: Event) -> (note: Option<Note>)
        requires
            old(self).wf(),
        ensures
            final(self).wf(),
            (final(self)@, note) == next(old(self)@, e),
    {
        match (self.stage, e) {
            (Stage::Source, Event::Kind(k)) => {
                let renamed = get_renamed_path(self.files[self.index].as_str(), self.set.replace_all(), self.set.patterns());
                match renamed {
                    Some(t) if k == PathKind::File => {
                        if same_path(self.files[self.index].as_str(), t.as_str()) {
                            self.advance();
                            if self.flags.verbose { Some(Note::NoMatch) } else { None }
                        } else {
                            self.target = t;
                            self.stage = Stage::Target;
                            None
                        }
                    },
                    _ => {
                        if self.flags.ignore_dir {
                            self.advance();
                            if self.flags.verbose { Some(Note::IgnoringDirectory) } else { None }
                        } else {
                            self.stage = Stage::Failed(Failure::NotAFile);
                            None
                        }
                    },
                }
            },
            (Stage::Target, Event::Kind(PathKind::Directory)) => {
                self.stage = Stage::Failed(Failure::TargetIsDirectory);
                None
            },
            (Stage::Target, Event::Kind(PathKind::File)) => {
                if self.flags.interactive {
                    self.stage = Stage::Answer;
                    None
                } else if self.flags.force {
                    self.commit()
                } else {
                    self.stage = Stage::Failed(Failure::OverwriteRefused);
                    None
                }
            },
            (Stage::Target, Event::Kind(PathKind::Other)) => self.commit(),
            (Stage::Answer, Event::Answer(yes)) => {
                if yes {
                    self.commit()
                } else {
                    self.advance();
                    None
                }
            },
            (Stage::Move, Event::Renamed) => {
                self.advance();
                None
            },
            (Stage::Move, Event::RenameFailed) => {
                self.stage = Stage::Failed(Failure::FilesystemOperation);
                None
            },
            _ => None,
        }
    }

    /// What the caller is to do next.
    pub fn action(&self) -> (r: Action)
        requires
            self.wf(),
        ensures
            self@.stage is Source ==> (r matches Action::Inspect(p) && p@ == self@.files[self@.index]),
            self@.stage is Target ==> (r matches Action::Inspect(p) && p@ == self@.target),
            self@.stage is Answer ==> (r matches Action::Confirm(p) && p@ == self@.target),
            self@.stage is Move ==> (r matches Action::Rename(a, b) && a@ == self@.files[self@.index] && b@ == self@.target),
            self@.stage is Complete ==> r == Action::Finish(Ok(())),
            self@.stage matches Stage::Failed(f) ==> r == Action::Finish(Err(f)),
            self@.flags.dry_run ==> !(r is Rename),
    {
        match self.stage {
            Stage::Source => Action::Inspect(self.files[self.index].clone()),
            Stage::Target => Action::Inspect(self.target.clone()),
            Stage::Answer => Action::Confirm(self.target.clone()),
            Stage::Move => Action::Rename(self.files[self.index].clone(), self.target.clone()),
            Stage::Complete => Action::Finish(Ok(())),
            Stage::Failed(f) => Action::Finish(Err(f)),
        }
    }

    /// The switches of this run.
    pub fn flags(&self) -> (r: Flags)
        ensures
            r == self@.flags,
    {
        self.flags
    }

    /// Where the session stands.
    pub fn stage(&self) -> (r: Stage)
        ensures
            r == self@.stage,
    {
        self.stage
    }

    /// The path being handled, if any.
    pub fn source(&self) -> (r: Option<&str>)
        requires
            self.wf(),
        ensures
            self@.index < self@.files.len() ==> (r matches Some(p) && p@ == self@.files[self@.index]),
            self@.index >= self@.files.len() ==> r is None,
    {
        if self.index < self.files.len() {
            Some(self.files[self.index].as_str())
        } else {
            None
        }
    }

    /// The last target computed: the one that the current stage speaks of.
    pub fn target(&self) -> (r: &str)
        ensures
            r@ == self@.target,
    {
        self.target.as_str()
    }
}

} // verus!
