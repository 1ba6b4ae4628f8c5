//! The directory that makes `apply_patch` available on the `PATH`.

use std::sync::Arc;

use vstd::prelude::*;

use crate::arg0::{
    arg_text, requested, Arg, Request, APPLY_PATCH_ARG0, CODEX_APPLY_PATCH_ARG1,
    LINUX_SANDBOX_ARG0, MISSPELLED_APPLY_PATCH_ARG0,
};

verus! {

/// A family of platforms.
#[derive(Clone, Copy, Debug, PartialEq, Eq, Structural)]
pub enum Platform {
    Unix,
    Windows,
}

// ---------------------------------------------------------------------------
// Texts
// ---------------------------------------------------------------------------

/// What stands between two directories in the `PATH`.
pub open spec fn path_separator(platform: Platform) -> Seq<char> {
    match platform {
        Platform::Unix => ":"@,
        Platform::Windows => ";"@,
    }
}

/// What puts `directory` in front of a `PATH` that is set.
pub open spec fn path_prefix(platform: Platform, directory: Seq<char>) -> Seq<char> {
    directory + path_separator(platform)
}

/// The `PATH` with `directory` in front of what it held, if it held anything.
pub open spec fn prepended_path(
    platform: Platform,
    directory: Seq<char>,
    existing: Option<Seq<char>>,
) -> Seq<char> {
    match existing {
        Some(existing) => path_prefix(platform, directory) + existing,
        None => directory,
    }
}

/// The name of the file by which the command `name` is found.
pub open spec fn entry_name(platform: Platform, name: Seq<char>) -> Seq<char> {
    match platform {
        Platform::Unix => name,
        Platform::Windows => name + ".bat"@,
    }
}

/// A batch script that runs `exe` as `apply_patch`, with the script's own
/// arguments.
pub open spec fn script(exe: Seq<char>) -> Seq<char> {
    "@echo off\n\""@ + exe + "\" "@ + CODEX_APPLY_PATCH_ARG1@ + " %*\n"@
}

fn prefix_of(platform: Platform, directory: &str) -> (r: String)
    ensures
        r@ == path_prefix(platform, directory@),
{
    let separator = match platform {
        Platform::Unix => ":",
        Platform::Windows => ";",
    };
    directory.to_string().concat(separator)
}

fn prepend_path(platform: Platform, directory: &str, existing: Option<String>) -> (r: String)
    ensures
        r@ == prepended_path(
            platform,
            directory@,
            match existing {
                Some(existing) => Some(existing@),
                None => None,
            },
        ),
{
    match existing {
        Some(existing) => prefix_of(platform, directory).concat(existing.as_str()),
        None => directory.to_string(),
    }
}

fn write_script(exe: &str) -> (r: String)
    ensures
        r@ == script(exe@),
{
    "@echo off\n\"".to_string().concat(exe).concat("\" ").concat(CODEX_APPLY_PATCH_ARG1).concat(
        " %*\n",
    )
}

// ---------------------------------------------------------------------------
// Steps
// ---------------------------------------------------------------------------

/// What is to be done next. `P` is the type of file system paths.
pub enum PathAction<P> {
    /// Create an empty directory that goes away with the process.
    CreateTempDir,
    /// Find out which file is being executed.
    FindCurrentExe,
    /// Create a symbolic link to `target`, under the name `filename` in
    /// `directory`.
    CreateSymlink { target: P, directory: Arc<P>, filename: String },
    /// Write a file, under the name `filename` in `directory`.
    WriteScript { directory: Arc<P>, filename: String, contents: String },
    /// Read the `PATH`.
    ReadPath,
    /// Set the `PATH`. Nothing is left to be done then.
    SetPath { value: String },
    /// Put `prefix` in front of the `PATH`, whose value stays behind it as it
    /// is. Nothing is left to be done then.
    PrefixPath { prefix: String },
}

/// What came of the last [`PathAction`].
pub enum PathEvent<P> {
    /// The directory was created; `displayed` is how its path is displayed.
    TempDirCreated { directory: Arc<P>, displayed: String },
    /// This is the file that is executed; `displayed` is how its path is
    /// displayed.
    CurrentExe { exe: P, displayed: String },
    /// The link or the script was created.
    EntryCreated,
    /// This is the `PATH`, unless it is not set.
    Path(Option<String>),
    /// The `PATH` is set, to a value that is not Unicode.
    PathNotUnicode,
    /// It could not be done.
    Failed,
}

/// What a [`PathAction`] says.
pub enum PathActionView<P> {
    CreateTempDir,
    FindCurrentExe,
    CreateSymlink { target: P, directory: Arc<P>, filename: Seq<char> },
    WriteScript { directory: Arc<P>, filename: Seq<char>, contents: Seq<char> },
    ReadPath,
    SetPath { value: Seq<char> },
    PrefixPath { prefix: Seq<char> },
}

impl<P> View for PathAction<P> {
    type V = PathActionView<P>;

    open spec fn view(&self) -> PathActionView<P> {
        match *self {
            PathAction::CreateTempDir => PathActionView::CreateTempDir,
            PathAction::FindCurrentExe => PathActionView::FindCurrentExe,
            PathAction::CreateSymlink { target, directory, filename } => {
                PathActionView::CreateSymlink { target, directory, filename: filename@ }
            },
            PathAction::WriteScript { directory, filename, contents } => {
                PathActionView::WriteScript { directory, filename: filename@, contents: contents@ }
            },
            PathAction::ReadPath => PathActionView::ReadPath,
            PathAction::SetPath { value } => PathActionView::SetPath { value: value@ },
            PathAction::PrefixPath { prefix } => PathActionView::PrefixPath { prefix: prefix@ },
        }
    }
}

/// What is being waited for.
#[derive(Clone, Copy, Debug, PartialEq, Eq, Structural)]
pub enum PathPhase {
    TempDir,
    FirstExe,
    FirstEntry,
    SecondExe,
    SecondEntry,
    Path,
    Done,
    Failed,
}

/// Fills a directory with the commands that apply a patch, and puts it in front
/// of the `PATH`.
pub struct PathEntry<P> {
    platform: Platform,
    phase: PathPhase,
    directory: Option<Arc<P>>,
    displayed: String,
}

/// The state of a [`PathEntry`].
pub struct PathEntryView<P> {
    pub platform: Platform,
    pub phase: PathPhase,
    /// The directory, once it is there.
    pub directory: Option<Arc<P>>,
    /// How its path is displayed.
    pub displayed: Seq<char>,
}

impl<P> View for PathEntry<P> {
    type V = PathEntryView<P>;

    closed spec fn view(&self) -> PathEntryView<P> {
        PathEntryView {
            platform: self.platform,
            phase: self.phase,
            directory: self.directory,
            displayed: self.displayed@,
        }
    }
}

/// The state at the start.
pub open spec fn path_entry_start<P>(platform: Platform) -> PathEntryView<P> {
    PathEntryView {
        platform,
        phase: PathPhase::TempDir,
        directory: None,
        displayed: Seq::empty(),
    }
}

/// What is being waited for after `event`. A failure ends the work; an answer
/// that nobody waited for changes nothing.
pub open spec fn phase_after<P>(phase: PathPhase, event: PathEvent<P>) -> PathPhase {
    match (phase, event) {
        (PathPhase::Done, _) => PathPhase::Done,
        (_, PathEvent::Failed) => PathPhase::Failed,
        (PathPhase::TempDir, PathEvent::TempDirCreated { .. }) => PathPhase::FirstExe,
        (PathPhase::FirstExe, PathEvent::CurrentExe { .. }) => PathPhase::FirstEntry,
        (PathPhase::FirstEntry, PathEvent::EntryCreated) => PathPhase::SecondExe,
        (PathPhase::SecondExe, PathEvent::CurrentExe { .. }) => PathPhase::SecondEntry,
        (PathPhase::SecondEntry, PathEvent::EntryCreated) => PathPhase::Path,
        (PathPhase::Path, PathEvent::Path(_)) => PathPhase::Done,
        (PathPhase::Path, PathEvent::PathNotUnicode) => PathPhase::Done,
        _ => phase,
    }
}

/// The state after `event`.
pub open spec fn path_entry_after<P>(
    entry: PathEntryView<P>,
    event: PathEvent<P>,
) -> PathEntryView<P> {
    let phase = phase_after(entry.phase, event);
    match (entry.phase, event) {
        (PathPhase::TempDir, PathEvent::TempDirCreated { directory, displayed }) => PathEntryView {
            phase,
            directory: Some(directory),
            displayed: displayed@,
            ..entry
        },
        _ => PathEntryView { phase, ..entry },
    }
}

/// The creation of the file by which the command `name` is found in
/// `directory`: a link to the file `exe`, or a script that runs it, written with
/// its path as it is displayed.
pub open spec fn creation<P>(
    platform: Platform,
    directory: Arc<P>,
    name: Seq<char>,
    exe: P,
    displayed: Seq<char>,
) -> PathActionView<P> {
    match platform {
        Platform::Unix => PathActionView::CreateSymlink {
            target: exe,
            directory,
            filename: entry_name(platform, name),
        },
        Platform::Windows => PathActionView::WriteScript {
            directory,
            filename: entry_name(platform, name),
            contents: script(displayed),
        },
    }
}

/// What is to be done after `event`: nothing where the event was not the answer
/// that was waited for.
pub open spec fn path_action_after<P>(
    entry: PathEntryView<P>,
    event: PathEvent<P>,
) -> Option<PathActionView<P>> {
    match (entry.phase, event) {
        (PathPhase::TempDir, PathEvent::TempDirCreated { .. }) => Some(
            PathActionView::FindCurrentExe,
        ),
        (PathPhase::FirstExe, PathEvent::CurrentExe { exe, displayed }) => Some(
            creation(entry.platform, entry.directory->0, APPLY_PATCH_ARG0@, exe, displayed@),
        ),
        (PathPhase::FirstEntry, PathEvent::EntryCreated) => Some(PathActionView::FindCurrentExe),
        (PathPhase::SecondExe, PathEvent::CurrentExe { exe, displayed }) => Some(
            creation(entry.platform, entry.directory->0, MISSPELLED_APPLY_PATCH_ARG0@, exe, displayed@),
        ),
        (PathPhase::SecondEntry, PathEvent::EntryCreated) => Some(PathActionView::ReadPath),
        (PathPhase::Path, PathEvent::Path(existing)) => Some(
            PathActionView::SetPath {
                value: prepended_path(
                    entry.platform,
                    entry.displayed,
                    match existing {
                        Some(existing) => Some(existing@),
                        None => None,
                    },
                ),
            },
        ),
        (PathPhase::Path, PathEvent::PathNotUnicode) => Some(
            PathActionView::PrefixPath {
                prefix: path_prefix(entry.platform, entry.displayed),
            },
        ),
        _ => None,
    }
}

/// What an action says, if there is one.
pub open spec fn path_action_view<P>(action: Option<PathAction<P>>) -> Option<PathActionView<P>> {
    match action {
        Some(action) => Some(action@),
        None => None,
    }
}

/// Starts to make `apply_patch` available on the `PATH`. The `PATH` belongs to
/// the whole process, so all of it has to happen before there is a second
/// thread.
pub fn prepend_path_entry_for_apply_patch<P>(platform: Platform) -> (r: (
    PathEntry<P>,
    PathAction<P>,
))
    ensures
        r.0@ == path_entry_start::<P>(platform),
        r.1@ == PathActionView::<P>::CreateTempDir,
{
    (
        PathEntry {
            platform,
            phase: PathPhase::TempDir,
            directory: None,
            displayed: String::new(),
        },
        PathAction::CreateTempDir,
    )
}

impl<P> PathEntry<P> {
    /// The directory is there while the files in it are created.
    #[verifier::type_invariant]
    spec fn has_directory(self) -> bool {
        self.phase is FirstExe || self.phase is FirstEntry || self.phase is SecondExe
            ==> self.directory is Some
    }

    fn create_entry(&self, name: &str, exe: P, displayed: &str) -> (r: PathAction<P>)
        requires
            self@.directory is Some,
        ensures
            r@ == creation(self@.platform, self@.directory->0, name@, exe, displayed@),
    {
        let directory = self.directory.as_ref().unwrap().clone();
        match self.platform {
            Platform::Unix => PathAction::CreateSymlink {
                target: exe,
                directory,
                filename: name.to_string(),
            },
            Platform::Windows => PathAction::WriteScript {
                directory,
                filename: name.to_string().concat(".bat"),
                contents: write_script(displayed),
            },
        }
    }

    /// What is to be done next, given what came of the last action. `None`
    /// where the event was not the answer that was waited for; nothing has
    /// changed then, unless something could not be done: that ends the work.
    pub fn next(&mut self, event: PathEvent<P>) -> (r: Option<PathAction<P>>)
        ensures
            final(self)@ == path_entry_after(old(self)@, event),
            path_action_view(r) == path_action_after(old(self)@, event),
    {
        proof {
            use_type_invariant(&*self);
        }
        match (self.phase, event) {
            (PathPhase::Done, _) => None,
            (_, PathEvent::Failed) => {
                self.phase = PathPhase::Failed;
                None
            },
            (PathPhase::TempDir, PathEvent::TempDirCreated { directory, displayed }) => {
                self.directory = Some(directory);
                self.displayed = displayed;
                self.phase = PathPhase::FirstExe;
                Some(PathAction::FindCurrentExe)
            },
            (PathPhase::FirstExe, PathEvent::CurrentExe { exe, displayed }) => {
                self.phase = PathPhase::FirstEntry;
                Some(self.create_entry(APPLY_PATCH_ARG0, exe, displayed.as_str()))
            },
            (PathPhase::FirstEntry, PathEvent::EntryCreated) => {
                self.phase = PathPhase::SecondExe;
                Some(PathAction::FindCurrentExe)
            },
            (PathPhase::SecondExe, PathEvent::CurrentExe { exe, displayed }) => {
                self.phase = PathPhase::SecondEntry;
                Some(self.create_entry(MISSPELLED_APPLY_PATCH_ARG0, exe, displayed.as_str()))
            },
            (PathPhase::SecondEntry, PathEvent::EntryCreated) => {
                self.phase = PathPhase::Path;
                Some(PathAction::ReadPath)
            },
            (PathPhase::Path, PathEvent::Path(existing)) => {
                self.phase = PathPhase::Done;
                Some(
                    PathAction::SetPath {
                        value: prepend_path(self.platform, self.displayed.as_str(), existing),
                    },
                )
            },
            (PathPhase::Path, PathEvent::PathNotUnicode) => {
                self.phase = PathPhase::Done;
                Some(
                    PathAction::PrefixPath {
                        prefix: prefix_of(self.platform, self.displayed.as_str()),
                    },
                )
            },
            _ => None,
        }
    }
}

// ---------------------------------------------------------------------------
// Laws
// ---------------------------------------------------------------------------

/// The state after `events`, one after the other.
pub open spec fn path_entry_run<P>(
    entry: PathEntryView<P>,
    events: Seq<PathEvent<P>>,
) -> PathEntryView<P>
    decreases events.len(),
{
    if events.len() == 0 {
        entry
    } else {
        path_entry_after(path_entry_run(entry, events.drop_last()), events.last())
    }
}

/// The files that were created during `events`.
pub open spec fn created<P>(
    entry: PathEntryView<P>,
    events: Seq<PathEvent<P>>,
) -> Seq<Seq<char>>
    decreases events.len(),
{
    if events.len() == 0 {
        Seq::empty()
    } else {
        created(entry, events.drop_last()) + match (
            path_entry_run(entry, events.drop_last()).phase,
            events.last(),
        ) {
            (PathPhase::FirstEntry, PathEvent::EntryCreated) => seq![
                entry_name(entry.platform, APPLY_PATCH_ARG0@),
            ],
            (PathPhase::SecondEntry, PathEvent::EntryCreated) => seq![
                entry_name(entry.platform, MISSPELLED_APPLY_PATCH_ARG0@),
            ],
            _ => Seq::empty(),
        }
    }
}

/// The actions during `events` that change the `PATH`.
pub open spec fn path_changes<P>(
    entry: PathEntryView<P>,
    events: Seq<PathEvent<P>>,
) -> Seq<PathActionView<P>>
    decreases events.len(),
{
    if events.len() == 0 {
        Seq::empty()
    } else {
        path_changes(entry, events.drop_last()) + match path_action_after(
            path_entry_run(entry, events.drop_last()),
            events.last(),
        ) {
            Some(action) if action is SetPath || action is PrefixPath => seq![action],
            _ => Seq::empty(),
        }
    }
}

/// What the `PATH` holds before it is changed. A value that is not Unicode is a
/// sequence of units of some kind.
pub enum ExistingPath<U> {
    Unset,
    Unicode(String),
    NotUnicode(Seq<U>),
}

/// The answer to [`PathAction::ReadPath`].
pub open spec fn path_answer<P, U>(existing: ExistingPath<U>) -> PathEvent<P> {
    match existing {
        ExistingPath::Unset => PathEvent::Path(None),
        ExistingPath::Unicode(text) => PathEvent::Path(Some(text)),
        ExistingPath::NotUnicode(_) => PathEvent::PathNotUnicode,
    }
}

/// The units that the `PATH` holds; `units` gives those of a text.
pub open spec fn path_units<U>(
    existing: ExistingPath<U>,
    units: spec_fn(Seq<char>) -> Seq<U>,
) -> Seq<U> {
    match existing {
        ExistingPath::Unset => Seq::empty(),
        ExistingPath::Unicode(text) => units(text@),
        ExistingPath::NotUnicode(value) => value,
    }
}

/// The units that the `PATH` holds once `action` was done.
pub open spec fn path_units_after<P, U>(
    existing: ExistingPath<U>,
    units: spec_fn(Seq<char>) -> Seq<U>,
    action: PathActionView<P>,
) -> Seq<U> {
    match action {
        PathActionView::SetPath { value } => units(value),
        PathActionView::PrefixPath { prefix } => units(prefix) + path_units(existing, units),
        _ => path_units(existing, units),
    }
}

proof fn lemma_path_entry_progress<P>(platform: Platform, events: Seq<PathEvent<P>>)
    ensures
        ({
            let start = path_entry_start::<P>(platform);
            let entry = path_entry_run(start, events);
            let first = entry_name(platform, APPLY_PATCH_ARG0@);
            let second = entry_name(platform, MISSPELLED_APPLY_PATCH_ARG0@);
            &&& entry.platform == platform
            &&& match entry.phase {
                PathPhase::TempDir | PathPhase::FirstExe | PathPhase::FirstEntry => created(
                    start,
                    events,
                ) == Seq::<Seq<char>>::empty(),
                PathPhase::SecondExe | PathPhase::SecondEntry => created(start, events) == seq![
                    first,
                ],
                PathPhase::Path | PathPhase::Done => created(start, events) == seq![first, second],
                PathPhase::Failed => true,
            }
            &&& entry.phase is Done <==> path_changes(start, events).len() == 1
            &&& entry.phase !is Done <==> path_changes(start, events).len() == 0
        }),
    decreases events.len(),
{
    let start = path_entry_start::<P>(platform);
    if events.len() > 0 {
        lemma_path_entry_progress(platform, events.drop_last());
        let before = path_entry_run(start, events.drop_last());
        match before.phase {
            PathPhase::FirstEntry => {
                assert(created(start, events.drop_last()) + seq![
                    entry_name(platform, APPLY_PATCH_ARG0@),
                ] =~= seq![entry_name(platform, APPLY_PATCH_ARG0@)]);
            },
            PathPhase::SecondEntry => {
                assert(created(start, events.drop_last()) + seq![
                    entry_name(platform, MISSPELLED_APPLY_PATCH_ARG0@),
                ] =~= seq![
                    entry_name(platform, APPLY_PATCH_ARG0@),
                    entry_name(platform, MISSPELLED_APPLY_PATCH_ARG0@),
                ]);
            },
            _ => {},
        }
        assert(created(start, events.drop_last()) + Seq::<Seq<char>>::empty() =~= created(
            start,
            events.drop_last(),
        ));
    }
}

/// The `PATH` is changed once at most, and only after both commands were created;
/// where something could not be done it is left alone.
pub proof fn law_path_is_set_after_both_entries<P>(
    platform: Platform,
    events: Seq<PathEvent<P>>,
)
    ensures
        path_changes(path_entry_start::<P>(platform), events).len() <= 1,
        path_changes(path_entry_start::<P>(platform), events).len() == 1 ==> created(
            path_entry_start::<P>(platform),
            events,
        ) == seq![
            entry_name(platform, APPLY_PATCH_ARG0@),
            entry_name(platform, MISSPELLED_APPLY_PATCH_ARG0@),
        ],
        path_entry_run(path_entry_start::<P>(platform), events).phase is Failed ==> path_changes(
            path_entry_start::<P>(platform),
            events,
        ).len() == 0,
{
    lemma_path_entry_progress(platform, events);
}

/// All that is done during `events`.
pub open spec fn path_actions<P>(
    entry: PathEntryView<P>,
    events: Seq<PathEvent<P>>,
) -> Seq<PathActionView<P>>
    decreases events.len(),
{
    if events.len() == 0 {
        seq![PathActionView::CreateTempDir]
    } else {
        path_actions(entry, events.drop_last()) + match path_action_after(
            path_entry_run(entry, events.drop_last()),
            events.last(),
        ) {
            Some(action) => seq![action],
            None => Seq::empty(),
        }
    }
}

/// What comes of the actions where nothing fails, up to the `PATH`.
pub open spec fn successes<P>(
    directory: Arc<P>,
    displayed: String,
    exe: P,
    exe_displayed: String,
    exe_again: P,
    exe_again_displayed: String,
) -> Seq<PathEvent<P>> {
    seq![
        PathEvent::TempDirCreated { directory, displayed },
        PathEvent::CurrentExe { exe, displayed: exe_displayed },
        PathEvent::EntryCreated,
        PathEvent::CurrentExe { exe: exe_again, displayed: exe_again_displayed },
        PathEvent::EntryCreated,
    ]
}

/// Where nothing fails, a new directory is created, and in it one file for each
/// of the two commands and no other. Either leads to the file that was found to
/// be executed: on Unix it is a link to it, on Windows a script that runs it.
pub proof fn law_both_commands_run_the_executable<P>(
    platform: Platform,
    directory: Arc<P>,
    displayed: String,
    exe: P,
    exe_displayed: String,
    exe_again: P,
    exe_again_displayed: String,
)
    ensures
        ({
            let events = successes(
                directory,
                displayed,
                exe,
                exe_displayed,
                exe_again,
                exe_again_displayed,
            );
            &&& path_actions(path_entry_start::<P>(platform), events) == seq![
                PathActionView::CreateTempDir,
                PathActionView::FindCurrentExe,
                creation(platform, directory, APPLY_PATCH_ARG0@, exe, exe_displayed@),
                PathActionView::FindCurrentExe,
                creation(
                    platform,
                    directory,
                    MISSPELLED_APPLY_PATCH_ARG0@,
                    exe_again,
                    exe_again_displayed@,
                ),
                PathActionView::ReadPath,
            ]
            &&& path_entry_run(path_entry_start::<P>(platform), events) == (PathEntryView {
                platform,
                phase: PathPhase::Path,
                directory: Some(directory),
                displayed: displayed@,
            })
        }),
{
    let e1 = seq![PathEvent::TempDirCreated { directory, displayed }];
    let e2 = e1.push(PathEvent::CurrentExe { exe, displayed: exe_displayed });
    let e3 = e2.push(PathEvent::EntryCreated);
    let e4 = e3.push(
        PathEvent::CurrentExe { exe: exe_again, displayed: exe_again_displayed },
    );
    let e5 = e4.push(PathEvent::EntryCreated);
    assert(e1.drop_last() =~= Seq::<PathEvent<P>>::empty());
    assert(e2.drop_last() =~= e1);
    assert(e3.drop_last() =~= e2);
    assert(e4.drop_last() =~= e3);
    assert(e5.drop_last() =~= e4);
    let start = path_entry_start::<P>(platform);
    reveal_with_fuel(path_entry_run, 6);
    reveal_with_fuel(path_actions, 6);
    let events = successes(
        directory,
        displayed,
        exe,
        exe_displayed,
        exe_again,
        exe_again_displayed,
    );
    assert(e5 =~= events);
    assert(path_actions(start, e5) =~= seq![
        PathActionView::CreateTempDir,
        PathActionView::FindCurrentExe,
        creation(platform, directory, APPLY_PATCH_ARG0@, exe, exe_displayed@),
        PathActionView::FindCurrentExe,
        creation(
            platform,
            directory,
            MISSPELLED_APPLY_PATCH_ARG0@,
            exe_again,
            exe_again_displayed@,
        ),
        PathActionView::ReadPath,
    ]);
}

/// Where nothing fails, the directory is put in front of the `PATH`, and all
/// that the `PATH` held stays behind it, whether or not that is Unicode. Where
/// the `PATH` is not set it becomes the directory alone.
pub proof fn law_path_keeps_what_it_held<P, U>(
    platform: Platform,
    directory: Arc<P>,
    displayed: String,
    exe: P,
    exe_displayed: String,
    exe_again: P,
    exe_again_displayed: String,
    existing: ExistingPath<U>,
    units: spec_fn(Seq<char>) -> Seq<U>,
)
    requires
        forall|a: Seq<char>, b: Seq<char>| #[trigger] units(a + b) == units(a) + units(b),
    ensures
        ({
            let changes = path_changes(
                path_entry_start::<P>(platform),
                successes(
                    directory,
                    displayed,
                    exe,
                    exe_displayed,
                    exe_again,
                    exe_again_displayed,
                ).push(path_answer(existing)),
            );
            &&& changes.len() == 1
            &&& path_units_after(existing, units, changes[0]) == (if existing is Unset {
                units(displayed@)
            } else {
                units(path_prefix(platform, displayed@)) + path_units(existing, units)
            })
        }),
{
    let start = path_entry_start::<P>(platform);
    let before = successes(
        directory,
        displayed,
        exe,
        exe_displayed,
        exe_again,
        exe_again_displayed,
    );
    let events = before.push(path_answer(existing));
    law_both_commands_run_the_executable(
        platform,
        directory,
        displayed,
        exe,
        exe_displayed,
        exe_again,
        exe_again_displayed,
    );
    lemma_path_entry_progress(platform, before);
    assert(events.drop_last() =~= before);
    let ready = path_entry_run(start, before);
    let change = path_action_after(ready, path_answer(existing))->0;
    assert(path_changes(start, events) =~= seq![change]);
}

/// A link that was created leads back here: called by its name, the executable
/// applies a patch.
pub proof fn law_links_apply_patches(name: Seq<char>, args: Seq<Arg>)
    requires
        name == APPLY_PATCH_ARG0@ || name == MISSPELLED_APPLY_PATCH_ARG0@,
    ensures
        requested(Some(entry_name(Platform::Unix, name)), args) == Request::ApplyPatch,
{
    reveal_strlit("codex-linux-sandbox");
    reveal_strlit("apply_patch");
    reveal_strlit("applypatch");
    assert(LINUX_SANDBOX_ARG0@.len() == 19);
    assert(name.len() < 19);
}

/// A script that was created leads back here: it runs the executable with one
/// argument in front of its own, and the executable applies the patch that is
/// the first of these, whatever else it may be called.
pub proof fn law_scripts_apply_patches(exe_name: Option<Seq<char>>, flag: String, args: Seq<Arg>)
    requires
        exe_name != Some(LINUX_SANDBOX_ARG0@),
        exe_name != Some(APPLY_PATCH_ARG0@),
        exe_name != Some(MISSPELLED_APPLY_PATCH_ARG0@),
        flag@ == CODEX_APPLY_PATCH_ARG1@,
    ensures
        requested(exe_name, seq![Arg::Utf8(flag)] + args) == Request::ApplyPatchArgument(
            arg_text(args, 0),
        ),
{
}

/// The text that stands between two directories of the `PATH`.
pub open spec fn between(platform: Platform) -> Seq<char> {
    if platform == Platform::Unix {
        seq![':']
    } else {
        seq![';']
    }
}

/// Whatever the `PATH` held stands behind the directory, letter for letter, with
/// the platform's separator between them; a `PATH` that is not set becomes the
/// directory, and one that is not Unicode is left to stand behind it.
pub proof fn law_path_is_prepended<P>(
    entry: &mut PathEntry<P>,
    event: PathEvent<P>,
    r: Option<PathAction<P>>,
)
    requires
        call_ensures(PathEntry::<P>::next, (entry, event), r),
        old(entry)@.phase == PathPhase::Path,
        event is Path || event is PathNotUnicode,
    ensures
        event matches PathEvent::Path(Some(existing)) ==> (r matches Some(
            PathAction::SetPath { value },
        ) && value@ == old(entry)@.displayed + between(old(entry)@.platform) + existing@),
        event matches PathEvent::Path(None) ==> (r matches Some(PathAction::SetPath { value })
            && value@ == old(entry)@.displayed),
        event is PathNotUnicode ==> (r matches Some(PathAction::PrefixPath { prefix }) && prefix@
            == old(entry)@.displayed + between(old(entry)@.platform)),
        final(entry)@.phase == PathPhase::Done,
{
    reveal_strlit(":");
    reveal_strlit(";");
    assert(path_separator(old(entry)@.platform) =~= between(old(entry)@.platform));
}

/// `action` creates the command `name` in `directory`: on Unix a link to the
/// file that is executed, on Windows a script that runs it with the argument
/// that asks for a patch, and hands its own arguments on.
pub open spec fn creates_command<P>(
    action: Option<PathAction<P>>,
    platform: Platform,
    directory: Arc<P>,
    name: Seq<char>,
    exe: P,
    displayed: Seq<char>,
) -> bool {
    if platform == Platform::Unix {
        &&& action matches Some(PathAction::CreateSymlink { target, directory: place, filename })
        &&& target == exe
        &&& place == directory
        &&& filename@ == name
    } else {
        &&& action matches Some(PathAction::WriteScript { directory: place, filename, contents })
        &&& place == directory
        &&& filename@ == name + ".bat"@
        &&& contents@ == "@echo off\n\""@ + displayed + "\" "@ + "--codex-run-as-apply-patch"@
            + " %*\n"@
    }
}

/// The steps follow one another: a directory, then the two commands in it, each
/// for the file that was found to be executed, then the `PATH`. The directory
/// and the platform stay the same.
pub proof fn law_commands_are_created_in_turn<P>(
    entry: &mut PathEntry<P>,
    event: PathEvent<P>,
    r: Option<PathAction<P>>,
)
    requires
        call_ensures(PathEntry::<P>::next, (entry, event), r),
    ensures
        final(entry)@.platform == old(entry)@.platform,
        old(entry)@.phase == PathPhase::TempDir && event is TempDirCreated ==> r == Some(
            PathAction::<P>::FindCurrentExe,
        ) && final(entry)@.phase == PathPhase::FirstExe && final(entry)@.directory == Some(
            event->directory,
        ) && final(entry)@.displayed == event->TempDirCreated_displayed@,
        !(old(entry)@.phase == PathPhase::TempDir && event is TempDirCreated) ==> final(entry)@.directory == old(entry)@.directory && final(entry)@.displayed
            == old(entry)@.displayed,
        old(entry)@.phase == PathPhase::FirstExe && event is CurrentExe && old(entry)@.directory
            is Some ==> creates_command(
            r,
            old(entry)@.platform,
            old(entry)@.directory->0,
            "apply_patch"@,
            event->exe,
            event->CurrentExe_displayed@,
        ) && final(entry)@.phase == PathPhase::FirstEntry,
        old(entry)@.phase == PathPhase::FirstEntry && event is EntryCreated ==> r == Some(
            PathAction::<P>::FindCurrentExe,
        ) && final(entry)@.phase == PathPhase::SecondExe,
        old(entry)@.phase == PathPhase::SecondExe && event is CurrentExe && old(entry)@.directory
            is Some ==> creates_command(
            r,
            old(entry)@.platform,
            old(entry)@.directory->0,
            "applypatch"@,
            event->exe,
            event->CurrentExe_displayed@,
        ) && final(entry)@.phase == PathPhase::SecondEntry,
        old(entry)@.phase == PathPhase::SecondEntry && event is EntryCreated ==> r == Some(
            PathAction::<P>::ReadPath,
        ) && final(entry)@.phase == PathPhase::Path,
{
}

/// What could not be done ends the work, and nothing more is done. An answer
/// that nobody waited for is passed over.
pub proof fn law_failure_ends_the_work<P>(
    entry: &mut PathEntry<P>,
    event: PathEvent<P>,
    r: Option<PathAction<P>>,
)
    requires
        call_ensures(PathEntry::<P>::next, (entry, event), r),
    ensures
        event is Failed ==> r is None && (final(entry)@.phase == PathPhase::Failed || final(entry)@.phase == PathPhase::Done),
        old(entry)@.phase == PathPhase::Failed || old(entry)@.phase == PathPhase::Done ==> r is None
            && final(entry)@.phase == old(entry)@.phase,
        r is None && !(event is Failed) ==> final(entry)@ == old(entry)@,
        r is Some ==> match old(entry)@.phase {
            PathPhase::TempDir => event is TempDirCreated,
            PathPhase::FirstExe | PathPhase::SecondExe => event is CurrentExe,
            PathPhase::FirstEntry | PathPhase::SecondEntry => event is EntryCreated,
            PathPhase::Path => event is Path || event is PathNotUnicode,
            PathPhase::Done | PathPhase::Failed => false,
        },
{
}

/// The work begins with a directory, on the platform that was named.
pub proof fn law_directory_comes_first<P>(
    platform: Platform,
    r: (PathEntry<P>, PathAction<P>),
)
    requires
        call_ensures(prepend_path_entry_for_apply_patch::<P>, (platform,), r),
    ensures
        r.1 is CreateTempDir,
        r.0@.phase == PathPhase::TempDir,
        r.0@.platform == platform,
{
}

} // verus!
