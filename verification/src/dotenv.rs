//! Environment variables from `.env` files.

use vstd::prelude::*;

use crate::chars;

verus! {

/// No `.env` file may set a variable whose name starts like this.
pub const ILLEGAL_ENV_VAR_PREFIX: &'static str = "CODEX_";

/// The name of the file in either directory.
pub const DOTENV_FILENAME: &'static str = ".env";

/// A variable that no `.env` file may create or modify. Upper and lower case
/// are the same here, as they are for the environment of some platforms.
pub open spec fn is_protected(key: Seq<char>) -> bool {
    ILLEGAL_ENV_VAR_PREFIX@.is_prefix_of(chars::ascii_uppercase(key))
}

/// The variable that an entry of a `.env` file sets, if it sets one: an entry
/// that could not be read sets none, nor does one for a protected variable.
pub open spec fn accepted<E>(entry: Result<(String, String), E>) -> Option<(String, String)> {
    match entry {
        Ok((key, value)) if !is_protected(key@) => Some((key, value)),
        _ => None,
    }
}

/// The variable that an entry of a `.env` file sets, if it sets one.
pub fn set_filtered<E>(entry: Result<(String, String), E>) -> (r: Option<(String, String)>)
    ensures
        r == accepted(entry),
{
    match entry {
        Ok((key, value)) => {
            if chars::uppercase_starts_with(key.as_str(), ILLEGAL_ENV_VAR_PREFIX) {
                None
            } else {
                Some((key, value))
            }
        },
        Err(_) => None,
    }
}

// ---------------------------------------------------------------------------
// Loading
// ---------------------------------------------------------------------------

/// A place to look for a `.env` file.
#[derive(Clone, Copy, Debug, PartialEq, Eq, Structural)]
pub enum DotenvSource {
    /// The tool's own directory, in the user's home.
    CodexHome,
    /// The working directory itself, and none above it.
    WorkingDirectory,
}

/// What came of the last [`DotenvAction`].
pub enum DotenvEvent<E> {
    /// There is no such file, or it cannot be read.
    Unavailable,
    /// The next entry of the file, or why it could not be read.
    Entry(Result<(String, String), E>),
    /// The file has no more entries.
    End,
}

/// What is to be done next.
pub enum DotenvAction {
    /// Open [`DOTENV_FILENAME`] in the directory of a source, and read its first
    /// entry.
    Open(DotenvSource),
    /// Set a variable, and read the next entry.
    SetVar { key: String, value: String },
    /// Read the next entry.
    Skip,
    /// Nothing: all is loaded.
    Finish,
}

/// Loads the variables of both sources. Entries are read one at a time, since
/// an entry may refer to variables that the entries before it have set.
pub struct DotenvLoader {
    source: Option<DotenvSource>,
}

impl View for DotenvLoader {
    type V = Option<DotenvSource>;

    /// The source that is being read, until all is loaded.
    closed spec fn view(&self) -> Option<DotenvSource> {
        self.source
    }
}

/// The source that is read once the file of `source` has come to its end.
pub open spec fn following(source: DotenvSource) -> Option<DotenvSource> {
    match source {
        DotenvSource::CodexHome => Some(DotenvSource::WorkingDirectory),
        DotenvSource::WorkingDirectory => None,
    }
}

/// The source that is being read after `event`.
pub open spec fn source_after<E>(source: Option<DotenvSource>, event: DotenvEvent<E>) -> Option<
    DotenvSource,
> {
    match source {
        Some(source) if !(event is Entry) => following(source),
        _ => source,
    }
}

/// What is to be done after `event`.
pub open spec fn action_after<E>(
    source: Option<DotenvSource>,
    event: DotenvEvent<E>,
) -> DotenvAction {
    match (source, event) {
        (None, _) => DotenvAction::Finish,
        (Some(_), DotenvEvent::Entry(entry)) => match accepted(entry) {
            Some((key, value)) => DotenvAction::SetVar { key, value },
            None => DotenvAction::Skip,
        },
        (Some(source), _) => match following(source) {
            Some(next) => DotenvAction::Open(next),
            None => DotenvAction::Finish,
        },
    }
}

/// Starts to load the variables of both `.env` files, those of the tool's own
/// directory first.
pub fn load_dotenv() -> (r: (DotenvLoader, DotenvAction))
    ensures
        r.0@ == Some(DotenvSource::CodexHome),
        r.1 == DotenvAction::Open(DotenvSource::CodexHome),
{
    (
        DotenvLoader { source: Some(DotenvSource::CodexHome) },
        DotenvAction::Open(DotenvSource::CodexHome),
    )
}

impl DotenvLoader {
    /// What is to be done next, given what came of the last action.
    pub fn next<E>(&mut self, event: DotenvEvent<E>) -> (r: DotenvAction)
        ensures
            final(self)@ == source_after(old(self)@, event),
            r == action_after(old(self)@, event),
    {
        let source = match self.source {
            Some(source) => source,
            None => {
                return DotenvAction::Finish;
            },
        };
        match event {
            DotenvEvent::Entry(entry) => match set_filtered(entry) {
                Some((key, value)) => DotenvAction::SetVar { key, value },
                None => DotenvAction::Skip,
            },
            _ => {
                match source {
                    DotenvSource::CodexHome => {
                        self.source = Some(DotenvSource::WorkingDirectory);
                        DotenvAction::Open(DotenvSource::WorkingDirectory)
                    },
                    DotenvSource::WorkingDirectory => {
                        self.source = None;
                        DotenvAction::Finish
                    },
                }
            },
        }
    }
}

// ---------------------------------------------------------------------------
// Laws
// ---------------------------------------------------------------------------

/// The entries of a `.env` file, where there is one.
pub type DotenvFile<E> = Option<Seq<Result<(String, String), E>>>;

/// What the loader is told while it reads a file.
pub open spec fn file_events<E>(file: DotenvFile<E>) -> Seq<DotenvEvent<E>> {
    match file {
        Some(entries) => entries.map_values(
            |entry: Result<(String, String), E>| DotenvEvent::Entry(entry),
        ).push(DotenvEvent::End),
        None => seq![DotenvEvent::Unavailable],
    }
}

/// The variables that the loader sets while it is told `events`.
pub open spec fn assignments<E>(source: Option<DotenvSource>, events: Seq<DotenvEvent<E>>) -> Seq<
    (String, String),
>
    decreases events.len(),
{
    if events.len() == 0 {
        Seq::empty()
    } else {
        (match action_after(source, events.first()) {
            DotenvAction::SetVar { key, value } => seq![(key, value)],
            _ => Seq::empty(),
        }) + assignments(source_after(source, events.first()), events.drop_first())
    }
}

/// The variables that the entries of a file set.
pub open spec fn all_accepted<E>(entries: Seq<Result<(String, String), E>>) -> Seq<
    (String, String),
>
    decreases entries.len(),
{
    if entries.len() == 0 {
        Seq::empty()
    } else {
        (match accepted(entries.first()) {
            Some(variable) => seq![variable],
            None => Seq::empty(),
        }) + all_accepted(entries.drop_first())
    }
}

/// The entries of a file that may not be there.
pub open spec fn entries_of<E>(file: DotenvFile<E>) -> Seq<Result<(String, String), E>> {
    match file {
        Some(entries) => entries,
        None => Seq::empty(),
    }
}

/// An environment once `variables` were set in it, one after the other.
pub open spec fn environment_after(
    environment: Map<Seq<char>, Seq<char>>,
    variables: Seq<(String, String)>,
) -> Map<Seq<char>, Seq<char>>
    decreases variables.len(),
{
    if variables.len() == 0 {
        environment
    } else {
        environment_after(environment, variables.drop_last()).insert(
            variables.last().0@,
            variables.last().1@,
        )
    }
}

/// `key` stands for the same in both environments.
pub open spec fn agree_on(
    a: Map<Seq<char>, Seq<char>>,
    b: Map<Seq<char>, Seq<char>>,
    key: Seq<char>,
) -> bool {
    &&& a.contains_key(key) == b.contains_key(key)
    &&& a.contains_key(key) ==> a[key] == b[key]
}

proof fn lemma_file_is_read<E>(
    source: DotenvSource,
    file: DotenvFile<E>,
    rest: Seq<DotenvEvent<E>>,
)
    ensures
        assignments(Some(source), file_events(file) + rest) == all_accepted(entries_of(file))
            + assignments(following(source), rest),
    decreases entries_of(file).len(),
{
    let events = file_events(file) + rest;
    if entries_of(file).len() == 0 {
        if file is Some {
            assert(file_events(file) =~= seq![DotenvEvent::<E>::End]);
        }
        assert(events.drop_first() =~= rest);
        assert(all_accepted(entries_of(file)) =~= Seq::<(String, String)>::empty());
        assert(assignments(Some(source), events) =~= all_accepted(entries_of(file)) + assignments(
            following(source),
            rest,
        ));
    } else {
        let entries = file->0;
        let tail = Some(entries.drop_first());
        assert(events.first() == DotenvEvent::<E>::Entry(entries.first()));
        assert(events.drop_first() =~= file_events(tail) + rest);
        lemma_file_is_read(source, tail, rest);
        assert(assignments(Some(source), events) =~= all_accepted(entries) + assignments(
            following(source),
            rest,
        ));
    }
}

/// Loading sets what the entries of the first file set and then what those of
/// the second set, in order; a file that is not there counts as empty.
pub proof fn law_files_are_loaded_in_order<E>(home: DotenvFile<E>, working: DotenvFile<E>)
    ensures
        assignments(
            Some(DotenvSource::CodexHome),
            file_events(home) + file_events(working),
        ) == all_accepted(entries_of(home)) + all_accepted(entries_of(working)),
{
    let none = Seq::<DotenvEvent<E>>::empty();
    lemma_file_is_read(DotenvSource::CodexHome, home, file_events(working));
    lemma_file_is_read(DotenvSource::WorkingDirectory, working, none);
    assert(file_events(working) + none =~= file_events(working));
    assert(all_accepted(entries_of(working)) + assignments(None, none) =~= all_accepted(
        entries_of(working),
    ));
}

proof fn lemma_nothing_protected_is_set<E>(
    source: Option<DotenvSource>,
    events: Seq<DotenvEvent<E>>,
    i: int,
)
    requires
        0 <= i < assignments(source, events).len(),
    ensures
        !is_protected(assignments(source, events)[i].0@),
    decreases events.len(),
{
    let rest = assignments(source_after(source, events.first()), events.drop_first());
    let first = assignments(source, events).len() - rest.len();
    if i >= first {
        lemma_nothing_protected_is_set(
            source_after(source, events.first()),
            events.drop_first(),
            i - first,
        );
    }
}

proof fn lemma_unset_keys_keep(
    environment: Map<Seq<char>, Seq<char>>,
    variables: Seq<(String, String)>,
    key: Seq<char>,
)
    requires
        forall|i: int| 0 <= i < variables.len() ==> (#[trigger] variables[i]).0@ != key,
    ensures
        agree_on(environment, environment_after(environment, variables), key),
    decreases variables.len(),
{
    if variables.len() > 0 {
        assert forall|i: int| 0 <= i < variables.drop_last().len() implies (
        #[trigger] variables.drop_last()[i]).0@ != key by {
            assert(variables.drop_last()[i] == variables[i]);
        }
        lemma_unset_keys_keep(environment, variables.drop_last(), key);
        assert(variables[variables.len() - 1].0@ != key);
    }
}

/// Whatever the `.env` files hold, and however reading them goes: a protected
/// variable is neither created nor modified.
pub proof fn law_protected_variables_are_untouched<E>(
    environment: Map<Seq<char>, Seq<char>>,
    events: Seq<DotenvEvent<E>>,
    key: Seq<char>,
)
    requires
        is_protected(key),
    ensures
        agree_on(
            environment,
            environment_after(environment, assignments(Some(DotenvSource::CodexHome), events)),
            key,
        ),
{
    let set = assignments(Some(DotenvSource::CodexHome), events);
    assert forall|i: int| 0 <= i < set.len() implies (#[trigger] set[i]).0@ != key by {
        lemma_nothing_protected_is_set(Some(DotenvSource::CodexHome), events, i);
    }
    lemma_unset_keys_keep(environment, set, key);
}

proof fn lemma_accepted_concat<E>(
    a: Seq<Result<(String, String), E>>,
    b: Seq<Result<(String, String), E>>,
)
    ensures
        all_accepted(a + b) == all_accepted(a) + all_accepted(b),
    decreases a.len(),
{
    if a.len() == 0 {
        assert(a + b =~= b);
        assert(all_accepted(a) + all_accepted(b) =~= all_accepted(b));
    } else {
        lemma_accepted_concat(a.drop_first(), b);
        assert((a + b).drop_first() =~= a.drop_first() + b);
        assert(all_accepted(a + b) =~= all_accepted(a) + all_accepted(b));
    }
}

proof fn lemma_accepted_keys<E>(
    entries: Seq<Result<(String, String), E>>,
    key: Seq<char>,
    i: int,
)
    requires
        forall|j: int|
            0 <= j < entries.len() ==> (#[trigger] entries[j] matches Ok(variable) ==> variable.0@
                != key),
        0 <= i < all_accepted(entries).len(),
    ensures
        all_accepted(entries)[i].0@ != key,
    decreases entries.len(),
{
    let tail = entries.drop_first();
    let first = all_accepted(entries).len() - all_accepted(tail).len();
    assert(entries[0] == entries.first());
    if i >= first {
        assert forall|j: int| 0 <= j < tail.len() implies (#[trigger] tail[j] matches Ok(variable)
            ==> variable.0@ != key) by {
            assert(tail[j] == entries[j + 1]);
        }
        lemma_accepted_keys(tail, key, i - first);
    }
}

proof fn lemma_environment_concat(
    environment: Map<Seq<char>, Seq<char>>,
    a: Seq<(String, String)>,
    b: Seq<(String, String)>,
)
    ensures
        environment_after(environment, a + b) == environment_after(
            environment_after(environment, a),
            b,
        ),
    decreases b.len(),
{
    if b.len() == 0 {
        assert(a + b =~= a);
    } else {
        lemma_environment_concat(environment, a, b.drop_last());
        assert((a + b).drop_last() =~= a + b.drop_last());
    }
}

/// Of several entries for a variable that is not protected the last one counts:
/// one in the working directory overrides one in the tool's own directory, and
/// either overrides what the environment held before.
pub proof fn law_last_entry_counts<E>(
    environment: Map<Seq<char>, Seq<char>>,
    home: DotenvFile<E>,
    working: DotenvFile<E>,
    i: int,
    key: String,
    value: String,
)
    requires
        !is_protected(key@),
        0 <= i < (entries_of(home) + entries_of(working)).len(),
        (entries_of(home) + entries_of(working))[i] == Ok::<(String, String), E>((key, value)),
        forall|j: int|
            i < j < (entries_of(home) + entries_of(working)).len() ==> (#[trigger] (entries_of(home)
                + entries_of(working))[j] matches Ok(variable) ==> variable.0@ != key@),
    ensures
        environment_after(
            environment,
            assignments(Some(DotenvSource::CodexHome), file_events(home) + file_events(working)),
        ).contains_pair(key@, value@),
{
    law_files_are_loaded_in_order(home, working);
    let entries = entries_of(home) + entries_of(working);
    lemma_accepted_concat(entries_of(home), entries_of(working));
    let before = entries.take(i);
    let this = seq![entries[i]];
    let later = entries.skip(i + 1);
    assert(entries =~= (before + this) + later);
    lemma_accepted_concat(before + this, later);
    lemma_accepted_concat(before, this);
    assert(all_accepted(this) =~= seq![(key, value)]) by {
        reveal_with_fuel(all_accepted, 2);
    }
    let set = all_accepted(before).push((key, value));
    assert(all_accepted(before + this) =~= set);
    lemma_environment_concat(environment, set, all_accepted(later));
    assert(set.drop_last() =~= all_accepted(before));
    assert forall|j: int| 0 <= j < later.len() implies (#[trigger] later[j] matches Ok(variable)
        ==> variable.0@ != key@) by {
        assert(later[j] == entries[j + i + 1]);
    }
    assert forall|j: int| 0 <= j < all_accepted(later).len() implies (
    #[trigger] all_accepted(later)[j]).0@ != key@ by {
        lemma_accepted_keys(later, key@, j);
    }
    lemma_unset_keys_keep(environment_after(environment, set), all_accepted(later), key@);
}

/// A variable that no entry names keeps its value, or stays unset.
pub proof fn law_other_variables_are_untouched<E>(
    environment: Map<Seq<char>, Seq<char>>,
    home: DotenvFile<E>,
    working: DotenvFile<E>,
    key: Seq<char>,
)
    requires
        forall|j: int|
            0 <= j < (entries_of(home) + entries_of(working)).len() ==> (#[trigger] (entries_of(home)
                + entries_of(working))[j] matches Ok(variable) ==> variable.0@ != key),
    ensures
        agree_on(
            environment,
            environment_after(
                environment,
                assignments(
                    Some(DotenvSource::CodexHome),
                    file_events(home) + file_events(working),
                ),
            ),
            key,
        ),
{
    law_files_are_loaded_in_order(home, working);
    let entries = entries_of(home) + entries_of(working);
    lemma_accepted_concat(entries_of(home), entries_of(working));
    assert forall|j: int| 0 <= j < all_accepted(entries).len() implies (
    #[trigger] all_accepted(entries)[j]).0@ != key by {
        lemma_accepted_keys(entries, key, j);
    }
    lemma_unset_keys_keep(environment, all_accepted(entries), key);
}

/// `c` is `upper`, or the small letter for it.
pub open spec fn is_letter(c: char, upper: char, lower: char) -> bool {
    c == upper || c == lower
}

/// `key` begins with `CODEX_`, in capital or in small letters.
pub open spec fn begins_with_codex(key: Seq<char>) -> bool {
    &&& key.len() >= 6
    &&& is_letter(key[0], 'C', 'c')
    &&& is_letter(key[1], 'O', 'o')
    &&& is_letter(key[2], 'D', 'd')
    &&& is_letter(key[3], 'E', 'e')
    &&& is_letter(key[4], 'X', 'x')
    &&& key[5] == '_'
}

proof fn lemma_protected_begins_with_codex(key: Seq<char>)
    ensures
        is_protected(key) <==> begins_with_codex(key),
{
    reveal_strlit("CODEX_");
    let prefix = ILLEGAL_ENV_VAR_PREFIX@;
    assert(prefix =~= seq!['C', 'O', 'D', 'E', 'X', '_']);
    let upper = chars::ascii_uppercase(key);
    if key.len() >= 6 {
        assert forall|i: int| 0 <= i < 6 implies #[trigger] upper.subrange(0, 6)[i]
            == chars::ascii_upper(key[i]) by {}
        if is_protected(key) {
            let start = upper.subrange(0, 6);
            assert(start == prefix);
            assert(start[0] == 'C' && start[1] == 'O' && start[2] == 'D' && start[3] == 'E'
                && start[4] == 'X' && start[5] == '_');
        }
        if begins_with_codex(key) {
            assert(upper.subrange(0, 6) =~= prefix);
        }
    }
}

/// Just the variables whose names begin with `CODEX_`, in whatever letters, are
/// refused: any other entry that could be read is set as it stands, whatever its
/// name and its value are.
pub proof fn law_only_codex_variables_are_refused<E>(
    entry: Result<(String, String), E>,
    r: Option<(String, String)>,
)
    requires
        call_ensures(set_filtered::<E>, (entry,), r),
    ensures
        r is Some <==> (entry matches Ok(variable) && !begins_with_codex(variable.0@)),
        r matches Some(variable) ==> entry == Ok::<(String, String), E>(variable),
        forall|key: Seq<char>| is_protected(key) <==> #[trigger] begins_with_codex(key),
{
    assert forall|key: Seq<char>| is_protected(key) <==> #[trigger] begins_with_codex(key) by {
        lemma_protected_begins_with_codex(key);
    }
    if let Ok((key, value)) = entry {
        assert(is_protected(key@) <==> begins_with_codex(key@));
    }
}

/// The loader begins with the file in the tool's own directory.
pub proof fn law_home_is_loaded_first(r: (DotenvLoader, DotenvAction))
    requires
        call_ensures(load_dotenv, (), r),
    ensures
        r.0@ == Some(DotenvSource::CodexHome),
        r.1 == DotenvAction::Open(DotenvSource::CodexHome),
{
}

/// A file is read to its end: no entry ends the loading or goes on to another
/// file, whether it is set, refused or could not be read. An entry that is set
/// is set with the name and the value that it has.
pub proof fn law_every_entry_is_read<E>(
    loader: &mut DotenvLoader,
    entry: Result<(String, String), E>,
    r: DotenvAction,
)
    requires
        call_ensures(DotenvLoader::next::<E>, (loader, DotenvEvent::Entry(entry)), r),
        old(loader)@ is Some,
    ensures
        final(loader)@ == old(loader)@,
        match entry {
            Ok((name, text)) => if begins_with_codex(name@) {
                r is Skip
            } else {
                r matches DotenvAction::SetVar { key, value } && key == name && value == text
            },
            Err(_) => r is Skip,
        },
{
    if let Ok((key, value)) = entry {
        lemma_protected_begins_with_codex(key@);
    }
}

/// Once a file has come to its end, or cannot be read, the next one is opened:
/// the one in the tool's own directory is followed by the one in the working
/// directory, and that one is the last.
pub proof fn law_both_files_are_opened_in_turn<E>(
    loader: &mut DotenvLoader,
    event: DotenvEvent<E>,
    r: DotenvAction,
)
    requires
        call_ensures(DotenvLoader::next::<E>, (loader, event), r),
        event is End || event is Unavailable,
    ensures
        old(loader)@ == Some(DotenvSource::CodexHome) ==> r == DotenvAction::Open(
            DotenvSource::WorkingDirectory,
        ) && final(loader)@ == Some(DotenvSource::WorkingDirectory),
        old(loader)@ == Some(DotenvSource::WorkingDirectory) ==> r is Finish && final(loader)@
            is None,
        old(loader)@ is None ==> r is Finish && final(loader)@ is None,
{
}

} // verus!
