//! One executable that behaves as several: what it does depends on the name it
//! was called by and on its first argument.

use vstd::prelude::*;

use crate::chars;

verus! {

/// Called by this name the executable runs a command in a sandbox.
pub const LINUX_SANDBOX_ARG0: &'static str = "codex-linux-sandbox";

/// Called by this name the executable applies a patch.
pub const APPLY_PATCH_ARG0: &'static str = "apply_patch";

/// A frequent misspelling, which means the same.
pub const MISSPELLED_APPLY_PATCH_ARG0: &'static str = "applypatch";

/// With this first argument the executable applies the patch that is its second.
pub const CODEX_APPLY_PATCH_ARG1: &'static str = "--codex-run-as-apply-patch";

/// An argument of the command line.
#[derive(Clone, Debug, PartialEq, Eq)]
pub enum Arg {
    Utf8(String),
    /// An argument that is not valid UTF-8.
    NotUtf8,
}

/// What a command line asks for.
pub enum Request {
    /// Run a command in a sandbox.
    LinuxSandbox,
    /// Apply the patch that the command line or the standard input gives.
    ApplyPatch,
    /// Apply this patch, if there is one.
    ApplyPatchArgument(Option<Seq<char>>),
    /// None of these: what else the executable is for.
    OrElse,
}

/// The text of the argument at `i`, if there is one and it is UTF-8.
pub open spec fn arg_text(args: Seq<Arg>, i: int) -> Option<Seq<char>> {
    if i < args.len() {
        match args[i] {
            Arg::Utf8(text) => Some(text@),
            Arg::NotUtf8 => None,
        }
    } else {
        None
    }
}

/// What a command line asks for. `exe_name` is the last part of the name that
/// the executable was called by, where it has one and that is UTF-8; `args` are
/// the arguments after it.
pub open spec fn requested(exe_name: Option<Seq<char>>, args: Seq<Arg>) -> Request {
    if exe_name == Some(LINUX_SANDBOX_ARG0@) {
        Request::LinuxSandbox
    } else if exe_name == Some(APPLY_PATCH_ARG0@) || exe_name == Some(
        MISSPELLED_APPLY_PATCH_ARG0@,
    ) {
        Request::ApplyPatch
    } else if arg_text(args, 0) == Some(CODEX_APPLY_PATCH_ARG1@) {
        Request::ApplyPatchArgument(arg_text(args, 1))
    } else {
        Request::OrElse
    }
}

// ---------------------------------------------------------------------------
// Steps
// ---------------------------------------------------------------------------

/// What is to be done next. `P` is the type of file system paths.
pub enum LaunchAction<P> {
    /// Run a command in a sandbox. This does not return.
    RunLinuxSandbox,
    /// Apply the patch that the command line or the standard input gives. This
    /// does not return.
    RunApplyPatch,
    /// Apply a patch.
    ApplyPatch { patch: String },
    /// Leave, after `message` was written to the standard error.
    Exit { code: i32, message: Option<String> },
    /// Load the variables of the `.env` files.
    LoadDotenv,
    /// Make `apply_patch` available on the `PATH`.
    PrependPath,
    /// Create the runtime, after `warning` was written to the standard error.
    CreateRuntime { warning: Option<String> },
    /// Find out which file is being executed.
    FindCurrentExe,
    /// Run what else the executable is for; it is told which file can run a
    /// command in a sandbox.
    RunMain { codex_linux_sandbox_exe: Option<P> },
    /// Return an error.
    Fail { error: String },
}

/// What came of the last [`LaunchAction`].
pub enum LaunchEvent<P> {
    /// The patch was applied, or it was not.
    PatchApplied { ok: bool },
    /// The variables are loaded.
    DotenvLoaded,
    /// `apply_patch` is on the `PATH`, or this is why it is not.
    PathPrepended(Result<(), String>),
    /// The runtime is there, or this is why it is not.
    RuntimeCreated(Result<(), String>),
    /// The file that is executed, if it is known.
    CurrentExe(Option<P>),
}

/// What a [`LaunchAction`] says.
pub enum LaunchActionView<P> {
    RunLinuxSandbox,
    RunApplyPatch,
    ApplyPatch { patch: Seq<char> },
    Exit { code: i32, message: Option<Seq<char>> },
    LoadDotenv,
    PrependPath,
    CreateRuntime { warning: Option<Seq<char>> },
    FindCurrentExe,
    RunMain { codex_linux_sandbox_exe: Option<P> },
    Fail { error: Seq<char> },
}

/// The text, if there is one.
pub open spec fn text_view(text: Option<String>) -> Option<Seq<char>> {
    match text {
        Some(text) => Some(text@),
        None => None,
    }
}

impl<P> View for LaunchAction<P> {
    type V = LaunchActionView<P>;

    open spec fn view(&self) -> LaunchActionView<P> {
        match *self {
            LaunchAction::RunLinuxSandbox => LaunchActionView::RunLinuxSandbox,
            LaunchAction::RunApplyPatch => LaunchActionView::RunApplyPatch,
            LaunchAction::ApplyPatch { patch } => LaunchActionView::ApplyPatch { patch: patch@ },
            LaunchAction::Exit { code, message } => LaunchActionView::Exit {
                code,
                message: text_view(message),
            },
            LaunchAction::LoadDotenv => LaunchActionView::LoadDotenv,
            LaunchAction::PrependPath => LaunchActionView::PrependPath,
            LaunchAction::CreateRuntime { warning } => LaunchActionView::CreateRuntime {
                warning: text_view(warning),
            },
            LaunchAction::FindCurrentExe => LaunchActionView::FindCurrentExe,
            LaunchAction::RunMain { codex_linux_sandbox_exe } => LaunchActionView::RunMain {
                codex_linux_sandbox_exe,
            },
            LaunchAction::Fail { error } => LaunchActionView::Fail { error: error@ },
        }
    }
}

/// What is being waited for.
#[derive(Clone, Copy, Debug, PartialEq, Eq, Structural)]
pub enum LaunchPhase {
    Patch,
    Dotenv,
    Path,
    Runtime,
    CurrentExe,
    Over,
}

/// Takes the executable from its command line to what it is asked for.
pub struct Launch {
    phase: LaunchPhase,
    on_linux: bool,
}

impl Launch {
    /// What is being waited for.
    pub closed spec fn phase(self) -> LaunchPhase {
        self.phase
    }

    /// Whether the platform is Linux.
    pub closed spec fn on_linux(self) -> bool {
        self.on_linux
    }
}

/// What is said where the patch is missing or is not UTF-8.
pub open spec fn missing_patch_message() -> Seq<char> {
    "Error: "@ + CODEX_APPLY_PATCH_ARG1@ + " requires a UTF-8 PATCH argument."@
}

/// What is said where the `PATH` could not be changed.
pub open spec fn path_warning(error: Seq<char>) -> Seq<char> {
    "WARNING: proceeding, even though we could not update PATH: "@ + error
}

/// What is done first about a request.
pub open spec fn first_action<P>(request: Request) -> LaunchActionView<P> {
    match request {
        Request::LinuxSandbox => LaunchActionView::RunLinuxSandbox,
        Request::ApplyPatch => LaunchActionView::RunApplyPatch,
        Request::ApplyPatchArgument(Some(patch)) => LaunchActionView::ApplyPatch { patch },
        Request::ApplyPatchArgument(None) => LaunchActionView::Exit {
            code: 1,
            message: Some(missing_patch_message()),
        },
        Request::OrElse => LaunchActionView::LoadDotenv,
    }
}

/// What is waited for first.
pub open spec fn first_phase(request: Request) -> LaunchPhase {
    match request {
        Request::ApplyPatchArgument(Some(_)) => LaunchPhase::Patch,
        Request::OrElse => LaunchPhase::Dotenv,
        _ => LaunchPhase::Over,
    }
}

/// What is waited for after `event`. An answer that nobody waited for changes
/// nothing.
pub open spec fn launch_phase_after<P>(
    phase: LaunchPhase,
    on_linux: bool,
    event: LaunchEvent<P>,
) -> LaunchPhase {
    match (phase, event) {
        (LaunchPhase::Patch, LaunchEvent::PatchApplied { .. }) => LaunchPhase::Over,
        (LaunchPhase::Dotenv, LaunchEvent::DotenvLoaded) => LaunchPhase::Path,
        (LaunchPhase::Path, LaunchEvent::PathPrepended(_)) => LaunchPhase::Runtime,
        (LaunchPhase::Runtime, LaunchEvent::RuntimeCreated(result)) => if result is Ok && on_linux {
            LaunchPhase::CurrentExe
        } else {
            LaunchPhase::Over
        },
        (LaunchPhase::CurrentExe, LaunchEvent::CurrentExe(_)) => LaunchPhase::Over,
        _ => phase,
    }
}

/// What is to be done after `event`: nothing where the event was not the answer
/// that was waited for.
pub open spec fn launch_action_after<P>(
    phase: LaunchPhase,
    on_linux: bool,
    event: LaunchEvent<P>,
) -> Option<LaunchActionView<P>> {
    match (phase, event) {
        (LaunchPhase::Patch, LaunchEvent::PatchApplied { ok }) => Some(
            LaunchActionView::Exit {
                code: if ok {
                    0
                } else {
                    1
                },
                message: None,
            },
        ),
        (LaunchPhase::Dotenv, LaunchEvent::DotenvLoaded) => Some(LaunchActionView::PrependPath),
        (LaunchPhase::Path, LaunchEvent::PathPrepended(result)) => Some(
            LaunchActionView::CreateRuntime {
                warning: match result {
                    Ok(_) => None,
                    Err(error) => Some(path_warning(error@)),
                },
            },
        ),
        (LaunchPhase::Runtime, LaunchEvent::RuntimeCreated(Err(error))) => Some(
            LaunchActionView::Fail { error: error@ },
        ),
        (LaunchPhase::Runtime, LaunchEvent::RuntimeCreated(Ok(_))) => if on_linux {
            Some(LaunchActionView::FindCurrentExe)
        } else {
            Some(LaunchActionView::RunMain { codex_linux_sandbox_exe: None })
        },
        (LaunchPhase::CurrentExe, LaunchEvent::CurrentExe(exe)) => Some(
            LaunchActionView::RunMain { codex_linux_sandbox_exe: exe },
        ),
        _ => None,
    }
}

/// What an action says, if there is one.
pub open spec fn launch_action_view<P>(action: Option<LaunchAction<P>>) -> Option<
    LaunchActionView<P>,
> {
    match action {
        Some(action) => Some(action@),
        None => None,
    }
}

/// Whether the argument at `i` is `text`.
fn arg_is(args: &Vec<Arg>, i: usize, text: &str) -> (r: bool)
    ensures
        r == (arg_text(args@, i as int) == Some(text@)),
{
    if i < args.len() {
        match &args[i] {
            Arg::Utf8(arg) => chars::same_text(arg.as_str(), text),
            Arg::NotUtf8 => false,
        }
    } else {
        false
    }
}

/// Dispatches on the name that the executable was called by and on its first
/// argument; where neither asks for anything special, what else the executable
/// is for is prepared: first the environment, then the runtime.
///
/// `exe_name` is the last part of the name, where it has one and that is UTF-8;
/// `args` are the arguments after it.
pub fn arg0_dispatch_or_else<P>(exe_name: Option<String>, args: Vec<Arg>, on_linux: bool) -> (r: (
    Launch,
    LaunchAction<P>,
))
    ensures
        r.0.phase() == first_phase(requested(text_view(exe_name), args@)),
        r.0.on_linux() == on_linux,
        r.1@ == first_action::<P>(requested(text_view(exe_name), args@)),
{
    let over = Launch { phase: LaunchPhase::Over, on_linux };
    if let Some(exe_name) = &exe_name {
        if chars::same_text(exe_name.as_str(), LINUX_SANDBOX_ARG0) {
            return (over, LaunchAction::RunLinuxSandbox);
        }
        if chars::same_text(exe_name.as_str(), APPLY_PATCH_ARG0) || chars::same_text(
            exe_name.as_str(),
            MISSPELLED_APPLY_PATCH_ARG0,
        ) {
            return (over, LaunchAction::RunApplyPatch);
        }
    }
    if arg_is(&args, 0, CODEX_APPLY_PATCH_ARG1) {
        if args.len() > 1 {
            if let Arg::Utf8(patch) = &args[1] {
                let launch = Launch { phase: LaunchPhase::Patch, on_linux };
                return (launch, LaunchAction::ApplyPatch { patch: patch.clone() });
            }
        }
        let message = "Error: ".to_string().concat(CODEX_APPLY_PATCH_ARG1).concat(
            " requires a UTF-8 PATCH argument.",
        );
        return (over, LaunchAction::Exit { code: 1, message: Some(message) });
    }
    (Launch { phase: LaunchPhase::Dotenv, on_linux }, LaunchAction::LoadDotenv)
}

impl Launch {
    /// What is to be done next, given what came of the last action. `None`
    /// where the event was not the answer that was waited for; nothing has
    /// changed then.
    pub fn next<P>(&mut self, event: LaunchEvent<P>) -> (r: Option<LaunchAction<P>>)
        ensures
            final(self).phase() == launch_phase_after(old(self).phase(), old(self).on_linux(), event),
            final(self).on_linux() == old(self).on_linux(),
            launch_action_view(r) == launch_action_after(
                old(self).phase(),
                old(self).on_linux(),
                event,
            ),
    {
        match (self.phase, event) {
            (LaunchPhase::Patch, LaunchEvent::PatchApplied { ok }) => {
                self.phase = LaunchPhase::Over;
                let code: i32 = if ok {
                    0
                } else {
                    1
                };
                Some(LaunchAction::Exit { code, message: None })
            },
            (LaunchPhase::Dotenv, LaunchEvent::DotenvLoaded) => {
                self.phase = LaunchPhase::Path;
                Some(LaunchAction::PrependPath)
            },
            (LaunchPhase::Path, LaunchEvent::PathPrepended(result)) => {
                self.phase = LaunchPhase::Runtime;
                let warning = match result {
                    Ok(_) => None,
                    Err(error) => Some(
                        "WARNING: proceeding, even though we could not update PATH: ".to_string().concat(
                        error.as_str()),
                    ),
                };
                Some(LaunchAction::CreateRuntime { warning })
            },
            (LaunchPhase::Runtime, LaunchEvent::RuntimeCreated(Err(error))) => {
                self.phase = LaunchPhase::Over;
                Some(LaunchAction::Fail { error })
            },
            (LaunchPhase::Runtime, LaunchEvent::RuntimeCreated(Ok(_))) => {
                if self.on_linux {
                    self.phase = LaunchPhase::CurrentExe;
                    Some(LaunchAction::FindCurrentExe)
                } else {
                    self.phase = LaunchPhase::Over;
                    Some(LaunchAction::RunMain { codex_linux_sandbox_exe: None })
                }
            },
            (LaunchPhase::CurrentExe, LaunchEvent::CurrentExe(exe)) => {
                self.phase = LaunchPhase::Over;
                Some(LaunchAction::RunMain { codex_linux_sandbox_exe: exe })
            },
            _ => None,
        }
    }
}

// ---------------------------------------------------------------------------
// Laws
// ---------------------------------------------------------------------------

/// What is waited for after `events`, one after the other.
pub open spec fn launch_phase_run<P>(
    request: Request,
    on_linux: bool,
    events: Seq<LaunchEvent<P>>,
) -> LaunchPhase
    decreases events.len(),
{
    if events.len() == 0 {
        first_phase(request)
    } else {
        launch_phase_after(
            launch_phase_run(request, on_linux, events.drop_last()),
            on_linux,
            events.last(),
        )
    }
}

/// All that is done about a request during `events`.
pub open spec fn launch_actions<P>(
    request: Request,
    on_linux: bool,
    events: Seq<LaunchEvent<P>>,
) -> Seq<LaunchActionView<P>>
    decreases events.len(),
{
    if events.len() == 0 {
        seq![first_action(request)]
    } else {
        launch_actions(request, on_linux, events.drop_last()) + match launch_action_after(
            launch_phase_run(request, on_linux, events.drop_last()),
            on_linux,
            events.last(),
        ) {
            Some(action) => seq![action],
            None => Seq::empty(),
        }
    }
}

/// An action that touches the environment, or needs it to be ready.
pub open spec fn belongs_to_main<P>(action: LaunchActionView<P>) -> bool {
    ||| action is LoadDotenv
    ||| action is PrependPath
    ||| action is CreateRuntime
    ||| action is FindCurrentExe
    ||| action is RunMain
}

/// The environment of the process is changed while there is one thread only:
/// the variables are loaded first, the `PATH` is changed next, and the runtime
/// comes third; what else the executable is for runs after these.
pub proof fn law_environment_before_threads<P>(on_linux: bool, events: Seq<LaunchEvent<P>>)
    ensures
        ({
            let actions = launch_actions(Request::OrElse, on_linux, events);
            &&& actions[0] is LoadDotenv
            &&& actions.len() > 1 ==> actions[1] is PrependPath
            &&& actions.len() > 2 ==> actions[2] is CreateRuntime
            &&& forall|i: int|
                0 < i < actions.len() ==> #[trigger] actions[i] !is LoadDotenv && (actions[i] is PrependPath
                    ==> i == 1) && (actions[i] is CreateRuntime ==> i == 2) && (actions[i] is RunMain
                    ==> i > 2)
        }),
{
    lemma_main_progress(on_linux, events);
}

proof fn lemma_main_progress<P>(on_linux: bool, events: Seq<LaunchEvent<P>>)
    ensures
        ({
            let actions = launch_actions(Request::OrElse, on_linux, events);
            let phase = launch_phase_run(Request::OrElse, on_linux, events);
            &&& actions.len() > 0
            &&& actions[0] is LoadDotenv
            &&& actions.len() > 1 ==> actions[1] is PrependPath
            &&& actions.len() > 2 ==> actions[2] is CreateRuntime
            &&& forall|i: int|
                3 <= i < actions.len() ==> #[trigger] actions[i] is FindCurrentExe
                    || actions[i] is RunMain || actions[i] is Fail
            &&& forall|i: int|
                0 <= i < actions.len() && #[trigger] actions[i] is RunMain ==> i == actions.len()
                    - 1 && phase is Over
            &&& phase is CurrentExe ==> on_linux && actions.last() is FindCurrentExe
            &&& phase is Over ==> actions.last() is RunMain || actions.last() is Fail
            &&& match phase {
                LaunchPhase::Patch => false,
                LaunchPhase::Dotenv => actions.len() == 1,
                LaunchPhase::Path => actions.len() == 2,
                LaunchPhase::Runtime => actions.len() == 3,
                LaunchPhase::CurrentExe | LaunchPhase::Over => actions.len() > 3,
            }
        }),
    decreases events.len(),
{
    if events.len() > 0 {
        lemma_main_progress(on_linux, events.drop_last());
    }
}

/// What else the executable is for runs once at most, as the last thing that is
/// done, and it does run where all that was waited for has come, unless the
/// runtime could not be created.
pub proof fn law_main_runs_once<P>(on_linux: bool, events: Seq<LaunchEvent<P>>)
    ensures
        ({
            let actions = launch_actions(Request::OrElse, on_linux, events);
            &&& forall|i: int, j: int|
                0 <= i < actions.len() && 0 <= j < actions.len() && #[trigger] actions[i] is RunMain
                    && #[trigger] actions[j] is RunMain ==> i == j
            &&& forall|i: int|
                0 <= i < actions.len() && #[trigger] actions[i] is RunMain ==> i == actions.len()
                    - 1
            &&& launch_phase_run(Request::OrElse, on_linux, events) is Over
                ==> actions.last() is RunMain || actions.last() is Fail
        }),
{
    lemma_main_progress(on_linux, events);
}

/// What comes of the actions where the runtime is created; `path` is how the
/// change of the `PATH` went.
pub open spec fn launch_successes<P>(
    on_linux: bool,
    path: Result<(), String>,
    exe: Option<P>,
) -> Seq<LaunchEvent<P>> {
    let events = seq![
        LaunchEvent::DotenvLoaded,
        LaunchEvent::PathPrepended(path),
        LaunchEvent::RuntimeCreated(Ok(())),
    ];
    if on_linux {
        events.push(LaunchEvent::CurrentExe(exe))
    } else {
        events
    }
}

/// Where the runtime is created, what else the executable is for runs, whether
/// or not the `PATH` could be changed. On Linux it is told which file is
/// executed, elsewhere nothing.
pub proof fn law_main_runs_once_the_runtime_is_there<P>(
    on_linux: bool,
    path: Result<(), String>,
    exe: Option<P>,
)
    ensures
        ({
            let actions = launch_actions(
                Request::OrElse,
                on_linux,
                launch_successes(on_linux, path, exe),
            );
            let warning = match path {
                Ok(_) => None,
                Err(error) => Some(path_warning(error@)),
            };
            actions == if on_linux {
                seq![
                    LaunchActionView::LoadDotenv,
                    LaunchActionView::PrependPath,
                    LaunchActionView::CreateRuntime { warning },
                    LaunchActionView::FindCurrentExe,
                    LaunchActionView::RunMain { codex_linux_sandbox_exe: exe },
                ]
            } else {
                seq![
                    LaunchActionView::LoadDotenv,
                    LaunchActionView::PrependPath,
                    LaunchActionView::CreateRuntime { warning },
                    LaunchActionView::RunMain { codex_linux_sandbox_exe: None },
                ]
            }
        }),
{
    let e1 = seq![LaunchEvent::<P>::DotenvLoaded];
    let e2 = e1.push(LaunchEvent::PathPrepended(path));
    let e3 = e2.push(LaunchEvent::RuntimeCreated(Ok(())));
    let e4 = e3.push(LaunchEvent::CurrentExe(exe));
    assert(e1.drop_last() =~= Seq::<LaunchEvent<P>>::empty());
    assert(e2.drop_last() =~= e1);
    assert(e3.drop_last() =~= e2);
    assert(e4.drop_last() =~= e3);
    reveal_with_fuel(launch_phase_run, 5);
    reveal_with_fuel(launch_actions, 5);
    let events = if on_linux {
        e4
    } else {
        e3
    };
    assert(launch_successes(on_linux, path, exe) =~= events);
    let warning = match path {
        Ok(_) => None,
        Err(error) => Some(path_warning(error@)),
    };
    let first = seq![
        LaunchActionView::LoadDotenv,
        LaunchActionView::PrependPath,
        LaunchActionView::CreateRuntime { warning },
    ];
    if on_linux {
        assert(launch_actions(Request::OrElse, on_linux, e4) =~= first.push(
            LaunchActionView::FindCurrentExe,
        ).push(LaunchActionView::RunMain { codex_linux_sandbox_exe: exe }));
    } else {
        assert(launch_actions(Request::OrElse, on_linux, e3) =~= first.push(
            LaunchActionView::RunMain { codex_linux_sandbox_exe: None },
        ));
    }
}

/// An executable that is asked for a sandbox or for a patch does that alone: it
/// loads no variables, leaves the `PATH` as it is and creates no runtime.
pub proof fn law_special_requests_leave_the_environment<P>(
    request: Request,
    on_linux: bool,
    events: Seq<LaunchEvent<P>>,
)
    requires
        request !is OrElse,
    ensures
        forall|i: int|
            0 <= i < launch_actions(request, on_linux, events).len() ==> !belongs_to_main(
                #[trigger] launch_actions(request, on_linux, events)[i],
            ),
        launch_phase_run(request, on_linux, events) is Patch || launch_phase_run(
            request,
            on_linux,
            events,
        ) is Over,
    decreases events.len(),
{
    if events.len() > 0 {
        law_special_requests_leave_the_environment(request, on_linux, events.drop_last());
        let before = launch_actions(request, on_linux, events.drop_last());
        let actions = launch_actions(request, on_linux, events);
        assert forall|i: int| 0 <= i < actions.len() implies !belongs_to_main(
            #[trigger] actions[i],
        ) by {
            if i < before.len() {
                assert(!belongs_to_main(before[i]));
            }
        }
    }
}

/// That `apply_patch` could not be put on the `PATH` stops nothing: the runtime
/// is created all the same, with a warning.
pub proof fn law_path_failure_is_not_fatal<P>(on_linux: bool, error: String)
    ensures
        launch_phase_after::<P>(
            LaunchPhase::Path,
            on_linux,
            LaunchEvent::PathPrepended(Err(error)),
        ) == launch_phase_after::<P>(
            LaunchPhase::Path,
            on_linux,
            LaunchEvent::PathPrepended(Ok(())),
        ),
        launch_action_after::<P>(
            LaunchPhase::Path,
            on_linux,
            LaunchEvent::PathPrepended(Err(error)),
        ) == Some(LaunchActionView::<P>::CreateRuntime { warning: Some(path_warning(error@)) }),
{
}

/// The argument at `i` is there, is UTF-8 and reads `text`.
pub open spec fn argument_is(args: Seq<Arg>, i: int, text: Seq<char>) -> bool {
    i < args.len() && (args[i] matches Arg::Utf8(arg) && arg@ == text)
}

/// The executable was called by the name `text`.
pub open spec fn called(exe_name: Option<String>, text: Seq<char>) -> bool {
    exe_name matches Some(name) && name@ == text
}

proof fn lemma_names_differ()
    ensures
        "codex-linux-sandbox"@ != "apply_patch"@,
        "codex-linux-sandbox"@ != "applypatch"@,
{
    reveal_strlit("codex-linux-sandbox");
    reveal_strlit("apply_patch");
    reveal_strlit("applypatch");
    assert("codex-linux-sandbox"@.len() != "apply_patch"@.len());
    assert("codex-linux-sandbox"@.len() != "applypatch"@.len());
}

/// The name decides alone where it is a special one, whatever the arguments
/// are. Under any other name the first argument decides. What else the
/// executable is for is begun only where neither is special.
pub proof fn law_name_decides_before_arguments<P>(
    exe_name: Option<String>,
    args: Vec<Arg>,
    on_linux: bool,
    r: (Launch, LaunchAction<P>),
)
    requires
        call_ensures(arg0_dispatch_or_else::<P>, (exe_name, args, on_linux), r),
    ensures
        called(exe_name, "codex-linux-sandbox"@) <==> r.1 is RunLinuxSandbox,
        called(exe_name, "apply_patch"@) || called(exe_name, "applypatch"@) <==> r.1
            is RunApplyPatch,
        r.1 is LoadDotenv <==> !called(exe_name, "codex-linux-sandbox"@) && !called(
            exe_name,
            "apply_patch"@,
        ) && !called(exe_name, "applypatch"@) && !argument_is(
            args@,
            0,
            "--codex-run-as-apply-patch"@,
        ),
        r.1 is ApplyPatch || r.1 is Exit ==> argument_is(args@, 0, "--codex-run-as-apply-patch"@),
        r.1 is RunLinuxSandbox || r.1 is RunApplyPatch || r.1 is LoadDotenv || r.1 is ApplyPatch
            || r.1 is Exit,
        r.0.on_linux() == on_linux,
        r.0.phase() == (if r.1 is LoadDotenv {
            LaunchPhase::Dotenv
        } else if r.1 is ApplyPatch {
            LaunchPhase::Patch
        } else {
            LaunchPhase::Over
        }),
{
    lemma_names_differ();
}

/// Asked for it by its first argument, the executable applies the patch that is
/// its second, letter for letter; where there is none, or one that is not
/// UTF-8, it leaves with an error that says so. Further arguments change
/// nothing.
pub proof fn law_patch_argument_is_applied<P>(
    exe_name: Option<String>,
    args: Vec<Arg>,
    on_linux: bool,
    r: (Launch, LaunchAction<P>),
)
    requires
        call_ensures(arg0_dispatch_or_else::<P>, (exe_name, args, on_linux), r),
        !called(exe_name, "codex-linux-sandbox"@),
        !called(exe_name, "apply_patch"@),
        !called(exe_name, "applypatch"@),
        argument_is(args@, 0, "--codex-run-as-apply-patch"@),
    ensures
        args@.len() > 1 && args@[1] is Utf8 ==> (r.1 matches LaunchAction::ApplyPatch { patch }
            && patch@ == args@[1]->Utf8_0@),
        args@.len() <= 1 || args@[1] is NotUtf8 ==> (r.1 matches LaunchAction::Exit {
            code,
            message,
        } && code == 1 && (message matches Some(text) && text@ == "Error: "@
            + "--codex-run-as-apply-patch"@ + " requires a UTF-8 PATCH argument."@)),
{
}

/// A patch that was applied makes the executable leave with success, one that
/// was not with failure, and without a word either way.
pub proof fn law_exit_code_tells_of_the_patch<P>(
    launch: &mut Launch,
    ok: bool,
    r: Option<LaunchAction<P>>,
)
    requires
        old(launch).phase() == LaunchPhase::Patch,
        call_ensures(Launch::next::<P>, (launch, LaunchEvent::PatchApplied { ok }), r),
    ensures
        r matches Some(LaunchAction::Exit { code, message }) && message is None && (code == 0
            <==> ok) && (code == 1 <==> !ok),
        final(launch).phase() == LaunchPhase::Over,
{
}

/// The steps towards what else the executable is for follow one another,
/// whatever came of the `PATH`: a failure there becomes a warning that gives its
/// reason, and a failure of the runtime is returned as it is.
pub proof fn law_launch_goes_on<P>(
    launch: &mut Launch,
    event: LaunchEvent<P>,
    r: Option<LaunchAction<P>>,
)
    requires
        call_ensures(Launch::next::<P>, (launch, event), r),
    ensures
        final(launch).on_linux() == old(launch).on_linux(),
        old(launch).phase() == LaunchPhase::Dotenv && event is DotenvLoaded ==> r == Some(
            LaunchAction::<P>::PrependPath,
        ) && final(launch).phase() == LaunchPhase::Path,
        old(launch).phase() == LaunchPhase::Path && event is PathPrepended ==> final(launch).phase() == LaunchPhase::Runtime && (r matches Some(
            LaunchAction::CreateRuntime { warning },
        ) && match event->PathPrepended_0 {
            Ok(_) => warning is None,
            Err(error) => warning matches Some(text) && text@
                == "WARNING: proceeding, even though we could not update PATH: "@ + error@,
        }),
        old(launch).phase() == LaunchPhase::Runtime && event is RuntimeCreated ==> match event->RuntimeCreated_0 {
            Err(error) => final(launch).phase() == LaunchPhase::Over && (r matches Some(
                LaunchAction::Fail { error: returned },
            ) && returned@ == error@),
            Ok(_) => if old(launch).on_linux() {
                r == Some(LaunchAction::<P>::FindCurrentExe) && final(launch).phase()
                    == LaunchPhase::CurrentExe
            } else {
                r == Some(LaunchAction::<P>::RunMain { codex_linux_sandbox_exe: None }) && final(launch).phase() == LaunchPhase::Over
            },
        },
        old(launch).phase() == LaunchPhase::CurrentExe && event is CurrentExe ==> r == Some(
            LaunchAction::<P>::RunMain { codex_linux_sandbox_exe: event->CurrentExe_0 },
        ) && final(launch).phase() == LaunchPhase::Over,
{
}

/// An answer that nobody waited for is passed over: nothing is done about it,
/// and the answer that is waited for may still come.
pub proof fn law_other_answers_are_passed_over<P>(
    launch: &mut Launch,
    event: LaunchEvent<P>,
    r: Option<LaunchAction<P>>,
)
    requires
        call_ensures(Launch::next::<P>, (launch, event), r),
        event is PatchApplied ==> old(launch).phase() != LaunchPhase::Patch,
        event is DotenvLoaded ==> old(launch).phase() != LaunchPhase::Dotenv,
        event is PathPrepended ==> old(launch).phase() != LaunchPhase::Path,
        event is RuntimeCreated ==> old(launch).phase() != LaunchPhase::Runtime,
        event is CurrentExe ==> old(launch).phase() != LaunchPhase::CurrentExe,
    ensures
        r is None,
        final(launch).phase() == old(launch).phase(),
        final(launch).on_linux() == old(launch).on_linux(),
{
}

} // verus!
