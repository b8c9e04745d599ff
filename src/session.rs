use vstd::prelude::*;
use crate::triple::{
    TargetCatalog, text_eq, list_contains, is_supported_host, needs_emulation,
    needs_emulation_spec, supported_host,
};

verus! {

/// The subcommands the router tells apart; only the first four may take the
/// cross path.
#[derive(PartialEq, Eq, Structural, Clone, Copy, Debug)]
pub enum Subcommand {
    Build,
    Run,
    Rustc,
    Test,
    Other,
}

pub open spec fn subcommand_of(name: Option<Seq<char>>) -> Subcommand {
    match name {
        Some(s) => if s == "build"@ {
            Subcommand::Build
        } else if s == "run"@ {
            Subcommand::Run
        } else if s == "rustc"@ {
            Subcommand::Rustc
        } else if s == "test"@ {
            Subcommand::Test
        } else {
            Subcommand::Other
        },
        None => Subcommand::Other,
    }
}

/// Subcommands that may be redirected into a container.
pub open spec fn is_cross_subcommand(s: Subcommand) -> bool {
    s != Subcommand::Other
}

/// Subcommands that execute what they build, and so may need the emulator.
pub open spec fn executes_binaries(s: Subcommand) -> bool {
    s == Subcommand::Run || s == Subcommand::Test
}

/// Classifies the subcommand named on the command line.
pub fn classify(name: Option<&str>) -> (r: Subcommand)
    ensures
        r == subcommand_of(match name {
            Some(s) => Some(s@),
            None => None,
        }),
{
    match name {
        Some(s) => if text_eq(s, "build") {
            Subcommand::Build
        } else if text_eq(s, "run") {
            Subcommand::Run
        } else if text_eq(s, "rustc") {
            Subcommand::Rustc
        } else if text_eq(s, "test") {
            Subcommand::Test
        } else {
            Subcommand::Other
        },
        None => Subcommand::Other,
    }
}

/// The target a command builds for: the explicit one, else the host.
pub open spec fn effective_target(explicit: Option<Seq<char>>, host: Seq<char>) -> Seq<char> {
    match explicit {
        Some(t) => t,
        None => host,
    }
}

/// Which preparation or execution step failed.
#[derive(PartialEq, Eq, Structural, Clone, Copy, Debug)]
pub enum FailureKind {
    /// The project root could not be looked up.
    ProjectRoot,
    /// The installed toolchain components could not be listed.
    InstalledTargets,
    /// The toolchain component for the target could not be installed.
    Install,
    /// The emulator could not be queried or registered.
    Registration,
    /// The native or containerized process could not be started.
    Launch,
}

/// A fatal error: what failed, and the chain of causes reported by the
/// collaborator that failed, outermost first.
#[derive(PartialEq, Eq, Clone, Debug)]
pub struct Failure {
    pub kind: FailureKind,
    pub causes: Vec<String>,
}

pub struct FailureView {
    pub kind: FailureKind,
    pub causes: Seq<Seq<char>>,
}

impl View for Failure {
    type V = FailureView;

    open spec fn view(&self) -> FailureView {
        FailureView { kind: self.kind, causes: self.causes.deep_view() }
    }
}

/// What the caller must do next.
#[derive(PartialEq, Eq, Clone, Debug)]
pub enum Action {
    /// Determine the host triple of the running toolchain.
    ResolveHost,
    /// Look for the project root.
    FindRoot,
    /// List the targets whose toolchain component is installed.
    ListInstalled,
    /// Install the toolchain component of `target`.
    Install { target: String },
    /// Ask whether the emulator is registered with the kernel.
    QueryEmulation,
    /// Register the emulator with the kernel.
    RegisterEmulation,
    /// Run the native tool with these arguments, unmodified.
    RunNative { args: Vec<String> },
    /// Run the tool with these arguments in the container for `target`,
    /// with the project at `root`.
    RunContainer { target: String, args: Vec<String>, root: String },
    /// End the invocation with this exit code.
    Exit { code: i32 },
    /// End the invocation with this fatal error (exit code 1).
    Fail { failure: Failure },
}

pub enum ActionView {
    ResolveHost,
    FindRoot,
    ListInstalled,
    Install { target: Seq<char> },
    QueryEmulation,
    RegisterEmulation,
    RunNative { args: Seq<Seq<char>> },
    RunContainer { target: Seq<char>, args: Seq<Seq<char>>, root: Seq<char> },
    Exit { code: int },
    Fail { failure: FailureView },
}

impl View for Action {
    type V = ActionView;

    open spec fn view(&self) -> ActionView {
        match self {
            Action::ResolveHost => ActionView::ResolveHost,
            Action::FindRoot => ActionView::FindRoot,
            Action::ListInstalled => ActionView::ListInstalled,
            Action::Install { target } => ActionView::Install { target: target@ },
            Action::QueryEmulation => ActionView::QueryEmulation,
            Action::RegisterEmulation => ActionView::RegisterEmulation,
            Action::RunNative { args } => ActionView::RunNative { args: args.deep_view() },
            Action::RunContainer { target, args, root } => ActionView::RunContainer {
                target: target@,
                args: args.deep_view(),
                root: root@,
            },
            Action::Exit { code } => ActionView::Exit { code: *code as int },
            Action::Fail { failure } => ActionView::Fail { failure: failure@ },
        }
    }
}

/// The outcome of an action, handed back by the caller. An `Err` holds the
/// chain of causes, outermost first.
#[derive(PartialEq, Eq, Debug)]
pub enum Event {
    /// The invocation starts.
    Begin,
    /// The host triple.
    Host(String),
    /// The project root, if there is one.
    Root(Result<Option<String>, Vec<String>>),
    /// The targets whose toolchain component is installed.
    InstalledTargets(Result<Vec<String>, Vec<String>>),
    /// The component installation finished.
    Installed(Result<(), Vec<String>>),
    /// Whether the emulator is registered.
    Emulation(Result<bool, Vec<String>>),
    /// The emulator registration finished.
    Registered(Result<(), Vec<String>>),
    /// The delegated process ended: its exit code, or `None` when a signal
    /// ended it.
    Exited(Result<Option<i32>, Vec<String>>),
}

pub enum EventView {
    Begin,
    Host(Seq<char>),
    Root(Result<Option<Seq<char>>, Seq<Seq<char>>>),
    InstalledTargets(Result<Seq<Seq<char>>, Seq<Seq<char>>>),
    Installed(Result<(), Seq<Seq<char>>>),
    Emulation(Result<bool, Seq<Seq<char>>>),
    Registered(Result<(), Seq<Seq<char>>>),
    Exited(Result<Option<i32>, Seq<Seq<char>>>),
}

pub open spec fn causes_of<T>(r: Result<T, Vec<String>>) -> Result<T, Seq<Seq<char>>> {
    match r {
        Ok(v) => Ok(v),
        Err(c) => Err(c.deep_view()),
    }
}

impl View for Event {
    type V = EventView;

    open spec fn view(&self) -> EventView {
        match self {
            Event::Begin => EventView::Begin,
            Event::Host(h) => EventView::Host(h@),
            Event::Root(r) => EventView::Root(
                match r {
                    Ok(Some(p)) => Ok(Some(p@)),
                    Ok(None) => Ok(None),
                    Err(c) => Err(c.deep_view()),
                },
            ),
            Event::InstalledTargets(r) => EventView::InstalledTargets(
                match r {
                    Ok(l) => Ok(l.deep_view()),
                    Err(c) => Err(c.deep_view()),
                },
            ),
            Event::Installed(r) => EventView::Installed(causes_of(*r)),
            Event::Emulation(r) => EventView::Emulation(causes_of(*r)),
            Event::Registered(r) => EventView::Registered(causes_of(*r)),
            Event::Exited(r) => EventView::Exited(causes_of(*r)),
        }
    }
}

/// Where the invocation stands, with what it has learnt so far.
pub enum Stage {
    Start,
    AwaitHost,
    AwaitRoot { host: String, target: String },
    AwaitInstalled { target: String, root: String },
    AwaitInstall { target: String, root: String },
    AwaitEmulation { target: String, root: String },
    AwaitRegister { target: String, root: String },
    AwaitExit,
    Done,
}

pub enum StageView {
    Start,
    AwaitHost,
    AwaitRoot { host: Seq<char>, target: Seq<char> },
    AwaitInstalled { target: Seq<char>, root: Seq<char> },
    AwaitInstall { target: Seq<char>, root: Seq<char> },
    AwaitEmulation { target: Seq<char>, root: Seq<char> },
    AwaitRegister { target: Seq<char>, root: Seq<char> },
    AwaitExit,
    Done,
}

impl View for Stage {
    type V = StageView;

    open spec fn view(&self) -> StageView {
        match self {
            Stage::Start => StageView::Start,
            Stage::AwaitHost => StageView::AwaitHost,
            Stage::AwaitRoot { host, target } => StageView::AwaitRoot {
                host: host@,
                target: target@,
            },
            Stage::AwaitInstalled { target, root } => StageView::AwaitInstalled {
                target: target@,
                root: root@,
            },
            Stage::AwaitInstall { target, root } => StageView::AwaitInstall {
                target: target@,
                root: root@,
            },
            Stage::AwaitEmulation { target, root } => StageView::AwaitEmulation {
                target: target@,
                root: root@,
            },
            Stage::AwaitRegister { target, root } => StageView::AwaitRegister {
                target: target@,
                root: root@,
            },
            Stage::AwaitExit => StageView::AwaitExit,
            Stage::Done => StageView::Done,
        }
    }
}

/// One invocation of the tool: its fixed context and its progress.
pub struct Session {
    /// The triples eligible for containerized builds.
    pub catalog: TargetCatalog,
    pub subcommand: Subcommand,
    /// The target given with `--target`, if any.
    pub target: Option<String>,
    /// The full argument list, handed on verbatim when the command runs.
    pub args: Vec<String>,
    pub stage: Stage,
}

pub struct SessionView {
    pub catalog: Seq<Seq<char>>,
    pub subcommand: Subcommand,
    pub target: Option<Seq<char>>,
    pub args: Seq<Seq<char>>,
    pub stage: StageView,
}

impl View for Session {
    type V = SessionView;

    open spec fn view(&self) -> SessionView {
        SessionView {
            catalog: self.catalog@,
            subcommand: self.subcommand,
            target: match self.target {
                Some(t) => Some(t@),
                None => None,
            },
            args: self.args.deep_view(),
            stage: self.stage@,
        }
    }
}

/// Whether `e` answers what a session at `stage` has asked for.
pub open spec fn accepts(stage: StageView, e: EventView) -> bool {
    match (stage, e) {
        (StageView::Start, EventView::Begin) => true,
        (StageView::AwaitHost, EventView::Host(_)) => true,
        (StageView::AwaitRoot { .. }, EventView::Root(_)) => true,
        (StageView::AwaitInstalled { .. }, EventView::InstalledTargets(_)) => true,
        (StageView::AwaitInstall { .. }, EventView::Installed(_)) => true,
        (StageView::AwaitEmulation { .. }, EventView::Emulation(_)) => true,
        (StageView::AwaitRegister { .. }, EventView::Registered(_)) => true,
        (StageView::AwaitExit, EventView::Exited(_)) => true,
        _ => false,
    }
}

/// The exit code of the invocation when the delegated process ended with
/// `status`: its own code, or 1 when a signal ended it.
pub open spec fn exit_code_spec(status: Option<i32>) -> int {
    match status {
        Some(c) => c as int,
        None => 1,
    }
}

pub open spec fn with_stage(s: SessionView, stage: StageView) -> SessionView {
    SessionView { stage, ..s }
}

/// Run natively with the whole argument list.
pub open spec fn pass_through(s: SessionView) -> (SessionView, ActionView) {
    (
        SessionView { stage: StageView::AwaitExit, args: Seq::empty(), ..s },
        ActionView::RunNative { args: s.args },
    )
}

/// Run in the container for `target`.
pub open spec fn dispatch(s: SessionView, target: Seq<char>, root: Seq<char>) -> (
    SessionView,
    ActionView,
) {
    (
        SessionView { stage: StageView::AwaitExit, args: Seq::empty(), ..s },
        ActionView::RunContainer { target, args: s.args, root },
    )
}

pub open spec fn fail(s: SessionView, kind: FailureKind, causes: Seq<Seq<char>>) -> (
    SessionView,
    ActionView,
) {
    (
        with_stage(s, StageView::Done),
        ActionView::Fail { failure: FailureView { kind, causes } },
    )
}

/// The step after the component of `target` is known to be installed: make
/// sure of the emulator where the command runs foreign binaries, else run.
pub open spec fn after_install(s: SessionView, target: Seq<char>, root: Seq<char>) -> (
    SessionView,
    ActionView,
) {
    if executes_binaries(s.subcommand) && needs_emulation_spec(target) {
        (with_stage(s, StageView::AwaitEmulation { target, root }), ActionView::QueryEmulation)
    } else {
        dispatch(s, target, root)
    }
}

/// The routing decision: given an event that the session accepts, its next
/// state and the action it asks for.
pub open spec fn next(s: SessionView, e: EventView) -> (SessionView, ActionView) {
    match (s.stage, e) {
        (StageView::Start, EventView::Begin) => if is_cross_subcommand(s.subcommand) {
            (with_stage(s, StageView::AwaitHost), ActionView::ResolveHost)
        } else {
            pass_through(s)
        },
        (StageView::AwaitHost, EventView::Host(host)) => (
            with_stage(
                s,
                StageView::AwaitRoot { host, target: effective_target(s.target, host) },
            ),
            ActionView::FindRoot,
        ),
        (StageView::AwaitRoot { host, target }, EventView::Root(r)) => match r {
            Err(c) => fail(s, FailureKind::ProjectRoot, c),
            Ok(None) => pass_through(s),
            Ok(Some(root)) => if host == supported_host() && s.catalog.contains(target) {
                (
                    with_stage(s, StageView::AwaitInstalled { target, root }),
                    ActionView::ListInstalled,
                )
            } else {
                pass_through(s)
            },
        },
        (StageView::AwaitInstalled { target, root }, EventView::InstalledTargets(r)) => match r {
            Err(c) => fail(s, FailureKind::InstalledTargets, c),
            Ok(list) => if list.contains(target) {
                after_install(s, target, root)
            } else {
                (
                    with_stage(s, StageView::AwaitInstall { target, root }),
                    ActionView::Install { target },
                )
            },
        },
        (StageView::AwaitInstall { target, root }, EventView::Installed(r)) => match r {
            Err(c) => fail(s, FailureKind::Install, c),
            Ok(_) => after_install(s, target, root),
        },
        (StageView::AwaitEmulation { target, root }, EventView::Emulation(r)) => match r {
            Err(c) => fail(s, FailureKind::Registration, c),
            Ok(true) => dispatch(s, target, root),
            Ok(false) => (
                with_stage(s, StageView::AwaitRegister { target, root }),
                ActionView::RegisterEmulation,
            ),
        },
        (StageView::AwaitRegister { target, root }, EventView::Registered(r)) => match r {
            Err(c) => fail(s, FailureKind::Registration, c),
            Ok(_) => dispatch(s, target, root),
        },
        (StageView::AwaitExit, EventView::Exited(r)) => match r {
            Err(c) => fail(s, FailureKind::Launch, c),
            Ok(status) => (
                with_stage(s, StageView::Done),
                ActionView::Exit { code: exit_code_spec(status) },
            ),
        },
        _ => (s, ActionView::Fail { failure: FailureView { kind: FailureKind::Launch, causes: Seq::empty() } }),
    }
}

/// The exit code for a delegated process that ended with `status`.
pub fn exit_code(status: Option<i32>) -> (r: i32)
    ensures
        r as int == exit_code_spec(status),
{
    match status {
        Some(c) => c,
        None => 1,
    }
}


/// Whether the arguments ask for the version banner (`--version` or `-V`).
pub fn asks_version(args: &Vec<String>) -> (r: bool)
    ensures
        r == exists|i: int|
            0 <= i < args@.len() && (args@[i]@ == "--version"@ || args@[i]@ == "-V"@),
{
    let mut i: usize = 0;
    while i < args.len()
        invariant
            i <= args@.len(),
            forall|j: int| 0 <= j < i ==> !(args@[j]@ == "--version"@ || args@[j]@ == "-V"@),
        decreases args.len() - i,
    {
        if text_eq(args[i].as_str(), "--version") || text_eq(args[i].as_str(), "-V") {
            return true;
        }
        i += 1;
    }
    false
}

/// The headline of a failure of kind `kind`.
pub open spec fn headline(kind: FailureKind) -> Seq<char> {
    match kind {
        FailureKind::ProjectRoot => "could not look for the project root"@,
        FailureKind::InstalledTargets => "could not list the installed targets"@,
        FailureKind::Install => "could not install the target's toolchain component"@,
        FailureKind::Registration => "could not register the emulator"@,
        FailureKind::Launch => "could not start the command"@,
    }
}

impl Failure {
    /// The lines that report this failure: the headline, then each cause.
    pub fn report(&self) -> (r: Vec<String>)
        ensures
            r@.len() == self.causes@.len() + 1,
            r@[0]@ == "error: "@ + headline(self.kind),
            forall|i: int|
                0 <= i < self.causes@.len() ==> r@[i + 1]@ == "caused by: "@ + self.causes@[i]@,
    {
        let mut out: Vec<String> = Vec::new();
        let mut first = "error: ".to_owned();
        let head = match self.kind {
            FailureKind::ProjectRoot => "could not look for the project root",
            FailureKind::InstalledTargets => "could not list the installed targets",
            FailureKind::Install => "could not install the target's toolchain component",
            FailureKind::Registration => "could not register the emulator",
            FailureKind::Launch => "could not start the command",
        };
        first.append(head);
        out.push(first);
        let mut i: usize = 0;
        while i < self.causes.len()
            invariant
                i <= self.causes@.len(),
                out@.len() == i + 1,
                out@[0]@ == "error: "@ + headline(self.kind),
                forall|j: int| 0 <= j < i ==> out@[j + 1]@ == "caused by: "@ + self.causes@[j]@,
            decreases self.causes.len() - i,
        {
            let mut line = "caused by: ".to_owned();
            line.append(self.causes[i].as_str());
            out.push(line);
            i += 1;
        }
        out
    }
}

impl Session {
    /// A session that has not started, for the subcommand named `subcommand`,
    /// the explicit target `target` and the full argument list `args`.
    pub fn new(
        catalog: TargetCatalog,
        subcommand: Option<&str>,
        target: Option<String>,
        args: Vec<String>,
    ) -> (r: Session)
        ensures
            r@ == (SessionView {
                catalog: catalog@,
                subcommand: subcommand_of(
                    match subcommand {
                        Some(s) => Some(s@),
                        None => None,
                    },
                ),
                target: match target {
                    Some(t) => Some(t@),
                    None => None,
                },
                args: args.deep_view(),
                stage: StageView::Start,
            }),
    {
        Session { catalog, subcommand: classify(subcommand), target, args, stage: Stage::Start }
    }

    /// Whether `e` answers what this session has asked for.
    pub fn accepts(&self, e: &Event) -> (r: bool)
        ensures
            r == accepts(self@.stage, e@),
    {
        match (&self.stage, e) {
            (Stage::Start, Event::Begin) => true,
            (Stage::AwaitHost, Event::Host(_)) => true,
            (Stage::AwaitRoot { .. }, Event::Root(_)) => true,
            (Stage::AwaitInstalled { .. }, Event::InstalledTargets(_)) => true,
            (Stage::AwaitInstall { .. }, Event::Installed(_)) => true,
            (Stage::AwaitEmulation { .. }, Event::Emulation(_)) => true,
            (Stage::AwaitRegister { .. }, Event::Registered(_)) => true,
            (Stage::AwaitExit, Event::Exited(_)) => true,
            _ => false,
        }
    }

    /// Whether the invocation has ended.
    pub fn is_done(&self) -> (r: bool)
        ensures
            r == (self@.stage == StageView::Done),
    {
        match self.stage {
            Stage::Done => true,
            _ => false,
        }
    }

    fn take_args(&mut self) -> (r: Vec<String>)
        ensures
            r == old(self).args,
            final(self)@ == (SessionView { args: Seq::empty(), ..old(self)@ }),
    {
        let mut out: Vec<String> = Vec::new();
        core::mem::swap(&mut out, &mut self.args);
        assert(self.args.deep_view() =~= Seq::<Seq<char>>::empty());
        out
    }

    fn pass_through(&mut self) -> (r: Action)
        ensures
            (final(self)@, r@) == pass_through(old(self)@),
    {
        let args = self.take_args();
        self.stage = Stage::AwaitExit;
        Action::RunNative { args }
    }

    fn dispatch(&mut self, target: String, root: String) -> (r: Action)
        ensures
            (final(self)@, r@) == dispatch(old(self)@, target@, root@),
    {
        let args = self.take_args();
        self.stage = Stage::AwaitExit;
        Action::RunContainer { target, args, root }
    }

    fn fail(&mut self, kind: FailureKind, causes: Vec<String>) -> (r: Action)
        ensures
            (final(self)@, r@) == fail(old(self)@, kind, causes.deep_view()),
    {
        self.stage = Stage::Done;
        Action::Fail { failure: Failure { kind, causes } }
    }

    fn after_install(&mut self, target: String, root: String) -> (r: Action)
        ensures
            (final(self)@, r@) == after_install(old(self)@, target@, root@),
    {
        let runs = match self.subcommand {
            Subcommand::Run | Subcommand::Test => true,
            _ => false,
        };
        if runs && needs_emulation(target.as_str()) {
            self.stage = Stage::AwaitEmulation { target, root };
            Action::QueryEmulation
        } else {
            self.dispatch(target, root)
        }
    }

    /// Takes the outcome of the last action and returns the next action.
    pub fn step(&mut self, event: Event) -> (r: Action)
        requires
            accepts(old(self)@.stage, event@),
        ensures
            (final(self)@, r@) == next(old(self)@, event@),
    {
        let mut stage = Stage::Done;
        core::mem::swap(&mut stage, &mut self.stage);
        proof {
            assert(old(self)@.stage == stage@);
        }
        match (stage, event) {
            (Stage::Start, Event::Begin) => {
                let cross = match self.subcommand {
                    Subcommand::Other => false,
                    _ => true,
                };
                if cross {
                    self.stage = Stage::AwaitHost;
                    Action::ResolveHost
                } else {
                    self.stage = Stage::Start;
                    self.pass_through()
                }
            },
            (Stage::AwaitHost, Event::Host(host)) => {
                let target = match &self.target {
                    Some(t) => t.clone(),
                    None => host.clone(),
                };
                self.stage = Stage::AwaitRoot { host, target };
                Action::FindRoot
            },
            (Stage::AwaitRoot { host, target }, Event::Root(r)) => match r {
                Err(c) => self.fail(FailureKind::ProjectRoot, c),
                Ok(None) => self.pass_through(),
                Ok(Some(root)) => {
                    if is_supported_host(host.as_str()) && self.catalog.contains(target.as_str()) {
                        self.stage = Stage::AwaitInstalled { target, root };
                        Action::ListInstalled
                    } else {
                        self.pass_through()
                    }
                },
            },
            (Stage::AwaitInstalled { target, root }, Event::InstalledTargets(r)) => match r {
                Err(c) => self.fail(FailureKind::InstalledTargets, c),
                Ok(list) => {
                    if list_contains(&list, target.as_str()) {
                        self.after_install(target, root)
                    } else {
                        let t = target.clone();
                        self.stage = Stage::AwaitInstall { target, root };
                        Action::Install { target: t }
                    }
                },
            },
            (Stage::AwaitInstall { target, root }, Event::Installed(r)) => match r {
                Err(c) => self.fail(FailureKind::Install, c),
                Ok(_) => self.after_install(target, root),
            },
            (Stage::AwaitEmulation { target, root }, Event::Emulation(r)) => match r {
                Err(c) => self.fail(FailureKind::Registration, c),
                Ok(true) => self.dispatch(target, root),
                Ok(false) => {
                    self.stage = Stage::AwaitRegister { target, root };
                    Action::RegisterEmulation
                },
            },
            (Stage::AwaitRegister { target, root }, Event::Registered(r)) => match r {
                Err(c) => self.fail(FailureKind::Registration, c),
                Ok(_) => self.dispatch(target, root),
            },
            (Stage::AwaitExit, Event::Exited(r)) => match r {
                Err(c) => self.fail(FailureKind::Launch, c),
                Ok(status) => {
                    self.stage = Stage::Done;
                    Action::Exit { code: exit_code(status) }
                },
            },
            (stage, _) => {
                self.stage = stage;
                Action::Fail { failure: Failure { kind: FailureKind::Launch, causes: Vec::new() } }
            },
        }
    }
}

} // verus!
