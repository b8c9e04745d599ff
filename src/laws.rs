use vstd::prelude::*;
use crate::triple::{needs_emulation_spec, supported_host};
use crate::session::{
    accepts, effective_target, executes_binaries, exit_code_spec, is_cross_subcommand, next,
    ActionView, EventView, SessionView, StageView,
};

verus! {

/// What the outside collaborators report during one invocation in which no
/// collaborator fails: the host triple, the project root, the installed
/// targets, whether the emulator is registered, and how the delegated process
/// ends.
pub struct World {
    pub host: Seq<char>,
    pub root: Option<Seq<char>>,
    pub installed: Seq<Seq<char>>,
    pub registered: bool,
    pub status: Option<i32>,
}

/// The outcome that `w` reports for action `a`.
pub open spec fn answer(w: World, a: ActionView) -> EventView {
    match a {
        ActionView::ResolveHost => EventView::Host(w.host),
        ActionView::FindRoot => EventView::Root(Ok(w.root)),
        ActionView::ListInstalled => EventView::InstalledTargets(Ok(w.installed)),
        ActionView::Install { .. } => EventView::Installed(Ok(())),
        ActionView::QueryEmulation => EventView::Emulation(Ok(w.registered)),
        ActionView::RegisterEmulation => EventView::Registered(Ok(())),
        ActionView::RunNative { .. } => EventView::Exited(Ok(w.status)),
        ActionView::RunContainer { .. } => EventView::Exited(Ok(w.status)),
        ActionView::Exit { .. } => EventView::Begin,
        ActionView::Fail { .. } => EventView::Begin,
    }
}

/// The actions a session at `s` asks for, at most `fuel` of them, when it is
/// handed `e` and then the answers of `w`.
pub open spec fn actions(s: SessionView, w: World, e: EventView, fuel: nat) -> Seq<ActionView>
    decreases fuel,
{
    if fuel == 0 || !accepts(s.stage, e) {
        Seq::empty()
    } else {
        let (s2, a) = next(s, e);
        seq![a] + actions(s2, w, answer(w, a), (fuel - 1) as nat)
    }
}

/// Every action of a whole invocation that starts at `s`, in order.
pub open spec fn run(s: SessionView, w: World) -> Seq<ActionView> {
    actions(s, w, EventView::Begin, 9)
}

/// The target the invocation builds for in `w`.
pub open spec fn target_in(s: SessionView, w: World) -> Seq<char> {
    effective_target(s.target, w.host)
}

/// Whether the invocation takes the cross path in `w`.
pub open spec fn eligible(s: SessionView, w: World) -> bool {
    &&& is_cross_subcommand(s.subcommand)
    &&& w.root is Some
    &&& w.host == supported_host()
    &&& s.catalog.contains(target_in(s, w))
}

/// The install step of the cross path.
pub open spec fn install_steps(w: World, target: Seq<char>) -> Seq<ActionView> {
    if w.installed.contains(target) {
        Seq::empty()
    } else {
        seq![ActionView::Install { target }]
    }
}

/// The emulator steps of the cross path.
pub open spec fn emulation_steps(s: SessionView, w: World, target: Seq<char>) -> Seq<ActionView> {
    if executes_binaries(s.subcommand) && needs_emulation_spec(target) {
        if w.registered {
            seq![ActionView::QueryEmulation]
        } else {
            seq![ActionView::QueryEmulation, ActionView::RegisterEmulation]
        }
    } else {
        Seq::empty()
    }
}

/// A subcommand outside build, run, rustc and test runs natively with the
/// whole argument list, whatever the host, target and project root, and the
/// invocation exits with the native process's code.
pub proof fn law_other_subcommands_run_natively(s: SessionView, w: World)
    requires
        s.stage == StageView::Start,
        !is_cross_subcommand(s.subcommand),
    ensures
        run(s, w) == seq![
            ActionView::RunNative { args: s.args },
            ActionView::Exit { code: exit_code_spec(w.status) },
        ],
{
    reveal_with_fuel(actions, 4);
    assert(run(s, w) =~= seq![
        ActionView::RunNative { args: s.args },
        ActionView::Exit { code: exit_code_spec(w.status) },
    ]);
}

/// A target outside the catalog runs natively, even on the supported host with
/// a project root: neither the installer nor the emulator is touched.
pub proof fn law_uncatalogued_targets_run_natively(s: SessionView, w: World)
    requires
        s.stage == StageView::Start,
        is_cross_subcommand(s.subcommand),
        !s.catalog.contains(target_in(s, w)),
    ensures
        run(s, w) == seq![
            ActionView::ResolveHost,
            ActionView::FindRoot,
            ActionView::RunNative { args: s.args },
            ActionView::Exit { code: exit_code_spec(w.status) },
        ],
{
    reveal_with_fuel(actions, 6);
    assert(run(s, w) =~= seq![
        ActionView::ResolveHost,
        ActionView::FindRoot,
        ActionView::RunNative { args: s.args },
        ActionView::Exit { code: exit_code_spec(w.status) },
    ]);
}

/// A build, run, rustc or test command that does not qualify for the cross
/// path (no project root, another host, or a target outside the catalog) runs
/// natively with the whole argument list, and nothing is installed or
/// registered.
pub proof fn law_ineligible_runs_natively(s: SessionView, w: World)
    requires
        s.stage == StageView::Start,
        is_cross_subcommand(s.subcommand),
        !eligible(s, w),
    ensures
        run(s, w) == seq![
            ActionView::ResolveHost,
            ActionView::FindRoot,
            ActionView::RunNative { args: s.args },
            ActionView::Exit { code: exit_code_spec(w.status) },
        ],
{
    reveal_with_fuel(actions, 6);
    assert(run(s, w) =~= seq![
        ActionView::ResolveHost,
        ActionView::FindRoot,
        ActionView::RunNative { args: s.args },
        ActionView::Exit { code: exit_code_spec(w.status) },
    ]);
}

/// On the supported host, with a project root, a catalogued target runs in its
/// container: the component is installed first exactly when it was missing,
/// and the emulator is queried, and registered when it was not, exactly when
/// the command runs binaries of a target that needs emulation.
pub proof fn law_catalogued_targets_run_in_container(s: SessionView, w: World)
    requires
        s.stage == StageView::Start,
        is_cross_subcommand(s.subcommand),
        w.host == supported_host(),
        w.root is Some,
        s.catalog.contains(target_in(s, w)),
    ensures
        run(s, w) == seq![ActionView::ResolveHost, ActionView::FindRoot, ActionView::ListInstalled]
            + install_steps(w, target_in(s, w)) + emulation_steps(s, w, target_in(s, w)) + seq![
            ActionView::RunContainer { target: target_in(s, w), args: s.args, root: w.root->0 },
            ActionView::Exit { code: exit_code_spec(w.status) },
        ],
{
    reveal_with_fuel(actions, 10);
    assert(run(s, w) =~= seq![ActionView::ResolveHost, ActionView::FindRoot, ActionView::ListInstalled]
            + install_steps(w, target_in(s, w)) + emulation_steps(s, w, target_in(s, w)) + seq![
            ActionView::RunContainer { target: target_in(s, w), args: s.args, root: w.root->0 },
            ActionView::Exit { code: exit_code_spec(w.status) },
        ]);
}

/// The targets that `acts` asks to install, in order.
pub open spec fn installs(acts: Seq<ActionView>) -> Seq<Seq<char>>
    decreases acts.len(),
{
    if acts.len() == 0 {
        Seq::empty()
    } else {
        match acts[0] {
            ActionView::Install { target } => seq![target] + installs(acts.drop_first()),
            _ => installs(acts.drop_first()),
        }
    }
}

/// How many times `acts` asks to register the emulator.
pub open spec fn registrations(acts: Seq<ActionView>) -> nat
    decreases acts.len(),
{
    if acts.len() == 0 {
        0
    } else {
        (if acts[0] is RegisterEmulation { 1nat } else { 0nat }) + registrations(acts.drop_first())
    }
}

proof fn lemma_counts_native(s: SessionView, w: World)
    requires
        s.stage == StageView::Start,
        !eligible(s, w),
    ensures
        installs(run(s, w)) == Seq::<Seq<char>>::empty(),
        registrations(run(s, w)) == 0,
        run(s, w).len() > 0,
        run(s, w).last() == (ActionView::Exit { code: exit_code_spec(w.status) }),
{
    reveal_with_fuel(installs, 6);
    reveal_with_fuel(registrations, 6);
    if is_cross_subcommand(s.subcommand) {
        law_ineligible_runs_natively(s, w);
    } else {
        law_other_subcommands_run_natively(s, w);
    }
    assert(installs(run(s, w)) =~= Seq::<Seq<char>>::empty());
}

proof fn lemma_counts_cross(s: SessionView, w: World)
    requires
        s.stage == StageView::Start,
        eligible(s, w),
    ensures
        installs(run(s, w)) == install_steps(w, target_in(s, w)).map_values(
            |a: ActionView| a->Install_target,
        ),
        registrations(run(s, w)) == (if executes_binaries(s.subcommand) && needs_emulation_spec(
            target_in(s, w),
        ) && !w.registered {
            1nat
        } else {
            0nat
        }),
        run(s, w).len() > 0,
        run(s, w).last() == (ActionView::Exit { code: exit_code_spec(w.status) }),
{
    reveal_with_fuel(installs, 10);
    reveal_with_fuel(registrations, 10);
    law_catalogued_targets_run_in_container(s, w);
    let t = target_in(s, w);
    let head = seq![ActionView::ResolveHost, ActionView::FindRoot, ActionView::ListInstalled];
    let tail = seq![
        ActionView::RunContainer { target: t, args: s.args, root: w.root->0 },
        ActionView::Exit { code: exit_code_spec(w.status) },
    ];
    let i = install_steps(w, t);
    let e = emulation_steps(s, w, t);
    if w.installed.contains(t) {
        if executes_binaries(s.subcommand) && needs_emulation_spec(t) {
            if w.registered {
                assert(run(s, w) =~= seq![head[0], head[1], head[2], e[0], tail[0], tail[1]]);
            } else {
                assert(run(s, w) =~= seq![head[0], head[1], head[2], e[0], e[1], tail[0], tail[1]]);
            }
        } else {
            assert(run(s, w) =~= seq![head[0], head[1], head[2], tail[0], tail[1]]);
        }
        assert(installs(run(s, w)) =~= i.map_values(|a: ActionView| a->Install_target));
    } else {
        if executes_binaries(s.subcommand) && needs_emulation_spec(t) {
            if w.registered {
                assert(run(s, w) =~= seq![head[0], head[1], head[2], i[0], e[0], tail[0], tail[1]]);
            } else {
                assert(run(s, w) =~= seq![head[0], head[1], head[2], i[0], e[0], e[1], tail[0], tail[1]]);
            }
        } else {
            assert(run(s, w) =~= seq![head[0], head[1], head[2], i[0], tail[0], tail[1]]);
        }
        assert(installs(run(s, w)) =~= i.map_values(|a: ActionView| a->Install_target));
    }
}

/// The component installer is asked at most once, for the invocation's
/// target, and exactly when the cross path is taken and the target was not
/// installed yet.
pub proof fn law_installer_runs_once_when_missing(s: SessionView, w: World)
    requires
        s.stage == StageView::Start,
    ensures
        installs(run(s, w)) == (if eligible(s, w) && !w.installed.contains(target_in(s, w)) {
            seq![target_in(s, w)]
        } else {
            Seq::empty()
        }),
{
    if eligible(s, w) {
        lemma_counts_cross(s, w);
        assert(installs(run(s, w)) =~= (if !w.installed.contains(target_in(s, w)) {
            seq![target_in(s, w)]
        } else {
            Seq::empty()
        }));
    } else {
        lemma_counts_native(s, w);
    }
}

/// Once the installer has added the target to the installed set, a second
/// invocation on the same target does not ask for it again.
pub proof fn law_install_is_idempotent(s: SessionView, w: World)
    requires
        s.stage == StageView::Start,
    ensures
        installs(run(s, World { installed: w.installed.push(target_in(s, w)), ..w })) == Seq::<
            Seq<char>,
        >::empty(),
{
    let w2 = World { installed: w.installed.push(target_in(s, w)), ..w };
    assert(target_in(s, w2) == target_in(s, w));
    assert(w2.installed[w.installed.len() as int] == target_in(s, w));
    assert(w2.installed.contains(target_in(s, w2)));
    law_installer_runs_once_when_missing(s, w2);
}

/// The emulator is registered exactly when the cross path is taken for run or
/// test, the target needs emulation, and the emulator was not registered yet;
/// and then only once.
pub proof fn law_registrar_runs_only_when_needed(s: SessionView, w: World)
    requires
        s.stage == StageView::Start,
    ensures
        registrations(run(s, w)) == (if eligible(s, w) && executes_binaries(s.subcommand)
            && needs_emulation_spec(target_in(s, w)) && !w.registered {
            1nat
        } else {
            0nat
        }),
{
    if eligible(s, w) {
        lemma_counts_cross(s, w);
    } else {
        lemma_counts_native(s, w);
    }
}

/// Build and rustc never register the emulator, whatever the target.
pub proof fn law_build_never_registers(s: SessionView, w: World)
    requires
        s.stage == StageView::Start,
        !executes_binaries(s.subcommand),
    ensures
        registrations(run(s, w)) == 0,
{
    law_registrar_runs_only_when_needed(s, w);
}

/// When no collaborator fails, the invocation ends by exiting with the
/// delegated process's own exit code (1 when a signal ended it).
pub proof fn law_exit_code_is_propagated(s: SessionView, w: World)
    requires
        s.stage == StageView::Start,
    ensures
        run(s, w).len() > 0,
        run(s, w).last() == (ActionView::Exit { code: exit_code_spec(w.status) }),
        w.status is Some ==> run(s, w).last() == (ActionView::Exit { code: w.status->0 as int }),
{
    if eligible(s, w) {
        lemma_counts_cross(s, w);
    } else {
        lemma_counts_native(s, w);
    }
}

} // verus!
