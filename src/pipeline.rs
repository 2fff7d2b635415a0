//! The launch pipeline as a state machine.
//!
//! The caller performs each action (creating directories, downloading,
//! spawning the game, waiting for it) and reports what happened as an event;
//! `advance` decides the next stage, the progress events to show and the next
//! action. Stages only move forward, and a run ends with exactly one outcome.

use vstd::prelude::*;
use crate::text::push_str;
use crate::version::{spec_display_name, GameVersion};

verus! {

/// Where a launch attempt stands.
#[derive(Debug, Clone, Copy, PartialEq, Eq, Structural)]
pub enum Stage {
    Preparing,
    CheckingInstall,
    InstallingRuntime,
    InstallingCore,
    SyncingMods,
    SyncingShaders,
    SyncingResources,
    ConfiguringShaders,
    Launching,
    Running,
    Exited,
    Crashed,
    Failed,
}

/// What the caller is to do next.
#[derive(Debug, Clone, Copy, PartialEq, Eq, Structural)]
pub enum Action {
    CreateDirectory,
    CheckInstall,
    InstallRuntime,
    InstallCore,
    SyncMods,
    SyncShaders,
    SyncResources,
    ConfigureShaders,
    Launch,
    WaitForExit,
    /// The run is over; the step carries its outcome.
    Finish,
    /// The event did not belong to the current stage; nothing changes.
    Nothing,
}

/// The install step that failed.
#[derive(Debug, Clone, Copy, PartialEq, Eq, Structural)]
pub enum InstallStep {
    Runtime,
    Core,
}

/// What the caller reports after performing an action.
#[derive(Debug)]
pub enum PipelineEvent {
    Started,
    DirectoryCreated(Result<(), String>),
    InstallChecked { installed: bool, runtime_present: bool },
    RuntimeInstalled(Result<(), String>),
    CoreInstalled(Result<(), String>),
    ModsSynced(Result<(), String>),
    ShadersSynced(Result<(), String>),
    ResourcesSynced(Result<(), String>),
    ShadersConfigured,
    /// The command was built and the process spawned, or the error that
    /// stopped it.
    Launched(Result<(), String>),
    ProcessExited { success: bool, diagnostic: Option<String> },
}

/// How a run ended.
#[derive(Debug, Clone)]
pub enum LaunchOutcome {
    /// The game ran and exited normally.
    Exited,
    /// The game exited abnormally, with a crash excerpt when one was found.
    Crashed(Option<String>),
    DirectoryCreateFailed(String),
    InstallFailed(InstallStep, String),
    SpawnFailed(String),
}

/// A progress event: a label and a fraction of the whole, in thousandths.
#[derive(Debug, Clone)]
pub struct InstallProgress {
    pub step: String,
    pub permille: u32,
}

/// The decision for one event.
#[derive(Debug, Clone)]
pub struct Step {
    pub stage: Stage,
    pub progress: Vec<InstallProgress>,
    pub action: Action,
    pub outcome: Option<LaunchOutcome>,
}

/// The position of a stage in the pipeline's order.
pub open spec fn rank(s: Stage) -> nat {
    match s {
        Stage::Preparing => 0,
        Stage::CheckingInstall => 1,
        Stage::InstallingRuntime => 2,
        Stage::InstallingCore => 3,
        Stage::SyncingMods => 4,
        Stage::SyncingShaders => 5,
        Stage::SyncingResources => 6,
        Stage::ConfiguringShaders => 7,
        Stage::Launching => 8,
        Stage::Running => 9,
        _ => 10,
    }
}

pub open spec fn is_terminal(s: Stage) -> bool {
    s == Stage::Exited || s == Stage::Crashed || s == Stage::Failed
}

/// The stage after `event` in `stage`; an event that does not belong to the
/// stage changes nothing.
pub open spec fn next_stage(stage: Stage, event: PipelineEvent) -> Stage {
    match (stage, event) {
        (Stage::Preparing, PipelineEvent::DirectoryCreated(r)) => if r is Ok {
            Stage::CheckingInstall
        } else {
            Stage::Failed
        },
        (Stage::CheckingInstall, PipelineEvent::InstallChecked { installed, runtime_present }) => {
            if installed {
                Stage::SyncingMods
            } else if runtime_present {
                Stage::InstallingCore
            } else {
                Stage::InstallingRuntime
            }
        },
        (Stage::InstallingRuntime, PipelineEvent::RuntimeInstalled(r)) => if r is Ok {
            Stage::InstallingCore
        } else {
            Stage::Failed
        },
        (Stage::InstallingCore, PipelineEvent::CoreInstalled(r)) => if r is Ok {
            Stage::SyncingMods
        } else {
            Stage::Failed
        },
        (Stage::SyncingMods, PipelineEvent::ModsSynced(_)) => Stage::SyncingShaders,
        (Stage::SyncingShaders, PipelineEvent::ShadersSynced(_)) => Stage::SyncingResources,
        (Stage::SyncingResources, PipelineEvent::ResourcesSynced(_)) => Stage::ConfiguringShaders,
        (Stage::ConfiguringShaders, PipelineEvent::ShadersConfigured) => Stage::Launching,
        (Stage::Launching, PipelineEvent::Launched(r)) => if r is Ok {
            Stage::Running
        } else {
            Stage::Failed
        },
        (Stage::Running, PipelineEvent::ProcessExited { success, diagnostic: _ }) => if success {
            Stage::Exited
        } else {
            Stage::Crashed
        },
        _ => stage,
    }
}

/// The action that a stage asks for once it is entered.
pub open spec fn action_for(s: Stage) -> Action {
    match s {
        Stage::Preparing => Action::CreateDirectory,
        Stage::CheckingInstall => Action::CheckInstall,
        Stage::InstallingRuntime => Action::InstallRuntime,
        Stage::InstallingCore => Action::InstallCore,
        Stage::SyncingMods => Action::SyncMods,
        Stage::SyncingShaders => Action::SyncShaders,
        Stage::SyncingResources => Action::SyncResources,
        Stage::ConfiguringShaders => Action::ConfigureShaders,
        Stage::Launching => Action::Launch,
        Stage::Running => Action::WaitForExit,
        _ => Action::Finish,
    }
}

/// Whether the event moves the pipeline: the start in the first stage, or
/// the report that belongs to the current stage.
pub open spec fn accepted(stage: Stage, event: PipelineEvent) -> bool {
    (stage == Stage::Preparing && event is Started) || next_stage(stage, event) != stage
}

/// A progress event as a label and thousandths.
pub open spec fn progress_view(p: InstallProgress) -> (Seq<char>, u32) {
    (p.step@, p.permille)
}

/// The label of a best-effort step: its success text, or its failure.
pub open spec fn outcome_label(r: Result<(), String>, ok: Seq<char>, prefix: Seq<char>) -> Seq<char> {
    match r {
        Ok(_) => ok,
        Err(e) => prefix + e@,
    }
}

/// The progress events that an accepted event produces.
pub open spec fn progress_for(stage: Stage, event: PipelineEvent, v: GameVersion) -> Seq<
    (Seq<char>, u32),
> {
    match (stage, event) {
        (Stage::Preparing, PipelineEvent::Started) => seq![("Подготовка..."@, 50u32)],
        (Stage::Preparing, PipelineEvent::DirectoryCreated(Ok(_))) => seq![
            ("Проверка установки..."@, 100u32),
        ],
        (Stage::CheckingInstall, PipelineEvent::InstallChecked { installed, runtime_present: _ }) => {
            if installed {
                seq![("Игра установлена"@, 800u32), ("Проверка модов..."@, 820u32)]
            } else {
                seq![("Установка "@ + spec_display_name(v) + "..."@, 150u32)]
            }
        },
        (Stage::InstallingCore, PipelineEvent::CoreInstalled(Ok(_))) => seq![
            ("Установка завершена!"@, 800u32),
            ("Проверка модов..."@, 820u32),
        ],
        (Stage::SyncingMods, PipelineEvent::ModsSynced(r)) => seq![
            (outcome_label(r, "Моды обновлены!"@, "Моды: "@), 850u32),
            ("Проверка шейдеров..."@, 860u32),
        ],
        (Stage::SyncingShaders, PipelineEvent::ShadersSynced(r)) => seq![
            (outcome_label(r, "Шейдеры обновлены!"@, "Шейдеры: "@), 880u32),
            ("Проверка текстурпаков..."@, 900u32),
        ],
        (Stage::SyncingResources, PipelineEvent::ResourcesSynced(r)) => seq![
            (outcome_label(r, "Текстуры обновлены!"@, "Текстуры: "@), 920u32),
            ("Настройка шейдеров..."@, 940u32),
        ],
        (Stage::ConfiguringShaders, PipelineEvent::ShadersConfigured) => seq![
            ("Запуск игры..."@, 960u32),
        ],
        (Stage::Launching, PipelineEvent::Launched(Ok(_))) => seq![("Игра запущена!"@, 1000u32)],
        _ => Seq::empty(),
    }
}

pub open spec fn text_view(t: Option<String>) -> Option<Seq<char>> {
    match t {
        Some(s) => Some(s@),
        None => None,
    }
}

/// The outcome of a step that ends the run, as a kind and a text.
pub open spec fn outcome_matches(o: LaunchOutcome, stage: Stage, event: PipelineEvent) -> bool {
    match (stage, event) {
        (Stage::Preparing, PipelineEvent::DirectoryCreated(Err(e))) => o matches LaunchOutcome::DirectoryCreateFailed(m) && m@ == e@,
        (Stage::InstallingRuntime, PipelineEvent::RuntimeInstalled(Err(e))) => o matches LaunchOutcome::InstallFailed(InstallStep::Runtime, m) && m@ == e@,
        (Stage::InstallingCore, PipelineEvent::CoreInstalled(Err(e))) => o matches LaunchOutcome::InstallFailed(InstallStep::Core, m) && m@ == e@,
        (Stage::Launching, PipelineEvent::Launched(Err(e))) => o matches LaunchOutcome::SpawnFailed(m) && m@ == e@,
        (Stage::Running, PipelineEvent::ProcessExited { success, diagnostic }) => if success {
            o is Exited
        } else {
            o matches LaunchOutcome::Crashed(d) && text_view(d) == text_view(diagnostic)
        },
        _ => false,
    }
}

fn progress(label: &str, permille: u32) -> (r: InstallProgress)
    ensures
        progress_view(r) == (label@, permille),
{
    let mut s = String::new();
    push_str(&mut s, label);
    InstallProgress { step: s, permille }
}

fn step_result_label(r: &Result<(), String>, ok: &str, prefix: &str, permille: u32) -> (p: InstallProgress)
    ensures
        progress_view(p) == (outcome_label(*r, ok@, prefix@), permille),
{
    match r {
        Ok(_) => progress(ok, permille),
        Err(e) => {
            let mut s = String::new();
            push_str(&mut s, prefix);
            push_str(&mut s, e.as_str());
            InstallProgress { step: s, permille }
        },
    }
}

fn step(stage: Stage, progress: Vec<InstallProgress>, outcome: Option<LaunchOutcome>) -> (r: Step)
    ensures
        r.stage == stage,
        r.action == action_for(stage),
        r.progress@ == progress@,
        r.outcome == outcome,
{
    let action = match stage {
        Stage::Preparing => Action::CreateDirectory,
        Stage::CheckingInstall => Action::CheckInstall,
        Stage::InstallingRuntime => Action::InstallRuntime,
        Stage::InstallingCore => Action::InstallCore,
        Stage::SyncingMods => Action::SyncMods,
        Stage::SyncingShaders => Action::SyncShaders,
        Stage::SyncingResources => Action::SyncResources,
        Stage::ConfiguringShaders => Action::ConfigureShaders,
        Stage::Launching => Action::Launch,
        Stage::Running => Action::WaitForExit,
        _ => Action::Finish,
    };
    Step { stage, progress, action, outcome }
}

fn copy_text(s: &String) -> (r: String)
    ensures
        r@ == s@,
{
    s.clone()
}

/// Decides what an event means in `stage`: the next stage, the progress to
/// show, the next action and, when the run ends, its outcome. An event that
/// does not belong to the stage changes nothing.
pub fn advance(stage: Stage, event: &PipelineEvent, version: GameVersion) -> (r: Step)
    ensures
        accepted(stage, *event) ==> r.stage == next_stage(stage, *event),
        accepted(stage, *event) ==> r.action == action_for(r.stage),
        accepted(stage, *event) ==> r.progress@.map_values(|p: InstallProgress| progress_view(p))
            == progress_for(stage, *event, version),
        accepted(stage, *event) ==> (is_terminal(r.stage) <==> r.outcome is Some),
        accepted(stage, *event) ==> (r.outcome matches Some(o) ==> outcome_matches(o, stage, *event)),
        !accepted(stage, *event) ==> r.stage == stage && r.action == Action::Nothing
            && r.progress@.len() == 0 && r.outcome is None,
{
    let mut ps: Vec<InstallProgress> = Vec::new();
    let r = match (stage, event) {
        (Stage::Preparing, PipelineEvent::Started) => {
            ps.push(progress("Подготовка...", 50));
            step(Stage::Preparing, ps, None)
        },
        (Stage::Preparing, PipelineEvent::DirectoryCreated(res)) => match res {
            Ok(_) => {
                ps.push(progress("Проверка установки...", 100));
                step(Stage::CheckingInstall, ps, None)
            },
            Err(e) => step(Stage::Failed, ps, Some(LaunchOutcome::DirectoryCreateFailed(copy_text(e)))),
        },
        (Stage::CheckingInstall, PipelineEvent::InstallChecked { installed, runtime_present }) => {
            if *installed {
                ps.push(progress("Игра установлена", 800));
                ps.push(progress("Проверка модов...", 820));
                step(Stage::SyncingMods, ps, None)
            } else {
                let mut label = String::new();
                push_str(&mut label, "Установка ");
                push_str(&mut label, version.display_name());
                push_str(&mut label, "...");
                ps.push(InstallProgress { step: label, permille: 150 });
                if *runtime_present {
                    step(Stage::InstallingCore, ps, None)
                } else {
                    step(Stage::InstallingRuntime, ps, None)
                }
            }
        },
        (Stage::InstallingRuntime, PipelineEvent::RuntimeInstalled(res)) => match res {
            Ok(_) => step(Stage::InstallingCore, ps, None),
            Err(e) => step(
                Stage::Failed,
                ps,
                Some(LaunchOutcome::InstallFailed(InstallStep::Runtime, copy_text(e))),
            ),
        },
        (Stage::InstallingCore, PipelineEvent::CoreInstalled(res)) => match res {
            Ok(_) => {
                ps.push(progress("Установка завершена!", 800));
                ps.push(progress("Проверка модов...", 820));
                step(Stage::SyncingMods, ps, None)
            },
            Err(e) => step(
                Stage::Failed,
                ps,
                Some(LaunchOutcome::InstallFailed(InstallStep::Core, copy_text(e))),
            ),
        },
        (Stage::SyncingMods, PipelineEvent::ModsSynced(res)) => {
            ps.push(step_result_label(res, "Моды обновлены!", "Моды: ", 850));
            ps.push(progress("Проверка шейдеров...", 860));
            step(Stage::SyncingShaders, ps, None)
        },
        (Stage::SyncingShaders, PipelineEvent::ShadersSynced(res)) => {
            ps.push(step_result_label(res, "Шейдеры обновлены!", "Шейдеры: ", 880));
            ps.push(progress("Проверка текстурпаков...", 900));
            step(Stage::SyncingResources, ps, None)
        },
        (Stage::SyncingResources, PipelineEvent::ResourcesSynced(res)) => {
            ps.push(step_result_label(res, "Текстуры обновлены!", "Текстуры: ", 920));
            ps.push(progress("Настройка шейдеров...", 940));
            step(Stage::ConfiguringShaders, ps, None)
        },
        (Stage::ConfiguringShaders, PipelineEvent::ShadersConfigured) => {
            ps.push(progress("Запуск игры...", 960));
            step(Stage::Launching, ps, None)
        },
        (Stage::Launching, PipelineEvent::Launched(res)) => match res {
            Ok(_) => {
                ps.push(progress("Игра запущена!", 1000));
                step(Stage::Running, ps, None)
            },
            Err(e) => step(Stage::Failed, ps, Some(LaunchOutcome::SpawnFailed(copy_text(e)))),
        },
        (Stage::Running, PipelineEvent::ProcessExited { success, diagnostic }) => {
            if *success {
                step(Stage::Exited, ps, Some(LaunchOutcome::Exited))
            } else {
                let d = match diagnostic {
                    Some(t) => Some(copy_text(t)),
                    None => None,
                };
                step(Stage::Crashed, ps, Some(LaunchOutcome::Crashed(d)))
            }
        },
        _ => Step { stage, progress: ps, action: Action::Nothing, outcome: None },
    };
    r
}

/// The progress reached on entering a stage: everything emitted from this
/// stage on is at least this much.
pub open spec fn milestone(s: Stage) -> u32 {
    match s {
        Stage::Preparing => 50,
        Stage::CheckingInstall => 100,
        Stage::InstallingRuntime => 150,
        Stage::InstallingCore => 150,
        Stage::SyncingMods => 820,
        Stage::SyncingShaders => 860,
        Stage::SyncingResources => 900,
        Stage::ConfiguringShaders => 940,
        Stage::Launching => 960,
        _ => 1000,
    }
}

/// The progress values that one event produces.
pub open spec fn permilles(stage: Stage, event: PipelineEvent, v: GameVersion) -> Seq<u32> {
    progress_for(stage, event, v).map_values(|p: (Seq<char>, u32)| p.1)
}

/// The progress values that a run produces, from `stage` through `events`.
pub open spec fn run_progress(stage: Stage, events: Seq<PipelineEvent>, v: GameVersion) -> Seq<u32>
    decreases events.len(),
{
    if events.len() == 0 {
        Seq::empty()
    } else {
        permilles(stage, events[0], v) + run_progress(
            next_stage(stage, events[0]),
            events.drop_first(),
            v,
        )
    }
}

pub open spec fn non_decreasing(s: Seq<u32>) -> bool {
    forall|i: int, j: int| 0 <= i <= j < s.len() ==> s[i] <= s[j]
}

proof fn lemma_step_progress(stage: Stage, event: PipelineEvent, v: GameVersion)
    ensures
        non_decreasing(permilles(stage, event, v)),
        forall|i: int|
            0 <= i < permilles(stage, event, v).len() ==> milestone(stage) <= #[trigger] permilles(
                stage,
                event,
                v,
            )[i] <= milestone(next_stage(stage, event)),
        milestone(stage) <= milestone(next_stage(stage, event)),
{
}

/// Along any run, the progress shown never goes back, and never falls below
/// the milestone of the stage the run started in.
pub proof fn lemma_progress_never_decreases(stage: Stage, events: Seq<PipelineEvent>, v: GameVersion)
    ensures
        non_decreasing(run_progress(stage, events, v)),
        forall|i: int|
            0 <= i < run_progress(stage, events, v).len() ==> milestone(stage) <= #[trigger] run_progress(
                stage,
                events,
                v,
            )[i],
    decreases events.len(),
{
    if events.len() > 0 {
        let e = events[0];
        let next = next_stage(stage, e);
        let a = permilles(stage, e, v);
        let b = run_progress(next, events.drop_first(), v);
        lemma_step_progress(stage, e, v);
        lemma_progress_never_decreases(next, events.drop_first(), v);
        let all = run_progress(stage, events, v);
        assert(all == a + b);
        assert forall|i: int, j: int| 0 <= i <= j < all.len() implies all[i] <= all[j] by {
            if j < a.len() {
                assert(all[i] == a[i] && all[j] == a[j]);
            } else if i < a.len() {
                assert(all[i] == a[i] && all[j] == b[j - a.len()]);
            } else {
                assert(all[i] == b[i - a.len()] && all[j] == b[j - a.len()]);
            }
        }
        assert forall|i: int| 0 <= i < all.len() implies milestone(stage) <= #[trigger] all[i] by {
            if i < a.len() {
                assert(all[i] == a[i]);
            } else {
                assert(all[i] == b[i - a.len()]);
            }
        }
    }
}

/// Every progress event lies between nothing done (0) and all done (1000).
pub proof fn lemma_progress_bounded(stage: Stage, event: PipelineEvent, v: GameVersion)
    ensures
        forall|i: int|
            0 <= i < progress_for(stage, event, v).len() ==> #[trigger] progress_for(stage, event, v)[i].1
                <= 1000,
{
}

/// Every accepted event moves a running pipeline strictly forward, and a
/// finished run accepts nothing more.
pub proof fn lemma_stages_only_advance(stage: Stage, event: PipelineEvent)
    ensures
        next_stage(stage, event) != stage ==> rank(next_stage(stage, event)) > rank(stage),
        is_terminal(stage) ==> !accepted(stage, event),
{
}

/// With the game already installed, checking the installation leads straight
/// to syncing the mods, skipping every install stage.
pub proof fn lemma_installed_skips_install(runtime_present: bool)
    ensures
        next_stage(
            Stage::CheckingInstall,
            PipelineEvent::InstallChecked { installed: true, runtime_present },
        ) == Stage::SyncingMods,
        action_for(Stage::SyncingMods) == Action::SyncMods,
{
}

/// Whether a launch attempt is in flight; a second one is refused until the
/// first has ended.
#[derive(Debug, Clone, Copy, PartialEq, Eq, Structural)]
pub struct LaunchGuard {
    pub running: bool,
}

impl LaunchGuard {
    /// A guard with no launch in flight.
    pub fn new() -> (r: LaunchGuard)
        ensures
            !r.running,
    {
        LaunchGuard { running: false }
    }

    /// Claims the launch slot for a player with a nickname: true when no
    /// launch was in flight and the nickname is not empty.
    pub fn try_begin(&mut self, nickname: &str) -> (r: bool)
        ensures
            r == (!old(self).running && nickname@.len() > 0),
            final(self).running == (old(self).running || r),
    {
        if self.running || nickname.unicode_len() == 0 {
            return false;
        }
        self.running = true;
        true
    }

    /// Releases the launch slot once a run has ended.
    pub fn end(&mut self)
        ensures
            !final(self).running,
    {
        self.running = false;
    }
}

} // verus!
