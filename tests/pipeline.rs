use bystep_launcher::pipeline::{advance, Action, LaunchGuard, LaunchOutcome, PipelineEvent, Stage};
use bystep_launcher::version::GameVersion;

fn labels(stage: Stage, e: &PipelineEvent) -> (Stage, Action, Vec<(String, u32)>) {
    let s = advance(stage, e, GameVersion::Fabric1_21_1);
    (s.stage, s.action, s.progress.into_iter().map(|p| (p.step, p.permille)).collect())
}

#[test]
fn installed_game_skips_install_stages() {
    let (s, a, p) = labels(Stage::Preparing, &PipelineEvent::Started);
    assert_eq!((s, a), (Stage::Preparing, Action::CreateDirectory));
    assert_eq!(p, vec![("Подготовка...".to_string(), 50)]);
    let (s, a, _) = labels(s, &PipelineEvent::DirectoryCreated(Ok(())));
    assert_eq!((s, a), (Stage::CheckingInstall, Action::CheckInstall));
    let (s, a, p) = labels(s, &PipelineEvent::InstallChecked { installed: true, runtime_present: true });
    assert_eq!((s, a), (Stage::SyncingMods, Action::SyncMods));
    assert_eq!(p[1], ("Проверка модов...".to_string(), 820));
}

#[test]
fn full_run_to_clean_exit() {
    let mut stage = Stage::Preparing;
    let events = vec![
        PipelineEvent::Started,
        PipelineEvent::DirectoryCreated(Ok(())),
        PipelineEvent::InstallChecked { installed: false, runtime_present: false },
        PipelineEvent::RuntimeInstalled(Ok(())),
        PipelineEvent::CoreInstalled(Ok(())),
        PipelineEvent::ModsSynced(Err("offline".to_string())),
        PipelineEvent::ShadersSynced(Ok(())),
        PipelineEvent::ResourcesSynced(Ok(())),
        PipelineEvent::ShadersConfigured,
        PipelineEvent::Launched(Ok(())),
        PipelineEvent::ProcessExited { success: true, diagnostic: None },
    ];
    let mut seen = Vec::new();
    let mut shown: Vec<u32> = Vec::new();
    for e in &events {
        let s = advance(stage, e, GameVersion::Fabric1_21_1);
        seen.push(s.stage);
        shown.extend(s.progress.iter().map(|p| p.permille));
        if let PipelineEvent::ModsSynced(_) = e {
            assert_eq!(s.progress[0].step, "Моды: offline");
        }
        if let PipelineEvent::InstallChecked { .. } = e {
            assert_eq!(s.progress[0].step, "Установка 1.21.1 Fabric...");
            assert_eq!(s.progress[0].permille, 150);
        }
        stage = s.stage;
        if stage == Stage::Exited {
            assert_eq!(s.action, Action::Finish);
            assert!(matches!(s.outcome, Some(LaunchOutcome::Exited)));
        }
    }
    assert!(shown.windows(2).all(|w| w[0] <= w[1]), "progress went back: {:?}", shown);
    assert_eq!(shown.first(), Some(&50));
    assert_eq!(shown.last(), Some(&1000));
    let core = advance(Stage::InstallingCore, &PipelineEvent::CoreInstalled(Ok(())), GameVersion::Fabric1_21_1);
    let values: Vec<u32> = core.progress.iter().map(|p| p.permille).collect();
    assert_eq!(values, vec![800, 820]);
    assert_eq!(
        seen,
        vec![
            Stage::Preparing, Stage::CheckingInstall, Stage::InstallingRuntime, Stage::InstallingCore,
            Stage::SyncingMods, Stage::SyncingShaders, Stage::SyncingResources, Stage::ConfiguringShaders,
            Stage::Launching, Stage::Running, Stage::Exited,
        ]
    );
}

#[test]
fn crash_and_failures_end_the_run() {
    let s = advance(Stage::Running, &PipelineEvent::ProcessExited { success: false, diagnostic: Some("boom".to_string()) }, GameVersion::Fabric1_20_1);
    assert_eq!(s.stage, Stage::Crashed);
    assert!(matches!(s.outcome, Some(LaunchOutcome::Crashed(Some(ref d))) if d == "boom"));
    let s = advance(Stage::InstallingCore, &PipelineEvent::CoreInstalled(Err("net".to_string())), GameVersion::Fabric1_20_1);
    assert_eq!(s.stage, Stage::Failed);
    assert!(matches!(s.outcome, Some(LaunchOutcome::InstallFailed(_, ref c)) if c == "net"));
    let s = advance(Stage::Launching, &PipelineEvent::Launched(Err("Java 21 not found".to_string())), GameVersion::Fabric1_20_1);
    assert!(matches!(s.outcome, Some(LaunchOutcome::SpawnFailed(_))));
    let s = advance(Stage::Preparing, &PipelineEvent::DirectoryCreated(Err("denied".to_string())), GameVersion::Fabric1_20_1);
    assert!(matches!(s.outcome, Some(LaunchOutcome::DirectoryCreateFailed(ref m)) if m == "denied"));
}

#[test]
fn stray_events_change_nothing() {
    let s = advance(Stage::Exited, &PipelineEvent::Started, GameVersion::Fabric1_20_1);
    assert_eq!((s.stage, s.action), (Stage::Exited, Action::Nothing));
    assert!(s.progress.is_empty() && s.outcome.is_none());
    let s = advance(Stage::SyncingMods, &PipelineEvent::ShadersConfigured, GameVersion::Fabric1_20_1);
    assert_eq!((s.stage, s.action), (Stage::SyncingMods, Action::Nothing));
}

#[test]
fn single_flight_guard() {
    let mut g = LaunchGuard::new();
    assert!(!g.try_begin(""));
    assert!(g.try_begin("Steve"));
    assert!(!g.try_begin("Steve"));
    g.end();
    assert!(g.try_begin("Alex"));
}
