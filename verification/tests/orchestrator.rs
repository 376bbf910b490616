use wbm_installer::install::BepInExError;
use wbm_installer::install::InstallAction;
use wbm_installer::install::InstallEvent;
use wbm_installer::install::InstallPhase;
use wbm_installer::install::InstallResult;
use wbm_installer::install::InstallSteps;
use wbm_installer::install::Installer;
use wbm_installer::install::ModInstallError;
use wbm_installer::util::buf2str;
use wbm_installer::util::default_game_path_candidate;
use wbm_installer::util::Os;

/// Drives the machine with "every collaborator succeeds" events until it
/// finishes, recording every action asked for along the way.
fn drive_all_success(mut m: Installer) -> (Vec<InstallAction>, InstallResult) {
    let mut actions: Vec<InstallAction> = Vec::new();
    loop {
        let action = m.next_action();
        actions.push(action);
        let event = match action {
            InstallAction::ResolveDefaultPath => {
                InstallEvent::PathResolved(Some(String::from("/tmp/game")))
            }
            InstallAction::InstallBepInEx => InstallEvent::BepInExFinished(Ok(())),
            InstallAction::SetupLaunchOption => InstallEvent::LaunchOptionFinished(true),
            InstallAction::LaunchGameOnce => InstallEvent::GameLaunched(true),
            InstallAction::InstallMod => InstallEvent::ModInstallFinished(Ok(())),
            InstallAction::EmitDone => InstallEvent::DoneEmitted,
            InstallAction::Finish(result) => return (actions, result),
        };
        m = m.step(event);
    }
}

#[test]
fn unsupported_os_fails_immediately_without_any_action() {
    let m = Installer::new("freebsd", String::new(), false, false);
    assert_eq!(
        m.next_action(),
        InstallAction::Finish(InstallResult::UnsupportedOS)
    );
    let (actions, result) = drive_all_success(m);
    assert_eq!(result, InstallResult::UnsupportedOS);
    // The only recorded action is the terminal report: no collaborator ran.
    assert_eq!(
        actions,
        vec![InstallAction::Finish(InstallResult::UnsupportedOS)]
    );
    assert_eq!(result.code(), 2);
}

#[test]
fn supported_os_without_path_or_default_fails_before_any_work() {
    for os in ["linux", "macos", "windows"] {
        let m = Installer::new(os, String::new(), false, false);
        assert_eq!(m.next_action(), InstallAction::ResolveDefaultPath);
        let m = m.step(InstallEvent::PathResolved(None));
        assert_eq!(
            m.next_action(),
            InstallAction::Finish(InstallResult::FailedToGetGamePath)
        );
        assert_eq!(m.phase, InstallPhase::Finished(InstallResult::FailedToGetGamePath));
    }
}

#[test]
fn launch_option_set_never_invokes_bepinex_installer() {
    let m = Installer::new("linux", String::from("/games/wb"), true, false);
    let (actions, result) = drive_all_success(m);
    assert_eq!(result, InstallResult::NoErr);
    assert!(!actions.contains(&InstallAction::InstallBepInEx));
    // The rest of the sequence still runs.
    assert!(actions.contains(&InstallAction::SetupLaunchOption));
    assert!(actions.contains(&InstallAction::LaunchGameOnce));
    assert!(actions.contains(&InstallAction::InstallMod));
}

#[test]
fn game_launched_never_invokes_launch_option_collaborator() {
    let m = Installer::new("linux", String::from("/games/wb"), false, true);
    let (actions, result) = drive_all_success(m);
    assert_eq!(result, InstallResult::NoErr);
    assert!(!actions.contains(&InstallAction::SetupLaunchOption));
    // BepInEx still runs: only the launch-option step is skipped.
    assert!(actions.contains(&InstallAction::InstallBepInEx));
    assert!(actions.contains(&InstallAction::LaunchGameOnce));
    assert!(actions.contains(&InstallAction::InstallMod));
}

#[test]
fn both_flags_set_skips_straight_to_game_launch() {
    let m = Installer::new("macos", String::from("/games/wb"), true, true);
    assert_eq!(m.next_action(), InstallAction::LaunchGameOnce);
}

#[test]
fn end_to_end_linux_default_path_all_collaborators_succeed() {
    // OS = linux, no game path supplied, home resolves to /home/u and the
    // platform-default directory exists there.
    let m = Installer::new("linux", String::new(), false, false);
    assert_eq!(m.next_action(), InstallAction::ResolveDefaultPath);

    let candidate = default_game_path_candidate(Os::Linux, "/home/u");
    assert_eq!(
        candidate.as_deref(),
        Some("/home/u/.steam/steam/steamapps/common/WarBrokers")
    );
    let mut m = m.step(InstallEvent::PathResolved(candidate));
    assert_eq!(m.game_path(), "/home/u/.steam/steam/steamapps/common/WarBrokers");

    let mut actions: Vec<InstallAction> = Vec::new();
    let result = loop {
        let action = m.next_action();
        actions.push(action);
        let event = match action {
            InstallAction::InstallBepInEx => InstallEvent::BepInExFinished(Ok(())),
            InstallAction::SetupLaunchOption => InstallEvent::LaunchOptionFinished(true),
            InstallAction::LaunchGameOnce => InstallEvent::GameLaunched(true),
            InstallAction::InstallMod => InstallEvent::ModInstallFinished(Ok(())),
            InstallAction::EmitDone => InstallEvent::DoneEmitted,
            InstallAction::Finish(result) => break result,
            other => panic!("unexpected action {:?}", other),
        };
        m = m.step(event);
    };
    assert_eq!(result, InstallResult::NoErr);
    assert_eq!(result.code(), 0);

    // The Done notification is emitted exactly once, last before the report.
    let done_count = actions
        .iter()
        .filter(|a| **a == InstallAction::EmitDone)
        .count();
    assert_eq!(done_count, 1);
    assert_eq!(
        actions,
        vec![
            InstallAction::InstallBepInEx,
            InstallAction::SetupLaunchOption,
            InstallAction::LaunchGameOnce,
            InstallAction::InstallMod,
            InstallAction::EmitDone,
            InstallAction::Finish(InstallResult::NoErr),
        ]
    );
}

#[test]
fn mod_directory_creation_failure_ends_run_without_done() {
    let m = Installer::new("linux", String::from("/games/wb"), false, false);
    let mut m = m;
    let mut actions: Vec<InstallAction> = Vec::new();
    let result = loop {
        let action = m.next_action();
        actions.push(action);
        let event = match action {
            InstallAction::InstallBepInEx => InstallEvent::BepInExFinished(Ok(())),
            InstallAction::SetupLaunchOption => InstallEvent::LaunchOptionFinished(true),
            InstallAction::LaunchGameOnce => InstallEvent::GameLaunched(true),
            InstallAction::InstallMod => {
                InstallEvent::ModInstallFinished(Err(ModInstallError::DirectoryCreationFailed))
            }
            InstallAction::Finish(result) => break result,
            other => panic!("unexpected action {:?}", other),
        };
        m = m.step(event);
    };
    assert_eq!(result, InstallResult::WBMDirectoryCreationFailed);
    assert_eq!(result.code(), 9);
    assert!(!actions.contains(&InstallAction::EmitDone));
    // Nothing after the mod-install step began.
    assert_eq!(*actions.last().unwrap(), InstallAction::Finish(InstallResult::WBMDirectoryCreationFailed));

    // The finished machine is terminal: further events change nothing.
    let m2 = m.step(InstallEvent::DoneEmitted);
    assert_eq!(m2.phase, InstallPhase::Finished(InstallResult::WBMDirectoryCreationFailed));
}

#[test]
fn each_collaborator_failure_maps_to_its_result_code() {
    let start = || Installer::new("linux", String::from("/games/wb"), false, false);

    let m = start().step(InstallEvent::BepInExFinished(Err(BepInExError::DownloadFailed)));
    assert_eq!(m.phase, InstallPhase::Finished(InstallResult::BepInExDownloadFailed));

    let m = start().step(InstallEvent::BepInExFinished(Err(BepInExError::UnzipFailed)));
    assert_eq!(m.phase, InstallPhase::Finished(InstallResult::BepInExUnzipFailed));

    let m = start()
        .step(InstallEvent::BepInExFinished(Ok(())))
        .step(InstallEvent::LaunchOptionFinished(false));
    assert_eq!(m.phase, InstallPhase::Finished(InstallResult::SetLaunchOption));

    let m = start()
        .step(InstallEvent::BepInExFinished(Ok(())))
        .step(InstallEvent::LaunchOptionFinished(true))
        .step(InstallEvent::GameLaunched(false));
    assert_eq!(m.phase, InstallPhase::Finished(InstallResult::LaunchGame));

    let to_mod = || {
        start()
            .step(InstallEvent::BepInExFinished(Ok(())))
            .step(InstallEvent::LaunchOptionFinished(true))
            .step(InstallEvent::GameLaunched(true))
    };
    let m = to_mod().step(InstallEvent::ModInstallFinished(Err(ModInstallError::DownloadFailed)));
    assert_eq!(m.phase, InstallPhase::Finished(InstallResult::WBMDownloadFailed));
    let m = to_mod().step(InstallEvent::ModInstallFinished(Err(ModInstallError::RemoveFailed)));
    assert_eq!(m.phase, InstallPhase::Finished(InstallResult::WBMRemoveFailed));
    let m = to_mod().step(InstallEvent::ModInstallFinished(Err(ModInstallError::UnzipFailed)));
    assert_eq!(m.phase, InstallPhase::Finished(InstallResult::WBMUnzipFailed));
}

#[test]
fn result_codes_match_the_shared_enumeration() {
    let expected: [(InstallResult, i64); 11] = [
        (InstallResult::NoErr, 0),
        (InstallResult::FailedToGetGamePath, 1),
        (InstallResult::UnsupportedOS, 2),
        (InstallResult::BepInExDownloadFailed, 3),
        (InstallResult::BepInExUnzipFailed, 4),
        (InstallResult::SetLaunchOption, 5),
        (InstallResult::LaunchGame, 6),
        (InstallResult::WBMDownloadFailed, 7),
        (InstallResult::WBMRemoveFailed, 8),
        (InstallResult::WBMDirectoryCreationFailed, 9),
        (InstallResult::WBMUnzipFailed, 10),
    ];
    for (value, code) in expected {
        assert_eq!(value.code(), code);
    }
}

#[test]
fn step_codes_match_the_shared_enumeration() {
    let expected: [(InstallSteps, i64); 7] = [
        (InstallSteps::DownloadBepInEx, 0),
        (InstallSteps::InstallBepInEx, 1),
        (InstallSteps::LaunchOption, 2),
        (InstallSteps::LaunchGame, 3),
        (InstallSteps::DownloadWbmZip, 4),
        (InstallSteps::InstallWbm, 5),
        (InstallSteps::Done, 6),
    ];
    for (value, code) in expected {
        assert_eq!(value.code(), code);
    }
}

#[test]
fn os_identifiers_classify_as_expected() {
    assert_eq!(Os::from_ident("linux"), Os::Linux);
    assert_eq!(Os::from_ident("macos"), Os::MacOs);
    assert_eq!(Os::from_ident("windows"), Os::Windows);
    assert_eq!(Os::from_ident("freebsd"), Os::Unsupported);
    assert_eq!(Os::from_ident("android"), Os::Unsupported);
    assert_eq!(Os::from_ident(""), Os::Unsupported);
    assert_eq!(Os::from_ident("Linux"), Os::Unsupported);
}

#[test]
fn default_game_path_follows_the_platform_formulas() {
    assert_eq!(
        default_game_path_candidate(Os::Linux, "/home/u").as_deref(),
        Some("/home/u/.steam/steam/steamapps/common/WarBrokers")
    );
    assert_eq!(
        default_game_path_candidate(Os::MacOs, "/Users/u").as_deref(),
        Some("/Users/u/Library/Application Support/Steam/steamapps/common/WarBrokers")
    );
    assert_eq!(
        default_game_path_candidate(Os::Windows, "C:\\Users\\u").as_deref(),
        Some("C:\\Program Files (x86)\\Steam\\steamapps\\common\\WarBrokers")
    );
    assert_eq!(default_game_path_candidate(Os::Unsupported, "/home/u"), None);
}

#[test]
fn buf2str_preserves_the_characters() {
    assert_eq!(buf2str(None), None);
    assert_eq!(buf2str(Some("/home/u")), Some(String::from("/home/u")));
    assert_eq!(buf2str(Some("")), Some(String::new()));
}

#[test]
fn supplied_path_is_accepted_without_resolution() {
    let m = Installer::new("windows", String::from("D:\\Games\\WarBrokers"), false, false);
    assert_eq!(m.next_action(), InstallAction::InstallBepInEx);
    assert_eq!(m.game_path(), "D:\\Games\\WarBrokers");
}
