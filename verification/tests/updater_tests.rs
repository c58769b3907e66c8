//! The apt output parsers, the maintenance window, and whole orchestrated
//! runs driven through the state machine.
use update_agent::config::AgentConfig;
use update_agent::exit_code_for;
use update_agent::orchestrator::CmdOutput;
use update_agent::orchestrator::CmdResult;
use update_agent::orchestrator::RunAction;
use update_agent::orchestrator::RunConclusion;
use update_agent::orchestrator::RunEvent;
use update_agent::orchestrator::UpdateRun;
use update_agent::updater::UpdateManager;
use update_agent::updater::UpdateResults;
use update_agent::window::in_window;
use update_agent::window::parse_clock_time;

#[test]
fn test_parse_apt_upgradable_count() {
    let manager = UpdateManager::new(AgentConfig::default()).unwrap();

    let output = r#"Listing...
firefox/jammy-updates,jammy-security 108.0.1+build1-0ubuntu0.22.04.1 amd64 [upgradable from: 108.0+build2-0ubuntu0.22.04.1]
thunderbird/jammy-updates,jammy-security 1:102.6.0+build1-0ubuntu0.22.04.1 amd64 [upgradable from: 1:102.5.1+build2-0ubuntu0.22.04.1]
"#;

    let count = manager.parse_apt_upgradable_count(output).unwrap();
    assert_eq!(count, 2);
}

#[test]
fn test_parse_apt_packages_updated() {
    let manager = UpdateManager::new(AgentConfig::default()).unwrap();

    let output = r#"
Reading package lists...
Building dependency tree...
The following packages will be upgraded:
  firefox thunderbird
2 upgraded, 0 newly installed, 0 to remove and 0 not upgraded.
"#;

    let count = manager.parse_apt_packages_updated(output).unwrap();
    assert_eq!(count, 2);
}

#[test]
fn test_parse_apt_bytes_downloaded() {
    let manager = UpdateManager::new(AgentConfig::default()).unwrap();

    let output = r#"
The following packages will be upgraded:
  firefox thunderbird
2 upgraded, 0 newly installed, 0 to remove and 0 not upgraded.
Need to get 42.1 MB of archives.
After this operation, 512 kB of additional disk space will be used.
"#;

    let bytes = manager.parse_apt_bytes_downloaded(output).unwrap();
    assert_eq!(bytes, 42_100_000);
}

#[test]
fn test_maintenance_window_check() {
    let mut config = AgentConfig::default();
    config.updates.maintenance_window_start = Some("02:00".to_string());
    config.updates.maintenance_window_end = Some("04:00".to_string());

    let manager = UpdateManager::new(config).unwrap();

    let _in_window = manager.is_in_maintenance_window(12 * 3600);
}

#[test]
fn test_parser_absence_defaults_to_zero() {
    let manager = UpdateManager::new(AgentConfig::default()).unwrap();
    assert_eq!(manager.parse_apt_packages_updated("nothing to report").unwrap(), 0);
    assert_eq!(manager.parse_apt_bytes_downloaded("nothing to report").unwrap(), 0);
    assert_eq!(manager.parse_apt_upgradable_count("Listing...").unwrap(), 0);
    assert_eq!(manager.parse_apt_upgradable_count("").unwrap(), 0);
}

#[test]
fn test_parser_thousands_separators_and_units() {
    let manager = UpdateManager::new(AgentConfig::default()).unwrap();
    assert_eq!(
        manager.parse_apt_bytes_downloaded("Need to get 1,234 kB of archives.").unwrap(),
        1_234_000
    );
    assert_eq!(
        manager.parse_apt_bytes_downloaded("Need to get 2 GB of archives.").unwrap(),
        2_000_000_000
    );
    assert_eq!(manager.parse_apt_bytes_downloaded("Need to get 17 B of archives.").unwrap(), 17);
    assert_eq!(
        manager.parse_apt_bytes_downloaded("Need to get 0.5 kB of archives.").unwrap(),
        500
    );
}

#[test]
fn test_parser_rejects_malformed_and_oversized_numbers() {
    let manager = UpdateManager::new(AgentConfig::default()).unwrap();
    assert!(manager.parse_apt_bytes_downloaded("Need to get 1.2.3 MB of archives.").is_err());
    assert!(manager
        .parse_apt_bytes_downloaded("Need to get 99999999999999999999 GB of archives.")
        .is_err());
    assert!(manager
        .parse_apt_packages_updated("99999999999999999999 upgraded, 0 newly installed.")
        .is_err());
}

#[test]
fn test_window_boundaries() {
    let start = parse_clock_time("08:00").unwrap();
    let end = parse_clock_time("17:00").unwrap();
    assert!(in_window(9 * 3600, start, end));
    assert!(!in_window(20 * 3600, start, end));

    let start = parse_clock_time("22:00").unwrap();
    let end = parse_clock_time("06:00").unwrap();
    assert!(in_window(23 * 3600 + 30 * 60, start, end));
    assert!(!in_window(12 * 3600, start, end));
}

#[test]
fn test_clock_parsing() {
    assert_eq!(parse_clock_time("08:00"), Some(480));
    assert_eq!(parse_clock_time("8:5"), Some(485));
    assert_eq!(parse_clock_time("23:59"), Some(1439));
    assert_eq!(parse_clock_time("24:00"), None);
    assert_eq!(parse_clock_time("12:60"), None);
    assert_eq!(parse_clock_time("noon"), None);
    assert_eq!(parse_clock_time("12"), None);
    assert_eq!(parse_clock_time("1:2:3"), None);
}

#[test]
fn test_unparsable_window_fails_open() {
    let mut config = AgentConfig::default();
    config.updates.maintenance_window_start = Some("25:00".to_string());
    config.updates.maintenance_window_end = Some("04:00".to_string());
    let manager = UpdateManager::new(config).unwrap();
    assert!(manager.is_in_maintenance_window(12 * 3600));
}

fn completed(success: bool, stdout: &str, stderr: &str) -> RunEvent {
    RunEvent::Command(CmdResult::Completed(CmdOutput {
        success,
        stdout: stdout.to_string(),
        stderr: stderr.to_string(),
    }))
}

fn gate_ok() -> RunEvent {
    RunEvent::Gate { force: true, now_seconds: 0, is_root: true }
}

fn expect_report(c: RunConclusion) -> UpdateResults {
    match c {
        RunConclusion::Report(u) => u,
        RunConclusion::Skipped => panic!("expected a report"),
    }
}

const UPGRADE_OUTPUT: &str =
    "2 upgraded, 0 newly installed, 0 to remove and 0 not upgraded.\nNeed to get 42.1 MB of archives.\n";

const LIST_OUTPUT: &str = "Listing...\n\
a/x 1 amd64 [upgradable from: 0]\n\
b/x 1 amd64 [upgradable from: 0]\n";

#[test]
fn test_run_aborts_when_apt_refresh_fails() {
    // A failing refresh ends the run at once: no snap, no flatpak, no
    // reboot check, and the elapsed time is still recorded.
    let manager = UpdateManager::new(AgentConfig::default()).unwrap();
    let mut run = manager.begin_run();
    run.step(gate_ok());
    assert!(matches!(run.next_action(), RunAction::Execute(ref c) if c.program == "apt-get"));
    run.step(completed(false, "", "mirror unreachable"));
    assert!(matches!(run.next_action(), RunAction::Finish));
    let results = expect_report(run.finish(1234));
    assert!(!results.success);
    assert_eq!(results.packages_updated, 0);
    assert_eq!(results.packages_available, 0);
    assert_eq!(results.bytes_downloaded, 0);
    assert!(results.snap_output.is_none());
    assert!(results.flatpak_output.is_none());
    assert_eq!(results.duration_ms, 1234);
    assert!(results.duration_ms > 0);
    assert_eq!(
        results.error_message.as_deref(),
        Some("APT: apt-get update failed: mirror unreachable")
    );
    assert_eq!(exit_code_for(results.success, false), 1);
}

#[test]
fn test_run_succeeds_when_snap_throws() {
    // A snap failure is isolated: the run stays successful and the counts
    // reflect apt alone.
    let manager = UpdateManager::new(AgentConfig::default()).unwrap();
    let mut run = manager.begin_run();
    run.step(gate_ok());
    run.step(completed(true, "Hit:1 http://archive\n", ""));
    run.step(completed(true, LIST_OUTPUT, ""));
    run.step(completed(true, UPGRADE_OUTPUT, ""));
    run.step(completed(true, "", "")); // autoremove
    run.step(completed(true, "", "")); // autoclean
    assert!(matches!(run.next_action(), RunAction::ProbePath(ref p) if p == "/usr/bin/snap"));
    run.step(RunEvent::PathExists(true));
    run.step(RunEvent::Command(CmdResult::Failed { message: "snapd hung".to_string() }));
    // Default configuration leaves flatpak disabled; the reboot check
    // still runs.
    assert!(
        matches!(run.next_action(), RunAction::ProbePath(ref p) if p == "/var/run/reboot-required")
    );
    run.step(RunEvent::PathExists(false));
    run.step(completed(true, "6.2.0-39-generic\n", "")); // uname -r
    run.step(completed(true, "ii linux-image-6.2.0-39-generic amd64\n", "")); // dpkg -l
    let results = expect_report(run.finish(5000));
    assert!(results.success);
    assert!(results.snap_output.is_none());
    assert_eq!(results.packages_updated, 2);
    assert_eq!(results.packages_available, 2);
    assert_eq!(results.bytes_downloaded, 42_100_000);
    assert!(!results.reboot_required);
    assert!(results.error_message.is_none());
    assert_eq!(exit_code_for(results.success, false), 0);
}

#[test]
fn test_dry_run_counts_nothing_but_reports_available() {
    let mut config = AgentConfig::default();
    config.updates.dry_run = true;
    config.updates.update_sources.snap = false;
    let manager = UpdateManager::new(config).unwrap();
    let mut run = manager.begin_run();
    run.step(RunEvent::Gate { force: false, now_seconds: 3600, is_root: false });
    run.step(completed(true, "Hit:1 http://archive\n", ""));
    run.step(completed(true, LIST_OUTPUT, ""));
    // Dry-run upgrade: only the simulation runs, and no cleanup follows.
    assert!(matches!(run.next_action(), RunAction::Execute(ref c) if c.args[0] == "--dry-run"));
    run.step(completed(true, UPGRADE_OUTPUT, ""));
    run.step(RunEvent::PathExists(true)); // reboot sentinel
    let results = expect_report(run.finish(10));
    assert!(results.success);
    assert_eq!(results.packages_updated, 0);
    assert_eq!(results.bytes_downloaded, 0);
    assert_eq!(results.packages_available, 2);
    assert!(results.reboot_required);
}

#[test]
fn test_run_skipped_outside_window() {
    let mut config = AgentConfig::default();
    config.updates.maintenance_window_start = Some("02:00".to_string());
    config.updates.maintenance_window_end = Some("04:00".to_string());
    let manager = UpdateManager::new(config).unwrap();
    let mut run = manager.begin_run();
    run.step(RunEvent::Gate { force: false, now_seconds: 12 * 3600, is_root: true });
    assert!(matches!(run.next_action(), RunAction::Finish));
    assert!(matches!(run.finish(3), RunConclusion::Skipped));
    assert_eq!(exit_code_for(false, true), 0);
}

#[test]
fn test_live_run_requires_root() {
    let manager = UpdateManager::new(AgentConfig::default()).unwrap();
    let mut run = manager.begin_run();
    run.step(RunEvent::Gate { force: true, now_seconds: 0, is_root: false });
    let results = expect_report(run.finish(1));
    assert!(!results.success);
    assert_eq!(
        results.error_message.as_deref(),
        Some("Must run as root to perform system updates")
    );
}

#[test]
fn test_snap_not_installed_is_reported() {
    let manager = UpdateManager::new(AgentConfig::default()).unwrap();
    let mut run = manager.begin_run();
    run.step(gate_ok());
    run.step(completed(true, "", ""));
    run.step(completed(true, "", ""));
    run.step(completed(true, "0 upgraded, 0 newly installed.", ""));
    run.step(completed(true, "", ""));
    run.step(completed(true, "", ""));
    run.step(RunEvent::PathExists(false)); // no snap binary
    run.step(RunEvent::PathExists(false)); // reboot sentinel
    run.step(completed(true, "6.2.0-39-generic\n", ""));
    // The running kernel is absent from the package listing: a reboot is
    // assumed to be required.
    run.step(completed(true, "ii linux-image-6.5.0-1 amd64\n", ""));
    let results = expect_report(run.finish(2));
    assert!(results.success);
    assert_eq!(results.snap_output.as_deref(), Some("Snap not installed"));
    assert!(results.reboot_required);
    assert_eq!(
        results.apt_output,
        "=== APT Update Output ===\n\n=== Upgrade Output ===\n0 upgraded, 0 newly installed."
    );
}

#[test]
fn test_excluded_packages_are_held() {
    let mut config = AgentConfig::default();
    config.updates.excluded_packages = vec!["firefox".to_string(), "kernel".to_string()];
    let manager = UpdateManager::new(config).unwrap();
    let mut run = manager.begin_run();
    run.step(gate_ok());
    run.step(completed(true, "", ""));
    run.step(completed(true, "", ""));
    match run.next_action() {
        RunAction::Execute(c) => {
            assert_eq!(c.program, "apt-get");
            assert_eq!(
                c.args,
                vec!["upgrade", "-y", "--hold", "firefox", "--hold", "kernel"]
            );
        }
        _ => panic!("expected the upgrade command"),
    }
}

#[test]
fn test_apt_spawn_failure_aborts_run() {
    let manager = UpdateManager::new(AgentConfig::default()).unwrap();
    let mut run = manager.begin_run();
    run.step(gate_ok());
    run.step(RunEvent::Command(CmdResult::Failed { message: "no such binary".to_string() }));
    let results = expect_report(run.finish(7));
    assert!(!results.success);
    assert_eq!(results.error_message.as_deref(), Some("APT: no such binary"));
}

#[test]
fn test_apt_upgrade_failure_discards_partial_counts() {
    let manager = UpdateManager::new(AgentConfig::default()).unwrap();
    let mut run = manager.begin_run();
    run.step(gate_ok());
    run.step(completed(true, "", ""));
    run.step(completed(true, LIST_OUTPUT, "")); // two packages available so far
    run.step(completed(false, "", "dpkg lock held"));
    let results = expect_report(run.finish(9));
    assert!(!results.success);
    // The aborted run reports nothing it had gathered.
    assert_eq!(results.packages_available, 0);
    assert_eq!(results.apt_output, "");
    assert_eq!(
        results.error_message.as_deref(),
        Some("APT: apt-get upgrade failed: dpkg lock held")
    );
}

#[test]
fn test_kernel_probe_failure_zeroes_the_report() {
    let manager = UpdateManager::new(AgentConfig::default()).unwrap();
    let mut run = manager.begin_run();
    run.step(gate_ok());
    run.step(completed(true, "", ""));
    run.step(completed(true, LIST_OUTPUT, ""));
    run.step(completed(true, UPGRADE_OUTPUT, ""));
    run.step(completed(true, "", ""));
    run.step(completed(true, "", ""));
    run.step(RunEvent::PathExists(true)); // snap present
    run.step(completed(true, "All snaps up to date.", ""));
    run.step(RunEvent::PathExists(false)); // no reboot sentinel
    run.step(RunEvent::Command(CmdResult::Failed { message: "uname missing".to_string() }));
    let results = expect_report(run.finish(11));
    assert!(!results.success);
    // A fatal kernel probe discards even the snap output already gathered.
    assert!(results.snap_output.is_none());
    assert_eq!(results.packages_updated, 0);
    assert_eq!(
        results.error_message.as_deref(),
        Some("Failed to get kernel version: uname missing")
    );
}

#[test]
fn test_unsuccessful_uname_means_no_reboot() {
    let mut config = AgentConfig::default();
    config.updates.update_sources.snap = false;
    let manager = UpdateManager::new(config).unwrap();
    let mut run = manager.begin_run();
    run.step(gate_ok());
    run.step(completed(true, "", ""));
    run.step(completed(true, "", ""));
    run.step(completed(true, "0 upgraded, 0 newly installed.", ""));
    run.step(completed(true, "", ""));
    run.step(completed(true, "", ""));
    run.step(RunEvent::PathExists(false)); // no reboot sentinel
    run.step(completed(false, "", "")); // uname exits unsuccessfully
    let results = expect_report(run.finish(4));
    assert!(results.success);
    assert!(!results.reboot_required);
}

#[test]
fn test_flatpak_paths() {
    let mut config = AgentConfig::default();
    config.updates.update_sources.flatpak = true;
    let manager = UpdateManager::new(config).unwrap();
    let mut run = manager.begin_run();
    run.step(gate_ok());
    run.step(completed(true, "", ""));
    run.step(completed(true, "", ""));
    run.step(completed(true, "0 upgraded, 0 newly installed.", ""));
    run.step(completed(true, "", ""));
    run.step(completed(true, "", ""));
    run.step(RunEvent::PathExists(false)); // no snap binary
    assert!(matches!(run.next_action(), RunAction::ProbePath(ref p) if p == "/usr/bin/flatpak"));
    run.step(RunEvent::PathExists(true));
    run.step(completed(true, "Nothing to do.\n", ""));
    run.step(RunEvent::PathExists(false)); // reboot sentinel
    run.step(completed(true, "6.2.0-39-generic\n", ""));
    run.step(completed(true, "ii linux-image-6.2.0-39-generic amd64\n", ""));
    let results = expect_report(run.finish(6));
    assert!(results.success);
    assert_eq!(results.snap_output.as_deref(), Some("Snap not installed"));
    assert_eq!(results.flatpak_output.as_deref(), Some("Nothing to do.\n"));
}

#[test]
fn test_flatpak_not_installed() {
    let mut config = AgentConfig::default();
    config.updates.update_sources.apt = false;
    config.updates.update_sources.snap = false;
    config.updates.update_sources.flatpak = true;
    let manager = UpdateManager::new(config).unwrap();
    let mut run = manager.begin_run();
    run.step(gate_ok());
    // With apt and snap disabled, the machine goes straight to flatpak.
    assert!(matches!(run.next_action(), RunAction::ProbePath(ref p) if p == "/usr/bin/flatpak"));
    run.step(RunEvent::PathExists(false));
    run.step(RunEvent::PathExists(false)); // reboot sentinel
    run.step(completed(true, "6.2.0-39-generic\n", ""));
    run.step(completed(true, "ii linux-image-6.2.0-39-generic amd64\n", ""));
    let results = expect_report(run.finish(8));
    assert!(results.success);
    assert_eq!(results.flatpak_output.as_deref(), Some("Flatpak not installed"));
    assert_eq!(results.apt_output, "");
}
