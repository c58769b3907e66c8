//! The update orchestrator as an explicit state machine. The caller runs
//! the loop: it asks `next_action` what to do — evaluate the maintenance
//! window, execute a command, probe a path — performs it, and hands the
//! outcome back to
//! `step`. Every decision between the steps is made and verified here.
//! Package sources run strictly one after another, by design: concurrent
//! package-manager invocations would contend for the package database.
use vstd::prelude::*;
use vstd::string::StrSliceExecFns;
use vstd::string::StringExecFns;

use crate::apt::parse_apt_bytes_downloaded;
use crate::apt::parse_apt_packages_updated;
use crate::apt::parse_apt_upgradable_count;
use crate::apt::spec_bytes_downloaded;
use crate::apt::spec_packages_updated;
use crate::apt::spec_upgradable_count;
use crate::apt::AptParseError;
use crate::config::UpdateSources;
use crate::scan::contains_seq;
use crate::scan::contains_str;
use crate::scan::spec_trim;
use crate::scan::trim_str;
use crate::updater::UpdateResults;
use crate::window::maintenance_allows;
use crate::window::opt_str_view;
use crate::window::spec_maintenance_allows;

verus! {

/// Where the run stands.
#[derive(Clone, Copy, Debug, PartialEq, Eq, Structural)]
pub enum RunPhase {
    /// Check the maintenance window and the root precondition.
    Gate,
    /// `apt-get update`: a failure aborts the whole run.
    AptRefresh,
    /// `apt list --upgradable`: a failed listing only zeroes the count.
    AptList,
    /// The upgrade itself, simulated under dry-run.
    AptUpgrade,
    /// Best-effort cleanup; failures are swallowed.
    AptAutoRemove,
    /// Best-effort cache cleanup; failures are swallowed.
    AptAutoClean,
    /// Is the snap binary present?
    SnapCheck,
    /// The snap refresh; failures are isolated.
    SnapRun,
    /// Is the flatpak binary present?
    FlatpakCheck,
    /// The flatpak update; failures are isolated.
    FlatpakRun,
    /// Does the reboot sentinel file exist?
    RebootSentinel,
    /// Read the running kernel version.
    RebootUname,
    /// List the installed kernel packages.
    RebootDpkg,
    /// Terminal; `finish` renders the result.
    Done,
}

/// What a completed external command produced.
pub struct CmdOutput {
    pub success: bool,
    pub stdout: String,
    pub stderr: String,
}

/// How running an external command went: it completed (with any exit
/// status), or it could not be run or timed out.
pub enum CmdResult {
    Completed(CmdOutput),
    Failed { message: String },
}

/// What the caller observed for the machine's pending action.
pub enum RunEvent {
    /// The window-check inputs: the override flag, the local time in
    /// seconds of the day, and whether the process runs as root.
    Gate { force: bool, now_seconds: u32, is_root: bool },
    /// An external command's outcome.
    Command(CmdResult),
    /// Whether the probed path exists.
    PathExists(bool),
}

/// What the caller must do next.
pub enum RunAction {
    /// Hand in a `RunEvent::Gate`.
    EvaluateGate,
    /// Run this command and hand in a `RunEvent::Command`.
    Execute(CmdSpec),
    /// Probe this path and hand in a `RunEvent::PathExists`.
    ProbePath(String),
    /// The run is over; call `finish`.
    Finish,
}

/// An external command to run, with its wall-clock timeout in seconds
/// (none: wait without limit).
pub struct CmdSpec {
    pub program: String,
    pub args: Vec<String>,
    pub timeout_secs: Option<u64>,
}

/// Why the run failed.
pub enum RunError {
    /// Live mode without root privilege.
    NotRoot,
    /// An apt command could not be run or timed out.
    AptCommand { message: String },
    /// `apt-get update` exited unsuccessfully.
    AptRefreshFailed { stderr: String },
    /// `apt-get upgrade` exited unsuccessfully.
    AptUpgradeFailed { stderr: String },
    /// The packages-updated count in the upgrade output overflows.
    PackagesUpdatedUnreadable { err: AptParseError },
    /// The download size in the upgrade output is malformed or overflows.
    BytesDownloadedUnreadable { err: AptParseError },
    /// The running kernel version could not be read.
    KernelProbe { message: String },
}

/// How an optional source ended.
pub enum SourceStatus {
    /// Never reached.
    NotRun,
    /// The binary is absent; reported, not failed.
    NotInstalled,
    /// The command could not be run; isolated to a warning.
    FailedToRun,
    /// The command completed; its captured output.
    Output(String),
}

/// The whole state of one update run. A fresh machine begins every run;
/// `Done` is terminal and the machine is not reused.
#[verifier::ext_equal]
pub struct UpdateRun {
    // The run's configuration snapshot.
    pub dry_run: bool,
    pub sources: UpdateSources,
    pub excluded: Vec<String>,
    pub window_start: Option<String>,
    pub window_end: Option<String>,
    // Progress.
    pub phase: RunPhase,
    pub skipped: bool,
    pub error: Option<RunError>,
    // What the run has gathered.
    pub refresh_stdout: String,
    pub upgrade_stdout: String,
    pub packages_updated: u64,
    pub packages_available: u64,
    pub bytes_downloaded: u64,
    pub apt_ran: bool,
    pub snap: SourceStatus,
    pub flatpak: SourceStatus,
    pub uname_stdout: String,
    pub reboot_required: bool,
}

/// The phase that follows the apt section.
pub open spec fn phase_after_apt(sources: UpdateSources) -> RunPhase {
    if sources.snap {
        RunPhase::SnapCheck
    } else if sources.flatpak {
        RunPhase::FlatpakCheck
    } else {
        RunPhase::RebootSentinel
    }
}

/// The phase that follows the snap section.
pub open spec fn phase_after_snap(sources: UpdateSources) -> RunPhase {
    if sources.flatpak {
        RunPhase::FlatpakCheck
    } else {
        RunPhase::RebootSentinel
    }
}

/// A failed run: terminal, with the error recorded and everything the
/// aborted run had gathered discarded.
pub open spec fn spec_fail(s: UpdateRun, err: RunError) -> UpdateRun {
    UpdateRun {
        phase: RunPhase::Done,
        error: Some(err),
        packages_updated: 0,
        packages_available: 0,
        bytes_downloaded: 0,
        apt_ran: false,
        snap: SourceStatus::NotRun,
        flatpak: SourceStatus::NotRun,
        reboot_required: false,
        ..s
    }
}

/// The machine's whole transition relation: the state after the pending
/// action's outcome `ev` lands on state `s`. An event of the wrong kind,
/// or any event in `Done`, changes nothing.
pub open spec fn spec_step(s: UpdateRun, ev: RunEvent) -> UpdateRun {
    match s.phase {
        RunPhase::Gate => match ev {
            RunEvent::Gate { force, now_seconds, is_root } => {
                if !force && !spec_maintenance_allows(
                    opt_str_view(s.window_start),
                    opt_str_view(s.window_end),
                    now_seconds as nat,
                ) {
                    UpdateRun { phase: RunPhase::Done, skipped: true, ..s }
                } else if !is_root && !s.dry_run {
                    spec_fail(s, RunError::NotRoot)
                } else if s.sources.apt {
                    UpdateRun { phase: RunPhase::AptRefresh, ..s }
                } else {
                    UpdateRun { phase: phase_after_apt(s.sources), ..s }
                }
            },
            _ => s,
        },
        RunPhase::AptRefresh => match ev {
            RunEvent::Command(r) => match r {
                CmdResult::Failed { message } => spec_fail(s, RunError::AptCommand { message }),
                CmdResult::Completed(o) => if !o.success {
                    spec_fail(s, RunError::AptRefreshFailed { stderr: o.stderr })
                } else {
                    UpdateRun { phase: RunPhase::AptList, refresh_stdout: o.stdout, ..s }
                },
            },
            _ => s,
        },
        RunPhase::AptList => match ev {
            RunEvent::Command(r) => match r {
                CmdResult::Failed { message } => spec_fail(s, RunError::AptCommand { message }),
                CmdResult::Completed(o) => UpdateRun {
                    phase: RunPhase::AptUpgrade,
                    packages_available: if o.success {
                        spec_upgradable_count(o.stdout@) as u64
                    } else {
                        0
                    },
                    ..s
                },
            },
            _ => s,
        },
        RunPhase::AptUpgrade => match ev {
            RunEvent::Command(r) => match r {
                CmdResult::Failed { message } => spec_fail(s, RunError::AptCommand { message }),
                CmdResult::Completed(o) => if s.dry_run {
                    UpdateRun {
                        phase: phase_after_apt(s.sources),
                        upgrade_stdout: o.stdout,
                        apt_ran: true,
                        ..s
                    }
                } else if !o.success {
                    spec_fail(s, RunError::AptUpgradeFailed { stderr: o.stderr })
                } else if spec_packages_updated(o.stdout@) > u64::MAX {
                    spec_fail(
                        s,
                        RunError::PackagesUpdatedUnreadable { err: AptParseError::TooLarge },
                    )
                } else {
                    match spec_bytes_downloaded(o.stdout@) {
                        Err(e) => spec_fail(s, RunError::BytesDownloadedUnreadable { err: e }),
                        Ok(b) => if b > u64::MAX {
                            spec_fail(
                                s,
                                RunError::BytesDownloadedUnreadable {
                                    err: AptParseError::TooLarge,
                                },
                            )
                        } else {
                            UpdateRun {
                                phase: RunPhase::AptAutoRemove,
                                upgrade_stdout: o.stdout,
                                packages_updated: spec_packages_updated(o.stdout@) as u64,
                                bytes_downloaded: b as u64,
                                apt_ran: true,
                                ..s
                            }
                        },
                    }
                },
            },
            _ => s,
        },
        RunPhase::AptAutoRemove => match ev {
            RunEvent::Command(_) => UpdateRun { phase: RunPhase::AptAutoClean, ..s },
            _ => s,
        },
        RunPhase::AptAutoClean => match ev {
            RunEvent::Command(_) => UpdateRun { phase: phase_after_apt(s.sources), ..s },
            _ => s,
        },
        RunPhase::SnapCheck => match ev {
            RunEvent::PathExists(present) => if present {
                UpdateRun { phase: RunPhase::SnapRun, ..s }
            } else {
                UpdateRun {
                    phase: phase_after_snap(s.sources),
                    snap: SourceStatus::NotInstalled,
                    ..s
                }
            },
            _ => s,
        },
        RunPhase::SnapRun => match ev {
            RunEvent::Command(r) => match r {
                CmdResult::Failed { .. } => UpdateRun {
                    phase: phase_after_snap(s.sources),
                    snap: SourceStatus::FailedToRun,
                    ..s
                },
                CmdResult::Completed(o) => UpdateRun {
                    phase: phase_after_snap(s.sources),
                    snap: SourceStatus::Output(o.stdout),
                    ..s
                },
            },
            _ => s,
        },
        RunPhase::FlatpakCheck => match ev {
            RunEvent::PathExists(present) => if present {
                UpdateRun { phase: RunPhase::FlatpakRun, ..s }
            } else {
                UpdateRun {
                    phase: RunPhase::RebootSentinel,
                    flatpak: SourceStatus::NotInstalled,
                    ..s
                }
            },
            _ => s,
        },
        RunPhase::FlatpakRun => match ev {
            RunEvent::Command(r) => match r {
                CmdResult::Failed { .. } => UpdateRun {
                    phase: RunPhase::RebootSentinel,
                    flatpak: SourceStatus::FailedToRun,
                    ..s
                },
                CmdResult::Completed(o) => UpdateRun {
                    phase: RunPhase::RebootSentinel,
                    flatpak: SourceStatus::Output(o.stdout),
                    ..s
                },
            },
            _ => s,
        },
        RunPhase::RebootSentinel => match ev {
            RunEvent::PathExists(present) => if present {
                UpdateRun { phase: RunPhase::Done, reboot_required: true, ..s }
            } else {
                UpdateRun { phase: RunPhase::RebootUname, ..s }
            },
            _ => s,
        },
        RunPhase::RebootUname => match ev {
            RunEvent::Command(r) => match r {
                CmdResult::Failed { message } => spec_fail(s, RunError::KernelProbe { message }),
                CmdResult::Completed(o) => if !o.success {
                    UpdateRun { phase: RunPhase::Done, ..s }
                } else {
                    UpdateRun { phase: RunPhase::RebootDpkg, uname_stdout: o.stdout, ..s }
                },
            },
            _ => s,
        },
        RunPhase::RebootDpkg => match ev {
            RunEvent::Command(r) => match r {
                CmdResult::Failed { .. } => UpdateRun { phase: RunPhase::Done, ..s },
                CmdResult::Completed(o) => UpdateRun {
                    phase: RunPhase::Done,
                    reboot_required: o.success && !contains_seq(
                        o.stdout@,
                        spec_trim(s.uname_stdout@),
                    ),
                    ..s
                },
            },
            _ => s,
        },
        RunPhase::Done => s,
    }
}

impl UpdateRun {
    /// Advance the machine by one observed event.
    pub fn step(&mut self, ev: RunEvent)
        ensures
            *final(self) == spec_step(*old(self), ev),
    {
        match self.phase {
            RunPhase::Gate => match ev {
                RunEvent::Gate { force, now_seconds, is_root } => {
                    let allowed = force || maintenance_allows(
                        &self.window_start,
                        &self.window_end,
                        now_seconds,
                    );
                    if !allowed {
                        self.phase = RunPhase::Done;
                        self.skipped = true;
                    } else if !is_root && !self.dry_run {
                        self.fail(RunError::NotRoot);
                    } else if self.sources.apt {
                        self.phase = RunPhase::AptRefresh;
                    } else {
                        self.phase = self.next_after_apt();
                    }
                },
                _ => {},
            },
            RunPhase::AptRefresh => match ev {
                RunEvent::Command(r) => match r {
                    CmdResult::Failed { message } => {
                        self.fail(RunError::AptCommand { message });
                    },
                    CmdResult::Completed(o) => {
                        if !o.success {
                            self.fail(RunError::AptRefreshFailed { stderr: o.stderr });
                        } else {
                            self.phase = RunPhase::AptList;
                            self.refresh_stdout = o.stdout;
                        }
                    },
                },
                _ => {},
            },
            RunPhase::AptList => match ev {
                RunEvent::Command(r) => match r {
                    CmdResult::Failed { message } => {
                        self.fail(RunError::AptCommand { message });
                    },
                    CmdResult::Completed(o) => {
                        let available: u64 = if o.success {
                            match parse_apt_upgradable_count(o.stdout.as_str()) {
                                Ok(v) => v,
                                Err(_) => 0,
                            }
                        } else {
                            0
                        };
                        self.phase = RunPhase::AptUpgrade;
                        self.packages_available = available;
                    },
                },
                _ => {},
            },
            RunPhase::AptUpgrade => match ev {
                RunEvent::Command(r) => match r {
                    CmdResult::Failed { message } => {
                        self.fail(RunError::AptCommand { message });
                    },
                    CmdResult::Completed(o) => {
                        if self.dry_run {
                            self.phase = self.next_after_apt();
                            self.upgrade_stdout = o.stdout;
                            self.apt_ran = true;
                        } else if !o.success {
                            self.fail(RunError::AptUpgradeFailed { stderr: o.stderr });
                        } else {
                            match parse_apt_packages_updated(o.stdout.as_str()) {
                                Err(e) => {
                                    self.fail(RunError::PackagesUpdatedUnreadable { err: e });
                                },
                                Ok(updated) => {
                                    match parse_apt_bytes_downloaded(o.stdout.as_str()) {
                                        Err(e) => {
                                            self.fail(
                                                RunError::BytesDownloadedUnreadable { err: e },
                                            );
                                        },
                                        Ok(bytes) => {
                                            self.phase = RunPhase::AptAutoRemove;
                                            self.upgrade_stdout = o.stdout;
                                            self.packages_updated = updated;
                                            self.bytes_downloaded = bytes;
                                            self.apt_ran = true;
                                        },
                                    }
                                },
                            }
                        }
                    },
                },
                _ => {},
            },
            RunPhase::AptAutoRemove => match ev {
                RunEvent::Command(_) => {
                    self.phase = RunPhase::AptAutoClean;
                },
                _ => {},
            },
            RunPhase::AptAutoClean => match ev {
                RunEvent::Command(_) => {
                    self.phase = self.next_after_apt();
                },
                _ => {},
            },
            RunPhase::SnapCheck => match ev {
                RunEvent::PathExists(present) => {
                    if present {
                        self.phase = RunPhase::SnapRun;
                    } else {
                        self.phase = self.next_after_snap();
                        self.snap = SourceStatus::NotInstalled;
                    }
                },
                _ => {},
            },
            RunPhase::SnapRun => match ev {
                RunEvent::Command(r) => match r {
                    CmdResult::Failed { .. } => {
                        self.phase = self.next_after_snap();
                        self.snap = SourceStatus::FailedToRun;
                    },
                    CmdResult::Completed(o) => {
                        self.phase = self.next_after_snap();
                        self.snap = SourceStatus::Output(o.stdout);
                    },
                },
                _ => {},
            },
            RunPhase::FlatpakCheck => match ev {
                RunEvent::PathExists(present) => {
                    if present {
                        self.phase = RunPhase::FlatpakRun;
                    } else {
                        self.phase = RunPhase::RebootSentinel;
                        self.flatpak = SourceStatus::NotInstalled;
                    }
                },
                _ => {},
            },
            RunPhase::FlatpakRun => match ev {
                RunEvent::Command(r) => match r {
                    CmdResult::Failed { .. } => {
                        self.phase = RunPhase::RebootSentinel;
                        self.flatpak = SourceStatus::FailedToRun;
                    },
                    CmdResult::Completed(o) => {
                        self.phase = RunPhase::RebootSentinel;
                        self.flatpak = SourceStatus::Output(o.stdout);
                    },
                },
                _ => {},
            },
            RunPhase::RebootSentinel => match ev {
                RunEvent::PathExists(present) => {
                    if present {
                        self.phase = RunPhase::Done;
                        self.reboot_required = true;
                    } else {
                        self.phase = RunPhase::RebootUname;
                    }
                },
                _ => {},
            },
            RunPhase::RebootUname => match ev {
                RunEvent::Command(r) => match r {
                    CmdResult::Failed { message } => {
                        self.fail(RunError::KernelProbe { message });
                    },
                    CmdResult::Completed(o) => {
                        if !o.success {
                            self.phase = RunPhase::Done;
                        } else {
                            self.phase = RunPhase::RebootDpkg;
                            self.uname_stdout = o.stdout;
                        }
                    },
                },
                _ => {},
            },
            RunPhase::RebootDpkg => match ev {
                RunEvent::Command(r) => match r {
                    CmdResult::Failed { .. } => {
                        self.phase = RunPhase::Done;
                    },
                    CmdResult::Completed(o) => {
                        let running = trim_str(self.uname_stdout.as_str());
                        let found = contains_str(o.stdout.as_str(), running);
                        self.phase = RunPhase::Done;
                        self.reboot_required = o.success && !found;
                    },
                },
                _ => {},
            },
            RunPhase::Done => {},
        }
    }

    /// Record a fatal error and end the run, discarding what it gathered.
    fn fail(&mut self, err: RunError)
        ensures
            *final(self) == spec_fail(*old(self), err),
    {
        self.phase = RunPhase::Done;
        self.error = Some(err);
        self.packages_updated = 0;
        self.packages_available = 0;
        self.bytes_downloaded = 0;
        self.apt_ran = false;
        self.snap = SourceStatus::NotRun;
        self.flatpak = SourceStatus::NotRun;
        self.reboot_required = false;
    }

    /// The phase that follows the apt section.
    fn next_after_apt(&self) -> (r: RunPhase)
        ensures
            r == phase_after_apt(self.sources),
    {
        if self.sources.snap {
            RunPhase::SnapCheck
        } else if self.sources.flatpak {
            RunPhase::FlatpakCheck
        } else {
            RunPhase::RebootSentinel
        }
    }

    /// The phase that follows the snap section.
    fn next_after_snap(&self) -> (r: RunPhase)
        ensures
            r == phase_after_snap(self.sources),
    {
        if self.sources.flatpak {
            RunPhase::FlatpakCheck
        } else {
            RunPhase::RebootSentinel
        }
    }
}

/// How a run ends for the caller: skipped outside the maintenance window —
/// distinct from failure — or a report to deliver.
pub enum RunConclusion {
    Skipped,
    Report(UpdateResults),
}

/// The message a run error renders to.
pub open spec fn spec_error_message(e: RunError) -> Seq<char> {
    match e {
        RunError::NotRoot => "Must run as root to perform system updates"@,
        RunError::AptCommand { message } => "APT: "@ + message@,
        RunError::AptRefreshFailed { stderr } => "APT: apt-get update failed: "@ + stderr@,
        RunError::AptUpgradeFailed { stderr } => "APT: apt-get upgrade failed: "@ + stderr@,
        RunError::PackagesUpdatedUnreadable { .. } =>
            "APT: packages-updated count does not fit in 64 bits"@,
        RunError::BytesDownloadedUnreadable { err } => if err == AptParseError::Malformed {
            "APT: malformed download size in apt output"@
        } else {
            "APT: download size does not fit in 64 bits"@
        },
        RunError::KernelProbe { message } => "Failed to get kernel version: "@ + message@,
    }
}

/// The rendered message of an optional error.
pub open spec fn spec_error_opt(e: Option<RunError>) -> Option<Seq<char>> {
    match e {
        Some(err) => Some(spec_error_message(err)),
        None => None,
    }
}

/// The apt output a finished run reports: the refresh output and the
/// upgrade output under their banners, or nothing when apt never ran to
/// completion.
pub open spec fn spec_apt_output(s: UpdateRun) -> Seq<char> {
    if s.apt_ran {
        if s.dry_run {
            "=== APT Update Output ===\n"@ + s.refresh_stdout@
                + "\n=== Dry Run Upgrade Output ===\n"@ + s.upgrade_stdout@
        } else {
            "=== APT Update Output ===\n"@ + s.refresh_stdout@ + "\n=== Upgrade Output ===\n"@
                + s.upgrade_stdout@
        }
    } else {
        Seq::<char>::empty()
    }
}

/// What an optional source reports: nothing when it never ran or failed,
/// the fixed notice when its binary is absent, its output otherwise.
pub open spec fn spec_source_output(st: SourceStatus, not_installed: Seq<char>) -> Option<
    Seq<char>,
> {
    match st {
        SourceStatus::NotRun => None,
        SourceStatus::FailedToRun => None,
        SourceStatus::NotInstalled => Some(not_installed),
        SourceStatus::Output(o) => Some(o@),
    }
}

/// Render a run error's message.
fn render_error(e: RunError) -> (r: String)
    ensures
        r@ == spec_error_message(e),
{
    match e {
        RunError::NotRoot => String::from_str("Must run as root to perform system updates"),
        RunError::AptCommand { message } => String::from_str("APT: ").concat(message.as_str()),
        RunError::AptRefreshFailed { stderr } => String::from_str(
            "APT: apt-get update failed: ",
        ).concat(stderr.as_str()),
        RunError::AptUpgradeFailed { stderr } => String::from_str(
            "APT: apt-get upgrade failed: ",
        ).concat(stderr.as_str()),
        RunError::PackagesUpdatedUnreadable { .. } => String::from_str(
            "APT: packages-updated count does not fit in 64 bits",
        ),
        RunError::BytesDownloadedUnreadable { err } => match err {
            AptParseError::Malformed => String::from_str(
                "APT: malformed download size in apt output",
            ),
            AptParseError::TooLarge => String::from_str(
                "APT: download size does not fit in 64 bits",
            ),
        },
        RunError::KernelProbe { message } => String::from_str(
            "Failed to get kernel version: ",
        ).concat(message.as_str()),
    }
}

impl UpdateRun {
    /// What the caller must do next, given where the run stands.
    pub fn next_action(&self) -> (r: RunAction)
        ensures
            match self.phase {
                RunPhase::Gate => r is EvaluateGate,
                RunPhase::AptRefresh => (r matches RunAction::Execute(c) && c.program@
                    == "apt-get"@ && c.args@.len() == 1 && c.args@[0]@ == "update"@
                    && c.timeout_secs == Some(300u64)),
                RunPhase::AptList => (r matches RunAction::Execute(c) && c.program@ == "apt"@
                    && c.args@.len() == 2 && c.args@[0]@ == "list"@ && c.args@[1]@
                    == "--upgradable"@ && c.timeout_secs == Some(60u64)),
                RunPhase::AptUpgrade => if self.dry_run {
                    (r matches RunAction::Execute(c) && c.program@ == "apt-get"@ && c.args@.len()
                        == 2 && c.args@[0]@ == "--dry-run"@ && c.args@[1]@ == "upgrade"@
                        && c.timeout_secs == Some(300u64))
                } else {
                    (r matches RunAction::Execute(c) && c.program@ == "apt-get"@ && c.args@.len()
                        == 2 + 2 * self.excluded@.len() && c.args@[0]@ == "upgrade"@ && c.args@[1]@
                        == "-y"@ && (forall|j: int|
                        0 <= j < self.excluded@.len() ==> #[trigger] c.args@[2 + 2 * j]@
                            == "--hold"@) && (forall|j: int|
                        0 <= j < self.excluded@.len() ==> #[trigger] c.args@[2 + 2 * j + 1]@
                            == self.excluded@[j]@) && c.timeout_secs == Some(1800u64))
                },
                RunPhase::AptAutoRemove => (r matches RunAction::Execute(c) && c.program@
                    == "apt-get"@ && c.args@.len() == 2 && c.args@[0]@ == "autoremove"@
                    && c.args@[1]@ == "-y"@ && c.timeout_secs == Some(300u64)),
                RunPhase::AptAutoClean => (r matches RunAction::Execute(c) && c.program@
                    == "apt-get"@ && c.args@.len() == 1 && c.args@[0]@ == "autoclean"@
                    && c.timeout_secs == Some(60u64)),
                RunPhase::SnapCheck => (r matches RunAction::ProbePath(p) && p@
                    == "/usr/bin/snap"@),
                RunPhase::SnapRun => if self.dry_run {
                    (r matches RunAction::Execute(c) && c.program@ == "snap"@ && c.args@.len() == 2
                        && c.args@[0]@ == "refresh"@ && c.args@[1]@ == "--list"@ && c.timeout_secs
                        == Some(60u64))
                } else {
                    (r matches RunAction::Execute(c) && c.program@ == "snap"@ && c.args@.len() == 1
                        && c.args@[0]@ == "refresh"@ && c.timeout_secs == Some(900u64))
                },
                RunPhase::FlatpakCheck => (r matches RunAction::ProbePath(p) && p@
                    == "/usr/bin/flatpak"@),
                RunPhase::FlatpakRun => if self.dry_run {
                    (r matches RunAction::Execute(c) && c.program@ == "flatpak"@ && c.args@.len()
                        == 2 && c.args@[0]@ == "update"@ && c.args@[1]@ == "--show-details"@
                        && c.timeout_secs == Some(60u64))
                } else {
                    (r matches RunAction::Execute(c) && c.program@ == "flatpak"@ && c.args@.len()
                        == 2 && c.args@[0]@ == "update"@ && c.args@[1]@ == "-y"@ && c.timeout_secs
                        == Some(900u64))
                },
                RunPhase::RebootSentinel => (r matches RunAction::ProbePath(p) && p@
                    == "/var/run/reboot-required"@),
                RunPhase::RebootUname => (r matches RunAction::Execute(c) && c.program@ == "uname"@
                    && c.args@.len() == 1 && c.args@[0]@ == "-r"@ && c.timeout_secs is None),
                RunPhase::RebootDpkg => (r matches RunAction::Execute(c) && c.program@ == "dpkg"@
                    && c.args@.len() == 2 && c.args@[0]@ == "-l"@ && c.args@[1]@
                    == "linux-image-*"@ && c.timeout_secs is None),
                RunPhase::Done => r is Finish,
            },
    {
        match self.phase {
            RunPhase::Gate => RunAction::EvaluateGate,
            RunPhase::AptRefresh => {
                let mut args: Vec<String> = Vec::new();
                args.push(String::from_str("update"));
                RunAction::Execute(
                    CmdSpec {
                        program: String::from_str("apt-get"),
                        args,
                        timeout_secs: Some(300),
                    },
                )
            },
            RunPhase::AptList => {
                let mut args: Vec<String> = Vec::new();
                args.push(String::from_str("list"));
                args.push(String::from_str("--upgradable"));
                RunAction::Execute(
                    CmdSpec { program: String::from_str("apt"), args, timeout_secs: Some(60) },
                )
            },
            RunPhase::AptUpgrade => {
                if self.dry_run {
                    let mut args: Vec<String> = Vec::new();
                    args.push(String::from_str("--dry-run"));
                    args.push(String::from_str("upgrade"));
                    RunAction::Execute(
                        CmdSpec {
                            program: String::from_str("apt-get"),
                            args,
                            timeout_secs: Some(300),
                        },
                    )
                } else {
                    let mut args: Vec<String> = Vec::new();
                    args.push(String::from_str("upgrade"));
                    args.push(String::from_str("-y"));
                    let n = self.excluded.len();
                    let mut i: usize = 0;
                    while i < n
                        invariant
                            0 <= i <= n,
                            n == self.excluded@.len(),
                            args@.len() == 2 + 2 * i,
                            args@[0]@ == "upgrade"@,
                            args@[1]@ == "-y"@,
                            forall|j: int|
                                0 <= j < i ==> #[trigger] args@[2 + 2 * j]@ == "--hold"@,
                            forall|j: int|
                                0 <= j < i ==> #[trigger] args@[2 + 2 * j + 1]@
                                    == self.excluded@[j]@,
                        decreases n - i,
                    {
                        args.push(String::from_str("--hold"));
                        args.push((&self.excluded[i]).clone());
                        proof {
                            assert(args@[2 + 2 * (i as int)]@ == "--hold"@);
                            assert(args@[2 + 2 * (i as int) + 1]@ == self.excluded@[i as int]@);
                        }
                        i = i + 1;
                    }
                    RunAction::Execute(
                        CmdSpec {
                            program: String::from_str("apt-get"),
                            args,
                            timeout_secs: Some(1800),
                        },
                    )
                }
            },
            RunPhase::AptAutoRemove => {
                let mut args: Vec<String> = Vec::new();
                args.push(String::from_str("autoremove"));
                args.push(String::from_str("-y"));
                RunAction::Execute(
                    CmdSpec {
                        program: String::from_str("apt-get"),
                        args,
                        timeout_secs: Some(300),
                    },
                )
            },
            RunPhase::AptAutoClean => {
                let mut args: Vec<String> = Vec::new();
                args.push(String::from_str("autoclean"));
                RunAction::Execute(
                    CmdSpec {
                        program: String::from_str("apt-get"),
                        args,
                        timeout_secs: Some(60),
                    },
                )
            },
            RunPhase::SnapCheck => RunAction::ProbePath(String::from_str("/usr/bin/snap")),
            RunPhase::SnapRun => {
                if self.dry_run {
                    let mut args: Vec<String> = Vec::new();
                    args.push(String::from_str("refresh"));
                    args.push(String::from_str("--list"));
                    RunAction::Execute(
                        CmdSpec {
                            program: String::from_str("snap"),
                            args,
                            timeout_secs: Some(60),
                        },
                    )
                } else {
                    let mut args: Vec<String> = Vec::new();
                    args.push(String::from_str("refresh"));
                    RunAction::Execute(
                        CmdSpec {
                            program: String::from_str("snap"),
                            args,
                            timeout_secs: Some(900),
                        },
                    )
                }
            },
            RunPhase::FlatpakCheck => RunAction::ProbePath(String::from_str("/usr/bin/flatpak")),
            RunPhase::FlatpakRun => {
                if self.dry_run {
                    let mut args: Vec<String> = Vec::new();
                    args.push(String::from_str("update"));
                    args.push(String::from_str("--show-details"));
                    RunAction::Execute(
                        CmdSpec {
                            program: String::from_str("flatpak"),
                            args,
                            timeout_secs: Some(60),
                        },
                    )
                } else {
                    let mut args: Vec<String> = Vec::new();
                    args.push(String::from_str("update"));
                    args.push(String::from_str("-y"));
                    RunAction::Execute(
                        CmdSpec {
                            program: String::from_str("flatpak"),
                            args,
                            timeout_secs: Some(900),
                        },
                    )
                }
            },
            RunPhase::RebootSentinel => RunAction::ProbePath(
                String::from_str("/var/run/reboot-required"),
            ),
            RunPhase::RebootUname => {
                let mut args: Vec<String> = Vec::new();
                args.push(String::from_str("-r"));
                RunAction::Execute(
                    CmdSpec { program: String::from_str("uname"), args, timeout_secs: None },
                )
            },
            RunPhase::RebootDpkg => {
                let mut args: Vec<String> = Vec::new();
                args.push(String::from_str("-l"));
                args.push(String::from_str("linux-image-*"));
                RunAction::Execute(
                    CmdSpec { program: String::from_str("dpkg"), args, timeout_secs: None },
                )
            },
            RunPhase::Done => RunAction::Finish,
        }
    }

    /// Seal the finished run into its conclusion: a skip, or the report
    /// with the elapsed time, the rendered error, and the collected
    /// outputs. Success means exactly that no fatal error was recorded.
    pub fn finish(self, elapsed_ms: u64) -> (r: RunConclusion)
        requires
            self.phase == RunPhase::Done,
        ensures
            r is Skipped <==> self.skipped,
            (r matches RunConclusion::Report(u) ==> {
                &&& u.success == (self.error is None)
                &&& u.duration_ms == elapsed_ms
                &&& u.packages_updated == self.packages_updated
                &&& u.packages_available == self.packages_available
                &&& u.bytes_downloaded == self.bytes_downloaded
                &&& u.reboot_required == self.reboot_required
                &&& opt_str_view(u.error_message) == spec_error_opt(self.error)
                &&& u.apt_output@ == spec_apt_output(self)
                &&& opt_str_view(u.snap_output) == spec_source_output(
                    self.snap,
                    "Snap not installed"@,
                )
                &&& opt_str_view(u.flatpak_output) == spec_source_output(
                    self.flatpak,
                    "Flatpak not installed"@,
                )
            }),
    {
        if self.skipped {
            return RunConclusion::Skipped;
        }
        let ghost start = self;
        let UpdateRun {
            dry_run,
            error,
            refresh_stdout,
            upgrade_stdout,
            packages_updated,
            packages_available,
            bytes_downloaded,
            apt_ran,
            snap,
            flatpak,
            reboot_required,
            .. } = self;
        let success = error.is_none();
        let error_message: Option<String> = match error {
            None => None,
            Some(e) => Some(render_error(e)),
        };
        let apt_output: String = if apt_ran {
            let mut out = String::from_str("=== APT Update Output ===\n");
            out.append(refresh_stdout.as_str());
            if dry_run {
                out.append("\n=== Dry Run Upgrade Output ===\n");
            } else {
                out.append("\n=== Upgrade Output ===\n");
            }
            out.append(upgrade_stdout.as_str());
            out
        } else {
            String::new()
        };
        let snap_output: Option<String> = match snap {
            SourceStatus::NotRun => None,
            SourceStatus::FailedToRun => None,
            SourceStatus::NotInstalled => Some(String::from_str("Snap not installed")),
            SourceStatus::Output(o) => Some(o),
        };
        let flatpak_output: Option<String> = match flatpak {
            SourceStatus::NotRun => None,
            SourceStatus::FailedToRun => None,
            SourceStatus::NotInstalled => Some(String::from_str("Flatpak not installed")),
            SourceStatus::Output(o) => Some(o),
        };
        RunConclusion::Report(
            UpdateResults {
                success,
                duration_ms: elapsed_ms,
                packages_updated,
                packages_available,
                bytes_downloaded,
                reboot_required,
                error_message,
                apt_output,
                snap_output,
                flatpak_output,
            },
        )
    }
}

/// The state after a whole sequence of events lands on `s`, one at a time.
pub open spec fn spec_run_events(s: UpdateRun, evs: Seq<RunEvent>) -> UpdateRun
    decreases evs.len(),
{
    if evs.len() == 0 {
        s
    } else {
        spec_run_events(spec_step(s, evs[0]), evs.drop_first())
    }
}

/// `Done` is terminal: once there, no further event changes the run.
pub proof fn lemma_done_absorbs(s: UpdateRun, evs: Seq<RunEvent>)
    requires
        s.phase == RunPhase::Done,
    ensures
        spec_run_events(s, evs) == s,
    decreases evs.len(),
{
    if evs.len() > 0 {
        lemma_done_absorbs(s, evs.drop_first());
    }
}

/// The event carries a command that failed: it could not be run, or it
/// completed unsuccessfully.
pub open spec fn event_is_failed_command(ev: RunEvent) -> bool {
    match ev {
        RunEvent::Command(r) => match r {
            CmdResult::Failed { .. } => true,
            CmdResult::Completed(o) => !o.success,
        },
        _ => false,
    }
}

/// A failed package-index refresh aborts the whole run: the machine goes
/// straight to `Done` with the error recorded and nothing counted, the
/// optional sources are never reached — whatever events may still come —
/// and the run is a failure, not a skip.
pub proof fn lemma_apt_refresh_failure_aborts_run(s: UpdateRun, ev: RunEvent, rest: Seq<RunEvent>)
    requires
        s.phase == RunPhase::AptRefresh,
        !s.skipped,
        event_is_failed_command(ev),
    ensures
        spec_step(s, ev).phase == RunPhase::Done,
        spec_step(s, ev).error is Some,
        !spec_step(s, ev).skipped,
        spec_step(s, ev).packages_updated == 0,
        spec_step(s, ev).packages_available == 0,
        spec_step(s, ev).bytes_downloaded == 0,
        !spec_step(s, ev).apt_ran,
        spec_step(s, ev).snap is NotRun,
        spec_step(s, ev).flatpak is NotRun,
        !spec_step(s, ev).reboot_required,
        spec_run_events(spec_step(s, ev), rest) == spec_step(s, ev),
{
    lemma_done_absorbs(spec_step(s, ev), rest);
}

/// A failure of an optional source is isolated: the machine records it,
/// keeps every count and the error slot untouched, and proceeds — towards
/// the reboot check, never to an early end.
pub proof fn lemma_optional_source_failure_is_isolated(s: UpdateRun, ev: RunEvent)
    requires
        s.phase == RunPhase::SnapRun || s.phase == RunPhase::FlatpakRun,
        ev matches RunEvent::Command(r) && r is Failed,
    ensures
        spec_step(s, ev).error == s.error,
        spec_step(s, ev).skipped == s.skipped,
        spec_step(s, ev).packages_updated == s.packages_updated,
        spec_step(s, ev).packages_available == s.packages_available,
        spec_step(s, ev).bytes_downloaded == s.bytes_downloaded,
        spec_step(s, ev).apt_ran == s.apt_ran,
        spec_step(s, ev).phase != RunPhase::Done,
        s.phase == RunPhase::SnapRun ==> spec_step(s, ev).snap is FailedToRun && spec_step(
            s,
            ev,
        ).flatpak == s.flatpak,
        s.phase == RunPhase::FlatpakRun ==> spec_step(s, ev).flatpak is FailedToRun && spec_step(
            s,
            ev,
        ).snap == s.snap,
{
}

/// One step of the dry-run guarantee: under dry-run, no event ever makes
/// the updated-package or downloaded-byte counts leave zero.
pub proof fn lemma_dry_run_step_keeps_zero(s: UpdateRun, ev: RunEvent)
    requires
        s.dry_run,
        s.packages_updated == 0,
        s.bytes_downloaded == 0,
    ensures
        spec_step(s, ev).dry_run,
        spec_step(s, ev).packages_updated == 0,
        spec_step(s, ev).bytes_downloaded == 0,
{
}

/// The dry-run guarantee for whole runs: a run that starts under dry-run
/// with zero counts reports zero packages updated and zero bytes
/// downloaded, whatever happens.
pub proof fn lemma_dry_run_counts_stay_zero(s: UpdateRun, evs: Seq<RunEvent>)
    requires
        s.dry_run,
        s.packages_updated == 0,
        s.bytes_downloaded == 0,
    ensures
        spec_run_events(s, evs).dry_run,
        spec_run_events(s, evs).packages_updated == 0,
        spec_run_events(s, evs).bytes_downloaded == 0,
    decreases evs.len(),
{
    if evs.len() > 0 {
        lemma_dry_run_step_keeps_zero(s, evs[0]);
        lemma_dry_run_counts_stay_zero(spec_step(s, evs[0]), evs.drop_first());
    }
}

/// A successful listing step records exactly the upgradable count that the
/// listing's output names — in particular, a non-empty listing makes the
/// available count positive, dry-run or not.
pub proof fn lemma_list_step_reports_available(s: UpdateRun, ev: RunEvent, o: CmdOutput)
    requires
        s.phase == RunPhase::AptList,
        ev == RunEvent::Command(CmdResult::Completed(o)),
        o.success,
        spec_upgradable_count(o.stdout@) <= u64::MAX,
    ensures
        spec_step(s, ev).packages_available == spec_upgradable_count(o.stdout@),
        spec_step(s, ev).phase == RunPhase::AptUpgrade,
        spec_step(s, ev).error == s.error,
{
}

} // verus!
