//! The update manager: it owns the run's configuration, answers the
//! maintenance-window question, exposes the apt output parsers, and starts
//! the orchestrator's state machine for each run.
use vstd::prelude::*;

use crate::apt::parse_apt_bytes_downloaded;
use crate::apt::parse_apt_packages_updated;
use crate::apt::parse_apt_upgradable_count;
use crate::apt::spec_bytes_downloaded;
use crate::apt::spec_packages_updated;
use crate::apt::spec_upgradable_count;
use crate::apt::AptParseError;
use crate::config::AgentConfig;
use crate::config::ConfigError;
use crate::orchestrator::RunPhase;
use crate::orchestrator::SourceStatus;
use crate::orchestrator::UpdateRun;
use crate::window::maintenance_allows;
use crate::window::opt_str_view;
use crate::window::spec_maintenance_allows;

verus! {

/// The aggregate of one update run, handed to the reporting collaborator.
/// Produced once when the run finishes, never changed afterwards.
pub struct UpdateResults {
    pub success: bool,
    pub duration_ms: u64,
    pub packages_updated: u64,
    pub packages_available: u64,
    pub bytes_downloaded: u64,
    pub reboot_required: bool,
    pub error_message: Option<String>,
    pub apt_output: String,
    pub snap_output: Option<String>,
    pub flatpak_output: Option<String>,
}

/// Drives the update sources under the maintenance-window gate.
pub struct UpdateManager {
    pub config: AgentConfig,
    pub dry_run: bool,
}

/// Copy a list of strings.
fn clone_strings(v: &Vec<String>) -> (r: Vec<String>)
    ensures
        r@ == v@,
{
    let mut out: Vec<String> = Vec::new();
    let n = v.len();
    let mut i: usize = 0;
    while i < n
        invariant
            0 <= i <= n,
            n == v@.len(),
            out@ =~= v@.take(i as int),
        decreases n - i,
    {
        let s = (&v[i]).clone();
        out.push(s);
        proof {
            assert(out@ =~= v@.take(i + 1));
        }
        i = i + 1;
    }
    proof {
        assert(v@.take(n as int) =~= v@);
    }
    out
}

/// Copy an optional string.
fn clone_opt_string(o: &Option<String>) -> (r: Option<String>)
    ensures
        r == *o,
{
    match o {
        Some(s) => Some(s.clone()),
        None => None,
    }
}

impl UpdateManager {
    /// Wrap a resolved configuration for running updates.
    pub fn new(config: AgentConfig) -> (r: Result<UpdateManager, ConfigError>)
        ensures
            r matches Ok(m) && m.dry_run == m.config.updates.dry_run && m.config == config,
    {
        let dry_run = config.updates.dry_run;
        Ok(UpdateManager { config, dry_run })
    }

    /// Does the maintenance window allow an update at this local time?
    pub fn is_in_maintenance_window(&self, now_seconds: u32) -> (r: bool)
        ensures
            r == spec_maintenance_allows(
                opt_str_view(self.config.updates.maintenance_window_start),
                opt_str_view(self.config.updates.maintenance_window_end),
                now_seconds as nat,
            ),
    {
        maintenance_allows(
            &self.config.updates.maintenance_window_start,
            &self.config.updates.maintenance_window_end,
            now_seconds,
        )
    }

    /// Count the upgradable packages in a `list --upgradable` output.
    pub fn parse_apt_upgradable_count(&self, output: &str) -> (r: Result<u64, AptParseError>)
        ensures
            r matches Ok(v) && v == spec_upgradable_count(output@),
    {
        parse_apt_upgradable_count(output)
    }

    /// Read the packages-updated count from an upgrade output.
    pub fn parse_apt_packages_updated(&self, output: &str) -> (r: Result<u64, AptParseError>)
        ensures
            match r {
                Ok(v) => v == spec_packages_updated(output@),
                Err(e) => e == AptParseError::TooLarge && spec_packages_updated(output@)
                    > u64::MAX,
            },
    {
        parse_apt_packages_updated(output)
    }

    /// Read the download size from an upgrade output.
    pub fn parse_apt_bytes_downloaded(&self, output: &str) -> (r: Result<u64, AptParseError>)
        ensures
            match spec_bytes_downloaded(output@) {
                Ok(v) => if v <= u64::MAX {
                    r matches Ok(x) && x == v
                } else {
                    r matches Err(e) && e == AptParseError::TooLarge
                },
                Err(e) => r matches Err(x) && x == e,
            },
    {
        parse_apt_bytes_downloaded(output)
    }

    /// Start a fresh run: a state machine at its window check, with
    /// nothing yet gathered. A new machine begins every run; none is
    /// reused.
    pub fn begin_run(&self) -> (m: UpdateRun)
        ensures
            m.dry_run == self.config.updates.dry_run,
            m.sources == self.config.updates.update_sources,
            m.excluded@ == self.config.updates.excluded_packages@,
            m.window_start == self.config.updates.maintenance_window_start,
            m.window_end == self.config.updates.maintenance_window_end,
            m.phase == RunPhase::Gate,
            !m.skipped,
            m.error is None,
            m.refresh_stdout@.len() == 0,
            m.upgrade_stdout@.len() == 0,
            m.uname_stdout@.len() == 0,
            m.packages_updated == 0,
            m.packages_available == 0,
            m.bytes_downloaded == 0,
            !m.apt_ran,
            m.snap is NotRun,
            m.flatpak is NotRun,
            !m.reboot_required,
    {
        UpdateRun {
            dry_run: self.config.updates.dry_run,
            sources: self.config.updates.update_sources,
            excluded: clone_strings(&self.config.updates.excluded_packages),
            window_start: clone_opt_string(&self.config.updates.maintenance_window_start),
            window_end: clone_opt_string(&self.config.updates.maintenance_window_end),
            phase: RunPhase::Gate,
            skipped: false,
            error: None,
            refresh_stdout: String::new(),
            upgrade_stdout: String::new(),
            packages_updated: 0,
            packages_available: 0,
            bytes_downloaded: 0,
            apt_ran: false,
            snap: SourceStatus::NotRun,
            flatpak: SourceStatus::NotRun,
            uname_stdout: String::new(),
            reboot_required: false,
        }
    }
}

} // verus!
