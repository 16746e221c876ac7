//! SQLite-only local database maintenance: configuration, the vacuum
//! decision, and the step-by-step maintenance pass.
use vstd::prelude::*;
use crate::text::{parse_bool, parse_u64, bool_of, u64_of};

verus! {

/// Seconds in a day: the default wake-up interval of the maintenance loop.
pub const DEFAULT_INTERVAL_SECS: u64 = 86400;

/// Default minimum number of freelist pages before `VACUUM` is considered.
pub const DEFAULT_MIN_FREELIST_PAGES: u64 = 1024;

/// Default minimum freelist/page_count ratio, in percent.
pub const DEFAULT_MIN_FREE_RATIO_PERCENT: u64 = 20;

/// Settings of the maintenance loop.
#[derive(Debug, Clone, Copy, PartialEq, Eq, Structural)]
pub struct SqliteMaintenanceConfig {
    /// Whether the maintenance loop should execute maintenance passes.
    pub enabled: bool,
    /// How often the background loop wakes up, in whole seconds.
    pub interval_secs: u64,
    /// Whether `VACUUM` is allowed after low-risk maintenance.
    pub vacuum_enabled: bool,
    /// Minimum freelist pages required before `VACUUM` is considered.
    pub min_freelist_pages: u64,
    /// Minimum freelist/page_count ratio, in percent, before `VACUUM` is considered.
    pub min_free_ratio_percent: u64,
}

/// The configuration that `default()` produces.
pub open spec fn default_config() -> SqliteMaintenanceConfig {
    SqliteMaintenanceConfig {
        enabled: false,
        interval_secs: DEFAULT_INTERVAL_SECS,
        vacuum_enabled: false,
        min_freelist_pages: DEFAULT_MIN_FREELIST_PAGES,
        min_free_ratio_percent: DEFAULT_MIN_FREE_RATIO_PERCENT,
    }
}

impl Default for SqliteMaintenanceConfig {
    fn default() -> (c: Self)
        ensures
            c == default_config(),
    {
        SqliteMaintenanceConfig {
            enabled: false,
            interval_secs: DEFAULT_INTERVAL_SECS,
            vacuum_enabled: false,
            min_freelist_pages: DEFAULT_MIN_FREELIST_PAGES,
            min_free_ratio_percent: DEFAULT_MIN_FREE_RATIO_PERCENT,
        }
    }
}

/// Result details for one SQLite maintenance pass.
#[derive(Debug, Clone, Copy, PartialEq, Eq, Structural)]
pub struct SqliteMaintenanceReport {
    pub skipped_disabled: bool,
    pub skipped_non_sqlite: bool,
    pub wal_checkpointed: bool,
    pub optimized: bool,
    pub vacuumed: bool,
    pub freelist_pages: u64,
    pub page_count: u64,
    pub page_size: u64,
    pub free_ratio_percent: u64,
    pub reclaimable_bytes: u64,
}

/// The all-false, all-zero report.
pub open spec fn empty_report() -> SqliteMaintenanceReport {
    SqliteMaintenanceReport {
        skipped_disabled: false,
        skipped_non_sqlite: false,
        wal_checkpointed: false,
        optimized: false,
        vacuumed: false,
        freelist_pages: 0,
        page_count: 0,
        page_size: 0,
        free_ratio_percent: 0,
        reclaimable_bytes: 0,
    }
}

impl Default for SqliteMaintenanceReport {
    fn default() -> (r: Self)
        ensures
            r == empty_report(),
    {
        SqliteMaintenanceReport {
            skipped_disabled: false,
            skipped_non_sqlite: false,
            wal_checkpointed: false,
            optimized: false,
            vacuumed: false,
            freelist_pages: 0,
            page_count: 0,
            page_size: 0,
            free_ratio_percent: 0,
            reclaimable_bytes: 0,
        }
    }
}

/// Whether a pass with these settings and measurements should run `VACUUM`.
pub open spec fn vacuum_wanted(cfg: SqliteMaintenanceConfig, report: SqliteMaintenanceReport) -> bool {
    &&& cfg.vacuum_enabled
    &&& report.freelist_pages != 0
    &&& (report.freelist_pages >= cfg.min_freelist_pages
        || report.free_ratio_percent >= cfg.min_free_ratio_percent)
}

/// `VACUUM` is run only when it is enabled, the freelist is not empty, and
/// either threshold is met.
pub fn should_vacuum(cfg: &SqliteMaintenanceConfig, report: &SqliteMaintenanceReport) -> (b: bool)
    ensures
        b == vacuum_wanted(*cfg, *report),
{
    if !cfg.vacuum_enabled || report.freelist_pages == 0 {
        return false;
    }
    report.freelist_pages >= cfg.min_freelist_pages
        || report.free_ratio_percent >= cfg.min_free_ratio_percent
}


/// `a * b`, or `u64::MAX` where the product does not fit.
pub open spec fn sat_mul(a: u64, b: u64) -> u64 {
    if a * b > u64::MAX { u64::MAX } else { (a * b) as u64 }
}

/// Multiplies, saturating at `u64::MAX`.
pub fn saturating_mul(a: u64, b: u64) -> (r: u64)
    ensures
        r == sat_mul(a, b),
{
    match a.checked_mul(b) {
        Some(p) => p,
        None => u64::MAX,
    }
}

/// A `PRAGMA` answer as a count: negative answers count as zero.
pub open spec fn pragma_count(v: i64) -> u64 {
    if v < 0 { 0 } else { v as u64 }
}

/// Turns the signed integer that a `PRAGMA` query answers into a count.
pub fn pragma_to_u64(v: i64) -> (r: u64)
    ensures
        r == pragma_count(v),
{
    if v < 0 { 0 } else { v as u64 }
}

/// The freelist share of the database, in whole percent (0 for an empty database).
pub open spec fn ratio_percent(freelist_pages: u64, page_count: u64) -> u64 {
    if page_count > 0 {
        (sat_mul(freelist_pages, 100) / page_count) as u64
    } else {
        0
    }
}

/// The report of a pass that checkpointed, optimized and measured the
/// database, before the vacuum decision.
pub open spec fn measured_report(freelist_pages: u64, page_count: u64, page_size: u64) -> SqliteMaintenanceReport {
    SqliteMaintenanceReport {
        wal_checkpointed: true,
        optimized: true,
        freelist_pages,
        page_count,
        page_size,
        free_ratio_percent: ratio_percent(freelist_pages, page_count),
        reclaimable_bytes: sat_mul(freelist_pages, page_size),
        ..empty_report()
    }
}

/// The report of a whole pass whose queries all succeed, given the raw
/// answers of the three `PRAGMA` reads.
pub open spec fn pass_report(
    cfg: SqliteMaintenanceConfig,
    is_sqlite: bool,
    freelist: i64,
    pages: i64,
    size: i64,
) -> SqliteMaintenanceReport {
    if !cfg.enabled {
        SqliteMaintenanceReport { skipped_disabled: true, ..empty_report() }
    } else if !is_sqlite {
        SqliteMaintenanceReport { skipped_non_sqlite: true, ..empty_report() }
    } else {
        let m = measured_report(pragma_count(freelist), pragma_count(pages), pragma_count(size));
        SqliteMaintenanceReport { vacuumed: vacuum_wanted(cfg, m), ..m }
    }
}

/// The next database operation of a maintenance pass.
#[derive(Debug, Clone, Copy, PartialEq, Eq, Structural)]
pub enum MaintenanceStep {
    /// Run `PRAGMA wal_checkpoint(TRUNCATE)`.
    CheckpointWal,
    /// Run `PRAGMA optimize`.
    Optimize,
    /// Read `PRAGMA freelist_count`.
    ReadFreelistCount,
    /// Read `PRAGMA page_count`.
    ReadPageCount,
    /// Read `PRAGMA page_size`.
    ReadPageSize,
    /// Run `VACUUM`.
    Vacuum,
    /// Nothing is left to do: the report is final.
    Finished,
}

impl MaintenanceStep {
    /// Steps whose query answers a number.
    pub open spec fn is_read(self) -> bool {
        ||| self == MaintenanceStep::ReadFreelistCount
        ||| self == MaintenanceStep::ReadPageCount
        ||| self == MaintenanceStep::ReadPageSize
    }
}

/// What the database answered to the last step.
#[derive(Debug, Clone, Copy, PartialEq, Eq, Structural)]
pub enum StepReply {
    /// A statement ran.
    Executed,
    /// A `PRAGMA` read answered this integer.
    Value(i64),
    /// The statement failed: the pass ends here, with the report as it stands.
    Failed,
}

/// Whether `reply` is the kind of answer that `step` produces.
pub open spec fn reply_fits(step: MaintenanceStep, reply: StepReply) -> bool {
    step != MaintenanceStep::Finished && (reply is Failed || (step.is_read() <==> reply is Value))
}

/// The abstract state of a pass: its settings, the report so far and the next step.
pub ghost struct PassState {
    pub cfg: SqliteMaintenanceConfig,
    pub report: SqliteMaintenanceReport,
    pub step: MaintenanceStep,
}

/// The state in which a pass starts.
pub open spec fn pass_start(cfg: SqliteMaintenanceConfig, is_sqlite: bool) -> PassState {
    if !cfg.enabled {
        PassState {
            cfg,
            report: SqliteMaintenanceReport { skipped_disabled: true, ..empty_report() },
            step: MaintenanceStep::Finished,
        }
    } else if !is_sqlite {
        PassState {
            cfg,
            report: SqliteMaintenanceReport { skipped_non_sqlite: true, ..empty_report() },
            step: MaintenanceStep::Finished,
        }
    } else {
        PassState { cfg, report: empty_report(), step: MaintenanceStep::CheckpointWal }
    }
}

/// The state after the database answered `reply` to the pending step.
pub open spec fn pass_next(s: PassState, reply: StepReply) -> PassState {
    let v = match reply {
        StepReply::Value(v) => v,
        _ => 0,
    };
    if reply is Failed {
        PassState { step: MaintenanceStep::Finished, ..s }
    } else {
    match s.step {
        MaintenanceStep::CheckpointWal => PassState {
            report: SqliteMaintenanceReport { wal_checkpointed: true, ..s.report },
            step: MaintenanceStep::Optimize,
            ..s
        },
        MaintenanceStep::Optimize => PassState {
            report: SqliteMaintenanceReport { optimized: true, ..s.report },
            step: MaintenanceStep::ReadFreelistCount,
            ..s
        },
        MaintenanceStep::ReadFreelistCount => PassState {
            report: SqliteMaintenanceReport { freelist_pages: pragma_count(v), ..s.report },
            step: MaintenanceStep::ReadPageCount,
            ..s
        },
        MaintenanceStep::ReadPageCount => PassState {
            report: SqliteMaintenanceReport { page_count: pragma_count(v), ..s.report },
            step: MaintenanceStep::ReadPageSize,
            ..s
        },
        MaintenanceStep::ReadPageSize => {
            let r = SqliteMaintenanceReport {
                page_size: pragma_count(v),
                free_ratio_percent: ratio_percent(s.report.freelist_pages, s.report.page_count),
                reclaimable_bytes: sat_mul(s.report.freelist_pages, pragma_count(v)),
                ..s.report
            };
            PassState {
                report: r,
                step: if vacuum_wanted(s.cfg, r) {
                    MaintenanceStep::Vacuum
                } else {
                    MaintenanceStep::Finished
                },
                ..s
            }
        },
        MaintenanceStep::Vacuum => PassState {
            report: SqliteMaintenanceReport { vacuumed: true, ..s.report },
            step: MaintenanceStep::Finished,
            ..s
        },
        MaintenanceStep::Finished => s,
    }
    }
}

/// One SQLite maintenance pass, driven one database operation at a time:
/// the caller performs `step()` and hands the answer to `advance`.
pub struct MaintenancePass {
    cfg: SqliteMaintenanceConfig,
    report: SqliteMaintenanceReport,
    step: MaintenanceStep,
}

impl View for MaintenancePass {
    type V = PassState;

    closed spec fn view(&self) -> PassState {
        PassState { cfg: self.cfg, report: self.report, step: self.step }
    }
}

impl MaintenancePass {
    /// Starts a pass: a disabled configuration or a database other than
    /// SQLite finishes at once with the matching `skipped_*` flag.
    pub fn start(cfg: &SqliteMaintenanceConfig, is_sqlite: bool) -> (p: Self)
        ensures
            p@ == pass_start(*cfg, is_sqlite),
    {
        let mut report = SqliteMaintenanceReport::default();
        if !cfg.enabled {
            report.skipped_disabled = true;
            return MaintenancePass { cfg: *cfg, report, step: MaintenanceStep::Finished };
        }
        if !is_sqlite {
            report.skipped_non_sqlite = true;
            return MaintenancePass { cfg: *cfg, report, step: MaintenanceStep::Finished };
        }
        MaintenancePass { cfg: *cfg, report, step: MaintenanceStep::CheckpointWal }
    }

    /// The database operation to perform next.
    pub fn step(&self) -> (s: MaintenanceStep)
        ensures
            s == self@.step,
    {
        self.step
    }

    /// The report as it stands.
    pub fn report(&self) -> (r: SqliteMaintenanceReport)
        ensures
            r == self@.report,
    {
        self.report
    }

    /// Records the database's answer to the pending step and moves on.
    pub fn advance(&mut self, reply: StepReply)
        requires
            reply_fits(old(self)@.step, reply),
        ensures
            final(self)@ == pass_next(old(self)@, reply),
    {
        let v: i64 = match reply {
            StepReply::Value(v) => v,
            _ => 0,
        };
        if let StepReply::Failed = reply {
            self.step = MaintenanceStep::Finished;
            return;
        }
        match self.step {
            MaintenanceStep::CheckpointWal => {
                self.report.wal_checkpointed = true;
                self.step = MaintenanceStep::Optimize;
            },
            MaintenanceStep::Optimize => {
                self.report.optimized = true;
                self.step = MaintenanceStep::ReadFreelistCount;
            },
            MaintenanceStep::ReadFreelistCount => {
                self.report.freelist_pages = pragma_to_u64(v);
                self.step = MaintenanceStep::ReadPageCount;
            },
            MaintenanceStep::ReadPageCount => {
                self.report.page_count = pragma_to_u64(v);
                self.step = MaintenanceStep::ReadPageSize;
            },
            MaintenanceStep::ReadPageSize => {
                self.report.page_size = pragma_to_u64(v);
                self.report.free_ratio_percent = if self.report.page_count > 0 {
                    saturating_mul(self.report.freelist_pages, 100) / self.report.page_count
                } else {
                    0
                };
                self.report.reclaimable_bytes = saturating_mul(
                    self.report.freelist_pages,
                    self.report.page_size,
                );
                self.step = if should_vacuum(&self.cfg, &self.report) {
                    MaintenanceStep::Vacuum
                } else {
                    MaintenanceStep::Finished
                };
            },
            MaintenanceStep::Vacuum => {
                self.report.vacuumed = true;
                self.step = MaintenanceStep::Finished;
            },
            MaintenanceStep::Finished => {},
        }
    }
}


/// What holds in every state of a pass: a skipped pass touches nothing, and
/// `VACUUM` runs only after the checkpoint and the optimization, and only
/// when the vacuum decision asks for it.
pub open spec fn pass_safe(s: PassState) -> bool {
    &&& (s.report.skipped_disabled || s.report.skipped_non_sqlite) ==> {
        &&& !s.report.wal_checkpointed
        &&& !s.report.optimized
        &&& !s.report.vacuumed
        &&& s.step == MaintenanceStep::Finished
    }
    &&& s.step != MaintenanceStep::Finished ==> {
        &&& !s.report.skipped_disabled
        &&& !s.report.skipped_non_sqlite
    }
    &&& s.report.wal_checkpointed ==> s.cfg.enabled
    &&& s.report.vacuumed ==> {
        &&& s.report.wal_checkpointed
        &&& s.report.optimized
        &&& vacuum_wanted(s.cfg, s.report)
    }
    &&& s.step == MaintenanceStep::Vacuum ==> {
        &&& s.report.wal_checkpointed
        &&& s.report.optimized
        &&& vacuum_wanted(s.cfg, s.report)
        &&& !s.report.vacuumed
    }
    &&& s.step == MaintenanceStep::CheckpointWal ==> {
        &&& !s.report.wal_checkpointed
        &&& !s.report.optimized
        &&& !s.report.vacuumed
        &&& s.cfg.enabled
    }
    &&& (s.step == MaintenanceStep::Optimize || s.step.is_read()) ==> {
        &&& !s.report.vacuumed
        &&& s.report.wal_checkpointed
        &&& (s.step == MaintenanceStep::Optimize <==> !s.report.optimized)
    }
}

/// Every pass starts in a safe state, and every answer keeps it safe.
pub proof fn lemma_pass_stays_safe(
    cfg: SqliteMaintenanceConfig,
    is_sqlite: bool,
    s: PassState,
    reply: StepReply,
)
    ensures
        pass_safe(pass_start(cfg, is_sqlite)),
        pass_safe(s) && reply_fits(s.step, reply) ==> pass_safe(pass_next(s, reply)),
{
}

/// A pass whose queries all succeed ends, after at most six steps, with
/// exactly the report that `pass_report` describes.
pub proof fn lemma_pass_outcome(
    cfg: SqliteMaintenanceConfig,
    is_sqlite: bool,
    freelist: i64,
    pages: i64,
    size: i64,
)
    ensures
        ({
            let s0 = pass_start(cfg, is_sqlite);
            let s5 = pass_next(
                pass_next(
                    pass_next(
                        pass_next(pass_next(s0, StepReply::Executed), StepReply::Executed),
                        StepReply::Value(freelist),
                    ),
                    StepReply::Value(pages),
                ),
                StepReply::Value(size),
            );
            let s6 = pass_next(s5, StepReply::Executed);
            &&& s0.step == MaintenanceStep::Finished ==> s0.report == pass_report(
                cfg,
                is_sqlite,
                freelist,
                pages,
                size,
            )
            &&& s0.step != MaintenanceStep::Finished ==> {
                ||| s5.step == MaintenanceStep::Finished && s5.report == pass_report(
                    cfg,
                    is_sqlite,
                    freelist,
                    pages,
                    size,
                )
                ||| s5.step == MaintenanceStep::Vacuum && s6.step == MaintenanceStep::Finished
                    && s6.report == pass_report(cfg, is_sqlite, freelist, pages, size)
            }
        }),
{
}


/// A boolean given as text, or `fallback` where it is absent or does not parse.
pub open spec fn override_bool(value: Option<Seq<char>>, fallback: bool) -> bool {
    match value {
        Some(v) => match bool_of(v) {
            Some(b) => b,
            None => fallback,
        },
        None => fallback,
    }
}

/// A number given as text, or `fallback` where it is absent or does not parse.
pub open spec fn override_u64(value: Option<Seq<char>>, fallback: u64) -> u64 {
    match value {
        Some(v) => match u64_of(v) {
            Some(n) => n,
            None => fallback,
        },
        None => fallback,
    }
}

/// The view of an optional string slice.
pub open spec fn opt_view(s: Option<&str>) -> Option<Seq<char>> {
    match s {
        Some(v) => Some(v@),
        None => None,
    }
}

/// A stored setting, or `fallback` where none is stored.
pub open spec fn or_fallback<T>(value: Option<T>, fallback: T) -> T {
    match value {
        Some(v) => v,
        None => fallback,
    }
}

fn bool_or(value: Option<&str>, fallback: bool) -> (b: bool)
    ensures
        b == override_bool(opt_view(value), fallback),
{
    match value {
        Some(v) => match parse_bool(v) {
            Some(b) => b,
            None => fallback,
        },
        None => fallback,
    }
}

fn u64_or(value: Option<&str>, fallback: u64) -> (n: u64)
    ensures
        n == override_u64(opt_view(value), fallback),
{
    match value {
        Some(v) => match parse_u64(v) {
            Some(n) => n,
            None => fallback,
        },
        None => fallback,
    }
}

/// The configuration read from the environment: the defaults, each
/// overridden by its variable where that is set and parses.
pub open spec fn env_config(
    enabled: Option<Seq<char>>,
    interval_secs: Option<Seq<char>>,
    vacuum_enabled: Option<Seq<char>>,
    min_freelist_pages: Option<Seq<char>>,
    min_free_ratio_percent: Option<Seq<char>>,
) -> SqliteMaintenanceConfig {
    SqliteMaintenanceConfig {
        enabled: override_bool(enabled, default_config().enabled),
        interval_secs: override_u64(interval_secs, default_config().interval_secs),
        vacuum_enabled: override_bool(vacuum_enabled, default_config().vacuum_enabled),
        min_freelist_pages: override_u64(min_freelist_pages, default_config().min_freelist_pages),
        min_free_ratio_percent: override_u64(
            min_free_ratio_percent,
            default_config().min_free_ratio_percent,
        ),
    }
}

/// The configuration from the runtime settings, `fallback` filling in.
pub open spec fn store_config(
    fallback: SqliteMaintenanceConfig,
    enabled: Option<bool>,
    interval_secs: Option<u64>,
    vacuum_enabled: Option<bool>,
    min_freelist_pages: Option<u64>,
    min_free_ratio_percent: Option<u64>,
) -> SqliteMaintenanceConfig {
    SqliteMaintenanceConfig {
        enabled: or_fallback(enabled, fallback.enabled),
        interval_secs: or_fallback(interval_secs, fallback.interval_secs),
        vacuum_enabled: or_fallback(vacuum_enabled, fallback.vacuum_enabled),
        min_freelist_pages: or_fallback(min_freelist_pages, fallback.min_freelist_pages),
        min_free_ratio_percent: or_fallback(min_free_ratio_percent, fallback.min_free_ratio_percent),
    }
}

impl SqliteMaintenanceConfig {
    /// Builds the configuration from the values of the variables
    /// `TIYGATE_SQLITE_MAINTENANCE_ENABLED`, `..._INTERVAL_SECS`,
    /// `..._VACUUM_ENABLED`, `..._MIN_FREELIST_PAGES` and
    /// `..._MIN_FREE_RATIO_PERCENT` (`None` where a variable is unset):
    /// a value that does not parse leaves the default in place.
    pub fn from_env_values(
        enabled: Option<&str>,
        interval_secs: Option<&str>,
        vacuum_enabled: Option<&str>,
        min_freelist_pages: Option<&str>,
        min_free_ratio_percent: Option<&str>,
    ) -> (c: Self)
        ensures
            c == env_config(
                opt_view(enabled),
                opt_view(interval_secs),
                opt_view(vacuum_enabled),
                opt_view(min_freelist_pages),
                opt_view(min_free_ratio_percent),
            ),
    {
        let d = Self::default();
        SqliteMaintenanceConfig {
            enabled: bool_or(enabled, d.enabled),
            interval_secs: u64_or(interval_secs, d.interval_secs),
            vacuum_enabled: bool_or(vacuum_enabled, d.vacuum_enabled),
            min_freelist_pages: u64_or(min_freelist_pages, d.min_freelist_pages),
            min_free_ratio_percent: u64_or(min_free_ratio_percent, d.min_free_ratio_percent),
        }
    }

    /// Builds the configuration from the runtime settings store: each
    /// stored value wins, and `fallback` fills in what is not stored.
    pub fn from_store(
        fallback: &Self,
        enabled: Option<bool>,
        interval_secs: Option<u64>,
        vacuum_enabled: Option<bool>,
        min_freelist_pages: Option<u64>,
        min_free_ratio_percent: Option<u64>,
    ) -> (c: Self)
        ensures
            c == store_config(
                *fallback,
                enabled,
                interval_secs,
                vacuum_enabled,
                min_freelist_pages,
                min_free_ratio_percent,
            ),
    {
        SqliteMaintenanceConfig {
            enabled: match enabled {
                Some(v) => v,
                None => fallback.enabled,
            },
            interval_secs: match interval_secs {
                Some(v) => v,
                None => fallback.interval_secs,
            },
            vacuum_enabled: match vacuum_enabled {
                Some(v) => v,
                None => fallback.vacuum_enabled,
            },
            min_freelist_pages: match min_freelist_pages {
                Some(v) => v,
                None => fallback.min_freelist_pages,
            },
            min_free_ratio_percent: match min_free_ratio_percent {
                Some(v) => v,
                None => fallback.min_free_ratio_percent,
            },
        }
    }
}

/// The loop's pause between wake-ups: the interval, at least one second.
pub open spec fn pause_secs(cfg: SqliteMaintenanceConfig) -> u64 {
    if cfg.interval_secs >= 1 { cfg.interval_secs } else { 1 }
}

/// What just happened in the background maintenance loop.
#[derive(Debug, Clone, Copy, PartialEq, Eq, Structural)]
pub enum LoopEvent {
    /// The task started, on a SQLite database or not.
    Started { is_sqlite: bool },
    /// The runtime settings were read.
    SettingsRead(SqliteMaintenanceConfig),
    /// A maintenance pass ended (successfully or not) under these settings.
    PassEnded(SqliteMaintenanceConfig),
    /// The pause is over.
    Woke,
}

/// What the background maintenance loop does next.
#[derive(Debug, Clone, Copy, PartialEq, Eq, Structural)]
pub enum LoopAction {
    /// Stop the task for good.
    Exit,
    /// Read the runtime settings.
    ReadSettings,
    /// Run one maintenance pass with the settings just read.
    RunPass,
    /// Sleep for this many seconds.
    Sleep(u64),
}

/// The loop's reaction to `e`: the task ends at once for a database other
/// than SQLite; otherwise it reads the settings on each wake-up, runs a pass
/// only when maintenance is enabled, and pauses between wake-ups.
pub open spec fn loop_action(e: LoopEvent) -> LoopAction {
    match e {
        LoopEvent::Started { is_sqlite } => if is_sqlite {
            LoopAction::ReadSettings
        } else {
            LoopAction::Exit
        },
        LoopEvent::SettingsRead(cfg) => if cfg.enabled {
            LoopAction::RunPass
        } else {
            LoopAction::Sleep(pause_secs(cfg))
        },
        LoopEvent::PassEnded(cfg) => LoopAction::Sleep(pause_secs(cfg)),
        LoopEvent::Woke => LoopAction::ReadSettings,
    }
}

/// Decides the maintenance loop's next action.
pub fn next_loop_action(e: &LoopEvent) -> (a: LoopAction)
    ensures
        a == loop_action(*e),
{
    match e {
        LoopEvent::Started { is_sqlite } => if *is_sqlite {
            LoopAction::ReadSettings
        } else {
            LoopAction::Exit
        },
        LoopEvent::SettingsRead(cfg) => if cfg.enabled {
            LoopAction::RunPass
        } else {
            LoopAction::Sleep(if cfg.interval_secs >= 1 { cfg.interval_secs } else { 1 })
        },
        LoopEvent::PassEnded(cfg) => LoopAction::Sleep(
            if cfg.interval_secs >= 1 { cfg.interval_secs } else { 1 },
        ),
        LoopEvent::Woke => LoopAction::ReadSettings,
    }
}

/// The loop never works on a database other than SQLite, never runs a pass
/// with maintenance disabled, and never sleeps for zero seconds.
pub proof fn lemma_loop_is_careful(e: LoopEvent)
    ensures
        loop_action(LoopEvent::Started { is_sqlite: false }) == LoopAction::Exit,
        loop_action(e) == LoopAction::RunPass ==> (e matches LoopEvent::SettingsRead(cfg) && cfg.enabled),
        loop_action(e) matches LoopAction::Sleep(n) ==> n >= 1,
{
}

/// A failed statement ends the pass with the report as it stood, and
/// nothing follows the end of a pass.
pub proof fn lemma_failure_ends_pass(s: PassState, reply: StepReply)
    ensures
        pass_next(s, StepReply::Failed).step == MaintenanceStep::Finished,
        pass_next(s, StepReply::Failed).report == s.report,
        s.step == MaintenanceStep::Finished ==> pass_next(s, reply) == s,
{
}

/// With no variable set, the environment leaves the defaults unchanged.
pub proof fn lemma_empty_env_is_default()
    ensures
        env_config(None, None, None, None, None) == default_config(),
{
}


/// `VACUUM` is decided only when vacuum is allowed and the freelist is not
/// empty; then either threshold (freelist pages, or free ratio) decides it.
pub proof fn lemma_vacuum_decision(cfg: SqliteMaintenanceConfig, report: SqliteMaintenanceReport)
    ensures
        !cfg.vacuum_enabled ==> !vacuum_wanted(cfg, report),
        report.freelist_pages == 0 ==> !vacuum_wanted(cfg, report),
        cfg.vacuum_enabled && report.freelist_pages > 0 && report.freelist_pages
            >= cfg.min_freelist_pages ==> vacuum_wanted(cfg, report),
        cfg.vacuum_enabled && report.freelist_pages > 0 && report.free_ratio_percent
            >= cfg.min_free_ratio_percent ==> vacuum_wanted(cfg, report),
        vacuum_wanted(cfg, report) ==> report.freelist_pages >= cfg.min_freelist_pages
            || report.free_ratio_percent >= cfg.min_free_ratio_percent,
{
}

/// With vacuum not allowed, no pass ever reaches the `VACUUM` step or
/// reports a vacuum, whatever the database answers.
pub proof fn lemma_no_vacuum_when_disallowed(
    cfg: SqliteMaintenanceConfig,
    is_sqlite: bool,
    s: PassState,
    reply: StepReply,
    freelist: i64,
    pages: i64,
    size: i64,
)
    requires
        !cfg.vacuum_enabled,
    ensures
        pass_start(cfg, is_sqlite).step != MaintenanceStep::Vacuum,
        !pass_start(cfg, is_sqlite).report.vacuumed,
        s.cfg == cfg && s.step != MaintenanceStep::Vacuum && !s.report.vacuumed ==> {
            &&& pass_next(s, reply).step != MaintenanceStep::Vacuum
            &&& !pass_next(s, reply).report.vacuumed
            &&& pass_next(s, reply).cfg == cfg
        },
        !pass_report(cfg, is_sqlite, freelist, pages, size).vacuumed,
{
}

/// The figures of a completed pass on an enabled SQLite database: each
/// count is the database's answer (negative answers read as zero), the
/// ratio is the freelist share in whole percent of the page count (zero
/// for an empty database), and the reclaimable bytes are freelist pages
/// times page size; products saturate at `u64::MAX`.
pub proof fn lemma_pass_report_figures(
    cfg: SqliteMaintenanceConfig,
    freelist: i64,
    pages: i64,
    size: i64,
)
    requires
        cfg.enabled,
    ensures
        ({
            let r = pass_report(cfg, true, freelist, pages, size);
            let f: int = if freelist < 0 { 0 } else { freelist as int };
            let p: int = if pages < 0 { 0 } else { pages as int };
            let z: int = if size < 0 { 0 } else { size as int };
            &&& r.wal_checkpointed && r.optimized
            &&& !r.skipped_disabled && !r.skipped_non_sqlite
            &&& r.freelist_pages == f
            &&& r.page_count == p
            &&& r.page_size == z
            &&& p == 0 ==> r.free_ratio_percent == 0
            &&& p > 0 ==> r.free_ratio_percent == (if f * 100 > u64::MAX { u64::MAX as int } else { f
                * 100 }) / p
            &&& r.reclaimable_bytes == (if f * z > u64::MAX { u64::MAX as int } else { f * z })
            &&& r.vacuumed == (cfg.vacuum_enabled && f > 0 && (f >= cfg.min_freelist_pages
                || r.free_ratio_percent >= cfg.min_free_ratio_percent))
        }),
        pass_report(SqliteMaintenanceConfig { enabled: false, ..cfg }, true, freelist, pages, size)
            == (SqliteMaintenanceReport {
            skipped_disabled: true,
            skipped_non_sqlite: false,
            wal_checkpointed: false,
            optimized: false,
            vacuumed: false,
            freelist_pages: 0,
            page_count: 0,
            page_size: 0,
            free_ratio_percent: 0,
            reclaimable_bytes: 0,
        }),
        pass_report(cfg, false, freelist, pages, size) == (SqliteMaintenanceReport {
            skipped_disabled: false,
            skipped_non_sqlite: true,
            wal_checkpointed: false,
            optimized: false,
            vacuumed: false,
            freelist_pages: 0,
            page_count: 0,
            page_size: 0,
            free_ratio_percent: 0,
            reclaimable_bytes: 0,
        }),
{
}

/// The boolean that an optional text parses to, if any.
pub open spec fn parsed_bool(o: Option<Seq<char>>) -> Option<bool> {
    match o {
        Some(v) => bool_of(v),
        None => None,
    }
}

/// The number that an optional text parses to, if any.
pub open spec fn parsed_u64(o: Option<Seq<char>>) -> Option<u64> {
    match o {
        Some(v) => u64_of(v),
        None => None,
    }
}

/// Each environment variable that parses sets its field to the parsed
/// value; one that is unset or does not parse leaves the default (disabled,
/// one day, no vacuum, 1024 pages, 20 percent).
pub proof fn lemma_env_values_are_used(
    enabled: Option<Seq<char>>,
    interval_secs: Option<Seq<char>>,
    vacuum_enabled: Option<Seq<char>>,
    min_freelist_pages: Option<Seq<char>>,
    min_free_ratio_percent: Option<Seq<char>>,
)
    ensures
        ({
            let c = env_config(
                enabled,
                interval_secs,
                vacuum_enabled,
                min_freelist_pages,
                min_free_ratio_percent,
            );
            &&& c.enabled == (if parsed_bool(enabled) is Some { parsed_bool(enabled)->0 } else { false })
            &&& c.interval_secs == (if parsed_u64(interval_secs) is Some {
                parsed_u64(interval_secs)->0
            } else {
                86400
            })
            &&& c.vacuum_enabled == (if parsed_bool(vacuum_enabled) is Some {
                parsed_bool(vacuum_enabled)->0
            } else {
                false
            })
            &&& c.min_freelist_pages == (if parsed_u64(min_freelist_pages) is Some {
                parsed_u64(min_freelist_pages)->0
            } else {
                1024
            })
            &&& c.min_free_ratio_percent == (if parsed_u64(min_free_ratio_percent) is Some {
                parsed_u64(min_free_ratio_percent)->0
            } else {
                20
            })
        }),
{
}

/// Stored settings win field by field; the fallback fills in the rest;
/// with nothing stored the result is the fallback.
pub proof fn lemma_store_values_are_used(
    fallback: SqliteMaintenanceConfig,
    e: Option<bool>,
    i: Option<u64>,
    v: Option<bool>,
    p: Option<u64>,
    r: Option<u64>,
)
    ensures
        ({
            let c = store_config(fallback, e, i, v, p, r);
            &&& c.enabled == (if e is Some { e->0 } else { fallback.enabled })
            &&& c.interval_secs == (if i is Some { i->0 } else { fallback.interval_secs })
            &&& c.vacuum_enabled == (if v is Some { v->0 } else { fallback.vacuum_enabled })
            &&& c.min_freelist_pages == (if p is Some { p->0 } else { fallback.min_freelist_pages })
            &&& c.min_free_ratio_percent == (if r is Some { r->0 } else {
                fallback.min_free_ratio_percent
            })
        }),
        store_config(fallback, None, None, None, None, None) == fallback,
{
}

/// The loop sleeps exactly the configured interval (one second where it is
/// zero) after every event that carries settings and does not run a pass;
/// it runs a pass exactly when the settings just read enable maintenance;
/// it reads the settings on start (SQLite only) and on every wake-up.
pub proof fn lemma_loop_schedule(cfg: SqliteMaintenanceConfig)
    ensures
        loop_action(LoopEvent::PassEnded(cfg)) == LoopAction::Sleep(
            if cfg.interval_secs == 0 { 1 } else { cfg.interval_secs },
        ),
        !cfg.enabled ==> loop_action(LoopEvent::SettingsRead(cfg)) == LoopAction::Sleep(
            if cfg.interval_secs == 0 { 1 } else { cfg.interval_secs },
        ),
        cfg.enabled ==> loop_action(LoopEvent::SettingsRead(cfg)) == LoopAction::RunPass,
        loop_action(LoopEvent::Started { is_sqlite: true }) == LoopAction::ReadSettings,
        loop_action(LoopEvent::Started { is_sqlite: false }) == LoopAction::Exit,
        loop_action(LoopEvent::Woke) == LoopAction::ReadSettings,
{
}

} // verus!
