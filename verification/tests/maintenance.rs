use tiygate_client::maintenance::{
    next_loop_action, pragma_to_u64, LoopAction, LoopEvent, saturating_mul, should_vacuum, MaintenancePass, MaintenanceStep,
    SqliteMaintenanceConfig, SqliteMaintenanceReport, StepReply,
};

/// Drives a pass to the end, answering the three reads with `readings`.
fn drive(cfg: &SqliteMaintenanceConfig, is_sqlite: bool, readings: [i64; 3]) -> (SqliteMaintenanceReport, Vec<MaintenanceStep>) {
    let mut pass = MaintenancePass::start(cfg, is_sqlite);
    let mut steps = Vec::new();
    loop {
        let step = pass.step();
        steps.push(step);
        let reply = match step {
            MaintenanceStep::Finished => break,
            MaintenanceStep::ReadFreelistCount => StepReply::Value(readings[0]),
            MaintenanceStep::ReadPageCount => StepReply::Value(readings[1]),
            MaintenanceStep::ReadPageSize => StepReply::Value(readings[2]),
            _ => StepReply::Executed,
        };
        pass.advance(reply);
    }
    (pass.report(), steps)
}

fn enabled_config() -> SqliteMaintenanceConfig {
    SqliteMaintenanceConfig { enabled: true, ..SqliteMaintenanceConfig::default() }
}

#[test]
fn disabled_pass_is_skipped() {
    let (report, steps) = drive(&SqliteMaintenanceConfig::default(), true, [0, 0, 0]);
    assert!(report.skipped_disabled);
    assert!(!report.wal_checkpointed);
    assert!(!report.optimized);
    assert!(!report.vacuumed);
    assert_eq!(steps, vec![MaintenanceStep::Finished]);
}

#[test]
fn sqlite_pass_checkpoints_and_optimizes() {
    let (report, _) = drive(&enabled_config(), true, [0, 25, 4096]);
    assert!(report.wal_checkpointed);
    assert!(report.optimized);
    assert!(report.page_count > 0);
    assert!(report.page_size > 0);
    assert!(!report.vacuumed);
}

#[test]
fn pass_vacuums_when_threshold_is_met() {
    let cfg = SqliteMaintenanceConfig {
        enabled: true,
        vacuum_enabled: true,
        min_freelist_pages: 1,
        min_free_ratio_percent: 1,
        ..SqliteMaintenanceConfig::default()
    };
    let (report, steps) = drive(&cfg, true, [520, 530, 4096]);
    assert_eq!(report.freelist_pages, 520);
    assert!(report.vacuumed);
    assert_eq!(
        steps,
        vec![
            MaintenanceStep::CheckpointWal,
            MaintenanceStep::Optimize,
            MaintenanceStep::ReadFreelistCount,
            MaintenanceStep::ReadPageCount,
            MaintenanceStep::ReadPageSize,
            MaintenanceStep::Vacuum,
            MaintenanceStep::Finished,
        ]
    );
}

#[test]
fn pass_does_not_vacuum_below_unreachable_threshold() {
    let cfg = SqliteMaintenanceConfig {
        enabled: true,
        vacuum_enabled: true,
        min_freelist_pages: u64::MAX,
        min_free_ratio_percent: u64::MAX,
        ..SqliteMaintenanceConfig::default()
    };
    let (report, _) = drive(&cfg, true, [3, 25, 4096]);
    assert!(!report.vacuumed);
}

#[test]
fn non_sqlite_pool_is_skipped() {
    let (report, steps) = drive(&enabled_config(), false, [9, 9, 9]);
    assert!(report.skipped_non_sqlite);
    assert!(!report.skipped_disabled);
    assert!(!report.wal_checkpointed);
    assert_eq!(steps, vec![MaintenanceStep::Finished]);
}

#[test]
fn report_figures_are_computed_exactly() {
    let (report, _) = drive(&enabled_config(), true, [30, 200, 4096]);
    assert_eq!(report.freelist_pages, 30);
    assert_eq!(report.page_count, 200);
    assert_eq!(report.page_size, 4096);
    assert_eq!(report.free_ratio_percent, 15);
    assert_eq!(report.reclaimable_bytes, 30 * 4096);
    assert!(!report.vacuumed);
}

#[test]
fn negative_pragma_answers_count_as_zero() {
    let (report, _) = drive(&enabled_config(), true, [-5, -1, 4096]);
    assert_eq!(report.freelist_pages, 0);
    assert_eq!(report.page_count, 0);
    assert_eq!(report.free_ratio_percent, 0);
    assert_eq!(pragma_to_u64(-7), 0);
    assert_eq!(pragma_to_u64(i64::MAX), i64::MAX as u64);
}

#[test]
fn products_saturate() {
    assert_eq!(saturating_mul(u64::MAX / 2, 3), u64::MAX);
    assert_eq!(saturating_mul(7, 6), 42);
    let (report, _) = drive(&enabled_config(), true, [i64::MAX, 1, i64::MAX]);
    assert_eq!(report.reclaimable_bytes, u64::MAX);
    assert_eq!(report.free_ratio_percent, u64::MAX);
}

#[test]
fn vacuum_decision() {
    let cfg = SqliteMaintenanceConfig {
        vacuum_enabled: true,
        min_freelist_pages: 100,
        min_free_ratio_percent: 50,
        ..SqliteMaintenanceConfig::default()
    };
    let mut report = SqliteMaintenanceReport::default();
    assert!(!should_vacuum(&cfg, &report));
    report.freelist_pages = 100;
    assert!(should_vacuum(&cfg, &report));
    report.freelist_pages = 99;
    assert!(!should_vacuum(&cfg, &report));
    report.free_ratio_percent = 50;
    assert!(should_vacuum(&cfg, &report));
    let off = SqliteMaintenanceConfig { vacuum_enabled: false, ..cfg };
    assert!(!should_vacuum(&off, &report));
    let zero = SqliteMaintenanceConfig { min_freelist_pages: 0, min_free_ratio_percent: 0, ..cfg };
    report.freelist_pages = 0;
    assert!(!should_vacuum(&zero, &report));
}

#[test]
fn default_config_values() {
    let c = SqliteMaintenanceConfig::default();
    assert!(!c.enabled);
    assert_eq!(c.interval_secs, 24 * 60 * 60);
    assert!(!c.vacuum_enabled);
    assert_eq!(c.min_freelist_pages, 1024);
    assert_eq!(c.min_free_ratio_percent, 20);
    assert_eq!(SqliteMaintenanceReport::default().page_count, 0);
}

#[test]
fn env_values_override_defaults() {
    let none = SqliteMaintenanceConfig::from_env_values(None, None, None, None, None);
    assert_eq!(none, SqliteMaintenanceConfig::default());
    let c = SqliteMaintenanceConfig::from_env_values(
        Some("true"),
        Some("+60"),
        Some("TRUE"),
        Some("18446744073709551615"),
        Some("18446744073709551616"),
    );
    assert!(c.enabled);
    assert_eq!(c.interval_secs, 60);
    assert!(!c.vacuum_enabled);
    assert_eq!(c.min_freelist_pages, u64::MAX);
    assert_eq!(c.min_free_ratio_percent, 20);
    let c = SqliteMaintenanceConfig::from_env_values(Some(" true"), Some("1 "), Some("false"), Some("-1"), Some(""));
    assert_eq!(c, SqliteMaintenanceConfig::default());
}

#[test]
fn store_values_win_over_fallback() {
    let fallback = SqliteMaintenanceConfig { interval_secs: 5, ..SqliteMaintenanceConfig::default() };
    let c = SqliteMaintenanceConfig::from_store(&fallback, Some(true), None, None, Some(7), None);
    assert!(c.enabled);
    assert_eq!(c.interval_secs, 5);
    assert!(!c.vacuum_enabled);
    assert_eq!(c.min_freelist_pages, 7);
    assert_eq!(c.min_free_ratio_percent, 20);
}

#[test]
fn loop_exits_for_other_databases_and_pauses_at_least_one_second() {
    assert_eq!(next_loop_action(&LoopEvent::Started { is_sqlite: false }), LoopAction::Exit);
    assert_eq!(next_loop_action(&LoopEvent::Started { is_sqlite: true }), LoopAction::ReadSettings);
    let off = SqliteMaintenanceConfig { interval_secs: 0, ..SqliteMaintenanceConfig::default() };
    assert_eq!(next_loop_action(&LoopEvent::SettingsRead(off)), LoopAction::Sleep(1));
    assert_eq!(next_loop_action(&LoopEvent::SettingsRead(enabled_config())), LoopAction::RunPass);
    assert_eq!(next_loop_action(&LoopEvent::PassEnded(enabled_config())), LoopAction::Sleep(86400));
    assert_eq!(next_loop_action(&LoopEvent::Woke), LoopAction::ReadSettings);
}

#[test]
fn failed_statement_ends_the_pass() {
    let cfg = SqliteMaintenanceConfig { vacuum_enabled: true, min_freelist_pages: 1, ..enabled_config() };
    let mut pass = MaintenancePass::start(&cfg, true);
    pass.advance(StepReply::Executed);
    pass.advance(StepReply::Failed);
    assert_eq!(pass.step(), MaintenanceStep::Finished);
    let report = pass.report();
    assert!(report.wal_checkpointed);
    assert!(!report.optimized);
    assert!(!report.vacuumed);
}
