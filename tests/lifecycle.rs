use client_lifecycle::convert::{
    error_parts, into_jsonrpc_result, rpc_error_into_jsonrpc, Into, RpcError, EXCEPTION_ERROR, INVALID_PARAMS,
};
use client_lifecycle::gating::{
    count_spawning_subsystems, genesis_source, initial_sync_phase, initialize_txgens, mining_mode, plan_startup,
    served_api, ApiSet, AuthorSetting, GenesisSource, MiningMode, NodeSettings, StartupError, SyncPhase,
    TxGenPlan,
};
use client_lifecycle::monitor::{monitor_step, MonitorAction, WaitOutcome, DEFAULT_MONITOR_WAIT_MS};
use client_lifecycle::shutdown::{GracefulCheck, PollAction, ShutdownTimeouts};
use client_lifecycle::signal::{Coordinator, CoordinatorAction, CoordinatorEvent, ExitSignal, Phase};
use client_lifecycle::worker::{Worker, WorkerKind};

fn quick_timeouts() -> ShutdownTimeouts {
    ShutdownTimeouts { poll_ms: 100, warn_ms: 1000, max_ms: 2000 }
}

fn disabled_settings() -> NodeSettings {
    NodeSettings {
        test_or_dev_mode: false,
        dev_mode: false,
        is_full_node: false,
        start_mining: false,
        mining_author: AuthorSetting::Unset,
        dev_block_interval_ms: 250,
        tx_gen: None,
        has_genesis_secrets: false,
        has_genesis_accounts: false,
        print_memory_usage_period_s: None,
        local_http_enabled: false,
        http_enabled: false,
        tcp_enabled: false,
        ws_enabled: false,
    }
}

#[test]
fn standard_timeouts() {
    let t = ShutdownTimeouts::standard();
    assert_eq!(t, ShutdownTimeouts { poll_ms: 1000, warn_ms: 5000, max_ms: 1_200_000 });
}

#[test]
fn freed_store_is_clean_without_polling() {
    let mut c = GracefulCheck::new(ShutdownTimeouts::standard());
    assert_eq!(c.observe(0, false), PollAction::Clean);
    assert!(!c.warned);
}

#[test]
fn held_store_warns_once_then_times_out() {
    let mut c = GracefulCheck::new(quick_timeouts());
    let mut warnings = Vec::new();
    let mut elapsed: u64 = 0;
    let outcome = loop {
        match c.observe(elapsed, true) {
            PollAction::Sleep { warn } => {
                if warn {
                    warnings.push(elapsed);
                }
            }
            done => break (done, elapsed),
        }
        elapsed += 100;
    };
    assert_eq!(warnings, vec![1100]);
    assert!(warnings[0] >= 1000 && warnings[0] <= 1200);
    assert_eq!(outcome, (PollAction::Unclean, 2000));
}

#[test]
fn store_freed_midway_is_clean() {
    let mut c = GracefulCheck::new(quick_timeouts());
    assert_eq!(c.observe(0, true), PollAction::Sleep { warn: false });
    assert_eq!(c.observe(1500, true), PollAction::Sleep { warn: true });
    assert_eq!(c.observe(1600, true), PollAction::Sleep { warn: false });
    assert_eq!(c.observe(1700, false), PollAction::Clean);
}

#[test]
fn hard_bound_wins_over_freed_store() {
    let mut c = GracefulCheck::new(quick_timeouts());
    assert_eq!(c.observe(2000, false), PollAction::Unclean);
}

#[test]
fn repeated_interrupts_notify_once() {
    let mut s = ExitSignal::new();
    assert_eq!(s.deliver_interrupts(5), 1);
    assert!(s.fired);
    assert!(!s.deliver_interrupt());
    assert_eq!(s.deliver_interrupts(3), 0);
}

#[test]
fn no_interrupt_leaves_signal_unset() {
    let mut s = ExitSignal::new();
    assert_eq!(s.deliver_interrupts(0), 0);
    assert!(!s.fired);
    assert!(s.deliver_interrupt());
}

#[test]
fn coordinator_takes_handle_once() {
    let mut c = Coordinator::new();
    assert_eq!(c.on_event(CoordinatorEvent::Woken), CoordinatorAction::TakeHandle);
    assert_eq!(c.on_event(CoordinatorEvent::Woken), CoordinatorAction::Ignore);
    assert_eq!(c.on_event(CoordinatorEvent::HandleTaken { has_worker: true }), CoordinatorAction::StopWorker);
    assert_eq!(c.on_event(CoordinatorEvent::Woken), CoordinatorAction::Ignore);
    assert_eq!(c.on_event(CoordinatorEvent::Released), CoordinatorAction::StartPolling);
    assert_eq!(c.phase, Phase::Done);
    assert_eq!(c.handles_taken, 1);
}

#[test]
fn coordinator_without_worker_releases() {
    let mut c = Coordinator::new();
    assert_eq!(c.on_event(CoordinatorEvent::Released), CoordinatorAction::Ignore);
    assert_eq!(c.phase, Phase::Waiting);
    assert_eq!(c.on_event(CoordinatorEvent::Woken), CoordinatorAction::TakeHandle);
    assert_eq!(
        c.on_event(CoordinatorEvent::HandleTaken { has_worker: false }),
        CoordinatorAction::ReleaseReferences
    );
    assert_eq!(c.phase, Phase::TearingDown);
}

#[test]
fn stop_twice_releases_once() {
    let mut w = Worker::new(WorkerKind::BlockGenerator);
    assert!(w.stop());
    assert!(!w.stop());
    assert!(w.stopped);
    assert_eq!(w.kind, WorkerKind::BlockGenerator);
}

#[test]
fn monitor_stops_when_target_gone() {
    assert_eq!(DEFAULT_MONITOR_WAIT_MS, 5000);
    assert_eq!(monitor_step(WaitOutcome::TimedOut, true), MonitorAction::Report);
    assert_eq!(monitor_step(WaitOutcome::TimedOut, false), MonitorAction::Stop);
}

#[test]
fn monitor_stops_on_signal() {
    assert_eq!(monitor_step(WaitOutcome::Signaled, true), MonitorAction::Stop);
    assert_eq!(monitor_step(WaitOutcome::Signaled, false), MonitorAction::Stop);
}

#[test]
fn disabled_optional_subsystems_are_absent() {
    let p = plan_startup(&disabled_settings()).unwrap();
    assert!(!p.direct_txgen);
    assert_eq!(p.txgen, TxGenPlan::Absent);
    assert_eq!(p.mining, MiningMode::Off);
    assert_eq!(p.memory_report_period_s, None);
    assert_eq!(p.local_http, None);
    assert_eq!(p.http, None);
    assert_eq!(p.tcp, None);
    assert_eq!(p.ws, None);
    assert_eq!(count_spawning_subsystems(&p), 0);
    let mut c = GracefulCheck::new(ShutdownTimeouts::standard());
    assert_eq!(c.observe(0, false), PollAction::Clean);
}

#[test]
fn dev_mode_plan() {
    let mut s = disabled_settings();
    s.test_or_dev_mode = true;
    s.dev_mode = true;
    s.start_mining = true;
    s.tx_gen = Some(true);
    s.has_genesis_secrets = true;
    s.print_memory_usage_period_s = Some(10);
    s.local_http_enabled = true;
    s.tcp_enabled = true;
    s.is_full_node = true;
    let p = plan_startup(&s).unwrap();
    assert_eq!(p.mining, MiningMode::AutoGeneration { interval_ms: 250 });
    assert!(p.direct_txgen);
    assert_eq!(p.txgen, TxGenPlan::Generating);
    assert_eq!(p.genesis, GenesisSource::SecretsFile);
    assert_eq!(p.sync_phase, SyncPhase::RecoverBlockHeadersFromDb);
    assert_eq!(p.local_http, Some(ApiSet::Debug));
    assert_eq!(p.tcp, Some(ApiSet::Debug));
    assert_eq!(p.http, None);
    assert_eq!(count_spawning_subsystems(&p), 5);
}

#[test]
fn production_plan() {
    let mut s = disabled_settings();
    s.start_mining = true;
    s.mining_author = AuthorSetting::Valid;
    s.tx_gen = Some(false);
    s.has_genesis_accounts = true;
    s.http_enabled = true;
    s.ws_enabled = true;
    let p = plan_startup(&s).unwrap();
    assert_eq!(p.mining, MiningMode::ProofOfWork);
    assert_eq!(p.txgen, TxGenPlan::Idle);
    assert!(!p.direct_txgen);
    assert_eq!(p.genesis, GenesisSource::AccountsFile);
    assert_eq!(p.sync_phase, SyncPhase::RecoverBlocksFromDb);
    assert_eq!(p.http, Some(ApiSet::Public));
    assert_eq!(p.ws, Some(ApiSet::Public));
    assert_eq!(count_spawning_subsystems(&p), 3);
}

#[test]
fn mining_without_author_is_refused() {
    let mut s = disabled_settings();
    s.start_mining = true;
    assert_eq!(mining_mode(&s), Err(StartupError::MissingMiningAuthor));
    assert_eq!(plan_startup(&s), Err(StartupError::MissingMiningAuthor));
}

#[test]
fn malformed_author_is_refused() {
    let mut s = disabled_settings();
    s.mining_author = AuthorSetting::Malformed;
    assert_eq!(mining_mode(&s), Err(StartupError::MalformedMiningAuthor));
    s.dev_mode = true;
    assert_eq!(plan_startup(&s), Err(StartupError::MalformedMiningAuthor));
}

#[test]
fn genesis_and_sync_choices() {
    let mut s = disabled_settings();
    assert_eq!(genesis_source(&s), GenesisSource::BuiltIn);
    s.has_genesis_secrets = true;
    assert_eq!(genesis_source(&s), GenesisSource::BuiltIn);
    s.test_or_dev_mode = true;
    assert_eq!(genesis_source(&s), GenesisSource::SecretsFile);
    s.has_genesis_secrets = false;
    s.has_genesis_accounts = true;
    assert_eq!(genesis_source(&s), GenesisSource::BuiltIn);
    assert_eq!(initial_sync_phase(false), SyncPhase::RecoverBlocksFromDb);
    assert_eq!(initial_sync_phase(true), SyncPhase::RecoverBlockHeadersFromDb);
}

#[test]
fn txgens_and_apis() {
    let mut s = disabled_settings();
    assert_eq!(initialize_txgens(&s), (TxGenPlan::Absent, false));
    s.tx_gen = Some(true);
    s.test_or_dev_mode = true;
    assert_eq!(initialize_txgens(&s), (TxGenPlan::Generating, true));
    assert_eq!(served_api(&s, true), Some(ApiSet::Debug));
    assert_eq!(served_api(&s, false), None);
}

#[test]
fn invalid_param_error_parts() {
    let e = RpcError::InvalidParam("address".to_string(), "too \"short\"".to_string());
    let parts = error_parts(&e).unwrap();
    assert_eq!(parts.code, INVALID_PARAMS);
    assert_eq!(INVALID_PARAMS, -32602);
    assert_eq!(parts.message, "Invalid parameters: address");
    assert_eq!(parts.data, Some("\"too \\\"short\\\"\"".to_string()));
}

#[test]
fn other_errors_become_exceptions() {
    let e = RpcError::Storage("disk full".to_string());
    let parts = error_parts(&e).unwrap();
    assert_eq!(parts.code, -32016);
    assert_eq!(parts.message, "Error processing request: disk full");
    assert_eq!(parts.data, None);
    let j = rpc_error_into_jsonrpc(RpcError::Msg("boom".to_string()));
    assert_eq!(j.code, jsonrpc_core::ErrorCode::ServerError(EXCEPTION_ERROR));
    assert_eq!(j.message, "Error processing request: boom");
    assert_eq!(j.data, None);
}

#[test]
fn invalid_param_becomes_jsonrpc_error() {
    let j = rpc_error_into_jsonrpc(RpcError::InvalidParam("hash".to_string(), "odd".to_string()));
    assert_eq!(j.code, jsonrpc_core::ErrorCode::InvalidParams);
    assert_eq!(j.message, "Invalid parameters: hash");
    assert_eq!(j.data, Some(jsonrpc_core::Value::String("\"odd\"".to_string())));
}

#[test]
fn jsonrpc_errors_pass_through() {
    let given = jsonrpc_core::Error::method_not_found();
    assert!(error_parts(&RpcError::JsonRpc(given.clone())).is_none());
    let r: Result<u32, jsonrpc_core::Error> = into_jsonrpc_result(Err(RpcError::JsonRpc(given.clone())));
    assert_eq!(r, Err(given.clone()));
    let ok: Result<u32, jsonrpc_core::Error> = into_jsonrpc_result(Ok(7));
    assert_eq!(ok, Ok(7));
    let same: Result<u32, jsonrpc_core::Error> = Into::into(Err::<u32, jsonrpc_core::Error>(given.clone()));
    assert_eq!(same, Err(given));
    let converted: jsonrpc_core::Error = Into::into(RpcError::Decoder("bad rlp".to_string()));
    assert_eq!(converted.message, "Error processing request: bad rlp");
}
