//! The startup decisions of the composition root: which optional subsystems
//! exist, how block generation runs, where genesis data comes from and which
//! API set each RPC transport serves. Absence is always a valid state.
use crate::shutdown::{poll_decision, PollAction, ShutdownTimeouts};
use vstd::prelude::*;

verus! {

/// What the configuration says of the mining author.
#[derive(Clone, Copy, Debug, PartialEq, Eq, Structural)]
pub enum AuthorSetting {
    Unset,
    /// A well-formed address.
    Valid,
    /// Set, but not a 40-digit hex address.
    Malformed,
}

/// The configuration values that the startup decisions read.
#[derive(Clone, Copy, Debug, PartialEq, Eq, Structural)]
pub struct NodeSettings {
    pub test_or_dev_mode: bool,
    pub dev_mode: bool,
    pub is_full_node: bool,
    pub start_mining: bool,
    pub mining_author: AuthorSetting,
    pub dev_block_interval_ms: u64,
    /// `Some(generate_tx)` when transaction generation is configured.
    pub tx_gen: Option<bool>,
    pub has_genesis_secrets: bool,
    pub has_genesis_accounts: bool,
    pub print_memory_usage_period_s: Option<u64>,
    pub local_http_enabled: bool,
    pub http_enabled: bool,
    pub tcp_enabled: bool,
    pub ws_enabled: bool,
}

/// How blocks are generated; the two active modes exclude each other and
/// are chosen once.
#[derive(Clone, Copy, Debug, PartialEq, Eq, Structural)]
pub enum MiningMode {
    Off,
    /// A block at a fixed interval, for development.
    AutoGeneration { interval_ms: u64 },
    /// A continuous proof-of-work search.
    ProofOfWork,
}

/// The generator of transactions from multiple genesis accounts.
#[derive(Clone, Copy, Debug, PartialEq, Eq, Structural)]
pub enum TxGenPlan {
    Absent,
    /// Built, with no thread of its own.
    Idle,
    /// Built, with a thread that generates transactions.
    Generating,
}

/// Where the genesis accounts come from.
#[derive(Clone, Copy, Debug, PartialEq, Eq, Structural)]
pub enum GenesisSource {
    /// A file of secret keys, in test or development mode.
    SecretsFile,
    /// A file of accounts, in production.
    AccountsFile,
    /// The built-in accounts.
    BuiltIn,
}

/// The phase in which synchronization starts.
#[derive(Clone, Copy, Debug, PartialEq, Eq, Structural)]
pub enum SyncPhase {
    RecoverBlockHeadersFromDb,
    RecoverBlocksFromDb,
}

/// The set of RPC methods a transport serves.
#[derive(Clone, Copy, Debug, PartialEq, Eq, Structural)]
pub enum ApiSet {
    Debug,
    Public,
}

/// Why startup is refused.
#[derive(Clone, Copy, Debug, PartialEq, Eq, Structural)]
pub enum StartupError {
    /// The mining author is set but is no address.
    MalformedMiningAuthor,
    /// Mining is asked for with no author to reward.
    MissingMiningAuthor,
}

/// Every startup decision.
#[derive(Clone, Copy, Debug, PartialEq, Eq, Structural)]
pub struct StartupPlan {
    pub genesis: GenesisSource,
    pub sync_phase: SyncPhase,
    pub direct_txgen: bool,
    pub txgen: TxGenPlan,
    pub mining: MiningMode,
    pub memory_report_period_s: Option<u64>,
    pub local_http: Option<ApiSet>,
    pub http: Option<ApiSet>,
    pub tcp: Option<ApiSet>,
    pub ws: Option<ApiSet>,
}

pub open spec fn genesis_source_spec(s: NodeSettings) -> GenesisSource {
    if s.test_or_dev_mode {
        if s.has_genesis_secrets { GenesisSource::SecretsFile } else { GenesisSource::BuiltIn }
    } else {
        if s.has_genesis_accounts { GenesisSource::AccountsFile } else { GenesisSource::BuiltIn }
    }
}

/// Genesis accounts come from the secrets file in test or development mode,
/// from the accounts file otherwise, and from the built-in set when the file
/// for the mode is not configured.
pub fn genesis_source(s: &NodeSettings) -> (g: GenesisSource)
    ensures
        g == genesis_source_spec(*s),
{
    if s.test_or_dev_mode {
        if s.has_genesis_secrets {
            GenesisSource::SecretsFile
        } else {
            GenesisSource::BuiltIn
        }
    } else if s.has_genesis_accounts {
        GenesisSource::AccountsFile
    } else {
        GenesisSource::BuiltIn
    }
}

/// A full node first recovers block headers from the database, an archive
/// node whole blocks.
pub fn initial_sync_phase(is_full_node: bool) -> (p: SyncPhase)
    ensures
        p == (if is_full_node { SyncPhase::RecoverBlockHeadersFromDb } else { SyncPhase::RecoverBlocksFromDb }),
{
    if is_full_node {
        SyncPhase::RecoverBlockHeadersFromDb
    } else {
        SyncPhase::RecoverBlocksFromDb
    }
}

pub open spec fn txgens_spec(s: NodeSettings) -> (TxGenPlan, bool) {
    (
        match s.tx_gen {
            None => TxGenPlan::Absent,
            Some(generate) => if generate { TxGenPlan::Generating } else { TxGenPlan::Idle },
        },
        s.test_or_dev_mode,
    )
}

/// Decides the two transaction generators: the multi-account one exists when
/// configured, with a thread when it is to generate; the direct one exists
/// in test or development mode.
pub fn initialize_txgens(s: &NodeSettings) -> (r: (TxGenPlan, bool))
    ensures
        r == txgens_spec(*s),
{
    let txgen = match s.tx_gen {
        None => TxGenPlan::Absent,
        Some(generate) => if generate {
            TxGenPlan::Generating
        } else {
            TxGenPlan::Idle
        },
    };
    (txgen, s.test_or_dev_mode)
}

pub open spec fn mining_mode_spec(s: NodeSettings) -> Result<MiningMode, StartupError> {
    if s.mining_author is Malformed {
        Err(StartupError::MalformedMiningAuthor)
    } else if s.dev_mode {
        Ok(MiningMode::AutoGeneration { interval_ms: s.dev_block_interval_ms })
    } else if s.start_mining {
        if s.mining_author is Unset {
            Err(StartupError::MissingMiningAuthor)
        } else {
            Ok(MiningMode::ProofOfWork)
        }
    } else {
        Ok(MiningMode::Off)
    }
}

/// Development mode generates blocks at its interval; otherwise mining, when
/// asked for, searches by proof of work and needs an author. A malformed
/// author refuses startup in every mode.
pub fn mining_mode(s: &NodeSettings) -> (r: Result<MiningMode, StartupError>)
    ensures
        r == mining_mode_spec(*s),
{
    match s.mining_author {
        AuthorSetting::Malformed => {
            return Err(StartupError::MalformedMiningAuthor);
        },
        _ => {},
    }
    if s.dev_mode {
        Ok(MiningMode::AutoGeneration { interval_ms: s.dev_block_interval_ms })
    } else if s.start_mining {
        match s.mining_author {
            AuthorSetting::Unset => Err(StartupError::MissingMiningAuthor),
            _ => Ok(MiningMode::ProofOfWork),
        }
    } else {
        Ok(MiningMode::Off)
    }
}

pub open spec fn served_api_spec(s: NodeSettings, enabled: bool) -> Option<ApiSet> {
    if !enabled {
        None
    } else if s.test_or_dev_mode {
        Some(ApiSet::Debug)
    } else {
        Some(ApiSet::Public)
    }
}

/// The API set of a public transport: none when it is disabled, the debug
/// set in test or development mode, the public set otherwise.
pub fn served_api(s: &NodeSettings, enabled: bool) -> (r: Option<ApiSet>)
    ensures
        r == served_api_spec(*s, enabled),
{
    if !enabled {
        None
    } else if s.test_or_dev_mode {
        Some(ApiSet::Debug)
    } else {
        Some(ApiSet::Public)
    }
}

pub open spec fn plan_spec(s: NodeSettings) -> Result<StartupPlan, StartupError> {
    match mining_mode_spec(s) {
        Err(e) => Err(e),
        Ok(mining) => Ok(
            StartupPlan {
                genesis: genesis_source_spec(s),
                sync_phase: if s.is_full_node {
                    SyncPhase::RecoverBlockHeadersFromDb
                } else {
                    SyncPhase::RecoverBlocksFromDb
                },
                direct_txgen: txgens_spec(s).1,
                txgen: txgens_spec(s).0,
                mining,
                memory_report_period_s: s.print_memory_usage_period_s,
                local_http: if s.local_http_enabled { Some(ApiSet::Debug) } else { None },
                http: served_api_spec(s, s.http_enabled),
                tcp: served_api_spec(s, s.tcp_enabled),
                ws: served_api_spec(s, s.ws_enabled),
            },
        ),
    }
}

/// Makes every startup decision at once, or refuses startup.
pub fn plan_startup(s: &NodeSettings) -> (r: Result<StartupPlan, StartupError>)
    ensures
        r == plan_spec(*s),
{
    let mining = match mining_mode(s) {
        Err(e) => {
            return Err(e);
        },
        Ok(m) => m,
    };
    let (txgen, direct_txgen) = initialize_txgens(s);
    Ok(
        StartupPlan {
            genesis: genesis_source(s),
            sync_phase: initial_sync_phase(s.is_full_node),
            direct_txgen,
            txgen,
            mining,
            memory_report_period_s: s.print_memory_usage_period_s,
            local_http: if s.local_http_enabled {
                Some(ApiSet::Debug)
            } else {
                None
            },
            http: served_api(s, s.http_enabled),
            tcp: served_api(s, s.tcp_enabled),
            ws: served_api(s, s.ws_enabled),
        },
    )
}

/// The number of optional subsystems in a plan that spawn threads of their own.
pub open spec fn spawning_subsystems(p: StartupPlan) -> nat {
    (if p.memory_report_period_s is Some { 1nat } else { 0nat }) + (if p.mining is Off { 0nat } else { 1nat })
        + (if p.txgen is Generating { 1nat } else { 0nat }) + (if p.local_http is Some { 1nat } else { 0nat })
        + (if p.http is Some { 1nat } else { 0nat }) + (if p.tcp is Some { 1nat } else { 0nat }) + (if p.ws
        is Some { 1nat } else { 0nat })
}

/// Counts the optional subsystems of a plan that spawn threads of their own.
pub fn count_spawning_subsystems(p: &StartupPlan) -> (n: u64)
    ensures
        n == spawning_subsystems(*p),
{
    let mut n: u64 = 0;
    if p.memory_report_period_s.is_some() {
        n = n + 1;
    }
    match p.mining {
        MiningMode::Off => {},
        _ => {
            n = n + 1;
        },
    }
    match p.txgen {
        TxGenPlan::Generating => {
            n = n + 1;
        },
        _ => {},
    }
    if p.local_http.is_some() {
        n = n + 1;
    }
    if p.http.is_some() {
        n = n + 1;
    }
    if p.tcp.is_some() {
        n = n + 1;
    }
    if p.ws.is_some() {
        n = n + 1;
    }
    n
}

/// Every optional subsystem is switched off.
pub open spec fn all_optional_disabled(s: NodeSettings) -> bool {
    &&& !s.test_or_dev_mode
    &&& !s.dev_mode
    &&& !s.start_mining
    &&& s.tx_gen is None
    &&& s.print_memory_usage_period_s is None
    &&& !s.local_http_enabled
    &&& !s.http_enabled
    &&& !s.tcp_enabled
    &&& !s.ws_enabled
}

/// With every optional subsystem switched off and a well-formed or unset
/// author, startup goes ahead, plans each optional subsystem as absent and
/// spawns no thread for any of them; shutdown is then clean at the first look
/// after the store is freed, before the hard bound.
pub proof fn disabled_subsystems_are_absent(s: NodeSettings, t: ShutdownTimeouts, warned: bool, elapsed: u64)
    requires
        all_optional_disabled(s),
        !(s.mining_author is Malformed),
        elapsed < t.max_ms,
    ensures
        poll_decision(t, warned, elapsed, false) == PollAction::Clean,
        plan_spec(s) is Ok,
        ({
            let p = plan_spec(s)->Ok_0;
            &&& !p.direct_txgen
            &&& p.txgen is Absent
            &&& p.mining is Off
            &&& p.memory_report_period_s is None
            &&& p.local_http is None
            &&& p.http is None
            &&& p.tcp is None
            &&& p.ws is None
            &&& spawning_subsystems(p) == 0
        }),
{
}

} // verus!
