//! The protocol by which one project's configuration is solved on the
//! optimization engine: open a session, send the topology's inputs, solve,
//! and always close the session again.
//!
//! The exchange is a state machine: [`SolveRun::next`] takes the engine's
//! reply to the previous call and says which call to make next; the caller
//! performs the HTTP requests. Numbers are IEEE-754 binary64 bit patterns.

use vstd::prelude::*;
use crate::config::{ConnectionConfigData, ProjectData};
use crate::text::{concat_text, decimal_text, push_decimal};

verus! {

broadcast use vstd::string::group_string_axioms;

/// Why a call to the engine failed.
#[derive(Debug)]
pub enum EngineError {
    /// The engine could not be reached.
    Http(String),
    /// The engine answered with a non-success status.
    Api { status: u16, detail: String },
}

pub open spec fn engine_error_message(e: EngineError) -> Seq<char> {
    match e {
        EngineError::Http(msg) => "no se pudo contactar con el motor: "@ + msg@,
        EngineError::Api { status, detail } => "el motor devolvio "@ + decimal_text(status as nat)
            + ": "@ + detail@,
    }
}

impl Clone for EngineError {
    fn clone(&self) -> (r: Self)
        ensures
            r == *self,
    {
        match self {
            EngineError::Http(msg) => EngineError::Http(msg.clone()),
            EngineError::Api { status, detail } => EngineError::Api {
                status: *status,
                detail: detail.clone(),
            },
        }
    }
}

impl EngineError {
    /// The text shown to the user.
    pub fn message(&self) -> (r: String)
        ensures
            r@ == engine_error_message(*self),
    {
        match self {
            EngineError::Http(msg) => concat_text("no se pudo contactar con el motor: ", msg.as_str()),
            EngineError::Api { status, detail } => {
                let mut r = String::from_str("el motor devolvio ");
                push_decimal(&mut r, *status as u64);
                r.append(": ");
                r.append(detail.as_str());
                r
            },
        }
    }
}

fn copy_outcome(o: &Result<(), EngineError>) -> (r: Result<(), EngineError>)
    ensures
        r == *o,
{
    match o {
        Ok(u) => Ok(*u),
        Err(e) => {
            let c = e.clone();
            assert(c == *e);
            Err(c)
        },
    }
}

/// An HTTP status in the success range.
pub open spec fn is_success_status(status: u16) -> bool {
    200 <= status <= 299
}

pub open spec fn unknown_error_text() -> Seq<char> {
    "error desconocido"@
}

/// Judges an engine reply by its status: success, or an `Api` error that
/// carries the status and the reply's `detail` text (or `error desconocido`
/// when it has none).
pub fn check_reply(status: u16, detail: Option<String>) -> (r: Result<(), EngineError>)
    ensures
        r is Ok <==> is_success_status(status),
        r is Ok <==> 200 <= status < 300,
        r matches Err(e) ==> e matches EngineError::Api { status: s, detail: d } && s == status
            && d@ == match detail {
            Some(t) => t@,
            None => unknown_error_text(),
        },
        r matches Err(e) ==> e matches EngineError::Api { status: s, detail: d } && d@
            == match detail {
            Some(t) => t@,
            None => "error desconocido"@,
        },
{
    if 200 <= status && status <= 299 {
        Ok(())
    } else {
        let detail = match detail {
            Some(t) => t,
            None => String::from_str("error desconocido"),
        };
        Err(EngineError::Api { status, detail })
    }
}

/// The detail of the error reported when the solve reply cannot be read.
pub fn unexpected_solve_reply(reason: &str) -> (r: EngineError)
    ensures
        r matches EngineError::Api { status, detail } && status == 500 && detail@
            == "respuesta de solve inesperada: "@ + reason@,
{
    EngineError::Api { status: 500, detail: concat_text("respuesta de solve inesperada: ", reason) }
}

// ---------------------------------------------------------------------
// Numbers sent to the engine
// ---------------------------------------------------------------------
/// 0.0
pub const ZERO_BITS: u64 = 0x0;

/// -0.0
pub const NEGATIVE_ZERO_BITS: u64 = 0x8000000000000000;

/// 1.0
pub const ONE_BITS: u64 = 0x3ff0000000000000;

/// -0.05, the provisional flat export price.
pub const FLAT_EXPORT_PRICE_BITS: u64 = 0xbfa999999999999a;

/// 0.20, the provisional flat import price.
pub const FLAT_IMPORT_PRICE_BITS: u64 = 0x3fc999999999999a;

/// A blank efficiency (unset, or zero as an empty form field leaves it)
/// means "never set", which is 1.0, not a battery that loses everything.
pub open spec fn effective_eff_spec(v: Option<u64>) -> u64 {
    match v {
        None => ONE_BITS,
        Some(x) => if x == ZERO_BITS || x == NEGATIVE_ZERO_BITS {
            ONE_BITS
        } else {
            x
        },
    }
}

/// The efficiency sent to the engine; never zero.
pub fn effective_eff(v: Option<u64>) -> (r: u64)
    ensures
        r == effective_eff_spec(v),
        r == efficiency_sent(v),
        r != ZERO_BITS && r != NEGATIVE_ZERO_BITS,
{
    match v {
        None => ONE_BITS,
        Some(x) => if x == ZERO_BITS || x == NEGATIVE_ZERO_BITS {
            ONE_BITS
        } else {
            x
        },
    }
}

pub open spec fn or_bits(v: Option<u64>, default: u64) -> u64 {
    match v {
        Some(x) => x,
        None => default,
    }
}

// ---------------------------------------------------------------------
// What is sent
// ---------------------------------------------------------------------
/// The system topology a session is opened with.
#[derive(Debug, Clone)]
pub struct Topology {
    pub objective: String,
    pub consumption: bool,
    pub production: bool,
    pub storage: bool,
    pub connection_config: ConnectionConfigData,
}

/// The configured objective, `cost` when none is set.
pub open spec fn objective_or_cost(d: ProjectData) -> Seq<char> {
    match d.objective {
        Some(o) => o@,
        None => "cost"@,
    }
}

/// The battery settings sent to the engine: unset limits are zero, unset
/// cycles one, and blank efficiencies one.
#[derive(Debug, Clone, Copy)]
pub struct StorageSettings {
    pub power_cap: (u64, u64),
    pub energy_cap: (u64, u64),
    pub efficiency: (u64, u64),
    pub cycle_max: u64,
    pub energy_init: Option<u64>,
}

pub open spec fn storage_settings_spec(d: ProjectData) -> StorageSettings {
    StorageSettings {
        power_cap: (or_bits(d.storage.charge_max, ZERO_BITS), or_bits(
            d.storage.discharge_max,
            ZERO_BITS,
        )),
        energy_cap: (or_bits(d.storage.energy_min, ZERO_BITS), or_bits(
            d.storage.energy_max,
            ZERO_BITS,
        )),
        efficiency: (effective_eff_spec(d.storage.charge_eff), effective_eff_spec(
            d.storage.discharge_eff,
        )),
        cycle_max: or_bits(d.storage.cycle_max, ONE_BITS),
        energy_init: d.storage.energy_init,
    }
}

pub fn storage_settings(d: &ProjectData) -> (r: StorageSettings)
    ensures
        r == storage_settings_spec(*d),
        r.power_cap == (given_or(d.storage.charge_max, 0u64), given_or(d.storage.discharge_max, 0u64)),
        r.energy_cap == (given_or(d.storage.energy_min, 0u64), given_or(d.storage.energy_max, 0u64)),
        r.efficiency == (efficiency_sent(d.storage.charge_eff), efficiency_sent(
            d.storage.discharge_eff,
        )),
        r.cycle_max == given_or(d.storage.cycle_max, 0x3ff0000000000000u64),
        r.energy_init == d.storage.energy_init,
{
    StorageSettings {
        power_cap: (d.storage.charge_max.unwrap_or(ZERO_BITS), d.storage.discharge_max.unwrap_or(
            ZERO_BITS,
        )),
        energy_cap: (d.storage.energy_min.unwrap_or(ZERO_BITS), d.storage.energy_max.unwrap_or(
            ZERO_BITS,
        )),
        efficiency: (effective_eff(d.storage.charge_eff), effective_eff(d.storage.discharge_eff)),
        cycle_max: d.storage.cycle_max.unwrap_or(ONE_BITS),
        energy_init: d.storage.energy_init,
    }
}

/// The grid export and import limits sent to the engine; unset ones are zero.
pub open spec fn grid_power_cap(d: ProjectData) -> (u64, u64) {
    (or_bits(d.grid.export_max, ZERO_BITS), or_bits(d.grid.import_max, ZERO_BITS))
}

/// The time horizon: two periods of 1.0 when unset.
pub open spec fn period_or_default(d: ProjectData) -> i64 {
    match d.time_period {
        Some(p) => p,
        None => 2,
    }
}

pub open spec fn step_or_default(d: ProjectData) -> u64 {
    or_bits(d.time_step, ONE_BITS)
}

/// The length of the price series: the period, or zero when negative.
pub open spec fn price_periods(d: ProjectData) -> usize {
    if period_or_default(d) <= 0 {
        0
    } else {
        period_or_default(d) as usize
    }
}

/// Prices matter only when the objective is cost.
pub open spec fn wants_cost(d: ProjectData) -> bool {
    d.objective matches Some(o) && o@ == "cost"@
}

pub open spec fn profile_or_empty(v: Option<Vec<u64>>) -> Seq<u64> {
    match v {
        Some(v) => v@,
        None => seq![],
    }
}

/// A series of `n` copies of `x`.
pub open spec fn constant_series(n: nat, x: u64) -> Seq<u64> {
    Seq::new(n, |_i: int| x)
}

/// The export and import prices used when no tariff model answers.
pub open spec fn flat_prices(n: nat) -> (Seq<u64>, Seq<u64>) {
    (constant_series(n, FLAT_EXPORT_PRICE_BITS), constant_series(n, FLAT_IMPORT_PRICE_BITS))
}

pub open spec fn prices_view(p: Option<(Vec<u64>, Vec<u64>)>) -> Option<(Seq<u64>, Seq<u64>)> {
    match p {
        Some((e, i)) => Some((e@, i@)),
        None => None,
    }
}

fn constant_vec(n: usize, x: u64) -> (r: Vec<u64>)
    ensures
        r@ == constant_series(n as nat, x),
{
    let mut v: Vec<u64> = Vec::new();
    let mut k: usize = 0;
    while k < n
        invariant
            k <= n,
            v@ == constant_series(k as nat, x),
        decreases n - k,
    {
        v.push(x);
        k = k + 1;
        assert(v@ =~= constant_series(k as nat, x));
    }
    v
}

// ---------------------------------------------------------------------
// The protocol
// ---------------------------------------------------------------------
/// Where a solve run stands.
#[derive(Debug, Clone, Copy, PartialEq, Eq, Structural)]
pub enum SolveStage {
    Start,
    CreatingSession,
    SettingTime,
    SettingConsumption,
    SettingProduction,
    SettingStorage,
    ComputingTariff,
    SettingGrid,
    Solving,
    Closing,
    Finished,
}

/// The next call to make.
#[derive(Debug)]
pub enum EngineCall {
    /// `POST /sessions` with the topology.
    CreateSession(Topology),
    /// `POST <path>` with the time horizon.
    SetTime { path: String, period: i64, step: u64 },
    /// `POST <path>` with a consumption or production profile.
    SetProfile { path: String, values: Vec<u64> },
    /// `POST <path>` with the battery settings.
    SetStorage { path: String, settings: StorageSettings },
    /// `POST <path>` asking the market's tariff model for prices over
    /// `periods` zero spot prices.
    ComputeTariff { path: String, periods: usize },
    /// `POST <path>` with the grid limits and, for a cost objective, the
    /// export and import prices.
    SetGrid { path: String, power_cap: (u64, u64), energy_cost: Option<(Vec<u64>, Vec<u64>)> },
    /// `POST <path>` to solve.
    Solve { path: String },
    /// `DELETE <path>`, a best-effort cleanup whose outcome does not matter.
    CloseSession { path: String },
    /// The run is over: read the solve reply on success.
    Finish(Result<(), EngineError>),
}

/// The engine's answer to the previous call.
#[derive(Debug)]
pub enum EngineReply {
    /// The run has not made a call yet.
    Nothing,
    /// The call succeeded.
    Done,
    /// A session was created; the id it returned, if any.
    SessionCreated(Option<String>),
    /// What the tariff model answered, when it answered with prices.
    TariffComputed(Option<(Vec<u64>, Vec<u64>)>),
    /// The call failed.
    Failed(EngineError),
}

pub open spec fn session_path(session: Seq<char>, suffix: Seq<char>) -> Seq<char> {
    "/sessions/"@ + session + suffix
}

pub open spec fn tariff_path(key: Seq<char>) -> Seq<char> {
    "/tariffs/"@ + key + "/compute"@
}

fn make_session_path(session: &String, suffix: &str) -> (r: String)
    ensures
        r@ == session_path(session@, suffix@),
{
    let mut r = String::from_str("/sessions/");
    r.append(session.as_str());
    r.append(suffix);
    r
}

/// One run of the solve protocol for a configuration.
pub struct SolveRun {
    pub data: ProjectData,
    /// The tariff model of the project's market, if one is assigned.
    pub tariff_key: Option<String>,
    pub session: Option<String>,
    pub stage: SolveStage,
    /// How the run ends; meaningful from `Closing` on.
    pub outcome: Result<(), EngineError>,
}

/// The first input to send at or after consumption.
pub open spec fn from_consumption(d: ProjectData, has_key: bool) -> SolveStage {
    if d.consumption_enabled {
        SolveStage::SettingConsumption
    } else {
        from_production(d, has_key)
    }
}

pub open spec fn from_production(d: ProjectData, has_key: bool) -> SolveStage {
    if d.production_enabled {
        SolveStage::SettingProduction
    } else {
        from_storage(d, has_key)
    }
}

pub open spec fn from_storage(d: ProjectData, has_key: bool) -> SolveStage {
    if d.storage_enabled {
        SolveStage::SettingStorage
    } else {
        from_tariff(d, has_key)
    }
}

/// The real tariff is asked for only for a cost objective with a market.
pub open spec fn from_tariff(d: ProjectData, has_key: bool) -> SolveStage {
    if wants_cost(d) && has_key {
        SolveStage::ComputingTariff
    } else {
        SolveStage::SettingGrid
    }
}

/// The stage after a successful one: time, then each enabled component's
/// inputs in the order consumption, production, storage, then the tariff
/// when one is asked for, the grid, and the solve.
pub open spec fn stage_after(d: ProjectData, has_key: bool, s: SolveStage) -> SolveStage {
    match s {
        SolveStage::CreatingSession => SolveStage::SettingTime,
        SolveStage::SettingTime => from_consumption(d, has_key),
        SolveStage::SettingConsumption => from_production(d, has_key),
        SolveStage::SettingProduction => from_storage(d, has_key),
        SolveStage::SettingStorage => from_tariff(d, has_key),
        SolveStage::ComputingTariff => SolveStage::SettingGrid,
        SolveStage::SettingGrid => SolveStage::Solving,
        _ => SolveStage::Closing,
    }
}

/// How far along a run a stage is: the stages in the order a run passes
/// through them.
pub open spec fn stage_rank(s: SolveStage) -> nat {
    match s {
        SolveStage::Start => 0,
        SolveStage::CreatingSession => 1,
        SolveStage::SettingTime => 2,
        SolveStage::SettingConsumption => 3,
        SolveStage::SettingProduction => 4,
        SolveStage::SettingStorage => 5,
        SolveStage::ComputingTariff => 6,
        SolveStage::SettingGrid => 7,
        SolveStage::Solving => 8,
        SolveStage::Closing => 9,
        SolveStage::Finished => 10,
    }
}

/// Stages during which a session is open on the engine.
pub open spec fn session_open_in(s: SolveStage) -> bool {
    match s {
        SolveStage::SettingTime | SolveStage::SettingConsumption | SolveStage::SettingProduction
        | SolveStage::SettingStorage | SolveStage::ComputingTariff | SolveStage::SettingGrid
        | SolveStage::Solving | SolveStage::Closing => true,
        _ => false,
    }
}

/// The prices sent with the grid for a cost objective: the tariff model's
/// when it answered, else the flat provisional ones.
pub open spec fn prices_for(d: ProjectData, tariff: Option<(Seq<u64>, Seq<u64>)>) -> Option<
    (Seq<u64>, Seq<u64>),
> {
    if wants_cost(d) {
        match tariff {
            Some(p) => Some(p),
            None => Some(flat_prices(price_periods(d) as nat)),
        }
    } else {
        None
    }
}

/// `call` is the request that starts `stage` of a run on `d` in session
/// `session`, with `prices` as the grid's prices.
pub open spec fn issues(
    call: EngineCall,
    stage: SolveStage,
    d: ProjectData,
    key: Option<String>,
    session: Seq<char>,
    prices: Option<(Seq<u64>, Seq<u64>)>,
) -> bool {
    match stage {
        SolveStage::SettingTime => call matches EngineCall::SetTime { path, period, step } && path@
            == session_path(session, "/time"@) && period == period_or_default(d) && step
            == step_or_default(d),
        SolveStage::SettingConsumption => call matches EngineCall::SetProfile { path, values }
            && path@ == session_path(session, "/consumption"@) && values@ == profile_or_empty(
            d.consumption_values,
        ),
        SolveStage::SettingProduction => call matches EngineCall::SetProfile { path, values }
            && path@ == session_path(session, "/production"@) && values@ == profile_or_empty(
            d.production_values,
        ),
        SolveStage::SettingStorage => call matches EngineCall::SetStorage { path, settings }
            && path@ == session_path(session, "/storage"@) && settings == storage_settings_spec(d),
        SolveStage::ComputingTariff => call matches EngineCall::ComputeTariff { path, periods }
            && key matches Some(k) && path@ == tariff_path(k@) && periods == price_periods(d),
        SolveStage::SettingGrid => call matches EngineCall::SetGrid {
            path,
            power_cap,
            energy_cost,
        } && path@ == session_path(session, "/grid"@) && power_cap == grid_power_cap(d)
            && prices_view(energy_cost) == prices,
        SolveStage::Solving => call matches EngineCall::Solve { path } && path@ == session_path(
            session,
            "/solve"@,
        ),
        _ => false,
    }
}

/// `call` closes the session `session`.
pub open spec fn closes_session(call: EngineCall, session: Seq<char>) -> bool {
    call matches EngineCall::CloseSession { path } && path@ == "/sessions/"@ + session
}

/// `call` opens a session with the topology of `d`.
pub open spec fn opens_session_for(call: EngineCall, d: ProjectData) -> bool {
    call matches EngineCall::CreateSession(t) && {
        &&& t.objective@ == objective_or_cost(d)
        &&& t.consumption == d.consumption_enabled
        &&& t.production == d.production_enabled
        &&& t.storage == d.storage_enabled
        &&& t.connection_config == d.connections
    }
}

/// `call` ends the run because the engine returned no session id.
pub open spec fn ends_without_session_id(call: EngineCall) -> bool {
    call matches EngineCall::Finish(Err(EngineError::Api { status, detail })) && {
        &&& status == 500
        &&& detail@ == "el motor no devolvio session_id"@
    }
}

pub open spec fn session_text(s: Option<String>) -> Seq<char> {
    match s {
        Some(t) => t@,
        None => seq![],
    }
}

impl SolveRun {
    /// A run for `data`, using the tariff model `tariff_key` when the
    /// project's market has one.
    pub fn new(data: ProjectData, tariff_key: Option<String>) -> (r: SolveRun)
        ensures
            r.data == data,
            r.tariff_key == tariff_key,
            r.session is None,
            r.stage == SolveStage::Start,
            r.wf(),
    {
        SolveRun { data, tariff_key, session: None, stage: SolveStage::Start, outcome: Ok(()) }
    }

    /// A session id is held exactly while a session is open, and the
    /// tariff is only asked for when there is a tariff model.
    pub open spec fn wf(self) -> bool {
        &&& session_open_in(self.stage) <==> self.session is Some
        &&& self.stage == SolveStage::ComputingTariff ==> self.tariff_key is Some
    }

    fn topology(&self) -> (r: Topology)
        ensures
            r.objective@ == objective_or_cost(self.data),
            r.consumption == self.data.consumption_enabled,
            r.production == self.data.production_enabled,
            r.storage == self.data.storage_enabled,
            r.connection_config == self.data.connections,
    {
        let objective = match &self.data.objective {
            Some(o) => o.clone(),
            None => String::from_str("cost"),
        };
        Topology {
            objective,
            consumption: self.data.consumption_enabled,
            production: self.data.production_enabled,
            storage: self.data.storage_enabled,
            connection_config: self.data.connections,
        }
    }

    fn wants_cost_exec(&self) -> (r: bool)
        ensures
            r == wants_cost(self.data),
    {
        match &self.data.objective {
            Some(o) => *o == String::from_str("cost"),
            None => false,
        }
    }

    fn price_periods_exec(&self) -> (r: usize)
        ensures
            r == price_periods(self.data),
    {
        let period = match self.data.time_period {
            Some(p) => p,
            None => 2,
        };
        if period <= 0 {
            0
        } else {
            period as usize
        }
    }

    /// The first stage at or after `s` among the optional inputs.
    fn first_from(&self, s: SolveStage) -> (r: SolveStage)
        requires
            s == SolveStage::SettingConsumption || s == SolveStage::SettingProduction || s
                == SolveStage::SettingStorage || s == SolveStage::ComputingTariff,
        ensures
            r == match s {
                SolveStage::SettingConsumption => from_consumption(
                    self.data,
                    self.tariff_key is Some,
                ),
                SolveStage::SettingProduction => from_production(
                    self.data,
                    self.tariff_key is Some,
                ),
                SolveStage::SettingStorage => from_storage(self.data, self.tariff_key is Some),
                _ => from_tariff(self.data, self.tariff_key is Some),
            },
    {
        let cost_with_market = self.wants_cost_exec() && self.tariff_key.is_some();
        let after_storage = if cost_with_market {
            SolveStage::ComputingTariff
        } else {
            SolveStage::SettingGrid
        };
        if s == SolveStage::ComputingTariff {
            return after_storage;
        }
        let after_production = if self.data.storage_enabled {
            SolveStage::SettingStorage
        } else {
            after_storage
        };
        if s == SolveStage::SettingStorage {
            return after_production;
        }
        let after_consumption = if self.data.production_enabled {
            SolveStage::SettingProduction
        } else {
            after_production
        };
        if s == SolveStage::SettingProduction {
            return after_consumption;
        }
        if self.data.consumption_enabled {
            SolveStage::SettingConsumption
        } else {
            after_consumption
        }
    }

    /// The request that starts `stage`.
    fn call_for(&self, stage: SolveStage, prices: Option<(Vec<u64>, Vec<u64>)>) -> (r: EngineCall)
        requires
            self.session is Some,
            stage == SolveStage::SettingTime || stage == SolveStage::SettingConsumption || stage
                == SolveStage::SettingProduction || stage == SolveStage::SettingStorage || (stage
                == SolveStage::ComputingTariff && self.tariff_key is Some) || stage
                == SolveStage::SettingGrid || stage == SolveStage::Solving,
        ensures
            issues(
                r,
                stage,
                self.data,
                self.tariff_key,
                session_text(self.session),
                prices_view(prices),
            ),
    {
        let session = match &self.session {
            Some(s) => s,
            None => {
                assert(false);
                return EngineCall::Finish(Ok(()));
            },
        };
        match stage {
            SolveStage::SettingTime => EngineCall::SetTime {
                path: make_session_path(session, "/time"),
                period: match self.data.time_period {
                    Some(p) => p,
                    None => 2,
                },
                step: self.data.time_step.unwrap_or(ONE_BITS),
            },
            SolveStage::SettingConsumption => EngineCall::SetProfile {
                path: make_session_path(session, "/consumption"),
                values: match &self.data.consumption_values {
                    Some(v) => v.clone(),
                    None => Vec::new(),
                },
            },
            SolveStage::SettingProduction => EngineCall::SetProfile {
                path: make_session_path(session, "/production"),
                values: match &self.data.production_values {
                    Some(v) => v.clone(),
                    None => Vec::new(),
                },
            },
            SolveStage::SettingStorage => EngineCall::SetStorage {
                path: make_session_path(session, "/storage"),
                settings: storage_settings(&self.data),
            },
            SolveStage::ComputingTariff => {
                let key = match &self.tariff_key {
                    Some(k) => k,
                    None => {
                        assert(false);
                        return EngineCall::Finish(Ok(()));
                    },
                };
                let mut path = String::from_str("/tariffs/");
                path.append(key.as_str());
                path.append("/compute");
                EngineCall::ComputeTariff { path, periods: self.price_periods_exec() }
            },
            SolveStage::SettingGrid => EngineCall::SetGrid {
                path: make_session_path(session, "/grid"),
                power_cap: (
                    self.data.grid.export_max.unwrap_or(ZERO_BITS),
                    self.data.grid.import_max.unwrap_or(ZERO_BITS),
                ),
                energy_cost: prices,
            },
            _ => EngineCall::Solve { path: make_session_path(session, "/solve") },
        }
    }

    /// The grid's prices, given what the tariff model answered.
    fn prices(&self, tariff: Option<(Vec<u64>, Vec<u64>)>) -> (r: Option<(Vec<u64>, Vec<u64>)>)
        ensures
            prices_view(r) == prices_for(self.data, prices_view(tariff)),
    {
        if self.wants_cost_exec() {
            match tariff {
                Some(p) => Some(p),
                None => {
                    let n = self.price_periods_exec();
                    Some((constant_vec(n, FLAT_EXPORT_PRICE_BITS), constant_vec(n, FLAT_IMPORT_PRICE_BITS)))
                },
            }
        } else {
            None
        }
    }

    /// Moves on to `stage` after a success, issuing its request.
    fn advance(&mut self, stage: SolveStage, prices: Option<(Vec<u64>, Vec<u64>)>) -> (r:
        EngineCall)
        requires
            old(self).session is Some,
            stage == SolveStage::SettingTime || stage == SolveStage::SettingConsumption || stage
                == SolveStage::SettingProduction || stage == SolveStage::SettingStorage || stage
                == SolveStage::ComputingTariff || stage == SolveStage::SettingGrid || stage
                == SolveStage::Solving,
            stage == SolveStage::ComputingTariff ==> old(self).tariff_key is Some,
        ensures
            final(self).stage == stage,
            final(self).data == old(self).data,
            final(self).tariff_key == old(self).tariff_key,
            final(self).session == old(self).session,
            issues(
                r,
                stage,
                final(self).data,
                final(self).tariff_key,
                session_text(final(self).session),
                prices_view(prices),
            ),
    {
        self.stage = stage;
        self.call_for(stage, prices)
    }

    /// Ends the run with `outcome`: closes the session first when one is
    /// open.
    fn close(&mut self, outcome: Result<(), EngineError>) -> (r: EngineCall)
        ensures
            final(self).data == old(self).data,
            final(self).tariff_key == old(self).tariff_key,
            final(self).outcome == outcome,
            match old(self).session {
                Some(s) => final(self).stage == SolveStage::Closing && final(self).session
                    == old(self).session && closes_session(r, s@),
                None => final(self).stage == SolveStage::Finished && final(self).session is None
                    && r == EngineCall::Finish(outcome),
            },
    {
        match &self.session {
            Some(s) => {
                let path = concat_text("/sessions/", s.as_str());
                self.stage = SolveStage::Closing;
                self.outcome = outcome;
                EngineCall::CloseSession { path }
            },
            None => {
                let copy = copy_outcome(&outcome);
                self.stage = SolveStage::Finished;
                self.outcome = outcome;
                EngineCall::Finish(copy)
            },
        }
    }

    /// Takes the engine's reply to the previous call and gives the next
    /// call.
    ///
    /// The run opens a session with the topology; sets the time horizon;
    /// sends the consumption, production and storage inputs of the enabled
    /// components, in that order; for a cost objective with a market, asks
    /// the market's tariff model for prices (any failure there falls back
    /// to the flat provisional prices); sets the grid; and solves. A failed
    /// call ends the run with that failure, and whatever the outcome, an
    /// open session is closed before the run finishes. After a successful
    /// solve the caller reads the solve reply; a reply it cannot read is
    /// reported as `Failed(unexpected_solve_reply(..))`.
    pub fn next(&mut self, reply: EngineReply) -> (call: EngineCall)
        requires
            old(self).wf(),
        ensures
            final(self).wf(),
            // Every reply moves an unfinished run forward, so a run ends
            // after at most ten calls.
            old(self).stage != SolveStage::Finished ==> stage_rank(final(self).stage) > stage_rank(
                old(self).stage,
            ),
            // A run never finishes while a session is open: only closing
            // the session leads to the end.
            session_open_in(old(self).stage) && old(self).stage != SolveStage::Closing ==> !(
            call is Finish),
            call is Finish ==> final(self).stage == SolveStage::Finished && final(self).session
                is None,
            // Entering `Closing`, the run closes the session it held.
            final(self).stage == SolveStage::Closing && old(self).stage != SolveStage::Closing
                ==> closes_session(call, session_text(old(self).session)),
            final(self).data == old(self).data,
            final(self).tariff_key == old(self).tariff_key,
            old(self).stage == SolveStage::Start ==> final(self).stage
                == SolveStage::CreatingSession && opens_session_for(call, final(self).data),
            old(self).stage == SolveStage::CreatingSession ==> match reply {
                EngineReply::SessionCreated(Some(id)) => final(self).session == Some(id) && final(self).stage == SolveStage::SettingTime && issues(
                    call,
                    SolveStage::SettingTime,
                    final(self).data,
                    final(self).tariff_key,
                    id@,
                    None,
                ),
                EngineReply::Failed(e) => final(self).stage == SolveStage::Finished && call
                    == EngineCall::Finish(Err(e)) && final(self).outcome == Err::<(), EngineError>(
                    e,
                ),
                _ => final(self).stage == SolveStage::Finished && ends_without_session_id(call)
                    && call == EngineCall::Finish(final(self).outcome),
            },
            session_open_in(old(self).stage) && old(self).stage != SolveStage::Closing
                ==> final(self).session == old(self).session,
            session_open_in(old(self).stage) && old(self).stage != SolveStage::Closing && !(
            old(self).stage == SolveStage::ComputingTariff) ==> match reply {
                EngineReply::Failed(e) => final(self).stage == SolveStage::Closing && final(self).outcome == Err::<(), EngineError>(e) && closes_session(
                    call,
                    session_text(old(self).session),
                ),
                _ => if old(self).stage == SolveStage::Solving {
                    final(self).stage == SolveStage::Closing && final(self).outcome == Ok::<
                        (),
                        EngineError,
                    >(()) && closes_session(call, session_text(old(self).session))
                } else {
                    final(self).stage == stage_after(
                        old(self).data,
                        old(self).tariff_key is Some,
                        old(self).stage,
                    ) && issues(
                        call,
                        final(self).stage,
                        final(self).data,
                        final(self).tariff_key,
                        session_text(old(self).session),
                        prices_for(final(self).data, None),
                    )
                },
            },
            old(self).stage == SolveStage::ComputingTariff ==> final(self).stage
                == SolveStage::SettingGrid && issues(
                call,
                SolveStage::SettingGrid,
                final(self).data,
                final(self).tariff_key,
                session_text(old(self).session),
                prices_for(
                    final(self).data,
                    match reply {
                        EngineReply::TariffComputed(t) => prices_view(t),
                        _ => None,
                    },
                ),
            ),
            old(self).stage == SolveStage::Closing || old(self).stage == SolveStage::Finished
                ==> final(self).stage == SolveStage::Finished && final(self).session is None
                && call == EngineCall::Finish(old(self).outcome) && final(self).outcome
                == old(self).outcome,
    {
        match self.stage {
            SolveStage::Start => {
                self.stage = SolveStage::CreatingSession;
                EngineCall::CreateSession(self.topology())
            },
            SolveStage::CreatingSession => match reply {
                EngineReply::SessionCreated(Some(id)) => {
                    self.session = Some(id);
                    self.advance(SolveStage::SettingTime, None)
                },
                EngineReply::Failed(e) => self.close(Err(e)),
                _ => self.close(
                    Err(
                        EngineError::Api {
                            status: 500,
                            detail: String::from_str("el motor no devolvio session_id"),
                        },
                    ),
                ),
            },
            SolveStage::Closing | SolveStage::Finished => {
                let copy = copy_outcome(&self.outcome);
                self.stage = SolveStage::Finished;
                self.session = None;
                EngineCall::Finish(copy)
            },
            SolveStage::ComputingTariff => {
                let tariff = match reply {
                    EngineReply::TariffComputed(t) => t,
                    _ => None,
                };
                let prices = self.prices(tariff);
                self.advance(SolveStage::SettingGrid, prices)
            },
            SolveStage::Solving => match reply {
                EngineReply::Failed(e) => self.close(Err(e)),
                _ => self.close(Ok(())),
            },
            stage => match reply {
                EngineReply::Failed(e) => self.close(Err(e)),
                _ => {
                    let next = match stage {
                        SolveStage::SettingTime => self.first_from(SolveStage::SettingConsumption),
                        SolveStage::SettingConsumption => self.first_from(
                            SolveStage::SettingProduction,
                        ),
                        SolveStage::SettingProduction => self.first_from(
                            SolveStage::SettingStorage,
                        ),
                        SolveStage::SettingStorage => self.first_from(SolveStage::ComputingTariff),
                        _ => SolveStage::Solving,
                    };
                    let prices = if next == SolveStage::SettingGrid {
                        self.prices(None)
                    } else {
                        None
                    };
                    self.advance(next, prices)
                },
            },
        }
    }
}

/// A configured number, or `otherwise` when it is unset.
pub open spec fn given_or(v: Option<u64>, otherwise: u64) -> u64 {
    match v {
        Some(x) => x,
        None => otherwise,
    }
}

/// An efficiency as sent: the configured one, except that an unset one, or
/// one left at 0.0 or -0.0, is sent as 1.0.
pub open spec fn efficiency_sent(v: Option<u64>) -> u64 {
    match v {
        Some(x) => if x != 0u64 && x != 0x8000000000000000u64 {
            x
        } else {
            0x3ff0000000000000u64
        },
        None => 0x3ff0000000000000u64,
    }
}

/// The battery request of a run: posted to the session's `/storage`, with
/// the charge then the discharge power limit, the minimum then the maximum
/// energy (each 0.0 when unset), the charge then the discharge efficiency
/// (1.0 when unset or zero), the cycle maximum (1.0 when unset) and the
/// initial energy as configured.
pub proof fn lemma_storage_call_by_field(
    call: EngineCall,
    d: ProjectData,
    key: Option<String>,
    session: Seq<char>,
    prices: Option<(Seq<u64>, Seq<u64>)>,
)
    requires
        issues(call, SolveStage::SettingStorage, d, key, session, prices),
    ensures
        match call {
            EngineCall::SetStorage { path, settings } => {
                &&& path@ == "/sessions/"@ + session + "/storage"@
                &&& settings.power_cap.0 == given_or(d.storage.charge_max, 0u64)
                &&& settings.power_cap.1 == given_or(d.storage.discharge_max, 0u64)
                &&& settings.energy_cap.0 == given_or(d.storage.energy_min, 0u64)
                &&& settings.energy_cap.1 == given_or(d.storage.energy_max, 0u64)
                &&& settings.efficiency.0 == efficiency_sent(d.storage.charge_eff)
                &&& settings.efficiency.1 == efficiency_sent(d.storage.discharge_eff)
                &&& settings.cycle_max == given_or(d.storage.cycle_max, 0x3ff0000000000000u64)
                &&& settings.energy_init == d.storage.energy_init
            },
            _ => false,
        },
{
}

/// The requests of a run, field by field: the time horizon (two periods of
/// 1.0 when unset) to the session's `/time`; the consumption and the
/// production profile (empty when unset) to `/consumption` and
/// `/production`; the market's tariff model at `/tariffs/<key>/compute`
/// over as many periods as the horizon has (none when it is not
/// positive); the grid's export then import limit (each 0.0 when unset)
/// with the prices to `/grid`; and the solve to `/solve`.
pub proof fn lemma_session_calls_by_field(
    call: EngineCall,
    stage: SolveStage,
    d: ProjectData,
    key: Option<String>,
    session: Seq<char>,
    prices: Option<(Seq<u64>, Seq<u64>)>,
)
    requires
        issues(call, stage, d, key, session, prices),
    ensures
        stage == SolveStage::SettingTime ==> match call {
            EngineCall::SetTime { path, period, step } => path@ == "/sessions/"@ + session
                + "/time"@ && period == (match d.time_period {
                Some(p) => p,
                None => 2i64,
            }) && step == given_or(d.time_step, 0x3ff0000000000000u64),
            _ => false,
        },
        stage == SolveStage::SettingConsumption ==> match call {
            EngineCall::SetProfile { path, values } => path@ == "/sessions/"@ + session
                + "/consumption"@ && values@ == (match d.consumption_values {
                Some(v) => v@,
                None => Seq::<u64>::empty(),
            }),
            _ => false,
        },
        stage == SolveStage::SettingProduction ==> match call {
            EngineCall::SetProfile { path, values } => path@ == "/sessions/"@ + session
                + "/production"@ && values@ == (match d.production_values {
                Some(v) => v@,
                None => Seq::<u64>::empty(),
            }),
            _ => false,
        },
        stage == SolveStage::ComputingTariff ==> match (call, key) {
            (EngineCall::ComputeTariff { path, periods }, Some(k)) => {
                let n: int = match d.time_period {
                    Some(p) => if p > 0 {
                        p as int
                    } else {
                        0
                    },
                    None => 2,
                };
                &&& path@ == "/tariffs/"@ + k@ + "/compute"@
                &&& n <= usize::MAX ==> periods as int == n
            },
            _ => false,
        },
        stage == SolveStage::SettingGrid ==> match call {
            EngineCall::SetGrid { path, power_cap, energy_cost } => path@ == "/sessions/"@
                + session + "/grid"@ && power_cap == (
                given_or(d.grid.export_max, 0u64),
                given_or(d.grid.import_max, 0u64),
            ) && prices_view(energy_cost) == prices,
            _ => false,
        },
        stage == SolveStage::Solving ==> match call {
            EngineCall::Solve { path } => path@ == "/sessions/"@ + session + "/solve"@,
            _ => false,
        },
{
}

/// The prices sent with the grid: none unless the objective is `cost`;
/// for `cost`, the tariff model's answer when it gave one, else a flat
/// export price of -0.05 and import price of 0.20 for every period of the
/// horizon.
pub proof fn lemma_grid_prices(d: ProjectData, tariff: Option<(Seq<u64>, Seq<u64>)>)
    ensures
        !(d.objective matches Some(o) && o@ == "cost"@) ==> prices_for(d, tariff) is None,
        (d.objective matches Some(o) && o@ == "cost"@) && tariff is Some ==> prices_for(d, tariff)
            == tariff,
        (d.objective matches Some(o) && o@ == "cost"@) && tariff is None ==> match prices_for(
            d,
            tariff,
        ) {
            Some((e, i)) => e.len() == price_periods(d) && i.len() == price_periods(d) && (forall|
                k: int,
            |
                0 <= k < e.len() ==> e[k] == 0xbfa999999999999au64) && (forall|k: int|
                0 <= k < i.len() ==> i[k] == 0x3fc999999999999au64),
            None => false,
        },
{
}

/// A session is opened with the configured objective (`cost` when none is
/// chosen), the enabled components and the allowed connections.
pub proof fn lemma_session_opened_with_topology(call: EngineCall, d: ProjectData)
    requires
        opens_session_for(call, d),
    ensures
        match call {
            EngineCall::CreateSession(t) => {
                &&& t.objective@ == (match d.objective {
                    Some(o) => o@,
                    None => "cost"@,
                })
                &&& t.consumption == d.consumption_enabled
                &&& t.production == d.production_enabled
                &&& t.storage == d.storage_enabled
                &&& t.connection_config == d.connections
            },
            _ => false,
        },
{
}

/// Whether a run on `d` (with a tariff model when `has_key`) has the step
/// `s`: the consumption, production and storage inputs only for enabled
/// components, the tariff only for a `cost` objective with a tariff model,
/// every other step always.
pub open spec fn step_applies(d: ProjectData, has_key: bool, s: SolveStage) -> bool {
    match s {
        SolveStage::SettingConsumption => d.consumption_enabled,
        SolveStage::SettingProduction => d.production_enabled,
        SolveStage::SettingStorage => d.storage_enabled,
        SolveStage::ComputingTariff => match d.objective {
            Some(o) => has_key && o@ == "cost"@,
            None => false,
        },
        _ => true,
    }
}

/// After each successful step from the time horizon to the grid, the run
/// goes on to the next step, in the run's order, that the configuration
/// has: it skips exactly the steps it does not have, and never goes past
/// the solve.
pub proof fn lemma_next_step_is_next_applicable(d: ProjectData, has_key: bool, s: SolveStage)
    requires
        2 <= stage_rank(s) <= 7,
    ensures
        stage_rank(s) < stage_rank(stage_after(d, has_key, s)) <= 8,
        step_applies(d, has_key, stage_after(d, has_key, s)),
        forall|t: SolveStage|
            stage_rank(s) < #[trigger] stage_rank(t) < stage_rank(stage_after(d, has_key, s))
                ==> !step_applies(d, has_key, t),
{
    assert(wants_cost(d) == match d.objective {
        Some(o) => o@ == "cost"@,
        None => false,
    });
    assert forall|t: SolveStage|
        stage_rank(s) < #[trigger] stage_rank(t) < stage_rank(stage_after(d, has_key, s))
            implies !step_applies(d, has_key, t) by {
        match t {
            SolveStage::Start => {},
            SolveStage::CreatingSession => {},
            SolveStage::SettingTime => {},
            SolveStage::SettingConsumption => {},
            SolveStage::SettingProduction => {},
            SolveStage::SettingStorage => {},
            SolveStage::ComputingTariff => {},
            SolveStage::SettingGrid => {},
            SolveStage::Solving => {},
            SolveStage::Closing => {},
            SolveStage::Finished => {},
        }
    }
}

} // verus!
