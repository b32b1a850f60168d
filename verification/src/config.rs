//! A project's configuration: system topology and input data, and what is
//! still missing before it can be solved.
//!
//! Numbers are kept as the bit patterns of IEEE-754 binary64 values (the
//! form in which they travel to and from the engine); the rules here only
//! ever ask whether a number is present, never what it is.

use vstd::prelude::*;
use crate::text::{concat_text, join_series, joined, push_char, series_separator};

verus! {

/// Which energy flows between components are allowed.
#[derive(Debug, Clone, Copy, PartialEq, Eq, Structural)]
pub struct ConnectionConfigData {
    pub production_to_consumption: bool,
    pub production_to_grid: bool,
    pub production_to_storage: bool,
    pub grid_to_consumption: bool,
    pub grid_to_storage: bool,
    pub storage_to_consumption: bool,
    pub storage_to_grid: bool,
}

impl ConnectionConfigData {
    /// Every connection enabled.
    pub open spec fn all_enabled() -> Self {
        ConnectionConfigData {
            production_to_consumption: true,
            production_to_grid: true,
            production_to_storage: true,
            grid_to_consumption: true,
            grid_to_storage: true,
            storage_to_consumption: true,
            storage_to_grid: true,
        }
    }
}

impl Default for ConnectionConfigData {
    /// Everything enabled, as the engine's own defaults are.
    fn default() -> (r: Self)
        ensures
            r == ConnectionConfigData::all_enabled(),
    {
        ConnectionConfigData {
            production_to_consumption: true,
            production_to_grid: true,
            production_to_storage: true,
            grid_to_consumption: true,
            grid_to_storage: true,
            storage_to_consumption: true,
            storage_to_grid: true,
        }
    }
}

/// Battery parameters; each may still be unset.
#[derive(Debug, Clone, Copy, PartialEq, Eq, Structural)]
pub struct StorageSpecData {
    pub charge_max: Option<u64>,
    pub discharge_max: Option<u64>,
    pub energy_min: Option<u64>,
    pub energy_max: Option<u64>,
    pub charge_eff: Option<u64>,
    pub discharge_eff: Option<u64>,
    pub cycle_max: Option<u64>,
    pub energy_init: Option<u64>,
}

impl StorageSpecData {
    pub open spec fn unset() -> Self {
        StorageSpecData {
            charge_max: None,
            discharge_max: None,
            energy_min: None,
            energy_max: None,
            charge_eff: None,
            discharge_eff: None,
            cycle_max: None,
            energy_init: None,
        }
    }
}

impl Default for StorageSpecData {
    fn default() -> (r: Self)
        ensures
            r == StorageSpecData::unset(),
    {
        StorageSpecData {
            charge_max: None,
            discharge_max: None,
            energy_min: None,
            energy_max: None,
            charge_eff: None,
            discharge_eff: None,
            cycle_max: None,
            energy_init: None,
        }
    }
}

/// Grid connection limits; each may still be unset.
#[derive(Debug, Clone, Copy, PartialEq, Eq, Structural)]
pub struct GridSpecData {
    pub export_max: Option<u64>,
    pub import_max: Option<u64>,
}

impl GridSpecData {
    pub open spec fn unset() -> Self {
        GridSpecData { export_max: None, import_max: None }
    }
}

impl Default for GridSpecData {
    fn default() -> (r: Self)
        ensures
            r == GridSpecData::unset(),
    {
        GridSpecData { export_max: None, import_max: None }
    }
}

/// The value of a component flag that the stored data leaves out: on.
pub fn default_true() -> (r: bool)
    ensures
        r,
{
    true
}

/// One project's configuration.
#[derive(Debug, Clone)]
pub struct ProjectData {
    /// `"energy"` or `"cost"`.
    pub objective: Option<String>,
    pub consumption_enabled: bool,
    pub production_enabled: bool,
    pub storage_enabled: bool,
    pub connections: ConnectionConfigData,
    pub time_period: Option<i64>,
    pub time_step: Option<u64>,
    pub consumption_values: Option<Vec<u64>>,
    pub production_values: Option<Vec<u64>>,
    pub storage: StorageSpecData,
    pub grid: GridSpecData,
}

/// One thing a configuration needs before it can be solved.
#[derive(Debug, Clone, Copy, PartialEq, Eq, Structural)]
pub enum Requirement {
    Objective,
    TimeHorizon,
    ConsumptionProfile,
    ProductionProfile,
    StoragePower,
    StorageEnergy,
    StorageCycles,
    GridPower,
}

pub open spec fn requirement_message(q: Requirement) -> Seq<char> {
    match q {
        Requirement::Objective => "Elige un objetivo de optimizacion (energia o coste)."@,
        Requirement::TimeHorizon => "Define el horizonte temporal (periodo y paso)."@,
        Requirement::ConsumptionProfile => "Falta el perfil de consumo."@,
        Requirement::ProductionProfile => "Falta el perfil de produccion."@,
        Requirement::StoragePower => "Falta la potencia de carga/descarga de la bateria."@,
        Requirement::StorageEnergy => "Falta la capacidad de energia maxima de la bateria."@,
        Requirement::StorageCycles => "Falta el maximo de ciclos de la bateria."@,
        Requirement::GridPower => "Falta la potencia maxima de importacion/exportacion de red."@,
    }
}

impl Requirement {
    /// The sentence shown to the user for this requirement.
    pub fn message(&self) -> (r: String)
        ensures
            r@ == requirement_message(*self),
    {
        match self {
            Requirement::Objective => String::from_str(
                "Elige un objetivo de optimizacion (energia o coste).",
            ),
            Requirement::TimeHorizon => String::from_str(
                "Define el horizonte temporal (periodo y paso).",
            ),
            Requirement::ConsumptionProfile => String::from_str("Falta el perfil de consumo."),
            Requirement::ProductionProfile => String::from_str("Falta el perfil de produccion."),
            Requirement::StoragePower => String::from_str(
                "Falta la potencia de carga/descarga de la bateria.",
            ),
            Requirement::StorageEnergy => String::from_str(
                "Falta la capacidad de energia maxima de la bateria.",
            ),
            Requirement::StorageCycles => String::from_str(
                "Falta el maximo de ciclos de la bateria.",
            ),
            Requirement::GridPower => String::from_str(
                "Falta la potencia maxima de importacion/exportacion de red.",
            ),
        }
    }
}

/// Appends `q` when `cond` holds.
fn push_if(r: &mut Vec<Requirement>, cond: bool, q: Requirement)
    ensures
        final(r)@ == old(r)@ + needed_if(cond, q),
{
    if cond {
        r.push(q);
    }
    assert(final(r)@ =~= old(r)@ + needed_if(cond, q));
}

/// A profile is missing when it is unset or empty.
pub open spec fn profile_missing(values: Option<Vec<u64>>) -> bool {
    match values {
        None => true,
        Some(v) => v.len() == 0,
    }
}

/// `seq![q]` when `cond` holds, else nothing.
pub open spec fn needed_if(cond: bool, q: Requirement) -> Seq<Requirement> {
    if cond {
        seq![q]
    } else {
        seq![]
    }
}

impl ProjectData {
    /// A configuration nobody has filled in yet.
    pub open spec fn fresh() -> Self {
        ProjectData {
            objective: None,
            consumption_enabled: true,
            production_enabled: true,
            storage_enabled: true,
            connections: ConnectionConfigData::all_enabled(),
            time_period: None,
            time_step: None,
            consumption_values: None,
            production_values: None,
            storage: StorageSpecData::unset(),
            grid: GridSpecData::unset(),
        }
    }

    pub open spec fn with_consumption_off(self) -> Self {
        ProjectData { consumption_enabled: false, ..self }
    }

    pub open spec fn with_production_off(self) -> Self {
        ProjectData { production_enabled: false, ..self }
    }

    pub open spec fn with_storage_off(self) -> Self {
        ProjectData { storage_enabled: false, ..self }
    }

    pub open spec fn objective_missing(self) -> bool {
        self.objective is None
    }

    pub open spec fn time_missing(self) -> bool {
        self.time_period is None || self.time_step is None
    }

    pub open spec fn consumption_missing(self) -> bool {
        self.consumption_enabled && profile_missing(self.consumption_values)
    }

    pub open spec fn production_missing(self) -> bool {
        self.production_enabled && profile_missing(self.production_values)
    }

    pub open spec fn storage_power_missing(self) -> bool {
        self.storage_enabled && (self.storage.charge_max is None || self.storage.discharge_max
            is None)
    }

    pub open spec fn storage_energy_missing(self) -> bool {
        self.storage_enabled && self.storage.energy_max is None
    }

    pub open spec fn storage_cycles_missing(self) -> bool {
        self.storage_enabled && self.storage.cycle_max is None
    }

    pub open spec fn grid_missing(self) -> bool {
        self.grid.export_max is None || self.grid.import_max is None
    }

    /// What the configuration still lacks, in the order it is reported.
    pub open spec fn missing_requirements(self) -> Seq<Requirement> {
        needed_if(self.objective_missing(), Requirement::Objective) + needed_if(
            self.time_missing(),
            Requirement::TimeHorizon,
        ) + needed_if(self.consumption_missing(), Requirement::ConsumptionProfile) + needed_if(
            self.production_missing(),
            Requirement::ProductionProfile,
        ) + needed_if(self.storage_power_missing(), Requirement::StoragePower) + needed_if(
            self.storage_energy_missing(),
            Requirement::StorageEnergy,
        ) + needed_if(self.storage_cycles_missing(), Requirement::StorageCycles) + needed_if(
            self.grid_missing(),
            Requirement::GridPower,
        )
    }

    /// Nothing is missing: an objective, a time horizon, every enabled
    /// component's inputs, and both grid limits are all given.
    pub open spec fn is_complete(self) -> bool {
        &&& !self.objective_missing()
        &&& !self.time_missing()
        &&& !self.consumption_missing()
        &&& !self.production_missing()
        &&& !self.storage_power_missing()
        &&& !self.storage_energy_missing()
        &&& !self.storage_cycles_missing()
        &&& !self.grid_missing()
    }

    /// Nothing is reported missing exactly when the configuration is complete.
    pub proof fn lemma_nothing_missing_iff_complete(self)
        ensures
            self.missing_requirements().len() == 0 <==> self.is_complete(),
    {
        let a1 = needed_if(self.objective_missing(), Requirement::Objective);
        let a2 = needed_if(self.time_missing(), Requirement::TimeHorizon);
        let a3 = needed_if(self.consumption_missing(), Requirement::ConsumptionProfile);
        let a4 = needed_if(self.production_missing(), Requirement::ProductionProfile);
        let a5 = needed_if(self.storage_power_missing(), Requirement::StoragePower);
        let a6 = needed_if(self.storage_energy_missing(), Requirement::StorageEnergy);
        let a7 = needed_if(self.storage_cycles_missing(), Requirement::StorageCycles);
        let a8 = needed_if(self.grid_missing(), Requirement::GridPower);
        assert(self.missing_requirements().len() == a1.len() + a2.len() + a3.len() + a4.len()
            + a5.len() + a6.len() + a7.len() + a8.len());
    }

    /// The requirements still open, as the kinds of thing that is missing.
    pub fn missing_requirements_exec(&self) -> (r: Vec<Requirement>)
        ensures
            r@ == self.missing_requirements(),
            r.len() == 0 <==> self.is_complete(),
    {
        let mut r: Vec<Requirement> = Vec::new();
        push_if(&mut r, self.objective.is_none(), Requirement::Objective);
        assert(r@ =~= needed_if(self.objective_missing(), Requirement::Objective));
        push_if(
            &mut r,
            self.time_period.is_none() || self.time_step.is_none(),
            Requirement::TimeHorizon,
        );
        let consumption_missing = match &self.consumption_values {
            None => true,
            Some(v) => v.len() == 0,
        };
        push_if(
            &mut r,
            self.consumption_enabled && consumption_missing,
            Requirement::ConsumptionProfile,
        );
        let production_missing = match &self.production_values {
            None => true,
            Some(v) => v.len() == 0,
        };
        push_if(
            &mut r,
            self.production_enabled && production_missing,
            Requirement::ProductionProfile,
        );
        push_if(
            &mut r,
            self.storage_enabled && (self.storage.charge_max.is_none()
                || self.storage.discharge_max.is_none()),
            Requirement::StoragePower,
        );
        push_if(
            &mut r,
            self.storage_enabled && self.storage.energy_max.is_none(),
            Requirement::StorageEnergy,
        );
        push_if(
            &mut r,
            self.storage_enabled && self.storage.cycle_max.is_none(),
            Requirement::StorageCycles,
        );
        push_if(
            &mut r,
            self.grid.export_max.is_none() || self.grid.import_max.is_none(),
            Requirement::GridPower,
        );
        proof {
            self.lemma_nothing_missing_iff_complete();
        }
        r
    }

    /// What's missing before this configuration could be solved, as the
    /// messages shown to the user; empty when the configuration is complete.
    pub fn missing(&self) -> (r: Vec<String>)
        ensures
            r.deep_view() == self.missing_requirements().map_values(
                |q: Requirement| requirement_message(q),
            ),
            r.len() == 0 <==> self.is_complete(),
    {
        let kinds = self.missing_requirements_exec();
        let mut r: Vec<String> = Vec::new();
        let mut k: usize = 0;
        while k < kinds.len()
            invariant
                k <= kinds.len(),
                kinds@ == self.missing_requirements(),
                r.deep_view() == kinds@.take(k as int).map_values(
                    |q: Requirement| requirement_message(q),
                ),
            decreases kinds.len() - k,
        {
            let m = kinds[k].message();
            let ghost before = r.deep_view();
            r.push(m);
            assert(r.deep_view() =~= before.push(m@));
            assert(kinds@.take(k + 1) =~= kinds@.take(k as int).push(kinds@[k as int]));
            assert(r.deep_view() =~= kinds@.take(k + 1).map_values(
                |q: Requirement| requirement_message(q),
            ));
            k = k + 1;
        }
        assert(kinds@.take(kinds.len() as int) =~= kinds@);
        r
    }
}

impl Default for ProjectData {
    fn default() -> (r: Self)
        ensures
            r == ProjectData::fresh(),
    {
        ProjectData {
            objective: None,
            consumption_enabled: true,
            production_enabled: true,
            storage_enabled: true,
            connections: ConnectionConfigData::default(),
            time_period: None,
            time_step: None,
            consumption_values: None,
            production_values: None,
            storage: StorageSpecData::default(),
            grid: GridSpecData::default(),
        }
    }
}

/// A configuration nobody has filled in yet lacks all eight requirements.
pub proof fn lemma_fresh_project_misses_everything()
    ensures
        ProjectData::fresh().missing_requirements() == seq![
            Requirement::Objective,
            Requirement::TimeHorizon,
            Requirement::ConsumptionProfile,
            Requirement::ProductionProfile,
            Requirement::StoragePower,
            Requirement::StorageEnergy,
            Requirement::StorageCycles,
            Requirement::GridPower,
        ],
        ProjectData::fresh().missing_requirements().len() == 8,
{
    assert(ProjectData::fresh().missing_requirements() =~= seq![
        Requirement::Objective,
        Requirement::TimeHorizon,
        Requirement::ConsumptionProfile,
        Requirement::ProductionProfile,
        Requirement::StoragePower,
        Requirement::StorageEnergy,
        Requirement::StorageCycles,
        Requirement::GridPower,
    ]);
}

pub open spec fn series_text_spec(texts: Option<Vec<String>>) -> Seq<char> {
    match texts {
        Some(v) => joined(v.deep_view(), series_separator()),
        None => Seq::<char>::empty(),
    }
}

/// Renders number texts as a comma-separated string for a form field's
/// prefilled value, the text that splitting a typed series reads back.
pub fn series_text(texts: &Option<Vec<String>>) -> (r: String)
    ensures
        r@ == series_text_spec(*texts),
{
    match texts {
        Some(v) => join_series(v),
        None => String::new(),
    }
}

/// The refusal of a typed series entry that is not a number.
pub fn invalid_number_message(entry: &str) -> (r: String)
    ensures
        r@ == seq!['\''] + entry@ + "' no es un numero valido"@,
{
    let mut r = String::new();
    push_char(&mut r, '\'');
    let r = concat_text(r.as_str(), entry);
    let r = concat_text(r.as_str(), "' no es un numero valido");
    r
}

} // verus!
