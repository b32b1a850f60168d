//! Laws of configuration completeness that relate several configurations.

use vstd::prelude::*;
use crate::config::{needed_if, requirement_message, ProjectData, Requirement};

verus! {

pub open spec fn is_storage_requirement(q: Requirement) -> bool {
    q == Requirement::StoragePower || q == Requirement::StorageEnergy || q
        == Requirement::StorageCycles
}

proof fn lemma_filter_needed(cond: bool, q: Requirement, keep: spec_fn(Requirement) -> bool)
    ensures
        needed_if(cond, q).filter(keep) == needed_if(cond && keep(q), q),
{
    reveal_with_fuel(Seq::filter, 2);
    if cond {
        assert(seq![q].drop_last() =~= Seq::<Requirement>::empty());
        assert(Seq::<Requirement>::empty().filter(keep) =~= Seq::<Requirement>::empty());
    }
    assert(needed_if(cond, q).filter(keep) =~= needed_if(cond && keep(q), q));
}

proof fn lemma_filter_needed_concat(d: ProjectData, keep: spec_fn(Requirement) -> bool)
    ensures
        d.missing_requirements().filter(keep) == needed_if(
            d.objective_missing() && keep(Requirement::Objective),
            Requirement::Objective,
        ) + needed_if(d.time_missing() && keep(Requirement::TimeHorizon), Requirement::TimeHorizon)
            + needed_if(
            d.consumption_missing() && keep(Requirement::ConsumptionProfile),
            Requirement::ConsumptionProfile,
        ) + needed_if(
            d.production_missing() && keep(Requirement::ProductionProfile),
            Requirement::ProductionProfile,
        ) + needed_if(
            d.storage_power_missing() && keep(Requirement::StoragePower),
            Requirement::StoragePower,
        ) + needed_if(
            d.storage_energy_missing() && keep(Requirement::StorageEnergy),
            Requirement::StorageEnergy,
        ) + needed_if(
            d.storage_cycles_missing() && keep(Requirement::StorageCycles),
            Requirement::StorageCycles,
        ) + needed_if(d.grid_missing() && keep(Requirement::GridPower), Requirement::GridPower),
{
    let a1 = needed_if(d.objective_missing(), Requirement::Objective);
    let a2 = needed_if(d.time_missing(), Requirement::TimeHorizon);
    let a3 = needed_if(d.consumption_missing(), Requirement::ConsumptionProfile);
    let a4 = needed_if(d.production_missing(), Requirement::ProductionProfile);
    let a5 = needed_if(d.storage_power_missing(), Requirement::StoragePower);
    let a6 = needed_if(d.storage_energy_missing(), Requirement::StorageEnergy);
    let a7 = needed_if(d.storage_cycles_missing(), Requirement::StorageCycles);
    let a8 = needed_if(d.grid_missing(), Requirement::GridPower);
    Seq::filter_distributes_over_add(a1, a2, keep);
    Seq::filter_distributes_over_add(a1 + a2, a3, keep);
    Seq::filter_distributes_over_add(a1 + a2 + a3, a4, keep);
    Seq::filter_distributes_over_add(a1 + a2 + a3 + a4, a5, keep);
    Seq::filter_distributes_over_add(a1 + a2 + a3 + a4 + a5, a6, keep);
    Seq::filter_distributes_over_add(a1 + a2 + a3 + a4 + a5 + a6, a7, keep);
    Seq::filter_distributes_over_add(a1 + a2 + a3 + a4 + a5 + a6 + a7, a8, keep);
    lemma_filter_needed(d.objective_missing(), Requirement::Objective, keep);
    lemma_filter_needed(d.time_missing(), Requirement::TimeHorizon, keep);
    lemma_filter_needed(d.consumption_missing(), Requirement::ConsumptionProfile, keep);
    lemma_filter_needed(d.production_missing(), Requirement::ProductionProfile, keep);
    lemma_filter_needed(d.storage_power_missing(), Requirement::StoragePower, keep);
    lemma_filter_needed(d.storage_energy_missing(), Requirement::StorageEnergy, keep);
    lemma_filter_needed(d.storage_cycles_missing(), Requirement::StorageCycles, keep);
    lemma_filter_needed(d.grid_missing(), Requirement::GridPower, keep);
}

/// When each requirement of `e` is open exactly when that of `d` is open
/// and `keep` accepts it, `e` misses what `d` misses, filtered by `keep`.
proof fn lemma_filtered_requirements(
    d: ProjectData,
    e: ProjectData,
    keep: spec_fn(Requirement) -> bool,
)
    requires
        e.objective_missing() == (d.objective_missing() && keep(Requirement::Objective)),
        e.time_missing() == (d.time_missing() && keep(Requirement::TimeHorizon)),
        e.consumption_missing() == (d.consumption_missing() && keep(
            Requirement::ConsumptionProfile,
        )),
        e.production_missing() == (d.production_missing() && keep(
            Requirement::ProductionProfile,
        )),
        e.storage_power_missing() == (d.storage_power_missing() && keep(
            Requirement::StoragePower,
        )),
        e.storage_energy_missing() == (d.storage_energy_missing() && keep(
            Requirement::StorageEnergy,
        )),
        e.storage_cycles_missing() == (d.storage_cycles_missing() && keep(
            Requirement::StorageCycles,
        )),
        e.grid_missing() == (d.grid_missing() && keep(Requirement::GridPower)),
    ensures
        e.missing_requirements() == d.missing_requirements().filter(keep),
{
    lemma_filter_needed_concat(d, keep);
}

/// Keeps every requirement but `dropped`.
pub open spec fn all_but(dropped: Requirement) -> spec_fn(Requirement) -> bool {
    |q: Requirement| q != dropped
}

/// Keeps every requirement that is not about the battery.
pub open spec fn all_but_storage() -> spec_fn(Requirement) -> bool {
    |q: Requirement| !is_storage_requirement(q)
}

/// Disabling consumption removes the consumption profile requirement and
/// leaves every other requirement as it was.
pub proof fn lemma_disabling_consumption_drops_its_requirement(d: ProjectData)
    ensures
        d.with_consumption_off().missing_requirements() == d.missing_requirements().filter(
            all_but(Requirement::ConsumptionProfile),
        ),
{
    let c = d.with_consumption_off();
    let keep = all_but(Requirement::ConsumptionProfile);
    assert(c.consumption_missing() == false);
    lemma_filtered_requirements(d, c, keep);
}

/// Disabling production removes the production profile requirement and
/// leaves every other requirement as it was.
pub proof fn lemma_disabling_production_drops_its_requirement(d: ProjectData)
    ensures
        d.with_production_off().missing_requirements() == d.missing_requirements().filter(
            all_but(Requirement::ProductionProfile),
        ),
{
    let p = d.with_production_off();
    let keep = all_but(Requirement::ProductionProfile);
    assert(p.production_missing() == false);
    lemma_filtered_requirements(d, p, keep);
}

/// Disabling storage removes every battery requirement and leaves every
/// other requirement as it was.
pub proof fn lemma_disabling_storage_drops_its_requirements(d: ProjectData)
    ensures
        d.with_storage_off().missing_requirements() == d.missing_requirements().filter(
            all_but_storage(),
        ),
{
    let s = d.with_storage_off();
    let keep = all_but_storage();
    assert(s.storage_power_missing() == false);
    assert(s.storage_energy_missing() == false);
    assert(s.storage_cycles_missing() == false);
    lemma_filtered_requirements(d, s, keep);
}

/// Keeps every requirement except those of the components that are off
/// in `e`.
pub open spec fn still_on(e: ProjectData) -> spec_fn(Requirement) -> bool {
    |q: Requirement|
        match q {
            Requirement::ConsumptionProfile => e.consumption_enabled,
            Requirement::ProductionProfile => e.production_enabled,
            Requirement::StoragePower | Requirement::StorageEnergy
            | Requirement::StorageCycles => e.storage_enabled,
            _ => true,
        }
}

/// Turning components off only removes requirements: when `e` is `d` with
/// any of consumption, production and storage switched off, and with any
/// connections, minimum energy, efficiencies and initial energy, `e` misses
/// exactly what `d` misses, less the requirements of the components that
/// are off in `e`.
pub proof fn lemma_disabling_components_drops_their_requirements(d: ProjectData, e: ProjectData)
    requires
        e.consumption_enabled ==> d.consumption_enabled,
        e.production_enabled ==> d.production_enabled,
        e.storage_enabled ==> d.storage_enabled,
        e.objective == d.objective,
        e.time_period == d.time_period,
        e.time_step == d.time_step,
        e.consumption_values == d.consumption_values,
        e.production_values == d.production_values,
        e.storage.charge_max == d.storage.charge_max,
        e.storage.discharge_max == d.storage.discharge_max,
        e.storage.energy_max == d.storage.energy_max,
        e.storage.cycle_max == d.storage.cycle_max,
        e.grid == d.grid,
    ensures
        e.missing_requirements() == d.missing_requirements().filter(still_on(e)),
{
    let keep = still_on(e);
    assert(keep(Requirement::Objective));
    assert(keep(Requirement::TimeHorizon));
    assert(keep(Requirement::GridPower));
    assert(keep(Requirement::ConsumptionProfile) == e.consumption_enabled);
    assert(keep(Requirement::ProductionProfile) == e.production_enabled);
    assert(keep(Requirement::StoragePower) == e.storage_enabled);
    assert(keep(Requirement::StorageEnergy) == e.storage_enabled);
    assert(keep(Requirement::StorageCycles) == e.storage_enabled);
    lemma_filtered_requirements(d, e, keep);
}

/// The position of a requirement in the report: objective, time horizon,
/// consumption, production, battery power, battery energy, battery cycles,
/// grid.
pub open spec fn report_position(q: Requirement) -> int {
    match q {
        Requirement::Objective => 0,
        Requirement::TimeHorizon => 1,
        Requirement::ConsumptionProfile => 2,
        Requirement::ProductionProfile => 3,
        Requirement::StoragePower => 4,
        Requirement::StorageEnergy => 5,
        Requirement::StorageCycles => 6,
        Requirement::GridPower => 7,
    }
}

/// A profile that is unset or holds no value.
pub open spec fn no_values(v: Option<Vec<u64>>) -> bool {
    match v {
        Some(x) => x@.len() == 0,
        None => true,
    }
}

/// Every requirement of `s` comes before position `n`, in report order.
#[verifier::opaque]
pub open spec fn ordered_below(s: Seq<Requirement>, n: int) -> bool {
    &&& forall|i: int| 0 <= i < s.len() ==> report_position(#[trigger] s[i]) < n
    &&& forall|i: int, j: int|
        0 <= i < j < s.len() ==> report_position(#[trigger] s[i]) < report_position(
            #[trigger] s[j],
        )
}

proof fn lemma_append_needed(prefix: Seq<Requirement>, cond: bool, q: Requirement)
    requires
        ordered_below(prefix, report_position(q)),
    ensures
        ordered_below(prefix + needed_if(cond, q), report_position(q) + 1),
        !prefix.contains(q),
        forall|x: Requirement|
            #[trigger] (prefix + needed_if(cond, q)).contains(x) <==> (prefix.contains(x) || (
            cond && x == q)),
{
    reveal(ordered_below);
    let t = prefix + needed_if(cond, q);
    if prefix.contains(q) {
        let i = choose|i: int| 0 <= i < prefix.len() && prefix[i] == q;
        assert(report_position(prefix[i]) < report_position(q));
    }
    if cond {
        assert(t =~= prefix.push(q));
        assert forall|x: Requirement| #[trigger] t.contains(x) <==> (prefix.contains(x) || x == q) by {
            if t.contains(x) {
                let i = choose|i: int| 0 <= i < t.len() && t[i] == x;
                if i < prefix.len() {
                    assert(prefix[i] == x);
                }
            }
            if prefix.contains(x) {
                let i = choose|i: int| 0 <= i < prefix.len() && prefix[i] == x;
                assert(t[i] == x);
            }
            if x == q {
                assert(t[prefix.len() as int] == x);
            }
        }
    } else {
        assert(t =~= prefix);
    }
}

/// What a configuration is reported to miss, requirement by requirement:
/// an objective when none is chosen; the time horizon when the period or
/// the step is unset; an enabled component's profile when it is unset or
/// empty; with the battery enabled, its power when the charge or the
/// discharge limit is unset, its energy when the maximum energy is unset,
/// and its cycles when the cycle maximum is unset; the grid power when the
/// export or the import limit is unset. Each is reported at most once, in
/// that order, and the configuration is complete exactly when none is.
#[verifier::spinoff_prover]
#[verifier::rlimit(60)]
pub proof fn lemma_missing_requirements_by_field(d: ProjectData)
    ensures
        d.missing_requirements().contains(Requirement::Objective) <==> d.objective is None,
        d.missing_requirements().contains(Requirement::TimeHorizon) <==> (d.time_period is None
            || d.time_step is None),
        d.missing_requirements().contains(Requirement::ConsumptionProfile) <==> (
        d.consumption_enabled && no_values(d.consumption_values)),
        d.missing_requirements().contains(Requirement::ProductionProfile) <==> (
        d.production_enabled && no_values(d.production_values)),
        d.missing_requirements().contains(Requirement::StoragePower) <==> (d.storage_enabled && (
        d.storage.charge_max is None || d.storage.discharge_max is None)),
        d.missing_requirements().contains(Requirement::StorageEnergy) <==> (d.storage_enabled
            && d.storage.energy_max is None),
        d.missing_requirements().contains(Requirement::StorageCycles) <==> (d.storage_enabled
            && d.storage.cycle_max is None),
        d.missing_requirements().contains(Requirement::GridPower) <==> (d.grid.export_max is None
            || d.grid.import_max is None),
        forall|i: int, j: int|
            0 <= i < j < d.missing_requirements().len() ==> report_position(
                #[trigger] d.missing_requirements()[i],
            ) < report_position(#[trigger] d.missing_requirements()[j]),
        d.is_complete() <==> d.missing_requirements().len() == 0,
{
    let p0 = Seq::<Requirement>::empty();
    assert(ordered_below(p0, 0)) by {
        reveal(ordered_below);
    }
    lemma_append_needed(p0, d.objective_missing(), Requirement::Objective);
    let p1 = p0 + needed_if(d.objective_missing(), Requirement::Objective);
    lemma_append_needed(p1, d.time_missing(), Requirement::TimeHorizon);
    let p2 = p1 + needed_if(d.time_missing(), Requirement::TimeHorizon);
    lemma_append_needed(p2, d.consumption_missing(), Requirement::ConsumptionProfile);
    let p3 = p2 + needed_if(d.consumption_missing(), Requirement::ConsumptionProfile);
    lemma_append_needed(p3, d.production_missing(), Requirement::ProductionProfile);
    let p4 = p3 + needed_if(d.production_missing(), Requirement::ProductionProfile);
    lemma_append_needed(p4, d.storage_power_missing(), Requirement::StoragePower);
    let p5 = p4 + needed_if(d.storage_power_missing(), Requirement::StoragePower);
    lemma_append_needed(p5, d.storage_energy_missing(), Requirement::StorageEnergy);
    let p6 = p5 + needed_if(d.storage_energy_missing(), Requirement::StorageEnergy);
    lemma_append_needed(p6, d.storage_cycles_missing(), Requirement::StorageCycles);
    let p7 = p6 + needed_if(d.storage_cycles_missing(), Requirement::StorageCycles);
    lemma_append_needed(p7, d.grid_missing(), Requirement::GridPower);
    let p8 = p7 + needed_if(d.grid_missing(), Requirement::GridPower);
    assert(p1 =~= needed_if(d.objective_missing(), Requirement::Objective));
    assert(p8 =~= d.missing_requirements());
    assert(d.consumption_missing() == (d.consumption_enabled && no_values(d.consumption_values)));
    assert(d.production_missing() == (d.production_enabled && no_values(d.production_values)));
    reveal(ordered_below);
    d.lemma_nothing_missing_iff_complete();
}

/// The messages `ProjectData::missing` reports.
pub open spec fn missing_messages(d: ProjectData) -> Seq<Seq<char>> {
    d.missing_requirements().map_values(|q: Requirement| requirement_message(q))
}

proof fn lemma_message_found(reqs: Seq<Requirement>, q: Requirement)
    requires
        forall|a: Requirement, b: Requirement|
            requirement_message(a) == requirement_message(b) ==> a == b,
    ensures
        reqs.map_values(|r: Requirement| requirement_message(r)).contains(requirement_message(q))
            <==> reqs.contains(q),
{
    let m = reqs.map_values(|r: Requirement| requirement_message(r));
    if reqs.contains(q) {
        let i = choose|i: int| 0 <= i < reqs.len() && reqs[i] == q;
        assert(m[i] == requirement_message(q));
    }
    if m.contains(requirement_message(q)) {
        let i = choose|i: int| 0 <= i < m.len() && m[i] == requirement_message(q);
        assert(requirement_message(reqs[i]) == requirement_message(q));
        assert(reqs[i] == q);
    }
}

/// What the user is told a configuration misses, message by message: each
/// sentence is reported exactly when its condition holds of the fields.
pub proof fn lemma_missing_messages_by_field(d: ProjectData)
    ensures
        missing_messages(d).contains("Elige un objetivo de optimizacion (energia o coste)."@) <==> d.objective is None,
        missing_messages(d).contains("Define el horizonte temporal (periodo y paso)."@) <==> (d.time_period is None || d.time_step is None),
        missing_messages(d).contains("Falta el perfil de consumo."@) <==> (d.consumption_enabled && no_values(d.consumption_values)),
        missing_messages(d).contains("Falta el perfil de produccion."@) <==> (d.production_enabled && no_values(d.production_values)),
        missing_messages(d).contains("Falta la potencia de carga/descarga de la bateria."@) <==> (d.storage_enabled && (d.storage.charge_max is None || d.storage.discharge_max is None)),
        missing_messages(d).contains("Falta la capacidad de energia maxima de la bateria."@) <==> (d.storage_enabled && d.storage.energy_max is None),
        missing_messages(d).contains("Falta el maximo de ciclos de la bateria."@) <==> (d.storage_enabled && d.storage.cycle_max is None),
        missing_messages(d).contains("Falta la potencia maxima de importacion/exportacion de red."@) <==> (d.grid.export_max is None || d.grid.import_max is None),
{
    reveal_strlit("Elige un objetivo de optimizacion (energia o coste).");
    reveal_strlit("Define el horizonte temporal (periodo y paso).");
    reveal_strlit("Falta el perfil de consumo.");
    reveal_strlit("Falta el perfil de produccion.");
    reveal_strlit("Falta la potencia de carga/descarga de la bateria.");
    reveal_strlit("Falta la capacidad de energia maxima de la bateria.");
    reveal_strlit("Falta el maximo de ciclos de la bateria.");
    reveal_strlit("Falta la potencia maxima de importacion/exportacion de red.");
    assert("Elige un objetivo de optimizacion (energia o coste)."@[0] != "Define el horizonte temporal (periodo y paso)."@[0]);
    assert("Elige un objetivo de optimizacion (energia o coste)."@[0] != "Falta el perfil de consumo."@[0]);
    assert("Elige un objetivo de optimizacion (energia o coste)."@[0] != "Falta el perfil de produccion."@[0]);
    assert("Elige un objetivo de optimizacion (energia o coste)."@[0] != "Falta la potencia de carga/descarga de la bateria."@[0]);
    assert("Elige un objetivo de optimizacion (energia o coste)."@[0] != "Falta la capacidad de energia maxima de la bateria."@[0]);
    assert("Elige un objetivo de optimizacion (energia o coste)."@[0] != "Falta el maximo de ciclos de la bateria."@[0]);
    assert("Elige un objetivo de optimizacion (energia o coste)."@[0] != "Falta la potencia maxima de importacion/exportacion de red."@[0]);
    assert("Define el horizonte temporal (periodo y paso)."@[0] != "Falta el perfil de consumo."@[0]);
    assert("Define el horizonte temporal (periodo y paso)."@[0] != "Falta el perfil de produccion."@[0]);
    assert("Define el horizonte temporal (periodo y paso)."@[0] != "Falta la potencia de carga/descarga de la bateria."@[0]);
    assert("Define el horizonte temporal (periodo y paso)."@[0] != "Falta la capacidad de energia maxima de la bateria."@[0]);
    assert("Define el horizonte temporal (periodo y paso)."@[0] != "Falta el maximo de ciclos de la bateria."@[0]);
    assert("Define el horizonte temporal (periodo y paso)."@[0] != "Falta la potencia maxima de importacion/exportacion de red."@[0]);
    assert("Falta el perfil de consumo."@[19] != "Falta el perfil de produccion."@[19]);
    assert("Falta el perfil de consumo."@[6] != "Falta la potencia de carga/descarga de la bateria."@[6]);
    assert("Falta el perfil de consumo."@[6] != "Falta la capacidad de energia maxima de la bateria."@[6]);
    assert("Falta el perfil de consumo."@[9] != "Falta el maximo de ciclos de la bateria."@[9]);
    assert("Falta el perfil de consumo."@[6] != "Falta la potencia maxima de importacion/exportacion de red."@[6]);
    assert("Falta el perfil de produccion."@[6] != "Falta la potencia de carga/descarga de la bateria."@[6]);
    assert("Falta el perfil de produccion."@[6] != "Falta la capacidad de energia maxima de la bateria."@[6]);
    assert("Falta el perfil de produccion."@[9] != "Falta el maximo de ciclos de la bateria."@[9]);
    assert("Falta el perfil de produccion."@[6] != "Falta la potencia maxima de importacion/exportacion de red."@[6]);
    assert("Falta la potencia de carga/descarga de la bateria."@[9] != "Falta la capacidad de energia maxima de la bateria."@[9]);
    assert("Falta la potencia de carga/descarga de la bateria."@[6] != "Falta el maximo de ciclos de la bateria."@[6]);
    assert("Falta la potencia de carga/descarga de la bateria."@[18] != "Falta la potencia maxima de importacion/exportacion de red."@[18]);
    assert("Falta la capacidad de energia maxima de la bateria."@[6] != "Falta el maximo de ciclos de la bateria."@[6]);
    assert("Falta la capacidad de energia maxima de la bateria."@[9] != "Falta la potencia maxima de importacion/exportacion de red."@[9]);
    assert("Falta el maximo de ciclos de la bateria."@[6] != "Falta la potencia maxima de importacion/exportacion de red."@[6]);
    assert forall|a: Requirement, b: Requirement|
        requirement_message(a) == requirement_message(b) implies a == b by {
        if a != b {
            assert(requirement_message(a) != requirement_message(b));
        }
    }
    lemma_missing_requirements_by_field(d);
    lemma_message_found(d.missing_requirements(), Requirement::Objective);
    lemma_message_found(d.missing_requirements(), Requirement::TimeHorizon);
    lemma_message_found(d.missing_requirements(), Requirement::ConsumptionProfile);
    lemma_message_found(d.missing_requirements(), Requirement::ProductionProfile);
    lemma_message_found(d.missing_requirements(), Requirement::StoragePower);
    lemma_message_found(d.missing_requirements(), Requirement::StorageEnergy);
    lemma_message_found(d.missing_requirements(), Requirement::StorageCycles);
    lemma_message_found(d.missing_requirements(), Requirement::GridPower);
}

} // verus!
