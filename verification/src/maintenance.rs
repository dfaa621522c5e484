//! The upkeep of a DuckLake: expiring old snapshots and tidying up what is left.
use crate::config::{AppConfig, ResourceLimits};
use crate::error::SinkError;
use crate::sink::ducklake::{
    catalog_type, lake_steps, law_lakes_are_opened_limited_and_attached,
    law_only_existing_lakes_are_opened_without_leave, open_ducklake_connection, CatalogType,
    DuckLakeConfig,
};
use crate::sink::{plan_view, Step, StepView};
use crate::text::{
    blank, is_blank, law_trimmed_text_stays, lemma_blank_is_trimmed_to_nothing, trimmed,
};
use vstd::prelude::*;

verus! {

/// Why there can be no upkeep, if that is so.
pub open spec fn upkeep_fault(catalog_type: CatalogType, expire_older_than: Seq<char>) -> Option<
    Seq<char>,
> {
    if catalog_type is DuckDB {
        Some("DuckDB-backed DuckLake catalogs do not support a concurrent maintenance client"@)
    } else if is_blank(expire_older_than) {
        Some("expire_older_than must not be empty"@)
    } else {
        None
    }
}

/// The steps of upkeep: attach a lake that is there, tell it how long snapshots are kept,
/// and have it tidy up.
pub open spec fn upkeep_steps(
    catalog_type: CatalogType,
    limits: ResourceLimits,
    expire_older_than: Seq<char>,
) -> Seq<StepView> {
    lake_steps(catalog_type, limits, false) + seq![
        StepView::ExecuteWith(
            "CALL ducklake.set_option('expire_older_than', ?)"@,
            expire_older_than,
        ),
        StepView::Execute("USE ducklake; CHECKPOINT;"@),
    ]
}

/// The steps of upkeep for a lake. A catalog that DuckDB keeps is refused, since it cannot
/// be shared, and so is an upkeep that does not say how long snapshots are kept.
pub fn run_ducklake_maintenance(
    config: &DuckLakeConfig,
    limits: &ResourceLimits,
    expire_older_than: &str,
) -> (r: Result<Vec<Step>, SinkError>)
    ensures
        match upkeep_fault(config.catalog_type, expire_older_than@) {
            Some(fault) => r matches Err(SinkError::ConfigError(detail)) && detail@ == fault,
            None => r matches Ok(plan) && plan_view(plan@) == upkeep_steps(
                config.catalog_type,
                *limits,
                expire_older_than@,
            ),
        },
{
    if config.catalog_type == CatalogType::DuckDB {
        return Err(
            SinkError::ConfigError(
                "DuckDB-backed DuckLake catalogs do not support a concurrent maintenance client".to_owned(),
            ),
        );
    }
    if blank(expire_older_than) {
        return Err(SinkError::ConfigError("expire_older_than must not be empty".to_owned()));
    }
    let mut plan = open_ducklake_connection(config, limits, false);
    let ghost opening = plan@;
    plan.push(
        Step::ExecuteWith(
            "CALL ducklake.set_option('expire_older_than', ?)".to_owned(),
            expire_older_than.to_owned(),
        ),
    );
    plan.push(Step::Execute("USE ducklake; CHECKPOINT;".to_owned()));
    assert(plan_view(plan@) =~= plan_view(opening) + plan_view(plan@.skip(opening.len() as int)));
    assert(plan_view(plan@) =~= upkeep_steps(config.catalog_type, *limits, expire_older_than@));
    Ok(plan)
}

/// Upkeep creates nothing in the file system: where the lake is not there, it fails.
pub proof fn law_upkeep_creates_nothing(
    catalog_type: CatalogType,
    limits: ResourceLimits,
    expire_older_than: Seq<char>,
    i: int,
)
    requires
        0 <= i < upkeep_steps(catalog_type, limits, expire_older_than).len(),
    ensures
        !(upkeep_steps(catalog_type, limits, expire_older_than)[i] is CreateDirectory),
        !(upkeep_steps(catalog_type, limits, expire_older_than)[i] is CreateParent),
{
    if i < lake_steps(catalog_type, limits, false).len() {
        law_only_existing_lakes_are_opened_without_leave(catalog_type, limits, i, i);
    }
}

/// How long snapshots are kept never becomes part of a statement: it is handed to the
/// database beside a statement, as data, and no step depends on it otherwise.
pub proof fn law_retention_is_bound_as_data(
    catalog_type: CatalogType,
    limits: ResourceLimits,
    expire_older_than: Seq<char>,
    other: Seq<char>,
    i: int,
)
    requires
        0 <= i < upkeep_steps(catalog_type, limits, expire_older_than).len(),
    ensures
        ({
            let step = upkeep_steps(catalog_type, limits, expire_older_than)[i];
            let same = upkeep_steps(catalog_type, limits, other)[i];
            match step {
                StepView::ExecuteWith(sql, parameter) => parameter == expire_older_than && same
                    == StepView::ExecuteWith(sql, other),
                _ => same == step,
            }
        }),
{
}

/// A configuration that allows upkeep leads to an upkeep that is not refused.
pub proof fn law_upkeep_that_is_configured_is_not_refused(config: AppConfig)
    requires
        config.maintenance_fault() is None,
    ensures
        ({
            let lake = config.sink.duckdb->0.ducklake->0;
            upkeep_fault(
                catalog_type(lake.catalog_type),
                trimmed(lake.maintenance->0.expire_older_than@),
            ) is None
        }),
{
    let kept = config.sink.duckdb->0.ducklake->0.maintenance->0.expire_older_than@;
    lemma_blank_is_trimmed_to_nothing(kept);
    lemma_blank_is_trimmed_to_nothing(trimmed(kept));
    law_trimmed_text_stays(kept);
}

/// Every upkeep, whatever keeps the catalog, attaches the lake as it is, then sets how long
/// snapshots are kept, to what was asked for, and then has the lake tidied up, as its last
/// step. Each of these is done once.
pub proof fn law_upkeep_sets_the_retention_and_checkpoints(
    catalog_type: CatalogType,
    limits: ResourceLimits,
    expire_older_than: Seq<char>,
    i: int,
)
    ensures
        ({
            let steps = upkeep_steps(catalog_type, limits, expire_older_than);
            let attach: int = steps.len() - 3;
            &&& attach >= 0
            &&& steps.take(attach + 1) == lake_steps(catalog_type, limits, false)
            &&& steps[attach] == StepView::Attach
            &&& steps[attach + 1] == StepView::ExecuteWith(
                "CALL ducklake.set_option('expire_older_than', ?)"@,
                expire_older_than,
            )
            &&& steps[attach + 2] == StepView::Execute("USE ducklake; CHECKPOINT;"@)
            &&& 0 <= i < steps.len() && steps[i] is Attach ==> i == attach
            &&& 0 <= i < steps.len() && steps[i] is ExecuteWith ==> i == attach + 1
            &&& 0 <= i < steps.len() && steps[i] == StepView::Execute(
                "USE ducklake; CHECKPOINT;"@,
            ) ==> i == attach + 2
        }),
{
    let steps = upkeep_steps(catalog_type, limits, expire_older_than);
    let opening = lake_steps(catalog_type, limits, false);
    law_lakes_are_opened_limited_and_attached(catalog_type, limits, false, i);
    law_lakes_are_opened_limited_and_attached(catalog_type, limits, false, opening.len() - 1);
    assert(steps.take(opening.len() as int) =~= opening);
    if 0 <= i < opening.len() {
        reveal_strlit("USE ducklake; CHECKPOINT;");
        reveal_strlit("INSTALL ducklake; LOAD ducklake;");
        reveal_strlit("INSTALL sqlite; LOAD sqlite;");
        reveal_strlit("INSTALL postgres; LOAD postgres;");
        reveal_strlit("SET memory_limit = '");
        reveal_strlit("SET threads = ");
        assert(steps[i] == opening[i]);
        if let StepView::Execute(sql) = opening[i] {
            assert(sql[0] != 'U');
        }
        assert("USE ducklake; CHECKPOINT;"@[0] == 'U');
    }
}

/// Exactly two things are refused: a catalog that DuckDB keeps, whatever else is asked for,
/// and a retention in which nothing is said.
pub proof fn law_upkeep_is_refused_for_two_reasons(
    catalog_type: CatalogType,
    expire_older_than: Seq<char>,
)
    ensures
        catalog_type is DuckDB ==> upkeep_fault(catalog_type, expire_older_than) == Some(
            "DuckDB-backed DuckLake catalogs do not support a concurrent maintenance client"@,
        ),
        !(catalog_type is DuckDB) && trimmed(expire_older_than).len() == 0 ==> upkeep_fault(
            catalog_type,
            expire_older_than,
        ) == Some("expire_older_than must not be empty"@),
        !(catalog_type is DuckDB) && trimmed(expire_older_than).len() > 0 ==> upkeep_fault(
            catalog_type,
            expire_older_than,
        ) is None,
{
    lemma_blank_is_trimmed_to_nothing(expire_older_than);
}

/// Upkeep of one lake is refused or planned by its kind of catalog and by its retention, and
/// a plan ends by having the lake tidied up.
pub proof fn law_planned_upkeep_tidies_up(
    config: &DuckLakeConfig,
    limits: &ResourceLimits,
    expire_older_than: &str,
    planned: Result<Vec<Step>, SinkError>,
)
    requires
        call_ensures(run_ducklake_maintenance, (config, limits, expire_older_than), planned),
    ensures
        planned is Ok <==> !(config.catalog_type is DuckDB) && trimmed(expire_older_than@).len()
            > 0,
        planned matches Err(error) ==> error is ConfigError,
        planned matches Ok(plan) ==> {
            &&& plan@.len() >= 3
            &&& plan@[plan@.len() - 3]@ == StepView::Attach
            &&& plan@[plan@.len() - 2]@ == StepView::ExecuteWith(
                "CALL ducklake.set_option('expire_older_than', ?)"@,
                expire_older_than@,
            )
            &&& plan@[plan@.len() - 1]@ == StepView::Execute("USE ducklake; CHECKPOINT;"@)
        },
{
    law_upkeep_is_refused_for_two_reasons(config.catalog_type, expire_older_than@);
    if let Ok(plan) = planned {
        law_upkeep_sets_the_retention_and_checkpoints(
            config.catalog_type,
            *limits,
            expire_older_than@,
            0,
        );
        let n = plan@.len();
        assert(plan_view(plan@).len() == n);
        assert(plan_view(plan@)[n - 3] == plan@[n - 3]@);
        assert(plan_view(plan@)[n - 2] == plan@[n - 2]@);
        assert(plan_view(plan@)[n - 1] == plan@[n - 1]@);
    }
}

} // verus!
