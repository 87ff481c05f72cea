//! The selection workflow: resolving the active city and the API
//! credential from the two configuration values, selecting a candidate by
//! interactive input when prompting is enabled, and saying exactly what
//! must be persisted.
//!
//! The caller performs the store reads, the prompt line read and the
//! store write; this core decides everything in between.

use vstd::prelude::*;
use crate::json::{
    Json, all_cities, city_of_json, city_to_json, denotes_city, is_city_json, json_to_api_key,
    json_to_cities, json_to_city, key_of_json, lemma_city_round_trip,
};
use crate::model::{ApiKey, City, WorkflowError, city_like};
use crate::select::{select_index, selection_outcome};

verus! {

/// The terminal error a resolution run ends in, if any: in non-prompting
/// mode a stored list is a shape mismatch and any other non-city value is
/// unavailable configuration; in prompting mode a value that is not a
/// city list is unavailable configuration, then the selection decides;
/// in both modes a malformed key record is a shape mismatch, found last.
pub open spec fn resolve_error(
    prompt_enabled: bool,
    city_config: Json,
    input: Seq<char>,
    key_config: Json,
) -> Option<WorkflowError> {
    if !prompt_enabled {
        if city_config matches Json::Arr(_) {
            Some(WorkflowError::ConfigShapeMismatch)
        } else if city_of_json(city_config) is None {
            Some(WorkflowError::ConfigUnavailable)
        } else if key_of_json(key_config) is None {
            Some(WorkflowError::ConfigShapeMismatch)
        } else {
            None
        }
    } else {
        match city_config {
            Json::Arr(items) => {
                if !all_cities(items@) {
                    Some(WorkflowError::ConfigUnavailable)
                } else {
                    match selection_outcome(input, items@.len() as int) {
                        Err(e) => Some(e),
                        Ok(_) => if key_of_json(key_config) is None {
                            Some(WorkflowError::ConfigShapeMismatch)
                        } else {
                            None
                        },
                    }
                }
            },
            _ => Some(WorkflowError::ConfigUnavailable),
        }
    }
}

/// Resolves the (city, key) context of one run.
///
/// In non-prompting mode the city configuration must hold a single city,
/// and nothing is persisted. In prompting mode it must hold the candidate
/// list; `selection_input` is the prompt line, interpreted as a 1-based
/// index, and the returned JSON value is the chosen city's canonical
/// object form, which the caller must write back as the new active-city
/// record. The API key record is read in both modes.
pub fn resolve_context(
    prompt_enabled: bool,
    city_config: &Json,
    selection_input: &str,
    key_config: &Json,
) -> (r: Result<(City, ApiKey, Option<Json>), WorkflowError>)
    ensures
        r matches Err(e) ==> resolve_error(
            prompt_enabled,
            *city_config,
            selection_input@,
            *key_config,
        ) == Some(e),
        r is Ok ==> resolve_error(
            prompt_enabled,
            *city_config,
            selection_input@,
            *key_config,
        ) is None,
        r matches Ok((c, k, w)) ==> (key_of_json(*key_config) matches Some(k0) && k.key@
            == k0.key@),
        !prompt_enabled ==> (r matches Ok((c, k, w)) ==> (city_of_json(
            *city_config,
        ) matches Some(c0) && city_like(c, c0) && w is None)),
        prompt_enabled ==> (r matches Ok((c, k, w)) ==> ((*city_config) matches Json::Arr(items)
            && selection_outcome(selection_input@, items@.len() as int) matches Ok(ix)
            && denotes_city(items@[ix], c) && (w matches Some(wj) && is_city_json(wj, c)))),
{
    if !prompt_enabled {
        if let Json::Arr(_) = city_config {
            return Err(WorkflowError::ConfigShapeMismatch);
        }
        let c = match json_to_city(city_config) {
            Some(c) => c,
            None => {
                return Err(WorkflowError::ConfigUnavailable);
            },
        };
        let k = match json_to_api_key(key_config) {
            Some(k) => k,
            None => {
                return Err(WorkflowError::ConfigShapeMismatch);
            },
        };
        Ok((c, k, None))
    } else {
        let cities = match json_to_cities(city_config) {
            Some(cs) => cs,
            None => {
                return Err(WorkflowError::ConfigUnavailable);
            },
        };
        let ix = match select_index(selection_input, cities.len()) {
            Ok(ix) => ix,
            Err(e) => {
                return Err(e);
            },
        };
        let chosen = cities[ix].duplicate();
        proof {
            let items = (*city_config)->Arr_0;
            assert(denotes_city(items@[ix as int], cities@[ix as int]));
            assert(denotes_city(items@[ix as int], chosen));
        }
        let wj = city_to_json(&chosen);
        let k = match json_to_api_key(key_config) {
            Some(k) => k,
            None => {
                return Err(WorkflowError::ConfigShapeMismatch);
            },
        };
        Ok((chosen, k, Some(wj)))
    }
}

/// Round trip through the store: after a prompting run persists its
/// chosen city — always in the canonical object form — a later
/// non-prompting run against that record resolves without error and
/// yields an equal city.
pub proof fn lemma_persisted_city_resolves(j: Json, c: City, key_config: Json, input: Seq<char>)
    requires
        is_city_json(j, c),
        key_of_json(key_config) is Some,
    ensures
        resolve_error(false, j, input, key_config) is None,
        city_of_json(j) matches Some(c2) && city_like(c2, c),
{
    lemma_city_round_trip(j, c);
}

} // verus!
