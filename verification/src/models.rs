//! The model list of the settings page: each catalogue model's status and
//! whether a shortcut uses it, and when a model may be deleted.
use vstd::prelude::*;

use crate::config::{contains_text, AppConfig};
use crate::downloads::{ModelStatus, ModelStatusView};
use crate::keyed::KeyedTable;
use crate::text::{push_str, string_from_chars};

verus! {

broadcast use vstd::string::group_string_axioms;

/// Whether some shortcut uses the model `m`.
pub open spec fn is_referenced(config: AppConfig, m: Seq<char>) -> bool {
    exists|i: int| 0 <= i < config.shortcuts@.len() && #[trigger] config.shortcuts@[i].model_id@ == m
}

/// Whether `v` holds the text `m`.
pub open spec fn listed(v: Seq<String>, m: Seq<char>) -> bool {
    exists|k: int| 0 <= k < v.len() && #[trigger] v[k]@ == m
}

/// Whether one of the first `n` shortcuts uses the model `m`.
pub open spec fn used_upto(config: AppConfig, n: int, m: Seq<char>) -> bool {
    exists|j: int| 0 <= j < n && #[trigger] config.shortcuts@[j].model_id@ == m
}

/// The models the shortcuts use, each once.
pub fn referenced_models(config: &AppConfig) -> (v: Vec<String>)
    ensures
        forall|m: Seq<char>| #[trigger] listed(v@, m) <==> is_referenced(*config, m),
        forall|a: int, b: int| 0 <= a < b < v@.len() ==> v@[a]@ != v@[b]@,
{
    let mut v: Vec<String> = Vec::new();
    let mut i: usize = 0;
    while i < config.shortcuts.len()
        invariant
            i <= config.shortcuts@.len(),
            forall|m: Seq<char>| #[trigger] listed(v@, m) <==> used_upto(*config, i as int, m),
            forall|a: int, b: int| 0 <= a < b < v@.len() ==> v@[a]@ != v@[b]@,
        decreases config.shortcuts@.len() - i,
    {
        let m = &config.shortcuts[i].model_id;
        let ghost before = v@;
        if !contains_text(&v, m.as_str()) {
            v.push(m.clone());
            assert forall|x: Seq<char>| #[trigger] listed(v@, x) <==> used_upto(
                *config,
                i + 1,
                x,
            ) by {
                if listed(v@, x) {
                    let k = choose|k: int| 0 <= k < v@.len() && #[trigger] v@[k]@ == x;
                    if k < before.len() {
                        assert(before[k]@ == x);
                        assert(listed(before, x));
                    } else {
                        assert(config.shortcuts@[i as int].model_id@ == x);
                    }
                }
                if used_upto(*config, i + 1, x) {
                    let j = choose|j: int| 0 <= j < i + 1 && #[trigger] config.shortcuts@[j].model_id@ == x;
                    if j < i {
                        assert(used_upto(*config, i as int, x));
                        assert(listed(before, x));
                        let k = choose|k: int| 0 <= k < before.len() && #[trigger] before[k]@ == x;
                        assert(v@[k] == before[k]);
                    } else {
                        assert(v@[before.len() as int]@ == x);
                    }
                }
            }
        } else {
            assert forall|x: Seq<char>| #[trigger] listed(v@, x) <==> used_upto(
                *config,
                i + 1,
                x,
            ) by {
                if listed(v@, x) {
                    assert(used_upto(*config, i as int, x));
                }
                if used_upto(*config, i + 1, x) {
                    let j = choose|j: int| 0 <= j < i + 1 && #[trigger] config.shortcuts@[j].model_id@ == x;
                    if j < i {
                        assert(used_upto(*config, i as int, x));
                    } else {
                        let k = choose|k: int| 0 <= k < v@.len() && #[trigger] v@[k]@ == m@;
                        assert(v@[k]@ == x);
                    }
                }
            }
        }
        i = i + 1;
    }
    assert forall|x: Seq<char>| #[trigger] listed(v@, x) <==> is_referenced(*config, x) by {
        assert(used_upto(*config, i as int, x) == is_referenced(*config, x));
    }
    v
}

/// A copy of a status.
pub fn copy_status(s: &ModelStatus) -> (r: ModelStatus)
    ensures
        r@ == s@,
{
    match s {
        ModelStatus::Ready => ModelStatus::Ready,
        ModelStatus::NotInstalled => ModelStatus::NotInstalled,
        ModelStatus::Downloading { downloaded, total } => ModelStatus::Downloading {
            downloaded: *downloaded,
            total: *total,
        },
        ModelStatus::Verifying { downloaded, total } => ModelStatus::Verifying {
            downloaded: *downloaded,
            total: *total,
        },
        ModelStatus::Canceling { downloaded, total } => ModelStatus::Canceling {
            downloaded: *downloaded,
            total: *total,
        },
        ModelStatus::Error(e) => ModelStatus::Error(e.clone()),
    }
}

/// One row of the model list.
#[derive(Debug, Clone, PartialEq, Eq)]
pub struct ModelRowState {
    pub model_id: String,
    pub status: ModelStatus,
    pub referenced: bool,
}

/// The status a model row shows: the download's status while one is
/// tracked, else ready or not installed.
pub open spec fn row_status(
    downloads: Map<Seq<char>, ModelStatusView>,
    ready: bool,
    m: Seq<char>,
) -> ModelStatusView {
    if downloads.contains_key(m) {
        downloads[m]
    } else if ready {
        ModelStatusView::Ready
    } else {
        ModelStatusView::NotInstalled
    }
}

/// Whether `row` is the row of model `m`.
pub open spec fn row_matches(
    row: ModelRowState,
    m: Seq<char>,
    ready_model_ids: Seq<String>,
    downloads: Map<Seq<char>, ModelStatusView>,
    config: AppConfig,
) -> bool {
    &&& row.model_id@ == m
    &&& row.status@ == row_status(downloads, listed(ready_model_ids, m), m)
    &&& row.referenced == is_referenced(config, m)
}

/// The rows of the model list, one per catalogue model in catalogue order.
pub fn model_row_states(
    catalog_ids: &Vec<String>,
    ready_model_ids: &Vec<String>,
    downloads: &KeyedTable<ModelStatus>,
    config: &AppConfig,
) -> (rows: Vec<ModelRowState>)
    requires
        downloads.well_formed(),
    ensures
        rows@.len() == catalog_ids@.len(),
        forall|i: int| 0 <= i < rows@.len() ==> #[trigger] row_matches(
            rows@[i],
            catalog_ids@[i]@,
            ready_model_ids@,
            downloads@,
            *config,
        ),
{
    let referenced = referenced_models(config);
    let mut rows: Vec<ModelRowState> = Vec::new();
    let mut i: usize = 0;
    while i < catalog_ids.len()
        invariant
            i <= catalog_ids@.len(),
            rows@.len() == i,
            downloads.well_formed(),
            forall|m: Seq<char>| #[trigger] listed(referenced@, m) <==> is_referenced(*config, m),
            forall|k: int| 0 <= k < i ==> #[trigger] row_matches(
                rows@[k],
                catalog_ids@[k]@,
                ready_model_ids@,
                downloads@,
                *config,
            ),
        decreases catalog_ids@.len() - i,
    {
        let id = catalog_ids[i].as_str();
        let ghost m = catalog_ids@[i as int]@;
        assert(id@ == m);
        let ghost ready = listed(ready_model_ids@, m);
        let status = match downloads.get(id) {
            Some(s) => copy_status(s),
            None => {
                if contains_text(ready_model_ids, id) {
                    ModelStatus::Ready
                } else {
                    ModelStatus::NotInstalled
                }
            },
        };
        assert(status@ == row_status(downloads@, ready, m));
        let is_ref = contains_text(&referenced, id);
        assert(is_ref == listed(referenced@, id@));
        assert(is_ref == is_referenced(*config, id@));
        let ghost before = rows@;
        rows.push(ModelRowState { model_id: catalog_ids[i].clone(), status, referenced: is_ref });
        assert forall|k: int| 0 <= k < i + 1 implies #[trigger] row_matches(
            rows@[k],
            catalog_ids@[k]@,
            ready_model_ids@,
            downloads@,
            *config,
        ) by {
            if k < i {
                assert(rows@[k] == before[k]);
            } else {
                assert(rows@[k].status@ == status@);
                assert(rows@[k].model_id@ == m);
            }
        }
        i = i + 1;
    }
    rows
}

/// A model may be deleted only when no shortcut uses it.
pub fn ensure_model_unreferenced(config: &AppConfig, model_id: &str) -> (r: Result<(), String>)
    ensures
        is_referenced(*config, model_id@) ==> (r matches Err(e) && e@ == "model "@ + model_id@
            + " is still referenced by settings"@),
        !is_referenced(*config, model_id@) ==> r is Ok,
{
    let referenced = referenced_models(config);
    let found = contains_text(&referenced, model_id);
    assert(found == listed(referenced@, model_id@));
    if found {
        let mut out: Vec<char> = Vec::new();
        push_str(&mut out, "model ");
        push_str(&mut out, model_id);
        push_str(&mut out, " is still referenced by settings");
        return Err(string_from_chars(out.as_slice()));
    }
    Ok(())
}


/// The model a new shortcut starts with: the first catalogue model that is
/// ready, or `default_model_id` when none is.
pub fn default_new_shortcut_model(catalog_ids: &Vec<String>, ready_model_ids: &Vec<String>, default_model_id: &str) -> (m: String)
    ensures
        (exists|i: int| 0 <= i < catalog_ids@.len() && listed(ready_model_ids@, #[trigger] catalog_ids@[i]@))
            ==> exists|i: int|
            0 <= i < catalog_ids@.len() && m@ == catalog_ids@[i]@ && listed(
                ready_model_ids@,
                catalog_ids@[i]@,
            ) && forall|k: int| 0 <= k < i ==> !listed(ready_model_ids@, #[trigger] catalog_ids@[k]@),
        !(exists|i: int| 0 <= i < catalog_ids@.len() && listed(ready_model_ids@, #[trigger] catalog_ids@[i]@))
            ==> m@ == default_model_id@,
{
    let mut i: usize = 0;
    while i < catalog_ids.len()
        invariant
            i <= catalog_ids@.len(),
            forall|k: int| 0 <= k < i ==> !listed(ready_model_ids@, #[trigger] catalog_ids@[k]@),
        decreases catalog_ids@.len() - i,
    {
        if contains_text(ready_model_ids, catalog_ids[i].as_str()) {
            return catalog_ids[i].clone();
        }
        i = i + 1;
    }
    default_model_id.to_string()
}

} // verus!
