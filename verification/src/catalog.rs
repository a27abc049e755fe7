//! The model catalog, and the words for effort and sandbox on the command line.
//!
//! Models are discovered live from the handshake (`_meta.modelState`); this module
//! turns that raw state into [`Model`] rows.

use vstd::prelude::*;
use crate::json::{bool_in, member_in, owned, str_in, unless_empty, Json, JsonView};
use crate::json::{
    bool_of, items_of, items_view, member_of, non_empty, opt_chars, opt_text, str_of,
};
use crate::proto::{models_view, Model, ModelView, ReasoningLevel, SandboxLevel};
use crate::text::{ascii_lowercase, str_eq};

verus! {

// ---------------------------------------------------------------------------
// Effort and sandbox
// ---------------------------------------------------------------------------

/// The levels that the command line knows, from least to most.
pub open spec fn ladder() -> Seq<ReasoningLevel> {
    seq![ReasoningLevel::Low, ReasoningLevel::Medium, ReasoningLevel::High]
}

/// Grok Build accepts exactly Low, Medium and High.
pub fn reasoning_ladder() -> (levels: Vec<ReasoningLevel>)
    ensures
        levels@ == ladder(),
{
    let levels = vec![ReasoningLevel::Low, ReasoningLevel::Medium, ReasoningLevel::High];
    assert(levels@ =~= ladder());
    levels
}

/// The supported level that is nearest to `level`.
pub open spec fn clamp(level: ReasoningLevel) -> ReasoningLevel {
    match level {
        ReasoningLevel::Minimal | ReasoningLevel::Low => ReasoningLevel::Low,
        ReasoningLevel::Medium => ReasoningLevel::Medium,
        _ => ReasoningLevel::High,
    }
}

/// How the command line spells a level, after clamping.
pub open spec fn effort(level: ReasoningLevel) -> Seq<char> {
    match clamp(level) {
        ReasoningLevel::Low => "low"@,
        ReasoningLevel::Medium => "medium"@,
        _ => "high"@,
    }
}

/// Map a reasoning level to the `--reasoning-effort` value. Unlisted levels clamp
/// to the nearest supported effort.
pub fn to_effort(reasoning: Option<ReasoningLevel>) -> (word: Option<&'static str>)
    ensures
        opt_chars(word) == match reasoning {
            Some(level) => Some(effort(level)),
            None => None,
        },
{
    match reasoning {
        Some(level) => Some(
            match level {
                ReasoningLevel::Minimal | ReasoningLevel::Low => "low",
                ReasoningLevel::Medium => "medium",
                ReasoningLevel::High
                | ReasoningLevel::XHigh
                | ReasoningLevel::Max
                | ReasoningLevel::Ultra
                | ReasoningLevel::Ultracode
                | ReasoningLevel::Ultrathink => "high",
            },
        ),
        None => None,
    }
}

/// How the agent's environment spells a sandbox level.
pub open spec fn sandbox_word(sandbox: SandboxLevel) -> Seq<char> {
    match sandbox {
        SandboxLevel::ReadOnly => "read-only"@,
        SandboxLevel::WorkspaceWrite => "workspace"@,
        SandboxLevel::DangerFullAccess => "off"@,
    }
}

/// Map a sandbox level into the child's `GROK_SANDBOX` value.
pub fn sandbox_env(sandbox: SandboxLevel) -> (word: &'static str)
    ensures
        word@ == sandbox_word(sandbox),
{
    match sandbox {
        SandboxLevel::ReadOnly => "read-only",
        SandboxLevel::WorkspaceWrite => "workspace",
        SandboxLevel::DangerFullAccess => "off",
    }
}

/// The level that an effort word stands for, in any case.
pub open spec fn effort_level(word: Seq<char>) -> Option<ReasoningLevel> {
    let lower = ascii_lowercase(word);
    if lower == "low"@ {
        Some(ReasoningLevel::Low)
    } else if lower == "medium"@ {
        Some(ReasoningLevel::Medium)
    } else if lower == "high"@ {
        Some(ReasoningLevel::High)
    } else {
        None
    }
}

/// Read an effort word, in any case.
pub fn parse_effort(word: &str) -> (level: Option<ReasoningLevel>)
    ensures
        level == effort_level(word@),
{
    let lower = word.to_ascii_lowercase();
    let lower = lower.as_str();
    if str_eq(lower, "low") {
        Some(ReasoningLevel::Low)
    } else if str_eq(lower, "medium") {
        Some(ReasoningLevel::Medium)
    } else if str_eq(lower, "high") {
        Some(ReasoningLevel::High)
    } else {
        None
    }
}

// ---------------------------------------------------------------------------
// Models
// ---------------------------------------------------------------------------

/// The level that one entry of `reasoningEfforts` names.
pub open spec fn offered_level(entry: JsonView) -> Option<ReasoningLevel> {
    match str_of(entry.get_either("value"@, "id"@)) {
        Some(word) => effort_level(word),
        None => None,
    }
}

/// Whether some entry names `level`.
pub open spec fn offers(efforts: Seq<JsonView>, level: ReasoningLevel) -> bool {
    exists|i: int| 0 <= i < efforts.len() && offered_level(#[trigger] efforts[i]) == Some(level)
}

/// The ladder as far as it is offered: in order, each level once.
pub open spec fn offered_ladder(efforts: Seq<JsonView>) -> Seq<ReasoningLevel> {
    ladder().filter(|level: ReasoningLevel| offers(efforts, level))
}

/// The reasoning levels of a model: those that it offers; where it offers none
/// that is known, the whole ladder, unless it says that it supports no effort.
pub open spec fn entry_levels(entry: JsonView) -> Seq<ReasoningLevel> {
    let meta = entry.get("_meta"@);
    let offered = offered_ladder(items_of(member_of(meta, "reasoningEfforts"@)));
    if offered.len() > 0 {
        offered
    } else if bool_of(member_of(meta, "supportsReasoningEffort"@)) == Some(false) {
        Seq::empty()
    } else {
        ladder()
    }
}

/// The model row of one entry of `availableModels`; none where it has no id.
pub open spec fn entry_model(entry: JsonView) -> Option<ModelView> {
    match non_empty(str_of(entry.get_either("modelId"@, "id"@))) {
        Some(id) => Some(
            ModelView {
                id,
                label: match non_empty(str_of(entry.get_either("name"@, "label"@))) {
                    Some(label) => label,
                    None => id,
                },
                description: non_empty(entry.str_at("description"@)),
                reasoning_levels: entry_levels(entry),
            },
        ),
        None => None,
    }
}

/// The rows of all entries that have one, in order.
pub open spec fn rows(entries: Seq<JsonView>) -> Seq<ModelView>
    decreases entries.len(),
{
    if entries.len() == 0 {
        Seq::empty()
    } else {
        let before = rows(entries.drop_last());
        match entry_model(entries.last()) {
            Some(model) => before.push(model),
            None => before,
        }
    }
}

/// The id of the current model.
pub open spec fn current_model(state: JsonView) -> Option<Seq<char>> {
    non_empty(state.str_at("currentModelId"@))
}

/// The row of a model of which only the id is known.
pub open spec fn bare_model(id: Seq<char>) -> ModelView {
    ModelView { id, label: id, description: None, reasoning_levels: ladder() }
}

/// The rows of the state, or one for the current model where there are none.
pub open spec fn listed_models(state: JsonView) -> Seq<ModelView> {
    let listed = rows(items_of(state.get("availableModels"@)));
    if listed.len() == 0 && current_model(state) is Some {
        seq![bare_model(current_model(state)->0)]
    } else {
        listed
    }
}

/// Whether the row at `i` is the first one with this id.
pub open spec fn first_with_id(models: Seq<ModelView>, id: Seq<char>, i: int) -> bool {
    &&& 0 <= i < models.len()
    &&& models[i].id == id
    &&& forall|j: int| 0 <= j < i ==> (#[trigger] models[j]).id != id
}

/// The rows with those at `0` and `i` exchanged.
pub open spec fn exchanged(models: Seq<ModelView>, i: int) -> Seq<ModelView> {
    models.update(0, models[i]).update(i, models[0])
}

/// The rows of the state, the current model exchanged to the front where it is
/// among them.
pub open spec fn catalog_models(state: JsonView) -> Seq<ModelView> {
    let listed = listed_models(state);
    match current_model(state) {
        Some(id) => if exists|i: int| first_with_id(listed, id, i) {
            exchanged(listed, choose|i: int| first_with_id(listed, id, i))
        } else {
            listed
        },
        None => listed,
    }
}

/// Parse `_meta.modelState` (or an equivalent object with `currentModelId` and
/// `availableModels`) into the current model's id and the rows of the picker.
///
/// Where no model is listed but a current id is present, a single row for that id
/// is made up, so that there is something to select. The current model comes
/// first where it is listed.
pub fn models_from_model_state(state: &Json) -> (catalog: (Option<String>, Vec<Model>))
    ensures
        opt_text(catalog.0) == current_model(state@),
        models_view(catalog.1@) == catalog_models(state@),
{
    let current = owned(unless_empty(state.str_at("currentModelId")));
    let mut models = match state.get("availableModels") {
        Some(list) => match list.as_array() {
            Some(entries) => models_from_entries(entries),
            None => Vec::new(),
        },
        None => Vec::new(),
    };
    assert(models_view(models@) =~= rows(items_of(state@.get("availableModels"@))));
    let id = match &current {
        Some(id) => id.as_str(),
        None => {
            return (None, models);
        },
    };
    if models.len() == 0 {
        models.push(
            Model {
                id: id.to_owned(),
                label: id.to_owned(),
                description: None,
                reasoning_levels: reasoning_ladder(),
            },
        );
        assert(models_view(models@) =~= seq![bare_model(id@)]);
    }
    let ghost listed = models_view(models@);
    assert(listed == listed_models(state@));
    let mut i: usize = 0;
    while i < models.len()
        invariant
            i <= models.len(),
            listed == models_view(models@),
            forall|j: int| 0 <= j < i ==> (#[trigger] listed[j]).id != id@,
        ensures
            i <= models.len(),
            listed == models_view(models@),
            forall|j: int| 0 <= j < i ==> (#[trigger] listed[j]).id != id@,
            i < models.len() ==> listed[i as int].id == id@,
        decreases models.len() - i,
    {
        if str_eq(models[i].id.as_str(), id) {
            assert(listed[i as int].id == id@);
            break;
        }
        assert(listed[i as int].id != id@);
        i += 1;
    }
    if i < models.len() {
        assert(first_with_id(listed, id@, i as int));
        if i > 0 {
            let chosen = models.remove(i);
            let first = models.remove(0);
            models.insert(0, chosen);
            models.insert(i, first);
        }
        assert(models_view(models@) =~= exchanged(listed, i as int));
        proof {
            lemma_first_is_unique(listed, id@, i as int);
        }
    }
    (current, models)
}

proof fn lemma_first_is_unique(models: Seq<ModelView>, id: Seq<char>, i: int)
    requires
        first_with_id(models, id, i),
    ensures
        i == choose|j: int| first_with_id(models, id, j),
{
    let j = choose|j: int| first_with_id(models, id, j);
    assert(first_with_id(models, id, j));
    if j < i {
        assert(models[j].id != id);
    }
    if i < j {
        assert(models[i].id != id);
    }
}

fn models_from_entries(entries: &Vec<Json>) -> (models: Vec<Model>)
    ensures
        models_view(models@) == rows(items_view(entries@)),
{
    let ghost all = items_view(entries@);
    let mut models: Vec<Model> = Vec::new();
    let mut i: usize = 0;
    assert(models_view(models@) =~= rows(all.take(0)));
    while i < entries.len()
        invariant
            i <= entries.len(),
            all == items_view(entries@),
            models_view(models@) == rows(all.take(i as int)),
        decreases entries.len() - i,
    {
        let ghost before = models@;
        proof {
            assert(all.take(i + 1).drop_last() =~= all.take(i as int));
            assert(all.take(i + 1).last() == entries@[i as int]@);
        }
        match model_from_entry(&entries[i]) {
            Some(model) => {
                models.push(model);
                assert(models_view(models@) =~= models_view(before).push(model@));
            },
            None => {},
        }
        i += 1;
    }
    assert(all.take(i as int) =~= all);
    models
}

/// The value of an optional model.
pub open spec fn opt_model(model: Option<Model>) -> Option<ModelView> {
    match model {
        Some(row) => Some(row@),
        None => None,
    }
}

/// The model row of one entry; none where it has no id.
pub fn model_from_entry(entry: &Json) -> (model: Option<Model>)
    ensures
        opt_model(model) == entry_model(entry@),
{
    let id = match unless_empty(str_in(entry.get_either("modelId", "id"))) {
        Some(id) => id,
        None => {
            return None;
        },
    };
    let label = match unless_empty(str_in(entry.get_either("name", "label"))) {
        Some(label) => label,
        None => id,
    };
    let description = owned(unless_empty(entry.str_at("description")));
    let reasoning_levels = reasoning_levels_from_entry(entry);
    Some(Model { id: id.to_owned(), label: label.to_owned(), description, reasoning_levels })
}

pub proof fn lemma_offered_ladder(efforts: Seq<JsonView>)
    ensures
        offered_ladder(efforts) == (if offers(efforts, ReasoningLevel::Low) {
            seq![ReasoningLevel::Low]
        } else {
            Seq::empty()
        }) + (if offers(efforts, ReasoningLevel::Medium) {
            seq![ReasoningLevel::Medium]
        } else {
            Seq::empty()
        }) + (if offers(efforts, ReasoningLevel::High) {
            seq![ReasoningLevel::High]
        } else {
            Seq::empty()
        }),
{
    reveal(Seq::filter);
    reveal_with_fuel(Seq::filter, 4);
    assert(ladder().drop_last() =~= seq![ReasoningLevel::Low, ReasoningLevel::Medium]);
    assert(ladder().drop_last().drop_last() =~= seq![ReasoningLevel::Low]);
    assert(ladder().drop_last().drop_last().drop_last() =~= Seq::empty());
}

/// The reasoning levels of one entry.
pub fn reasoning_levels_from_entry(entry: &Json) -> (levels: Vec<ReasoningLevel>)
    ensures
        levels@ == entry_levels(entry@),
{
    let meta = entry.get("_meta");
    let ghost efforts = items_of(member_of(entry@.get("_meta"@), "reasoningEfforts"@));
    let listed = match member_in(meta, "reasoningEfforts") {
        Some(value) => value.as_array(),
        None => None,
    };
    let mut low = false;
    let mut medium = false;
    let mut high = false;
    match listed {
        Some(list) => {
            assert(efforts == items_view(list@));
            let mut i: usize = 0;
            while i < list.len()
                invariant
                    i <= list.len(),
                    efforts == items_view(list@),
                    low == offers(efforts.take(i as int), ReasoningLevel::Low),
                    medium == offers(efforts.take(i as int), ReasoningLevel::Medium),
                    high == offers(efforts.take(i as int), ReasoningLevel::High),
                decreases list.len() - i,
            {
                let effort = &list[i];
                let level = match str_in(effort.get_either("value", "id")) {
                    Some(word) => parse_effort(word),
                    None => None,
                };
                proof {
                    assert(efforts[i as int] == effort@);
                    lemma_offers_next(efforts, i as int, ReasoningLevel::Low);
                    lemma_offers_next(efforts, i as int, ReasoningLevel::Medium);
                    lemma_offers_next(efforts, i as int, ReasoningLevel::High);
                }
                match level {
                    Some(ReasoningLevel::Low) => {
                        low = true;
                    },
                    Some(ReasoningLevel::Medium) => {
                        medium = true;
                    },
                    Some(ReasoningLevel::High) => {
                        high = true;
                    },
                    _ => {},
                }
                i += 1;
            }
            assert(efforts.take(i as int) =~= efforts);
        },
        None => {
            assert(efforts =~= Seq::empty());
        },
    }
    let mut levels: Vec<ReasoningLevel> = Vec::new();
    if low {
        levels.push(ReasoningLevel::Low);
    }
    if medium {
        levels.push(ReasoningLevel::Medium);
    }
    if high {
        levels.push(ReasoningLevel::High);
    }
    proof {
        lemma_offered_ladder(efforts);
        assert(levels@ =~= offered_ladder(efforts));
    }
    if levels.len() > 0 {
        return levels;
    }
    match bool_in(member_in(meta, "supportsReasoningEffort")) {
        Some(false) => levels,
        _ => reasoning_ladder(),
    }
}

proof fn lemma_offers_next(efforts: Seq<JsonView>, i: int, level: ReasoningLevel)
    requires
        0 <= i < efforts.len(),
    ensures
        offers(efforts.take(i + 1), level) == (offers(efforts.take(i), level) || offered_level(
            efforts[i],
        ) == Some(level)),
{
    let before = efforts.take(i);
    let after = efforts.take(i + 1);
    if offers(after, level) {
        let j = choose|j: int| 0 <= j < after.len() && offered_level(#[trigger] after[j]) == Some(level);
        if j < i {
            assert(before[j] == after[j]);
        }
    }
    if offers(before, level) {
        let j = choose|j: int| 0 <= j < before.len() && offered_level(#[trigger] before[j]) == Some(level);
        assert(after[j] == before[j]);
    }
    if offered_level(efforts[i]) == Some(level) {
        assert(after[i] == efforts[i]);
    }
}

// ---------------------------------------------------------------------------
// Laws
// ---------------------------------------------------------------------------

/// Clamping keeps every level of the ladder, and leads into the ladder.
pub proof fn law_clamp_keeps_the_ladder(level: ReasoningLevel)
    ensures
        ladder().contains(clamp(level)),
        ladder().contains(level) <==> clamp(level) == level,
{
    assert(ladder()[0] == ReasoningLevel::Low);
    assert(ladder()[1] == ReasoningLevel::Medium);
    assert(ladder()[2] == ReasoningLevel::High);
}

proof fn lemma_lowercase_of_words()
    ensures
        ascii_lowercase("low"@) == "low"@,
        ascii_lowercase("medium"@) == "medium"@,
        ascii_lowercase("high"@) == "high"@,
        "low"@ != "medium"@,
        "low"@ != "high"@,
        "medium"@ != "high"@,
{
    reveal_strlit("low");
    reveal_strlit("medium");
    reveal_strlit("high");
    assert(ascii_lowercase("low"@) =~= "low"@);
    assert(ascii_lowercase("medium"@) =~= "medium"@);
    assert(ascii_lowercase("high"@) =~= "high"@);
    assert("low"@[0] != "medium"@[0]);
    assert("low"@[0] != "high"@[0]);
    assert("medium"@[0] != "high"@[0]);
}

/// Reading the word that is written for a level gives the level back, clamped.
pub proof fn law_effort_reads_back(level: ReasoningLevel)
    ensures
        effort_level(effort(level)) == Some(clamp(level)),
{
    lemma_lowercase_of_words();
}

/// Effort words are read in any case: two words that differ in ASCII case alone
/// stand for the same level.
pub proof fn law_effort_ignores_case(word: Seq<char>, other: Seq<char>)
    requires
        ascii_lowercase(word) == ascii_lowercase(other),
    ensures
        effort_level(word) == effort_level(other),
{
}

/// The sandbox words tell the levels apart.
pub proof fn law_sandbox_words_differ(one: SandboxLevel, other: SandboxLevel)
    requires
        sandbox_word(one) == sandbox_word(other),
    ensures
        one == other,
{
    reveal_strlit("read-only");
    reveal_strlit("workspace");
    reveal_strlit("off");
    assert("read-only"@[0] != "workspace"@[0]);
    assert("read-only"@[0] != "off"@[0]);
    assert("workspace"@[0] != "off"@[0]);
}

/// The rank of a level on the ladder.
pub open spec fn rank(level: ReasoningLevel) -> int {
    match level {
        ReasoningLevel::Low => 0,
        ReasoningLevel::Medium => 1,
        _ => 2,
    }
}

/// The levels of a model are levels of the ladder, in its order, each once.
pub proof fn law_levels_are_an_ordered_part_of_the_ladder(entry: JsonView, i: int, j: int)
    requires
        0 <= i < j < entry_levels(entry).len(),
    ensures
        ladder().contains(entry_levels(entry)[i]),
        ladder().contains(entry_levels(entry)[j]),
        rank(entry_levels(entry)[i]) < rank(entry_levels(entry)[j]),
{
    lemma_offered_ladder(items_of(member_of(entry.get("_meta"@), "reasoningEfforts"@)));
    assert(ladder()[0] == ReasoningLevel::Low);
    assert(ladder()[1] == ReasoningLevel::Medium);
    assert(ladder()[2] == ReasoningLevel::High);
}

/// Where an entry names at least one known level, exactly the named levels are
/// those of its model.
pub proof fn law_named_levels_are_offered(entry: JsonView, level: ReasoningLevel)
    requires
        exists|known: ReasoningLevel|
            offers(items_of(member_of(entry.get("_meta"@), "reasoningEfforts"@)), known),
    ensures
        entry_levels(entry).contains(level) <==> offers(
            items_of(member_of(entry.get("_meta"@), "reasoningEfforts"@)),
            level,
        ),
{
    let efforts = items_of(member_of(entry.get("_meta"@), "reasoningEfforts"@));
    let levels = offered_ladder(efforts);
    let known = choose|known: ReasoningLevel| offers(efforts, known);
    lemma_offered_levels_are_known(efforts, known);
    lemma_offered_levels_are_known(efforts, level);
    lemma_offered_ladder(efforts);
    let low = offers(efforts, ReasoningLevel::Low);
    let medium = offers(efforts, ReasoningLevel::Medium);
    assert(levels.len() > 0);
    if offers(efforts, level) {
        let at = if level is Low {
            0int
        } else if level is Medium {
            if low { 1int } else { 0int }
        } else {
            (if low { 1int } else { 0int }) + (if medium { 1int } else { 0int })
        };
        assert(levels[at] == level);
    }
    if levels.contains(level) {
        let at = choose|at: int| 0 <= at < levels.len() && levels[at] == level;
        assert(levels[at] == level);
    }
}

proof fn lemma_offered_levels_are_known(efforts: Seq<JsonView>, level: ReasoningLevel)
    ensures
        offers(efforts, level) ==> level is Low || level is Medium || level is High,
{
}

/// The catalog lists the same rows as the state does, as often: only their order
/// can differ.
pub proof fn law_catalog_is_a_permutation(state: JsonView)
    ensures
        catalog_models(state).to_multiset() == listed_models(state).to_multiset(),
        catalog_models(state).len() == listed_models(state).len(),
{
    let listed = listed_models(state);
    if current_model(state) is Some {
        let id = current_model(state)->0;
        if exists|i: int| first_with_id(listed, id, i) {
            let i = choose|i: int| first_with_id(listed, id, i);
            lemma_exchange_keeps_rows(listed, i);
        }
    }
}

proof fn lemma_exchange_keeps_rows(models: Seq<ModelView>, i: int)
    requires
        0 <= i < models.len(),
    ensures
        exchanged(models, i).to_multiset() == models.to_multiset(),
{
    broadcast use vstd::seq_lib::group_to_multiset_ensures;

    let once = models.update(0, models[i]);
    vstd::seq_lib::to_multiset_update(models, 0, models[i]);
    vstd::seq_lib::to_multiset_update(once, i, models[0]);
    assert(exchanged(models, i).to_multiset() =~= models.to_multiset());
}

/// The current model comes first wherever it is listed.
pub proof fn law_current_model_comes_first(state: JsonView, i: int)
    requires
        current_model(state) is Some,
        0 <= i < listed_models(state).len(),
        listed_models(state)[i].id == current_model(state)->0,
    ensures
        catalog_models(state)[0].id == current_model(state)->0,
{
    lemma_some_row_is_first(listed_models(state), current_model(state)->0, i);
}

proof fn lemma_some_row_is_first(models: Seq<ModelView>, id: Seq<char>, i: int)
    requires
        0 <= i < models.len(),
        models[i].id == id,
    ensures
        exists|k: int| first_with_id(models, id, k),
    decreases i,
{
    if forall|j: int| 0 <= j < i ==> (#[trigger] models[j]).id != id {
        assert(first_with_id(models, id, i));
    } else {
        let j = choose|j: int| 0 <= j < i && (#[trigger] models[j]).id == id;
        lemma_some_row_is_first(models, id, j);
    }
}

/// Where a current model is named, there is something to select; and where it is
/// named but nothing is listed, its row is the only one.
pub proof fn law_current_model_can_be_selected(state: JsonView)
    requires
        current_model(state) is Some,
    ensures
        catalog_models(state).len() > 0,
        rows(items_of(state.get("availableModels"@))).len() == 0 ==> catalog_models(state) == seq![
            bare_model(current_model(state)->0),
        ],
{
    law_catalog_is_a_permutation(state);
    if rows(items_of(state.get("availableModels"@))).len() == 0 {
        let id = current_model(state)->0;
        let listed = listed_models(state);
        assert(first_with_id(listed, id, 0));
        lemma_first_is_unique(listed, id, 0);
        assert(catalog_models(state) =~= listed);
    }
}

proof fn lemma_rows_have_ids(entries: Seq<JsonView>, i: int)
    requires
        0 <= i < rows(entries).len(),
    ensures
        rows(entries)[i].id.len() > 0,
        rows(entries)[i].label.len() > 0,
    decreases entries.len(),
{
    if i < rows(entries.drop_last()).len() {
        lemma_rows_have_ids(entries.drop_last(), i);
    }
}

/// Every row of the catalog has an id and a label.
pub proof fn law_rows_have_ids(state: JsonView, i: int)
    requires
        0 <= i < catalog_models(state).len(),
    ensures
        catalog_models(state)[i].id.len() > 0,
        catalog_models(state)[i].label.len() > 0,
{
    let entries = items_of(state.get("availableModels"@));
    let listed = listed_models(state);
    assert forall|j: int| 0 <= j < listed.len() implies (#[trigger] listed[j]).id.len() > 0
        && listed[j].label.len() > 0 by {
        if rows(entries).len() > 0 {
            lemma_rows_have_ids(entries, j);
        }
    }
}

} // verus!
