//! What the model catalog and the words on the command line mean, said of the members
//! that the agent's state holds.

use vstd::prelude::*;
use crate::catalog::{
    catalog_models, clamp, current_model, effort, effort_level, entry_levels, entry_model, exchanged,
    first_with_id, ladder, lemma_offered_ladder, listed_models, offers, rows, sandbox_word,
};
use crate::json::{items_of, member_of, JsonView};
use crate::proto::{ModelView, ReasoningLevel, SandboxLevel};
use crate::text::ascii_lowercase;
use crate::value_laws::{holds, holds_text, lacks, lacks_text};

verus! {

/// The ladder has three rungs: low, medium, high.
pub proof fn law_ladder_has_three_rungs()
    ensures
        ladder().len() == 3,
        ladder()[0] == ReasoningLevel::Low,
        ladder()[1] == ReasoningLevel::Medium,
        ladder()[2] == ReasoningLevel::High,
{
}

/// Every level has the word of the nearest rung: `low` up to low, `medium` for medium
/// alone, `high` from high on.
pub proof fn law_every_level_has_the_nearest_word(level: ReasoningLevel)
    ensures
        level is Minimal || level is Low ==> effort(level) == "low"@ && clamp(level)
            == ReasoningLevel::Low,
        level is Medium ==> effort(level) == "medium"@ && clamp(level) == ReasoningLevel::Medium,
        level is High || level is XHigh || level is Max || level is Ultra || level is Ultracode
            || level is Ultrathink ==> effort(level) == "high"@ && clamp(level)
            == ReasoningLevel::High,
{
}

/// The word of a sandbox level.
pub proof fn law_every_sandbox_has_its_word(sandbox: SandboxLevel)
    ensures
        sandbox is ReadOnly ==> sandbox_word(sandbox) == "read-only"@,
        sandbox is WorkspaceWrite ==> sandbox_word(sandbox) == "workspace"@,
        sandbox is DangerFullAccess ==> sandbox_word(sandbox) == "off"@,
{
}

/// A word stands for a level exactly if it spells one of the three, in any case.
pub proof fn law_words_stand_for_rungs(word: Seq<char>)
    ensures
        effort_level(word) == Some(ReasoningLevel::Low) <==> ascii_lowercase(word) == "low"@,
        effort_level(word) == Some(ReasoningLevel::Medium) <==> ascii_lowercase(word)
            == "medium"@,
        effort_level(word) == Some(ReasoningLevel::High) <==> ascii_lowercase(word) == "high"@,
        effort_level(word) matches Some(level) ==> level is Low || level is Medium || level
            is High,
{
    lemma_words();
}

proof fn lemma_words()
    ensures
        "low"@.len() == 3,
        "medium"@.len() == 6,
        "high"@.len() == 4,
{
    reveal_strlit("low");
    reveal_strlit("medium");
    reveal_strlit("high");
}

// ---------------------------------------------------------------------------
// Rows
// ---------------------------------------------------------------------------

/// Whether an entry is that of the model with this id.
pub open spec fn is_entry_of(entry: JsonView, id: Seq<char>) -> bool {
    &&& id.len() > 0
    &&& holds_text(entry, "modelId"@, id) || lacks(entry, "modelId"@) && holds_text(
        entry,
        "id"@,
        id,
    )
}

/// Whether an entry is called so.
pub open spec fn is_called(entry: JsonView, label: Seq<char>) -> bool {
    &&& label.len() > 0
    &&& holds_text(entry, "name"@, label) || lacks(entry, "name"@) && holds_text(
        entry,
        "label"@,
        label,
    )
}

/// An entry has a row exactly if it has an id, and the row has that id.
pub proof fn law_entry_with_an_id_has_a_row(entry: JsonView)
    ensures
        forall|id: Seq<char>| #[trigger]
            is_entry_of(entry, id) ==> (entry_model(entry) matches Some(row) && row.id == id),
        (forall|id: Seq<char>| !is_entry_of(entry, id)) ==> entry_model(entry) is None,
{
    if entry_model(entry) is Some {
        assert(is_entry_of(entry, entry_model(entry)->0.id));
    }
}

/// A row shows what its entry is called, or the id where it is called nothing, and the
/// description where there is one.
pub proof fn law_row_shows_name_and_description(entry: JsonView, id: Seq<char>)
    requires
        is_entry_of(entry, id),
    ensures
        entry_model(entry) matches Some(row) && {
            &&& forall|label: Seq<char>| #[trigger] is_called(entry, label) ==> row.label == label
            &&& (forall|label: Seq<char>| !is_called(entry, label)) ==> row.label == id
            &&& forall|words: Seq<char>|
                #![trigger holds_text(entry, "description"@, words)]
                holds_text(entry, "description"@, words) ==> row.description == if words.len()
                    > 0 {
                    Some(words)
                } else {
                    None
                }
            &&& lacks_text(entry, "description"@) ==> row.description is None
            &&& row.reasoning_levels == entry_levels(entry)
        },
{
    let row = entry_model(entry)->0;
    let given = entry.get_either("name"@, "label"@);
    if given is Some && given->0 is String && given->0->String_0.len() > 0 {
        assert(is_called(entry, given->0->String_0));
    }
}

/// Whether an entry of an effort list names this word.
pub open spec fn names_effort(item: JsonView, word: Seq<char>) -> bool {
    holds_text(item, "value"@, word) || lacks(item, "value"@) && holds_text(item, "id"@, word)
}

/// Whether an entry lists an effort that spells this word, in any case.
pub open spec fn lists_effort(entry: JsonView, word: Seq<char>) -> bool {
    exists|meta: JsonView, items: Seq<JsonView>, i: int, written: Seq<char>|
        {
            &&& holds(entry, "_meta"@, meta)
            &&& holds(meta, "reasoningEfforts"@, JsonView::Array(items))
            &&& 0 <= i < items.len()
            &&& #[trigger] names_effort(items[i], written)
            &&& #[trigger] holds(meta, "reasoningEfforts"@, JsonView::Array(items))
            &&& #[trigger] holds(entry, "_meta"@, meta)
            &&& ascii_lowercase(written) == word
        }
}

proof fn lemma_lists(entry: JsonView, level: ReasoningLevel, word: Seq<char>)
    requires
        level is Low && word == "low"@ || level is Medium && word == "medium"@ || level is High
            && word == "high"@,
    ensures
        lists_effort(entry, word) <==> offers(
            items_of(member_of(entry.get("_meta"@), "reasoningEfforts"@)),
            level,
        ),
{
    lemma_words();
    let efforts = items_of(member_of(entry.get("_meta"@), "reasoningEfforts"@));
    if lists_effort(entry, word) {
        let (meta, items, i, written) = choose|
            meta: JsonView,
            items: Seq<JsonView>,
            i: int,
            written: Seq<char>,
        |
            {
                &&& holds(entry, "_meta"@, meta)
                &&& holds(meta, "reasoningEfforts"@, JsonView::Array(items))
                &&& 0 <= i < items.len()
                &&& #[trigger] names_effort(items[i], written)
                &&& #[trigger] holds(meta, "reasoningEfforts"@, JsonView::Array(items))
                &&& #[trigger] holds(entry, "_meta"@, meta)
                &&& ascii_lowercase(written) == word
            };
        assert(efforts == items);
        assert(crate::catalog::offered_level(efforts[i]) == Some(level));
    }
    if offers(efforts, level) {
        let i = choose|i: int|
            0 <= i < efforts.len() && crate::catalog::offered_level(#[trigger] efforts[i]) == Some(
                level,
            );
        let meta = entry.get("_meta"@)->0;
        assert(holds(entry, "_meta"@, meta));
        assert(holds(meta, "reasoningEfforts"@, JsonView::Array(efforts)));
        let written = efforts[i].get_either("value"@, "id"@)->0->String_0;
        assert(names_effort(efforts[i], written));
    }
}

/// Whether an entry says that its model supports no effort.
pub open spec fn denies_effort(entry: JsonView) -> bool {
    exists|meta: JsonView| #[trigger]
        holds(entry, "_meta"@, meta) && holds(
            meta,
            "supportsReasoningEffort"@,
            JsonView::Bool(false),
        )
}

/// The levels of a model: those that its entry lists, from low to high. Where it lists
/// none of the three, all three, unless it says that it supports none.
pub proof fn law_model_has_the_levels_it_lists(entry: JsonView)
    ensures
        ({
            let low = lists_effort(entry, "low"@);
            let medium = lists_effort(entry, "medium"@);
            let high = lists_effort(entry, "high"@);
            let listed = (if low {
                seq![ReasoningLevel::Low]
            } else {
                Seq::empty()
            }) + (if medium {
                seq![ReasoningLevel::Medium]
            } else {
                Seq::empty()
            }) + (if high {
                seq![ReasoningLevel::High]
            } else {
                Seq::empty()
            });
            &&& low || medium || high ==> entry_levels(entry) == listed
            &&& !low && !medium && !high && denies_effort(entry) ==> entry_levels(entry).len()
                == 0
            &&& !low && !medium && !high && !denies_effort(entry) ==> entry_levels(entry) == seq![
                ReasoningLevel::Low,
                ReasoningLevel::Medium,
                ReasoningLevel::High,
            ]
        }),
{
    let efforts = items_of(member_of(entry.get("_meta"@), "reasoningEfforts"@));
    lemma_lists(entry, ReasoningLevel::Low, "low"@);
    lemma_lists(entry, ReasoningLevel::Medium, "medium"@);
    lemma_lists(entry, ReasoningLevel::High, "high"@);
    lemma_offered_ladder(efforts);
    let meta = entry.get("_meta"@);
    if meta is Some {
        assert(holds(entry, "_meta"@, meta->0));
    }
}

// ---------------------------------------------------------------------------
// The catalog
// ---------------------------------------------------------------------------

/// The current model is the one that the state names, unless the name is empty.
pub proof fn law_state_names_the_current_model(state: JsonView, id: Seq<char>)
    ensures
        current_model(state) == Some(id) <==> id.len() > 0 && holds_text(
            state,
            "currentModelId"@,
            id,
        ),
{
}

/// The members of a state that names no current model and lists these entries.
pub open spec fn lists_only(state: JsonView, entries: Seq<JsonView>) -> bool {
    &&& holds(state, "availableModels"@, JsonView::Array(entries))
    &&& forall|id: Seq<char>| holds_text(state, "currentModelId"@, id) ==> id.len() == 0
}

proof fn lemma_lists_only(state: JsonView, entries: Seq<JsonView>)
    requires
        lists_only(state, entries),
    ensures
        catalog_models(state) == rows(entries),
{
    if current_model(state) is Some {
        assert(holds_text(state, "currentModelId"@, current_model(state)->0));
    }
}

/// A state without a current model and without entries has an empty catalog.
pub proof fn law_nothing_listed_nothing_shown(state: JsonView)
    requires
        forall|id: Seq<char>| holds_text(state, "currentModelId"@, id) ==> id.len() == 0,
        forall|entries: Seq<JsonView>|
            entries.len() > 0 ==> !#[trigger] holds(
                state,
                "availableModels"@,
                JsonView::Array(entries),
            ),
    ensures
        catalog_models(state).len() == 0,
{
    if current_model(state) is Some {
        assert(holds_text(state, "currentModelId"@, current_model(state)->0));
    }
    if state is Object && state->Object_0.contains_key("availableModels"@) {
        let list = state->Object_0["availableModels"@];
        if list is Array {
            assert(holds(state, "availableModels"@, JsonView::Array(list->Array_0)));
        }
    }
}

/// One more entry at the end of the list adds its row at the end of the catalog, and
/// changes nothing else; an entry without an id adds nothing.
pub proof fn law_each_entry_adds_its_row(
    state: JsonView,
    longer: JsonView,
    entries: Seq<JsonView>,
    entry: JsonView,
)
    requires
        lists_only(state, entries),
        lists_only(longer, entries.push(entry)),
    ensures
        entry_model(entry) matches Some(row) ==> catalog_models(longer) == catalog_models(
            state,
        ).push(row),
        entry_model(entry) is None ==> catalog_models(longer) == catalog_models(state),
{
    lemma_lists_only(state, entries);
    lemma_lists_only(longer, entries.push(entry));
    assert(entries.push(entry).drop_last() =~= entries);
}

/// Naming a current model only moves rows: the first row with its id goes to the front,
/// the row that stood there takes its place, and all others stay. Where no row has its
/// id, none moves.
pub proof fn law_naming_a_model_brings_it_to_the_front(
    state: JsonView,
    plain: JsonView,
    entries: Seq<JsonView>,
    id: Seq<char>,
    at: int,
)
    requires
        id.len() > 0,
        holds_text(state, "currentModelId"@, id),
        holds(state, "availableModels"@, JsonView::Array(entries)),
        lists_only(plain, entries),
        catalog_models(plain).len() > 0,
    ensures
        catalog_models(state).len() == catalog_models(plain).len(),
        0 <= at < catalog_models(plain).len() && catalog_models(plain)[at].id == id && (forall|
            j: int,
        |
            0 <= j < at ==> (#[trigger] catalog_models(plain)[j]).id != id) ==> {
            &&& catalog_models(state)[0] == catalog_models(plain)[at]
            &&& catalog_models(state)[at] == catalog_models(plain)[0]
            &&& forall|j: int|
                0 < j < catalog_models(plain).len() && j != at ==> catalog_models(state)[j]
                    == #[trigger] catalog_models(plain)[j]
        },
        (forall|j: int|
            0 <= j < catalog_models(plain).len() ==> (#[trigger] catalog_models(plain)[j]).id
                != id) ==> catalog_models(state) == catalog_models(plain),
{
    lemma_lists_only(plain, entries);
    let listed = rows(entries);
    assert(listed_models(state) == listed);
    assert(current_model(state) == Some(id));
    if exists|i: int| first_with_id(listed, id, i) {
        let i = choose|i: int| first_with_id(listed, id, i);
        if 0 <= at < listed.len() && listed[at].id == id && (forall|j: int|
            0 <= j < at ==> (#[trigger] listed[j]).id != id) {
            if i < at {
                assert(listed[i].id != id);
            }
            if at < i {
                assert(listed[at].id != id);
            }
        }
        assert(catalog_models(state) == exchanged(listed, i));
        assert(listed[i].id == id);
    } else if 0 <= at < listed.len() && listed[at].id == id && (forall|j: int|
        0 <= j < at ==> (#[trigger] listed[j]).id != id) {
        assert(first_with_id(listed, id, at));
    }
}

/// A state that names a current model but lists none with an id shows that model alone:
/// under its id, without a description, with all three levels.
pub proof fn law_current_model_stands_in_for_an_empty_list(state: JsonView, id: Seq<char>)
    requires
        id.len() > 0,
        holds_text(state, "currentModelId"@, id),
        forall|entries: Seq<JsonView>| #[trigger]
            holds(state, "availableModels"@, JsonView::Array(entries)) ==> forall|i: int|
                0 <= i < entries.len() ==> entry_model(#[trigger] entries[i]) is None,
    ensures
        catalog_models(state) == seq![
            ModelView {
                id,
                label: id,
                description: None,
                reasoning_levels: seq![
                    ReasoningLevel::Low,
                    ReasoningLevel::Medium,
                    ReasoningLevel::High,
                ],
            },
        ],
{
    let entries = items_of(state.get("availableModels"@));
    if state.get("availableModels"@) is Some && state.get("availableModels"@)->0 is Array {
        assert(holds(state, "availableModels"@, JsonView::Array(entries)));
    }
    lemma_no_rows(entries);
    let listed = listed_models(state);
    assert(current_model(state) == Some(id));
    assert(first_with_id(listed, id, 0));
    let i = choose|i: int| first_with_id(listed, id, i);
    assert(first_with_id(listed, id, i));
    assert(catalog_models(state) =~= listed);
}

proof fn lemma_no_rows(entries: Seq<JsonView>)
    requires
        forall|i: int| 0 <= i < entries.len() ==> entry_model(#[trigger] entries[i]) is None,
    ensures
        rows(entries).len() == 0,
    decreases entries.len(),
{
    if entries.len() > 0 {
        assert(entry_model(entries[entries.len() - 1]) is None);
        lemma_no_rows(entries.drop_last());
    }
}

} // verus!
