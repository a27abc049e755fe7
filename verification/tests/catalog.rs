//! Effort and sandbox words, and the model catalog.

use grok_harness::catalog::{
    model_from_entry, models_from_model_state, parse_effort, reasoning_ladder,
    reasoning_levels_from_entry, sandbox_env, to_effort,
};
use grok_harness::json::{Json, JsonObject};
use grok_harness::proto::{Model, ReasoningLevel, SandboxLevel};

fn text(s: &str) -> Json {
    Json::text(s)
}

fn obj(members: Vec<(&str, Json)>) -> Json {
    let mut object = JsonObject::new();
    for (name, value) in members {
        object.insert(name.to_owned(), value);
    }
    Json::object(object)
}

fn entry(id: &str) -> Json {
    obj(vec![("modelId", text(id))])
}

fn ids(models: &[Model]) -> Vec<&str> {
    models.iter().map(|m| m.id.as_str()).collect()
}

#[test]
fn effort_maps_and_clamps() {
    assert_eq!(to_effort(None), None);
    assert_eq!(to_effort(Some(ReasoningLevel::Low)), Some("low"));
    assert_eq!(to_effort(Some(ReasoningLevel::Medium)), Some("medium"));
    assert_eq!(to_effort(Some(ReasoningLevel::High)), Some("high"));
    assert_eq!(to_effort(Some(ReasoningLevel::Minimal)), Some("low"));
    assert_eq!(to_effort(Some(ReasoningLevel::XHigh)), Some("high"));
    assert_eq!(to_effort(Some(ReasoningLevel::Ultra)), Some("high"));
}

#[test]
fn sandbox_env_values() {
    assert_eq!(sandbox_env(SandboxLevel::ReadOnly), "read-only");
    assert_eq!(sandbox_env(SandboxLevel::WorkspaceWrite), "workspace");
    assert_eq!(sandbox_env(SandboxLevel::DangerFullAccess), "off");
}

#[test]
fn model_state_parses_live_shape() {
    let state = obj(vec![
        ("currentModelId", text("grok-4.5")),
        (
            "availableModels",
            Json::array(vec![obj(vec![
                ("modelId", text("grok-4.5")),
                ("name", text("Grok 4.5")),
                ("description", text("SpaceXAI's new frontier model")),
                (
                    "_meta",
                    obj(vec![
                        ("supportsReasoningEffort", Json::Bool(true)),
                        ("reasoningEffort", text("high")),
                        (
                            "reasoningEfforts",
                            Json::array(vec![
                                obj(vec![
                                    ("id", text("high")),
                                    ("value", text("high")),
                                    ("label", text("High Effort")),
                                    ("default", Json::Bool(true)),
                                ]),
                                obj(vec![
                                    ("id", text("medium")),
                                    ("value", text("medium")),
                                    ("label", text("Medium Effort")),
                                ]),
                                obj(vec![
                                    ("id", text("low")),
                                    ("value", text("low")),
                                    ("label", text("Low Effort")),
                                ]),
                            ]),
                        ),
                    ]),
                ),
            ])]),
        ),
    ]);
    let (current, models) = models_from_model_state(&state);
    assert_eq!(current.as_deref(), Some("grok-4.5"));
    assert_eq!(models.len(), 1);
    assert_eq!(models[0].id, "grok-4.5");
    assert_eq!(models[0].label, "Grok 4.5");
    assert_eq!(
        models[0].reasoning_levels,
        vec![
            ReasoningLevel::Low,
            ReasoningLevel::Medium,
            ReasoningLevel::High
        ]
    );
    assert_eq!(
        models[0].description.as_deref(),
        Some("SpaceXAI's new frontier model")
    );
}

#[test]
fn model_state_synthesizes_current_when_catalog_empty() {
    let state = obj(vec![("currentModelId", text("grok-only"))]);
    let (current, models) = models_from_model_state(&state);
    assert_eq!(current.as_deref(), Some("grok-only"));
    assert_eq!(models.len(), 1);
    assert_eq!(models[0].id, "grok-only");
    assert_eq!(models[0].label, "grok-only");
    assert_eq!(models[0].description, None);
    assert_eq!(models[0].reasoning_levels, reasoning_ladder());
}

#[test]
fn every_level_has_a_word_that_reads_back() {
    let levels = vec![
        (ReasoningLevel::Minimal, ReasoningLevel::Low),
        (ReasoningLevel::Low, ReasoningLevel::Low),
        (ReasoningLevel::Medium, ReasoningLevel::Medium),
        (ReasoningLevel::High, ReasoningLevel::High),
        (ReasoningLevel::Max, ReasoningLevel::High),
        (ReasoningLevel::Ultracode, ReasoningLevel::High),
        (ReasoningLevel::Ultrathink, ReasoningLevel::High),
    ];
    for (level, clamped) in levels {
        let word = to_effort(Some(level)).unwrap();
        assert_eq!(parse_effort(word), Some(clamped));
    }
}

#[test]
fn effort_words_are_read_in_any_case() {
    assert_eq!(parse_effort("LOW"), Some(ReasoningLevel::Low));
    assert_eq!(parse_effort("MeDiUm"), Some(ReasoningLevel::Medium));
    assert_eq!(parse_effort("High"), Some(ReasoningLevel::High));
    assert_eq!(parse_effort("max"), None);
    assert_eq!(parse_effort(""), None);
    assert_eq!(parse_effort("höch"), None);
}

#[test]
fn current_model_is_exchanged_to_the_front() {
    let state = obj(vec![
        ("currentModelId", text("c")),
        (
            "availableModels",
            Json::array(vec![entry("a"), entry("b"), entry("c"), entry("d")]),
        ),
    ]);
    let (current, models) = models_from_model_state(&state);
    assert_eq!(current.as_deref(), Some("c"));
    assert_eq!(ids(&models), vec!["c", "b", "a", "d"]);
}

#[test]
fn first_of_two_current_rows_is_taken() {
    let state = obj(vec![
        ("currentModelId", text("b")),
        (
            "availableModels",
            Json::array(vec![
                entry("a"),
                obj(vec![("id", text("b")), ("label", text("first"))]),
                obj(vec![("id", text("b")), ("label", text("second"))]),
            ]),
        ),
    ]);
    let (_, models) = models_from_model_state(&state);
    assert_eq!(ids(&models), vec!["b", "a", "b"]);
    assert_eq!(models[0].label, "first");
    assert_eq!(models[2].label, "second");
}

#[test]
fn unlisted_current_model_changes_no_order() {
    let state = obj(vec![
        ("currentModelId", text("z")),
        ("availableModels", Json::array(vec![entry("a"), entry("b")])),
    ]);
    let (current, models) = models_from_model_state(&state);
    assert_eq!(current.as_deref(), Some("z"));
    assert_eq!(ids(&models), vec!["a", "b"]);
}

#[test]
fn state_without_models_is_empty() {
    let (current, models) = models_from_model_state(&Json::Null);
    assert_eq!(current, None);
    assert!(models.is_empty());
    let blank = obj(vec![
        ("currentModelId", text("")),
        ("availableModels", text("none")),
    ]);
    let (current, models) = models_from_model_state(&blank);
    assert_eq!(current, None);
    assert!(models.is_empty());
}

#[test]
fn entries_without_an_id_have_no_row() {
    assert!(model_from_entry(&obj(vec![("name", text("nameless"))])).is_none());
    assert!(model_from_entry(&obj(vec![("modelId", text(""))])).is_none());
    // A `modelId` that is no string hides the `id`.
    let hidden = obj(vec![("modelId", Json::Null), ("id", text("a"))]);
    assert!(model_from_entry(&hidden).is_none());
}

#[test]
fn empty_names_and_descriptions_do_not_count() {
    let row = model_from_entry(&obj(vec![
        ("id", text("a")),
        ("name", text("")),
        ("label", text("never read")),
        ("description", text("")),
    ]))
    .unwrap();
    assert_eq!(row.label, "a");
    assert_eq!(row.description, None);
}

#[test]
fn levels_come_in_order_and_once() {
    let effort = |word: &str| obj(vec![("value", text(word))]);
    let listed = obj(vec![(
        "_meta",
        obj(vec![(
            "reasoningEfforts",
            Json::array(vec![
                effort("HIGH"),
                effort("low"),
                effort("high"),
                effort("turbo"),
                obj(vec![("id", text("Low"))]),
            ]),
        )]),
    )]);
    assert_eq!(
        reasoning_levels_from_entry(&listed),
        vec![ReasoningLevel::Low, ReasoningLevel::High]
    );
}

#[test]
fn levels_fall_back_to_the_ladder_unless_unsupported() {
    assert_eq!(
        reasoning_levels_from_entry(&entry("a")),
        vec![
            ReasoningLevel::Low,
            ReasoningLevel::Medium,
            ReasoningLevel::High
        ]
    );
    let unsupported = obj(vec![(
        "_meta",
        obj(vec![("supportsReasoningEffort", Json::Bool(false))]),
    )]);
    assert!(reasoning_levels_from_entry(&unsupported).is_empty());
    // Listed levels count even so.
    let contradictory = obj(vec![(
        "_meta",
        obj(vec![
            ("supportsReasoningEffort", Json::Bool(false)),
            (
                "reasoningEfforts",
                Json::array(vec![obj(vec![("id", text("medium"))])]),
            ),
        ]),
    )]);
    assert_eq!(
        reasoning_levels_from_entry(&contradictory),
        vec![ReasoningLevel::Medium]
    );
}
