use loom_server::json::Json;
use loom_server::settings::{
    current_settings_version, default_theme_value, default_ui_preference, general_value,
    is_known_theme, is_known_ui_preference, is_valid_favicon_color, system_config,
    ui_preference_keys, valid_ui_preference_value, AppearanceSettings, ExperimentSettings,
    GeneralSettings, PreferenceUpdateError, SettingsRegistry, SettingsSnapshot, UiPreference,
    SETTINGS_VERSION,
};
use loom_server::strmap::StrMap;

#[test]
fn defaults_cover_every_contract_preference() {
    let state = SettingsRegistry::new("pi");
    let preferences = state.ui_preferences();
    assert_eq!(preferences.len(), ui_preference_keys().len());
    assert_eq!(preferences.len(), 16);
    assert!((0..preferences.len())
        .map(|i| preferences.value(i))
        .all(|preference| valid_ui_preference_value("sidebar.sectionOrder", &preference.value)
            || preference.value.as_str().is_some()
            || preference.value.is_null()));
}

#[test]
fn preference_revision_check_is_atomic() {
    let mut state = SettingsRegistry::new("pi");
    let updated = state
        .update_ui_preference("sidebar.sortDirection", 0, Json::text("ascending"))
        .unwrap();
    assert_eq!(updated.revision, 1);
    assert_eq!(updated.value, Json::text("ascending"));
    assert_eq!(
        state.update_ui_preference("sidebar.sortDirection", 0, Json::text("descending")),
        Err(PreferenceUpdateError::RevisionConflict {
            expected: 0,
            actual: 1
        })
    );
}

#[test]
fn a_snapshot_without_settings_migrates_to_defaults() {
    let mut state = SettingsRegistry::new("acp");
    let snapshot = SettingsSnapshot {
        version: 0,
        ui_preferences: StrMap::new(),
        ..SettingsSnapshot::default()
    };
    state.restore(snapshot, "acp");
    let restored = state.export();
    assert_eq!(restored.version, SETTINGS_VERSION);
    assert_eq!(restored.general.provider_order, vec!["acp"]);
    assert_eq!(restored.ui_preferences.len(), ui_preference_keys().len());
}

#[test]
fn each_refusal_of_a_preference_has_its_error() {
    let mut state = SettingsRegistry::new("pi");
    assert_eq!(
        state.update_ui_preference("sidebar.unknown", 0, Json::text("x")),
        Err(PreferenceUpdateError::UnknownKey)
    );
    assert_eq!(
        state.update_ui_preference("sidebar.sortDirection", 0, Json::text("sideways")),
        Err(PreferenceUpdateError::InvalidValue)
    );
    assert_eq!(
        state.reset_ui_preference("sidebar.unknown"),
        Err(PreferenceUpdateError::UnknownKey)
    );
    let mut snapshot = SettingsSnapshot::default();
    snapshot.ui_preferences.insert(
        "sidebar.sortDirection".to_owned(),
        UiPreference { revision: u64::MAX, value: Json::text("default") },
    );
    state.restore(snapshot, "pi");
    assert_eq!(
        state.update_ui_preference("sidebar.sortDirection", u64::MAX, Json::text("ascending")),
        Err(PreferenceUpdateError::RevisionExhausted)
    );
    assert_eq!(
        state.reset_ui_preference("sidebar.sortDirection"),
        Err(PreferenceUpdateError::RevisionExhausted)
    );
}

#[test]
fn a_reset_is_a_change_too() {
    let mut state = SettingsRegistry::new("pi");
    state
        .update_ui_preference("sidebar.organizationMode", 0, Json::text("machine"))
        .unwrap();
    let reset = state.reset_ui_preference("sidebar.organizationMode").unwrap();
    assert_eq!(reset.revision, 2);
    assert_eq!(reset.value, Json::text("project"));
}

#[test]
fn values_that_do_not_fit_are_mended_on_a_restart() {
    let mut state = SettingsRegistry::new("pi");
    let mut preferences: StrMap<UiPreference> = StrMap::new();
    preferences.insert(
        "sidebar.collapsedSections".to_owned(),
        UiPreference { revision: 4, value: Json::text("pinned") },
    );
    preferences.insert(
        "sidebar.gone".to_owned(),
        UiPreference { revision: 1, value: Json::Null },
    );
    state.restore(
        SettingsSnapshot {
            ui_preferences: preferences,
            appearance: AppearanceSettings {
                favicon_color: "mauve".to_owned(),
                ..AppearanceSettings::default()
            },
            ..SettingsSnapshot::default()
        },
        "pi",
    );
    let mended = state.ui_preferences().get("sidebar.collapsedSections").unwrap();
    assert_eq!(mended.revision, 4);
    assert_eq!(mended.value.as_array().unwrap().len(), 0);
    assert!(!state.ui_preferences().contains("sidebar.gone"));
    assert_eq!(state.appearance().favicon_color, "default");
}

#[test]
fn settings_of_a_newer_server_are_not_interpreted() {
    let mut state = SettingsRegistry::new("pi");
    state.restore(
        SettingsSnapshot {
            version: SETTINGS_VERSION + 1,
            general: GeneralSettings { streamer_mode: true, ..GeneralSettings::default() },
            ..SettingsSnapshot::default()
        },
        "pi",
    );
    assert!(!state.general().streamer_mode);
    assert_eq!(state.export().version, SETTINGS_VERSION);
}

#[test]
fn the_vocabularies_are_closed() {
    assert_eq!(current_settings_version(), SETTINGS_VERSION);
    assert!(is_known_theme("default"));
    assert!(!is_known_theme("midnight"));
    for color in ["default", "red", "orange", "yellow", "green", "teal", "blue", "purple", "pink"] {
        assert!(is_valid_favicon_color(color));
    }
    assert!(!is_valid_favicon_color(""));
    assert!(!is_valid_favicon_color("mauve"));
    for key in ui_preference_keys() {
        assert!(is_known_ui_preference(&key));
        let value = default_ui_preference(&key).unwrap();
        assert!(valid_ui_preference_value(&key, &value), "{key}");
    }
    assert!(!is_known_ui_preference("sidebar"));
    assert!(default_ui_preference("sidebar").is_none());
    assert!(!valid_ui_preference_value("sidebar", &Json::Null));
    assert!(valid_ui_preference_value("sidebar.visiblePluginPanels", &Json::Null));
    assert!(valid_ui_preference_value(
        "sidebar.collapsedSections",
        &Json::array(vec![Json::text("pinned"), Json::text("threads")])
    ));
    assert!(!valid_ui_preference_value(
        "sidebar.collapsedSections",
        &Json::array(vec![Json::text("others")])
    ));
    assert!(!valid_ui_preference_value(
        "sidebar.sectionOrder",
        &Json::array(vec![Json::UInt(1)])
    ));
}

#[test]
fn a_client_reads_what_it_wrote() {
    let mut state = SettingsRegistry::new("pi");
    let shown = state.set_appearance("default".to_owned(), "teal".to_owned());
    assert_eq!(shown.favicon_color, "teal");
    let experiments = ExperimentSettings { mobile_app: true, ..ExperimentSettings::default() };
    assert_eq!(state.set_experiments(experiments), experiments);
    assert_eq!(state.experiments(), experiments);
    assert!(experiments.timeline_windowing);
    state.set_keyboard(vec![Json::text("k")]);
    assert_eq!(state.keyboard().len(), 1);
    state.set_general(GeneralSettings {
        show_unhandled_provider_events: Some(true),
        ..GeneralSettings::default()
    });
    let general = general_value(state.general());
    assert_eq!(
        general.get("showUnhandledProviderEvents").unwrap().as_bool(),
        Some(true)
    );
    assert!(general_value(&GeneralSettings::default())
        .get("showUnhandledProviderEvents")
        .is_none());
    let config = system_config(state.export(), &Some("host_1".to_owned()));
    assert_eq!(config.status, 200);
    assert_eq!(
        config.body.get("primaryHostId").unwrap().as_str().unwrap(),
        "host_1"
    );
    assert_eq!(
        config.body.get("appearance").unwrap().get("faviconColor").unwrap().as_str().unwrap(),
        "teal"
    );
    assert_eq!(
        config
            .body
            .get("featureFlags")
            .unwrap()
            .get("timelineWindowEventBudget")
            .unwrap()
            .as_uint(),
        Some(500)
    );
    assert_eq!(default_theme_value().get("themeId").unwrap().as_str().unwrap(), "default");
}
