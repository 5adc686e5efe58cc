//! Settings and preferences of a server and its clients.
//!
//! They describe an installation, not a thread or a run: changing one never makes an event or
//! interrupts execution. Their version is their own, so that older ones acquire new defaults.

use vstd::prelude::*;

use crate::json::{member, object, opt_tree, text_array, trees, Fields, Json, Tree};
use crate::reply::{ok, ok_view, Reply};
use crate::strmap::StrMap;
use crate::text::{opt_view, same_text, texts};
use crate::timeline::empty_array;

verus! {

/// The current version of the settings.
pub const SETTINGS_VERSION: u32 = 1;

/// How code is coloured.
pub struct ResolvedCodeTheme {
    /// On a dark ground.
    pub dark: String,
    /// On a light ground.
    pub light: String,
    /// The theme files by name.
    pub files: StrMap<Json>,
}

/// How a client looks.
pub struct AppearanceSettings {
    /// The theme.
    pub theme_id: String,
    /// Styles of the user's own.
    pub custom_css: Option<String>,
    /// The colour of the icon.
    pub favicon_color: String,
    /// How code is coloured.
    pub resolved_code_theme: ResolvedCodeTheme,
}

/// Whether code is coloured as it comes.
pub open spec fn plain_code_theme(theme: ResolvedCodeTheme) -> bool {
    theme.dark@ == ""@ && theme.light@ == ""@ && theme.files.wf() && theme.files.spec_entries().len()
        == 0
}

/// Whether a client looks a given way, with no styles of its own.
pub open spec fn plain_appearance(
    appearance: AppearanceSettings,
    theme: Seq<char>,
    favicon: Seq<char>,
) -> bool {
    appearance.theme_id@ == theme && appearance.custom_css is None && appearance.favicon_color@
        == favicon && plain_code_theme(appearance.resolved_code_theme)
}

impl Default for ResolvedCodeTheme {
    fn default() -> (result: ResolvedCodeTheme)
        ensures
            plain_code_theme(result),
    {
        ResolvedCodeTheme { dark: "".to_owned(), light: "".to_owned(), files: StrMap::new() }
    }
}

impl Default for AppearanceSettings {
    fn default() -> (result: AppearanceSettings)
        ensures
            plain_appearance(result, "default"@, "default"@),
    {
        AppearanceSettings {
            theme_id: "default".to_owned(),
            custom_css: None,
            favicon_color: "default".to_owned(),
            resolved_code_theme: ResolvedCodeTheme::default(),
        }
    }
}

/// Features that are switched on or off.
#[derive(Clone, Copy, Debug, PartialEq, Eq, Structural)]
pub struct ExperimentSettings {
    /// Notes on what is coming.
    pub changelog_preview: bool,
    /// The mobile app.
    pub mobile_app: bool,
    /// A sidebar that unfolds.
    pub sidebar_progressive_disclosure: bool,
    /// Timelines that load as they are read.
    pub timeline_windowing: bool,
}

impl Default for ExperimentSettings {
    fn default() -> (result: ExperimentSettings)
        ensures
            result == (ExperimentSettings {
                changelog_preview: false,
                mobile_app: false,
                sidebar_progressive_disclosure: false,
                timeline_windowing: true,
            }),
    {
        ExperimentSettings {
            changelog_preview: false,
            mobile_app: false,
            sidebar_progressive_disclosure: false,
            timeline_windowing: true,
        }
    }
}

/// General settings of a client.
#[derive(Debug, PartialEq, Eq)]
pub struct GeneralSettings {
    /// Whether keys are hinted at.
    pub show_keyboard_hints: bool,
    /// Whether a prompt steers a thread that runs.
    pub steer_active_thread_on_enter: bool,
    /// Whether diagnostics are shown.
    pub show_diagnostic_events: bool,
    /// The order of the agents.
    pub provider_order: Vec<String>,
    /// The agent of a new thread.
    pub default_provider_id: Option<String>,
    /// Whether personal details are hidden.
    pub streamer_mode: bool,
    /// How the branches of managed workspaces begin.
    pub managed_branch_prefix: String,
    /// Whether events that no one handles are shown, where the client said so.
    pub show_unhandled_provider_events: Option<bool>,
}

/// Whether general settings are those of a fresh installation, but for the agents.
pub open spec fn fresh_general(
    general: GeneralSettings,
    order: Seq<Seq<char>>,
    provider: Option<Seq<char>>,
) -> bool {
    &&& general.show_keyboard_hints
    &&& general.steer_active_thread_on_enter
    &&& !general.show_diagnostic_events
    &&& texts(general.provider_order@) == order
    &&& opt_view(general.default_provider_id) == provider
    &&& !general.streamer_mode
    &&& general.managed_branch_prefix@ == ""@
    &&& general.show_unhandled_provider_events is None
}

impl Default for GeneralSettings {
    fn default() -> (result: GeneralSettings)
        ensures
            fresh_general(result, Seq::empty(), None),
    {
        let order: Vec<String> = Vec::new();
        assert(texts(order@) =~= Seq::<Seq<char>>::empty());
        GeneralSettings {
            show_keyboard_hints: true,
            steer_active_thread_on_enter: true,
            show_diagnostic_events: false,
            provider_order: order,
            default_provider_id: None,
            streamer_mode: false,
            managed_branch_prefix: "".to_owned(),
            show_unhandled_provider_events: None,
        }
    }
}

/// One preference, changed only by a client that has seen its latest revision.
#[derive(Debug, PartialEq, Eq)]
pub struct UiPreference {
    /// How often it was changed.
    pub revision: u64,
    /// Its value.
    pub value: Json,
}

impl UiPreference {
    /// Whether the preference is at a revision with a value.
    pub open spec fn is(&self, revision: u64, value: Tree) -> bool {
        self.revision == revision && self.value@ == value
    }
}

/// What the value of a preference looks like.
#[derive(Clone, Copy, Debug, PartialEq, Eq, Structural)]
pub enum PreferenceShape {
    /// How a sidebar is organised.
    Organization,
    /// What a sidebar is sorted by.
    Sorting,
    /// Which way a sidebar is sorted.
    Direction,
    /// Which of the fixed sections are folded.
    Sections,
    /// A list of texts.
    Texts,
    /// A list of texts, or `null`.
    TextsOrNull,
    /// A text.
    Text,
}

/// What the value of a preference looks like, where the key is one.
pub open spec fn shape_of(key: Seq<char>) -> Option<PreferenceShape> {
    if key == "sidebar.organizationMode"@ {
        Some(PreferenceShape::Organization)
    } else if key == "sidebar.chronologicalSort"@ {
        Some(PreferenceShape::Sorting)
    } else if key == "sidebar.sortDirection"@ {
        Some(PreferenceShape::Direction)
    } else if key == "sidebar.collapsedSections"@ {
        Some(PreferenceShape::Sections)
    } else if key == "sidebar.visiblePluginPanels"@ {
        Some(PreferenceShape::TextsOrNull)
    } else if key == "sidebar.navigationProvider"@ || key == "sidebar.threadListProvider"@ {
        Some(PreferenceShape::Text)
    } else if key == "sidebar.sectionOrder"@ || key == "sidebar.manualSectionOrder"@ || key
        == "sidebar.machineSectionOrder"@ || key == "sidebar.collapsedProjects"@ || key
        == "sidebar.collapsedThreads"@ || key == "sidebar.collapsedEnvironments"@ || key
        == "sidebar.collapsedThreadSections"@ || key == "sidebar.collapsedMachines"@ || key
        == "sidebar.pluginPanelOrder"@ {
        Some(PreferenceShape::Texts)
    } else {
        None
    }
}

/// What the value of a preference looks like, where the key is one.
fn preference_shape(key: &str) -> (result: Option<PreferenceShape>)
    ensures
        result == shape_of(key@),
{
    if same_text(key, "sidebar.organizationMode") {
        Some(PreferenceShape::Organization)
    } else if same_text(key, "sidebar.chronologicalSort") {
        Some(PreferenceShape::Sorting)
    } else if same_text(key, "sidebar.sortDirection") {
        Some(PreferenceShape::Direction)
    } else if same_text(key, "sidebar.collapsedSections") {
        Some(PreferenceShape::Sections)
    } else if same_text(key, "sidebar.visiblePluginPanels") {
        Some(PreferenceShape::TextsOrNull)
    } else if same_text(key, "sidebar.navigationProvider") || same_text(
        key,
        "sidebar.threadListProvider",
    ) {
        Some(PreferenceShape::Text)
    } else if same_text(key, "sidebar.sectionOrder") || same_text(key, "sidebar.manualSectionOrder")
        || same_text(key, "sidebar.machineSectionOrder") || same_text(
        key,
        "sidebar.collapsedProjects",
    ) || same_text(key, "sidebar.collapsedThreads") || same_text(
        key,
        "sidebar.collapsedEnvironments",
    ) || same_text(key, "sidebar.collapsedThreadSections") || same_text(
        key,
        "sidebar.collapsedMachines",
    ) || same_text(key, "sidebar.pluginPanelOrder") {
        Some(PreferenceShape::Texts)
    } else {
        None
    }
}

/// Whether a key is a preference.
pub fn is_known_ui_preference(key: &str) -> (result: bool)
    ensures
        result == (shape_of(key@) is Some),
{
    preference_shape(key).is_some()
}

/// The keys of the preferences.
pub open spec fn preference_keys() -> Seq<Seq<char>> {
    Seq::empty().push("sidebar.organizationMode"@)
        .push("sidebar.chronologicalSort"@)
        .push("sidebar.sortDirection"@)
        .push("sidebar.sectionOrder"@)
        .push("sidebar.manualSectionOrder"@)
        .push("sidebar.machineSectionOrder"@)
        .push("sidebar.collapsedSections"@)
        .push("sidebar.collapsedProjects"@)
        .push("sidebar.collapsedThreads"@)
        .push("sidebar.collapsedEnvironments"@)
        .push("sidebar.collapsedThreadSections"@)
        .push("sidebar.collapsedMachines"@)
        .push("sidebar.pluginPanelOrder"@)
        .push("sidebar.visiblePluginPanels"@)
        .push("sidebar.navigationProvider"@)
        .push("sidebar.threadListProvider"@)
}

/// The keys of the preferences.
pub fn ui_preference_keys() -> (result: Vec<String>)
    ensures
        texts(result@) == preference_keys(),
{
    let mut keys: Vec<String> = Vec::new();
    keys.push("sidebar.organizationMode".to_owned());
    keys.push("sidebar.chronologicalSort".to_owned());
    keys.push("sidebar.sortDirection".to_owned());
    keys.push("sidebar.sectionOrder".to_owned());
    keys.push("sidebar.manualSectionOrder".to_owned());
    keys.push("sidebar.machineSectionOrder".to_owned());
    keys.push("sidebar.collapsedSections".to_owned());
    keys.push("sidebar.collapsedProjects".to_owned());
    keys.push("sidebar.collapsedThreads".to_owned());
    keys.push("sidebar.collapsedEnvironments".to_owned());
    keys.push("sidebar.collapsedThreadSections".to_owned());
    keys.push("sidebar.collapsedMachines".to_owned());
    keys.push("sidebar.pluginPanelOrder".to_owned());
    keys.push("sidebar.visiblePluginPanels".to_owned());
    keys.push("sidebar.navigationProvider".to_owned());
    keys.push("sidebar.threadListProvider".to_owned());
    assert(texts(keys@) =~= preference_keys());
    keys
}

/// The listed keys are those that are preferences.
pub proof fn keys_are_the_preferences(key: Seq<char>)
    ensures
        preference_keys().contains(key) == (shape_of(key) is Some),
{
    let keys = preference_keys();
    assert(keys.len() == 16);
    assert(keys[0] == "sidebar.organizationMode"@);
    assert(keys[1] == "sidebar.chronologicalSort"@);
    assert(keys[2] == "sidebar.sortDirection"@);
    assert(keys[3] == "sidebar.sectionOrder"@);
    assert(keys[4] == "sidebar.manualSectionOrder"@);
    assert(keys[5] == "sidebar.machineSectionOrder"@);
    assert(keys[6] == "sidebar.collapsedSections"@);
    assert(keys[7] == "sidebar.collapsedProjects"@);
    assert(keys[8] == "sidebar.collapsedThreads"@);
    assert(keys[9] == "sidebar.collapsedEnvironments"@);
    assert(keys[10] == "sidebar.collapsedThreadSections"@);
    assert(keys[11] == "sidebar.collapsedMachines"@);
    assert(keys[12] == "sidebar.pluginPanelOrder"@);
    assert(keys[13] == "sidebar.visiblePluginPanels"@);
    assert(keys[14] == "sidebar.navigationProvider"@);
    assert(keys[15] == "sidebar.threadListProvider"@);
}

/// The value of a preference that was never set.
pub open spec fn shape_default(shape: PreferenceShape) -> Tree {
    match shape {
        PreferenceShape::Organization => Tree::Str("project"@),
        PreferenceShape::Sorting => Tree::Str("none"@),
        PreferenceShape::Direction => Tree::Str("default"@),
        PreferenceShape::Sections => Tree::Array(Seq::empty()),
        PreferenceShape::Texts => Tree::Array(Seq::empty()),
        PreferenceShape::TextsOrNull => Tree::Null,
        PreferenceShape::Text => Tree::Str("default"@),
    }
}

/// The value of a preference that was never set.
pub fn default_ui_preference(key: &str) -> (result: Option<Json>)
    ensures
        match shape_of(key@) {
            Some(shape) => result matches Some(value) && value@ == shape_default(shape),
            None => result is None,
        },
{
    let shape: PreferenceShape = match preference_shape(key) {
        Some(shape) => shape,
        None => {
            return None;
        },
    };
    Some(
        match shape {
            PreferenceShape::Organization => Json::text("project"),
            PreferenceShape::Sorting => Json::text("none"),
            PreferenceShape::Direction => Json::text("default"),
            PreferenceShape::Sections => empty_array(),
            PreferenceShape::Texts => empty_array(),
            PreferenceShape::TextsOrNull => Json::Null,
            PreferenceShape::Text => Json::text("default"),
        },
    )
}

/// Whether a value is a list of texts.
pub open spec fn all_texts(value: Tree) -> bool {
    value matches Tree::Array(items) && forall|i: int|
        0 <= i < items.len() ==> #[trigger] items[i] is Str
}

/// Whether a value is one of the fixed sections.
pub open spec fn names_section(value: Tree) -> bool {
    value == Tree::Str("pinned"@) || value == Tree::Str("threads"@)
}

/// Whether a value fits a preference.
pub open spec fn fits(shape: PreferenceShape, value: Tree) -> bool {
    match shape {
        PreferenceShape::Organization => value == Tree::Str("project"@) || value == Tree::Str(
            "chronological"@,
        ) || value == Tree::Str("machine"@),
        PreferenceShape::Sorting => value == Tree::Str("none"@) || value == Tree::Str("updated"@)
            || value == Tree::Str("created"@) || value == Tree::Str("alpha"@),
        PreferenceShape::Direction => value == Tree::Str("default"@) || value == Tree::Str(
            "ascending"@,
        ) || value == Tree::Str("descending"@),
        PreferenceShape::Sections => value matches Tree::Array(items) && forall|i: int|
            0 <= i < items.len() ==> names_section(#[trigger] items[i]),
        PreferenceShape::Texts => all_texts(value),
        PreferenceShape::TextsOrNull => value is Null || all_texts(value),
        PreferenceShape::Text => value is Str,
    }
}

/// Whether a value fits the preference of a key: none fits a key that is none.
pub open spec fn valid_preference(key: Seq<char>, value: Tree) -> bool {
    shape_of(key) matches Some(shape) && fits(shape, value)
}

/// Whether a value is a list of texts.
fn string_array(value: &Json) -> (result: bool)
    ensures
        result == all_texts(value@),
{
    let items: &Vec<Json> = match value.as_array() {
        Some(items) => items,
        None => {
            return false;
        },
    };
    let ghost all = trees(items@);
    for i in 0..items.len()
        invariant
            value@ == Tree::Array(all),
            all == trees(items@),
            forall|k: int| 0 <= k < i ==> #[trigger] all[k] is Str,
    {
        assert(all[i as int] == items@[i as int]@);
        if items[i].as_str().is_none() {
            return false;
        }
    }
    true
}

/// Whether a value is a list of the fixed sections.
fn section_array(value: &Json) -> (result: bool)
    ensures
        result == fits(PreferenceShape::Sections, value@),
{
    let items: &Vec<Json> = match value.as_array() {
        Some(items) => items,
        None => {
            return false;
        },
    };
    let ghost all = trees(items@);
    for i in 0..items.len()
        invariant
            value@ == Tree::Array(all),
            all == trees(items@),
            forall|k: int| 0 <= k < i ==> names_section(#[trigger] all[k]),
    {
        assert(all[i as int] == items@[i as int]@);
        let named: bool = match items[i].as_str() {
            Some(word) => same_text(word.as_str(), "pinned") || same_text(
                word.as_str(),
                "threads",
            ),
            None => false,
        };
        if !named {
            assert(!names_section(value@->Array_0[i as int]));
            return false;
        }
    }
    true
}

/// Whether a value fits the preference of a key: one that does not would become a value that no
/// client can interpret.
pub fn valid_ui_preference_value(key: &str, value: &Json) -> (result: bool)
    ensures
        result == valid_preference(key@, value@),
{
    let shape: PreferenceShape = match preference_shape(key) {
        Some(shape) => shape,
        None => {
            return false;
        },
    };
    match shape {
        PreferenceShape::Organization => match value.as_str() {
            Some(word) => same_text(word.as_str(), "project") || same_text(
                word.as_str(),
                "chronological",
            ) || same_text(word.as_str(), "machine"),
            None => false,
        },
        PreferenceShape::Sorting => match value.as_str() {
            Some(word) => same_text(word.as_str(), "none") || same_text(word.as_str(), "updated")
                || same_text(word.as_str(), "created") || same_text(word.as_str(), "alpha"),
            None => false,
        },
        PreferenceShape::Direction => match value.as_str() {
            Some(word) => same_text(word.as_str(), "default") || same_text(
                word.as_str(),
                "ascending",
            ) || same_text(word.as_str(), "descending"),
            None => false,
        },
        PreferenceShape::Sections => section_array(value),
        PreferenceShape::Texts => string_array(value),
        PreferenceShape::TextsOrNull => value.is_null() || string_array(value),
        PreferenceShape::Text => value.as_str().is_some(),
    }
}

/// The value of a preference that was never set fits it.
pub proof fn defaults_are_valid(shape: PreferenceShape)
    ensures
        fits(shape, shape_default(shape)),
{
}

/// Everything that is kept of the settings.
pub struct SettingsSnapshot {
    /// The version that they were written under.
    pub version: u32,
    /// How a client looks.
    pub appearance: AppearanceSettings,
    /// Features that are switched on or off.
    pub experiments: ExperimentSettings,
    /// General settings.
    pub general: GeneralSettings,
    /// Keys of the user's own.
    pub keyboard: Vec<Json>,
    /// The preferences by key.
    pub ui_preferences: StrMap<UiPreference>,
}

/// The version that settings without one are taken to be of.
pub fn current_settings_version() -> (result: u32)
    ensures
        result == SETTINGS_VERSION,
{
    SETTINGS_VERSION
}

/// Exactly the known preferences are there, each with a value that fits it.
pub open spec fn complete(preferences: StrMap<UiPreference>) -> bool {
    &&& preferences.wf()
    &&& forall|key: Seq<char>|
        #![trigger preferences@.dom().contains(key)]
        preferences@.dom().contains(key) == (shape_of(key) is Some)
    &&& forall|key: Seq<char>|
        #![trigger preferences@[key]]
        preferences@.dom().contains(key) ==> valid_preference(key, preferences@[key].value@)
}

/// A preference as a restart finds it: one that was never set, or whose value does not fit, takes
/// its default; the revision stays.
pub open spec fn mended(key: Seq<char>, before: Option<UiPreference>, after: UiPreference) -> bool {
    match before {
        Some(preference) => after.is(
            preference.revision,
            if valid_preference(key, preference.value@) {
                preference.value@
            } else {
                shape_default(shape_of(key)->0)
            },
        ),
        None => after.is(0, shape_default(shape_of(key)->0)),
    }
}

/// The entry of a map under a key, where there is one.
pub open spec fn entry<V>(map: Map<Seq<char>, V>, key: Seq<char>) -> Option<V> {
    if map.dom().contains(key) {
        Some(map[key])
    } else {
        None
    }
}

/// The preferences with every known one there and fitting, and no other.
fn mend_preferences(preferences: &StrMap<UiPreference>) -> (result: StrMap<UiPreference>)
    requires
        preferences.wf(),
    ensures
        complete(result),
        forall|key: Seq<char>|
            #![trigger result@[key]]
            shape_of(key) is Some ==> mended(key, entry(preferences@, key), result@[key]),
{
    let keys: Vec<String> = ui_preference_keys();
    let mut out: StrMap<UiPreference> = StrMap::new();
    for i in 0..keys.len()
        invariant
            preferences.wf(),
            out.wf(),
            texts(keys@) == preference_keys(),
            forall|key: Seq<char>|
                #![trigger out@.dom().contains(key)]
                out@.dom().contains(key) == texts(keys@).take(i as int).contains(key),
            forall|key: Seq<char>|
                #![trigger out@[key]]
                out@.dom().contains(key) ==> valid_preference(key, out@[key].value@) && mended(
                    key,
                    entry(preferences@, key),
                    out@[key],
                ),
    {
        let key: &String = &keys[i];
        let ghost before = out@;
        proof {
            assert(texts(keys@)[i as int] == key@);
            assert(preference_keys().contains(key@));
            keys_are_the_preferences(key@);
            defaults_are_valid(shape_of(key@)->0);
        }
        let fallback: Json = match default_ui_preference(key.as_str()) {
            Some(value) => value,
            None => Json::Null,
        };
        let preference: UiPreference = match preferences.get(key.as_str()) {
            Some(found) => UiPreference {
                revision: found.revision,
                value: if valid_ui_preference_value(key.as_str(), &found.value) {
                    found.value.copy()
                } else {
                    fallback
                },
            },
            None => UiPreference { revision: 0, value: fallback },
        };
        out.insert(key.clone(), preference);
        proof {
            let upto = texts(keys@).take(i as int);
            let next = texts(keys@).take(i + 1);
            assert(next =~= upto.push(key@));
            assert forall|k: Seq<char>|
                #![trigger out@.dom().contains(k)]
                out@.dom().contains(k) == next.contains(k) by {
                if upto.contains(k) {
                    let n = choose|n: int| 0 <= n < upto.len() && upto[n] == k;
                    assert(next[n] == k);
                }
                assert(next[i as int] == key@);
                if next.contains(k) && k != key@ {
                    let n = choose|n: int| 0 <= n < next.len() && next[n] == k;
                    assert(upto[n] == k);
                }
            }
        }
    }
    proof {
        assert(texts(keys@).take(texts(keys@).len() as int) =~= preference_keys());
        assert forall|key: Seq<char>|
            #![trigger out@.dom().contains(key)]
            out@.dom().contains(key) == (shape_of(key) is Some) by {
            keys_are_the_preferences(key);
        }
        assert forall|key: Seq<char>|
            #![trigger out@[key]]
            shape_of(key) is Some implies mended(key, entry(preferences@, key), out@[key]) by {
            assert(out@.dom().contains(key));
        }
    }
    out
}

/// The preferences of a fresh installation.
pub open spec fn fresh_preferences(preferences: StrMap<UiPreference>) -> bool {
    complete(preferences) && forall|key: Seq<char>|
        #![trigger preferences@[key]]
        shape_of(key) is Some ==> preferences@[key].is(0, shape_default(shape_of(key)->0))
}

/// Whether settings are those of a fresh installation, but for the agents.
pub open spec fn fresh(
    snapshot: SettingsSnapshot,
    order: Seq<Seq<char>>,
    provider: Option<Seq<char>>,
) -> bool {
    &&& snapshot.version == SETTINGS_VERSION
    &&& plain_appearance(snapshot.appearance, "default"@, "default"@)
    &&& snapshot.experiments == (ExperimentSettings {
        changelog_preview: false,
        mobile_app: false,
        sidebar_progressive_disclosure: false,
        timeline_windowing: true,
    })
    &&& fresh_general(snapshot.general, order, provider)
    &&& snapshot.keyboard@.len() == 0
    &&& fresh_preferences(snapshot.ui_preferences)
}

impl Default for SettingsSnapshot {
    fn default() -> (result: SettingsSnapshot)
        ensures
            fresh(result, Seq::empty(), None),
    {
        let none: StrMap<UiPreference> = StrMap::new();
        let preferences: StrMap<UiPreference> = mend_preferences(&none);
        proof {
            assert forall|key: Seq<char>|
                #![trigger preferences@[key]]
                shape_of(key) is Some implies preferences@[key].is(
                0,
                shape_default(shape_of(key)->0),
            ) by {
                assert(entry(none@, key) is None);
            }
        }
        SettingsSnapshot {
            version: SETTINGS_VERSION,
            appearance: AppearanceSettings::default(),
            experiments: ExperimentSettings::default(),
            general: GeneralSettings::default(),
            keyboard: Vec::new(),
            ui_preferences: preferences,
        }
    }
}

/// Whether a theme is one that the server has.
pub fn is_known_theme(theme_id: &str) -> (result: bool)
    ensures
        result == (theme_id@ == "default"@),
{
    same_text(theme_id, "default")
}

/// Whether a colour is one that the icon can have.
pub open spec fn favicon_color(color: Seq<char>) -> bool {
    color == "default"@ || color == "red"@ || color == "orange"@ || color == "yellow"@ || color
        == "green"@ || color == "teal"@ || color == "blue"@ || color == "purple"@ || color
        == "pink"@
}

/// Whether a colour is one that the icon can have.
pub fn is_valid_favicon_color(color: &str) -> (result: bool)
    ensures
        result == favicon_color(color@),
{
    same_text(color, "default") || same_text(color, "red") || same_text(color, "orange")
        || same_text(color, "yellow") || same_text(color, "green") || same_text(color, "teal")
        || same_text(color, "blue") || same_text(color, "purple") || same_text(color, "pink")
}

/// Why a preference was not changed.
#[derive(Debug, PartialEq, Eq)]
pub enum PreferenceUpdateError {
    /// There is no such preference.
    UnknownKey,
    /// The value does not fit it.
    InvalidValue,
    /// The client had not seen its latest revision.
    RevisionConflict {
        /// The revision that the client expected.
        expected: u64,
        /// The revision that it is at.
        actual: u64,
    },
    /// It cannot be changed again.
    RevisionExhausted,
}

/// How a look is mended: an unknown theme takes everything back to the default, an unknown colour
/// only itself.
pub open spec fn mended_appearance(before: AppearanceSettings, after: AppearanceSettings) -> bool {
    if before.theme_id@ != "default"@ {
        plain_appearance(after, "default"@, "default"@)
    } else {
        &&& after.theme_id == before.theme_id
        &&& after.custom_css == before.custom_css
        &&& after.resolved_code_theme == before.resolved_code_theme
        &&& after.favicon_color@ == (if favicon_color(before.favicon_color@) {
            before.favicon_color@
        } else {
            "default"@
        })
    }
}

/// How the agents of settings without a version are filled in: only where no order was set.
pub open spec fn mended_general(
    before: GeneralSettings,
    after: GeneralSettings,
    provider: Seq<char>,
    migrating: bool,
) -> bool {
    if migrating && before.provider_order@.len() == 0 {
        &&& texts(after.provider_order@) == seq![provider]
        &&& opt_view(after.default_provider_id) == Some(
            match before.default_provider_id {
                Some(id) => id@,
                None => provider,
            },
        )
        &&& after == (GeneralSettings {
            provider_order: after.provider_order,
            default_provider_id: after.default_provider_id,
            ..before
        })
    } else {
        after == before
    }
}

/// Settings as they were kept, made fit for use.
pub open spec fn normalized(
    before: SettingsSnapshot,
    after: SettingsSnapshot,
    provider: Seq<char>,
    migrating: bool,
) -> bool {
    &&& after.version == SETTINGS_VERSION
    &&& mended_appearance(before.appearance, after.appearance)
    &&& after.experiments == before.experiments
    &&& mended_general(before.general, after.general, provider, migrating)
    &&& after.keyboard == before.keyboard
    &&& complete(after.ui_preferences)
    &&& forall|key: Seq<char>|
        #![trigger after.ui_preferences@[key]]
        shape_of(key) is Some ==> mended(
            key,
            entry(before.ui_preferences@, key),
            after.ui_preferences@[key],
        )
}

/// Makes settings fit for use.
fn normalize_snapshot(snapshot: SettingsSnapshot, provider_id: &str, migrating: bool) -> (result:
    SettingsSnapshot)
    requires
        snapshot.ui_preferences.wf(),
    ensures
        normalized(snapshot, result, provider_id@, migrating),
{
    let appearance: AppearanceSettings = if !is_known_theme(snapshot.appearance.theme_id.as_str()) {
        AppearanceSettings::default()
    } else {
        snapshot.appearance
    };
    let favicon_color: String = if is_valid_favicon_color(appearance.favicon_color.as_str()) {
        appearance.favicon_color
    } else {
        "default".to_owned()
    };
    let general: GeneralSettings = if migrating && snapshot.general.provider_order.len() == 0 {
        let mut order: Vec<String> = Vec::new();
        order.push(provider_id.to_owned());
        assert(texts(order@) =~= seq![provider_id@]);
        let default_provider_id: Option<String> = match snapshot.general.default_provider_id {
            Some(id) => Some(id),
            None => Some(provider_id.to_owned()),
        };
        GeneralSettings { provider_order: order, default_provider_id, ..snapshot.general }
    } else {
        snapshot.general
    };
    SettingsSnapshot {
        version: SETTINGS_VERSION,
        appearance: AppearanceSettings {
            theme_id: appearance.theme_id,
            custom_css: appearance.custom_css,
            favicon_color,
            resolved_code_theme: appearance.resolved_code_theme,
        },
        experiments: snapshot.experiments,
        general,
        keyboard: snapshot.keyboard,
        ui_preferences: mend_preferences(&snapshot.ui_preferences),
    }
}

/// Settings as a restart takes them up: those of a newer server are not interpreted, and a fresh
/// installation's stand in for them.
pub open spec fn restored_settings(
    kept: SettingsSnapshot,
    after: SettingsSnapshot,
    provider: Seq<char>,
) -> bool {
    if kept.version > SETTINGS_VERSION {
        exists|fresh_one: SettingsSnapshot| #[trigger]
            fresh(fresh_one, Seq::empty(), None) && normalized(fresh_one, after, provider, false)
    } else {
        normalized(kept, after, provider, kept.version == 0)
    }
}

/// The settings of a running server.
pub struct SettingsRegistry {
    inner: SettingsSnapshot,
}

impl View for SettingsRegistry {
    type V = SettingsSnapshot;

    closed spec fn view(&self) -> SettingsSnapshot {
        self.inner
    }
}

/// The revision that a preference is at.
pub open spec fn revision_of(preferences: Map<Seq<char>, UiPreference>, key: Seq<char>) -> u64 {
    match entry(preferences, key) {
        Some(preference) => preference.revision,
        None => 0,
    }
}

/// The settings with one preference changed, and nothing else.
pub open spec fn with_preference(
    before: SettingsSnapshot,
    after: SettingsSnapshot,
    key: Seq<char>,
    revision: u64,
    value: Tree,
) -> bool {
    &&& after == (SettingsSnapshot { ui_preferences: after.ui_preferences, ..before })
    &&& after.ui_preferences@.dom().contains(key)
    &&& after.ui_preferences@[key].is(revision, value)
    &&& after.ui_preferences@ == before.ui_preferences@.insert(key, after.ui_preferences@[key])
}

impl SettingsRegistry {
    /// Exactly the known preferences are there, each with a value that fits it.
    pub open spec fn wf(&self) -> bool {
        complete(self@.ui_preferences)
    }

    /// The settings of a fresh installation with an agent.
    pub fn new(provider_id: &str) -> (result: SettingsRegistry)
        ensures
            result.wf(),
            fresh(result@, seq![provider_id@], Some(provider_id@)),
    {
        let snapshot: SettingsSnapshot = SettingsSnapshot::default();
        let mut order: Vec<String> = Vec::new();
        order.push(provider_id.to_owned());
        assert(texts(order@) =~= seq![provider_id@]);
        let general = GeneralSettings {
            provider_order: order,
            default_provider_id: Some(provider_id.to_owned()),
            ..snapshot.general
        };
        SettingsRegistry { inner: SettingsSnapshot { general, ..snapshot } }
    }

    /// Everything that is to be kept.
    pub fn export(&self) -> (result: &SettingsSnapshot)
        ensures
            *result == self@,
    {
        &self.inner
    }

    /// Takes up settings that were kept.
    pub fn restore(&mut self, snapshot: SettingsSnapshot, provider_id: &str)
        requires
            snapshot.ui_preferences.wf(),
        ensures
            final(self).wf(),
            restored_settings(snapshot, final(self)@, provider_id@),
    {
        if snapshot.version > SETTINGS_VERSION {
            let fresh_one: SettingsSnapshot = SettingsSnapshot::default();
            assert(fresh(fresh_one, Seq::empty(), None));
            self.inner = normalize_snapshot(fresh_one, provider_id, false);
        } else {
            let migrating: bool = snapshot.version == 0;
            self.inner = normalize_snapshot(snapshot, provider_id, migrating);
        }
    }

    /// How a client looks.
    pub fn appearance(&self) -> (result: &AppearanceSettings)
        ensures
            *result == self@.appearance,
    {
        &self.inner.appearance
    }

    /// Changes how a client looks: styles of its own are dropped.
    pub fn set_appearance(&mut self, theme_id: String, favicon_color: String) -> (result:
        &AppearanceSettings)
        requires
            old(self).wf(),
        ensures
            final(self).wf(),
            final(self)@ == (SettingsSnapshot {
                appearance: final(self)@.appearance,
                ..old(self)@
            }),
            plain_appearance(final(self)@.appearance, theme_id@, favicon_color@),
            *result == final(self)@.appearance,
    {
        self.inner.appearance = AppearanceSettings {
            theme_id,
            custom_css: None,
            favicon_color,
            resolved_code_theme: ResolvedCodeTheme::default(),
        };
        &self.inner.appearance
    }

    /// Which features are on.
    pub fn experiments(&self) -> (result: ExperimentSettings)
        ensures
            result == self@.experiments,
    {
        self.inner.experiments
    }

    /// Changes which features are on.
    pub fn set_experiments(&mut self, experiments: ExperimentSettings) -> (result:
        ExperimentSettings)
        requires
            old(self).wf(),
        ensures
            final(self).wf(),
            final(self)@ == (SettingsSnapshot { experiments, ..old(self)@ }),
            result == experiments,
    {
        self.inner.experiments = experiments;
        experiments
    }

    /// The general settings.
    pub fn general(&self) -> (result: &GeneralSettings)
        ensures
            *result == self@.general,
    {
        &self.inner.general
    }

    /// Changes the general settings.
    pub fn set_general(&mut self, general: GeneralSettings) -> (result: &GeneralSettings)
        requires
            old(self).wf(),
        ensures
            final(self).wf(),
            final(self)@ == (SettingsSnapshot { general, ..old(self)@ }),
            *result == general,
    {
        self.inner.general = general;
        &self.inner.general
    }

    /// The keys of the user's own.
    pub fn keyboard(&self) -> (result: &Vec<Json>)
        ensures
            *result == self@.keyboard,
    {
        &self.inner.keyboard
    }

    /// Changes the keys of the user's own.
    pub fn set_keyboard(&mut self, keyboard: Vec<Json>) -> (result: &Vec<Json>)
        requires
            old(self).wf(),
        ensures
            final(self).wf(),
            final(self)@ == (SettingsSnapshot { keyboard, ..old(self)@ }),
            *result == keyboard,
    {
        self.inner.keyboard = keyboard;
        &self.inner.keyboard
    }

    /// The preferences by key.
    pub fn ui_preferences(&self) -> (result: &StrMap<UiPreference>)
        ensures
            *result == self@.ui_preferences,
    {
        &self.inner.ui_preferences
    }

    /// Sets a preference under its next revision.
    fn put_preference(&mut self, key: &str, revision: u64, value: Json) -> (result: UiPreference)
        requires
            old(self).wf(),
            valid_preference(key@, value@),
        ensures
            final(self).wf(),
            with_preference(old(self)@, final(self)@, key@, revision, value@),
            result.is(revision, value@),
    {
        let shown: Json = value.copy();
        let ghost before = self.inner.ui_preferences@;
        self.inner.ui_preferences.insert(key.to_owned(), UiPreference { revision, value });
        proof {
            let after = self.inner.ui_preferences@;
            assert forall|k: Seq<char>|
                #![trigger after.dom().contains(k)]
                after.dom().contains(k) == (shape_of(k) is Some) by {
                assert(before.dom().contains(k) == (shape_of(k) is Some));
            }
            assert forall|k: Seq<char>|
                #![trigger after[k]]
                after.dom().contains(k) implies valid_preference(k, after[k].value@) by {
                if k != key@ {
                    assert(before.dom().contains(k));
                    assert(after[k] == before[k]);
                }
            }
        }
        UiPreference { revision, value: shown }
    }

    /// Changes a preference, for a client that has seen its latest revision.
    pub fn update_ui_preference(&mut self, key: &str, expected_revision: u64, value: Json) -> (result:
        Result<UiPreference, PreferenceUpdateError>)
        requires
            old(self).wf(),
        ensures
            final(self).wf(),
            ({
                let actual = revision_of(old(self)@.ui_preferences@, key@);
                if shape_of(key@) is None {
                    result == Err::<UiPreference, PreferenceUpdateError>(
                        PreferenceUpdateError::UnknownKey,
                    ) && final(self)@ == old(self)@
                } else if !valid_preference(key@, value@) {
                    result == Err::<UiPreference, PreferenceUpdateError>(
                        PreferenceUpdateError::InvalidValue,
                    ) && final(self)@ == old(self)@
                } else if actual != expected_revision {
                    result == Err::<UiPreference, PreferenceUpdateError>(
                        PreferenceUpdateError::RevisionConflict {
                            expected: expected_revision,
                            actual,
                        },
                    ) && final(self)@ == old(self)@
                } else if actual == u64::MAX {
                    result == Err::<UiPreference, PreferenceUpdateError>(
                        PreferenceUpdateError::RevisionExhausted,
                    ) && final(self)@ == old(self)@
                } else {
                    (result matches Ok(updated) && updated.is((actual + 1) as u64, value@))
                        && with_preference(
                        old(self)@,
                        final(self)@,
                        key@,
                        (actual + 1) as u64,
                        value@,
                    )
                }
            }),
    {
        if !is_known_ui_preference(key) {
            return Err(PreferenceUpdateError::UnknownKey);
        }
        if !valid_ui_preference_value(key, &value) {
            return Err(PreferenceUpdateError::InvalidValue);
        }
        let actual: u64 = match self.inner.ui_preferences.get(key) {
            Some(preference) => preference.revision,
            None => 0,
        };
        if actual != expected_revision {
            return Err(
                PreferenceUpdateError::RevisionConflict { expected: expected_revision, actual },
            );
        }
        if actual == u64::MAX {
            return Err(PreferenceUpdateError::RevisionExhausted);
        }
        Ok(self.put_preference(key, actual + 1, value))
    }

    /// Takes a preference back to its default, under its next revision.
    pub fn reset_ui_preference(&mut self, key: &str) -> (result: Result<
        UiPreference,
        PreferenceUpdateError,
    >)
        requires
            old(self).wf(),
        ensures
            final(self).wf(),
            ({
                let actual = revision_of(old(self)@.ui_preferences@, key@);
                match shape_of(key@) {
                    None => result == Err::<UiPreference, PreferenceUpdateError>(
                        PreferenceUpdateError::UnknownKey,
                    ) && final(self)@ == old(self)@,
                    Some(shape) => if actual == u64::MAX {
                        result == Err::<UiPreference, PreferenceUpdateError>(
                            PreferenceUpdateError::RevisionExhausted,
                        ) && final(self)@ == old(self)@
                    } else {
                        (result matches Ok(updated) && updated.is(
                            (actual + 1) as u64,
                            shape_default(shape),
                        )) && with_preference(
                            old(self)@,
                            final(self)@,
                            key@,
                            (actual + 1) as u64,
                            shape_default(shape),
                        )
                    },
                }
            }),
    {
        let value: Json = match default_ui_preference(key) {
            Some(value) => value,
            None => {
                return Err(PreferenceUpdateError::UnknownKey);
            },
        };
        proof {
            defaults_are_valid(shape_of(key@)->0);
        }
        let actual: u64 = match self.inner.ui_preferences.get(key) {
            Some(preference) => preference.revision,
            None => 0,
        };
        if actual == u64::MAX {
            return Err(PreferenceUpdateError::RevisionExhausted);
        }
        Ok(self.put_preference(key, actual + 1, value))
    }
}

/// A client cannot change a preference twice from the same revision: once a change took, the same
/// expectation is a conflict.
pub proof fn changes_need_the_latest_revision(
    before: SettingsSnapshot,
    after: SettingsSnapshot,
    key: Seq<char>,
    value: Tree,
)
    requires
        revision_of(before.ui_preferences@, key) < u64::MAX,
        with_preference(
            before,
            after,
            key,
            (revision_of(before.ui_preferences@, key) + 1) as u64,
            value,
        ),
    ensures
        revision_of(after.ui_preferences@, key) == revision_of(before.ui_preferences@, key) + 1,
        forall|other: Seq<char>|
            other != key ==> #[trigger] revision_of(after.ui_preferences@, other) == revision_of(
                before.ui_preferences@,
                other,
            ),
{
    assert forall|other: Seq<char>| other != key implies #[trigger] revision_of(
        after.ui_preferences@,
        other,
    ) == revision_of(before.ui_preferences@, other) by {
        assert(after.ui_preferences@ == before.ui_preferences@.insert(
            key,
            after.ui_preferences@[key],
        ));
    }
}

/// Settings that are fit for use are taken up as they are: a restart changes none of them.
pub proof fn restarts_keep_settings(
    kept: SettingsSnapshot,
    after: SettingsSnapshot,
    provider: Seq<char>,
    key: Seq<char>,
)
    requires
        kept.version == SETTINGS_VERSION,
        kept.appearance.theme_id@ == "default"@,
        favicon_color(kept.appearance.favicon_color@),
        complete(kept.ui_preferences),
        restored_settings(kept, after, provider),
        shape_of(key) is Some,
    ensures
        after.general == kept.general,
        after.experiments == kept.experiments,
        after.keyboard == kept.keyboard,
        after.appearance.favicon_color@ == kept.appearance.favicon_color@,
        after.ui_preferences@[key].is(
            kept.ui_preferences@[key].revision,
            kept.ui_preferences@[key].value@,
        ),
{
    assert(kept.ui_preferences@.dom().contains(key));
    assert(mended(key, entry(kept.ui_preferences@, key), after.ui_preferences@[key]));
}

/// The theme files of a look.
pub open spec fn theme_files(files: StrMap<Json>) -> Tree {
    Tree::Object(
        Seq::new(
            files.spec_entries().len(),
            |i: int| (files.spec_entries()[i].0@, files.spec_entries()[i].1@),
        ),
    )
}

/// How a client looks, on the wire.
pub open spec fn appearance_tree(settings: AppearanceSettings) -> Tree {
    object().field("themeId"@, Tree::Str(settings.theme_id@))
        .field("customCss"@, opt_tree(opt_view(settings.custom_css)))
        .field("faviconColor"@, Tree::Str(settings.favicon_color@))
        .field(
            "resolvedCodeTheme"@,
            object().field("dark"@, Tree::Str(settings.resolved_code_theme.dark@))
                .field("light"@, Tree::Str(settings.resolved_code_theme.light@))
                .field("files"@, theme_files(settings.resolved_code_theme.files)),
        )
}

/// How a client looks, on the wire.
pub fn appearance_value(settings: &AppearanceSettings) -> (result: Json)
    ensures
        result@ == appearance_tree(*settings),
{
    let files: &StrMap<Json> = &settings.resolved_code_theme.files;
    let ghost entries = files.spec_entries();
    let count: usize = files.len();
    let mut members: Fields = Fields::new();
    for i in 0..count
        invariant
            *files == settings.resolved_code_theme.files,
            entries == files.spec_entries(),
            count == entries.len(),
            members@ =~= Seq::new(i as nat, |k: int| (entries[k].0@, entries[k].1@)),
    {
        members = members.with(files.key(i).as_str(), files.value(i).copy());
    }
    let code: Json = Fields::new().with(
        "dark",
        Json::text(settings.resolved_code_theme.dark.as_str()),
    )
        .with("light", Json::text(settings.resolved_code_theme.light.as_str()))
        .with("files", members.object())
        .object();
    Fields::new().with("themeId", Json::text(settings.theme_id.as_str()))
        .with("customCss", Json::opt_text(&settings.custom_css))
        .with("faviconColor", Json::text(settings.favicon_color.as_str()))
        .with("resolvedCodeTheme", code)
        .object()
}

/// General settings, on the wire.
pub open spec fn general_tree(settings: GeneralSettings) -> Tree {
    object().field("showKeyboardHints"@, Tree::Bool(settings.show_keyboard_hints))
        .field("steerActiveThreadOnEnter"@, Tree::Bool(settings.steer_active_thread_on_enter))
        .field("showDiagnosticEvents"@, Tree::Bool(settings.show_diagnostic_events))
        .field("providerOrder"@, text_array(texts(settings.provider_order@)))
        .field("defaultProviderId"@, opt_tree(opt_view(settings.default_provider_id)))
        .field("streamerMode"@, Tree::Bool(settings.streamer_mode))
        .field("managedBranchPrefix"@, Tree::Str(settings.managed_branch_prefix@))
        .field_if(
            "showUnhandledProviderEvents"@,
            match settings.show_unhandled_provider_events {
                Some(shown) => Some(Tree::Bool(shown)),
                None => None,
            },
        )
}

/// General settings, on the wire.
pub fn general_value(settings: &GeneralSettings) -> (result: Json)
    ensures
        result@ == general_tree(*settings),
{
    let unhandled: Option<Json> = match settings.show_unhandled_provider_events {
        Some(shown) => Some(Json::Bool(shown)),
        None => None,
    };
    Fields::new().with("showKeyboardHints", Json::Bool(settings.show_keyboard_hints))
        .with("steerActiveThreadOnEnter", Json::Bool(settings.steer_active_thread_on_enter))
        .with("showDiagnosticEvents", Json::Bool(settings.show_diagnostic_events))
        .with("providerOrder", Json::texts(&settings.provider_order))
        .with("defaultProviderId", Json::opt_text(&settings.default_provider_id))
        .with("streamerMode", Json::Bool(settings.streamer_mode))
        .with("managedBranchPrefix", Json::text(settings.managed_branch_prefix.as_str()))
        .maybe("showUnhandledProviderEvents", unhandled)
        .object()
}

/// Which features are on, on the wire.
pub open spec fn experiments_tree(settings: ExperimentSettings) -> Tree {
    object().field("changelogPreview"@, Tree::Bool(settings.changelog_preview))
        .field("mobileApp"@, Tree::Bool(settings.mobile_app))
        .field(
            "sidebarProgressiveDisclosure"@,
            Tree::Bool(settings.sidebar_progressive_disclosure),
        )
        .field("timelineWindowing"@, Tree::Bool(settings.timeline_windowing))
}

/// Which features are on, on the wire.
pub fn experiments_value(settings: &ExperimentSettings) -> (result: Json)
    ensures
        result@ == experiments_tree(*settings),
{
    Fields::new().with("changelogPreview", Json::Bool(settings.changelog_preview))
        .with("mobileApp", Json::Bool(settings.mobile_app))
        .with(
            "sidebarProgressiveDisclosure",
            Json::Bool(settings.sidebar_progressive_disclosure),
        )
        .with("timelineWindowing", Json::Bool(settings.timeline_windowing))
        .object()
}

/// The look of a fresh installation, on the wire.
pub open spec fn default_theme_tree() -> Tree {
    object().field("themeId"@, Tree::Str("default"@))
        .field("customCss"@, Tree::Null)
        .field("faviconColor"@, Tree::Str("default"@))
        .field(
            "resolvedCodeTheme"@,
            object().field("dark"@, Tree::Str(""@))
                .field("light"@, Tree::Str(""@))
                .field("files"@, Tree::Object(Seq::empty())),
        )
}

/// The look of a fresh installation, on the wire.
pub fn default_theme_value() -> (result: Json)
    ensures
        result@ == default_theme_tree(),
{
    let settings: AppearanceSettings = AppearanceSettings::default();
    assert(theme_files(settings.resolved_code_theme.files)->Object_0 =~= Seq::<
        (Seq<char>, Tree),
    >::empty());
    appearance_value(&settings)
}

/// The configuration that a client starts from.
pub open spec fn config_tree(settings: SettingsSnapshot, host: Option<Seq<char>>) -> Tree {
    object().field("generalSettings"@, general_tree(settings.general))
        .field("keybindings"@, Tree::Array(trees(settings.keyboard@)))
        .field("defaultKeybindings"@, Tree::Array(Seq::empty()))
        .field("keybindingOverrides"@, Tree::Array(Seq::empty()))
        .field("experiments"@, experiments_tree(settings.experiments))
        .field("appearance"@, appearance_tree(settings.appearance))
        .field("customThemes"@, Tree::Array(Seq::empty()))
        .field("pluginThemes"@, Tree::Array(Seq::empty()))
        .field(
            "featureFlags"@,
            object().field("placeholder"@, Tree::Bool(false)).field(
                "timelineWindowEventBudget"@,
                Tree::UInt(500),
            ),
        )
        .field("hostDaemonPort"@, Tree::Null)
        .field("localHelperPorts"@, Tree::Array(Seq::empty()))
        .field("serverUrl"@, Tree::Str(""@))
        .field("primaryHostId"@, opt_tree(host))
        .field("primaryHostPlatform"@, Tree::Null)
        .field("voiceTranscriptionEnabled"@, Tree::Bool(false))
        .field(
            "aiServices"@,
            object().field("inference"@, Tree::Str(""@))
                .field("inferenceFallback"@, Tree::Str(""@))
                .field("transcription"@, Tree::Str(""@))
                .field("services"@, Tree::Array(Seq::empty())),
        )
        .field("dataDir"@, Tree::Str(""@))
}

/// Values of the same trees.
fn copy_all(items: &Vec<Json>) -> (result: Vec<Json>)
    ensures
        trees(result@) == trees(items@),
{
    let mut out: Vec<Json> = Vec::new();
    for i in 0..items.len()
        invariant
            out@.len() == i,
            forall|k: int| 0 <= k < i ==> (#[trigger] out@[k])@ == items@[k]@,
    {
        out.push(items[i].copy());
    }
    assert(trees(out@) =~= trees(items@));
    out
}

/// The configuration that a client starts from.
pub fn system_config(settings: &SettingsSnapshot, local_host_id: &Option<String>) -> (result: Reply)
    ensures
        result@ == ok_view(config_tree(*settings, opt_view(*local_host_id))),
{
    let flags: Json = Fields::new().with("placeholder", Json::Bool(false)).with(
        "timelineWindowEventBudget",
        Json::UInt(500),
    ).object();
    let services: Json = Fields::new().with("inference", Json::text(""))
        .with("inferenceFallback", Json::text(""))
        .with("transcription", Json::text(""))
        .with("services", empty_array())
        .object();
    ok(
        Fields::new().with("generalSettings", general_value(&settings.general))
            .with("keybindings", Json::array(copy_all(&settings.keyboard)))
            .with("defaultKeybindings", empty_array())
            .with("keybindingOverrides", empty_array())
            .with("experiments", experiments_value(&settings.experiments))
            .with("appearance", appearance_value(&settings.appearance))
            .with("customThemes", empty_array())
            .with("pluginThemes", empty_array())
            .with("featureFlags", flags)
            .with("hostDaemonPort", Json::Null)
            .with("localHelperPorts", empty_array())
            .with("serverUrl", Json::text(""))
            .with("primaryHostId", Json::opt_text(local_host_id))
            .with("primaryHostPlatform", Json::Null)
            .with("voiceTranscriptionEnabled", Json::Bool(false))
            .with("aiServices", services)
            .with("dataDir", Json::text(""))
            .object(),
    )
}

// What settings promise.

/// A preference is known exactly where it has one of these names.
pub proof fn preferences_are_known_by_name(key: &str, answer: bool)
    requires
        call_ensures(is_known_ui_preference, (key,), answer),
    ensures
        answer <==> (key@ == "sidebar.organizationMode"@ || key@ == "sidebar.chronologicalSort"@ || key@ == "sidebar.sortDirection"@ || key@ == "sidebar.collapsedSections"@ || key@ == "sidebar.visiblePluginPanels"@ || key@ == "sidebar.navigationProvider"@ || key@ == "sidebar.threadListProvider"@ || key@ == "sidebar.sectionOrder"@ || key@ == "sidebar.manualSectionOrder"@ || key@ == "sidebar.machineSectionOrder"@ || key@ == "sidebar.collapsedProjects"@ || key@ == "sidebar.collapsedThreads"@ || key@ == "sidebar.collapsedEnvironments"@ || key@ == "sidebar.collapsedThreadSections"@ || key@ == "sidebar.collapsedMachines"@ || key@ == "sidebar.pluginPanelOrder"@),
{
}

/// Every known preference begins with a default of its own, and no other has one.
pub proof fn preferences_begin_with_a_default(key: &str, value: Option<Json>)
    requires
        call_ensures(default_ui_preference, (key,), value),
    ensures
        (key@ == "sidebar.organizationMode"@) ==> value is Some && value->0@ == Tree::Str("project"@),
        (key@ == "sidebar.chronologicalSort"@) ==> value is Some && value->0@ == Tree::Str("none"@),
        (key@ == "sidebar.sortDirection"@) ==> value is Some && value->0@ == Tree::Str("default"@),
        (key@ == "sidebar.collapsedSections"@) ==> value is Some && value->0@ == Tree::Array(Seq::empty()),
        (key@ == "sidebar.sectionOrder"@ || key@ == "sidebar.manualSectionOrder"@ || key@ == "sidebar.machineSectionOrder"@ || key@ == "sidebar.collapsedProjects"@ || key@ == "sidebar.collapsedThreads"@ || key@ == "sidebar.collapsedEnvironments"@ || key@ == "sidebar.collapsedThreadSections"@ || key@ == "sidebar.collapsedMachines"@ || key@ == "sidebar.pluginPanelOrder"@) ==> value is Some && value->0@ == Tree::Array(Seq::empty()),
        (key@ == "sidebar.visiblePluginPanels"@) ==> value is Some && value->0@ == Tree::Null,
        (key@ == "sidebar.navigationProvider"@ || key@ == "sidebar.threadListProvider"@) ==> value is Some && value->0@ == Tree::Str("default"@),
        (key@ != "sidebar.organizationMode"@ && key@ != "sidebar.chronologicalSort"@ && key@ != "sidebar.sortDirection"@ && key@ != "sidebar.collapsedSections"@ && key@ != "sidebar.visiblePluginPanels"@ && key@ != "sidebar.navigationProvider"@ && key@ != "sidebar.threadListProvider"@ && key@ != "sidebar.sectionOrder"@ && key@ != "sidebar.manualSectionOrder"@ && key@ != "sidebar.machineSectionOrder"@ && key@ != "sidebar.collapsedProjects"@ && key@ != "sidebar.collapsedThreads"@ && key@ != "sidebar.collapsedEnvironments"@ && key@ != "sidebar.collapsedThreadSections"@ && key@ != "sidebar.collapsedMachines"@ && key@ != "sidebar.pluginPanelOrder"@) ==> value is None,
{
    reveal_strlit("sidebar.sectionOrder");
    reveal_strlit("sidebar.sortDirection");
    reveal_strlit("sidebar.collapsedThreads");
    reveal_strlit("sidebar.organizationMode");
    reveal_strlit("sidebar.pluginPanelOrder");
    reveal_strlit("sidebar.chronologicalSort");
    reveal_strlit("sidebar.collapsedMachines");
    reveal_strlit("sidebar.collapsedProjects");
    reveal_strlit("sidebar.collapsedSections");
    reveal_strlit("sidebar.manualSectionOrder");
    reveal_strlit("sidebar.navigationProvider");
    reveal_strlit("sidebar.threadListProvider");
    reveal_strlit("sidebar.machineSectionOrder");
    reveal_strlit("sidebar.visiblePluginPanels");
    reveal_strlit("sidebar.collapsedEnvironments");
    reveal_strlit("sidebar.collapsedThreadSections");
    assert("sidebar.sectionOrder"@.len() == 20);
    assert("sidebar.sortDirection"@.len() == 21);
    assert("sidebar.collapsedThreads"@.len() == 24 && "sidebar.collapsedThreads"@[8] == 'c');
    assert("sidebar.organizationMode"@.len() == 24 && "sidebar.organizationMode"@[8] == 'o');
    assert("sidebar.pluginPanelOrder"@.len() == 24 && "sidebar.pluginPanelOrder"@[8] == 'p');
    assert("sidebar.chronologicalSort"@.len() == 25 && "sidebar.chronologicalSort"@[17] == 'i');
    assert("sidebar.collapsedMachines"@.len() == 25 && "sidebar.collapsedMachines"@[17] == 'M');
    assert("sidebar.collapsedProjects"@.len() == 25 && "sidebar.collapsedProjects"@[17] == 'P');
    assert("sidebar.collapsedSections"@.len() == 25 && "sidebar.collapsedSections"@[17] == 'S');
    assert("sidebar.manualSectionOrder"@.len() == 26 && "sidebar.manualSectionOrder"@[8] == 'm');
    assert("sidebar.navigationProvider"@.len() == 26 && "sidebar.navigationProvider"@[8] == 'n');
    assert("sidebar.threadListProvider"@.len() == 26 && "sidebar.threadListProvider"@[8] == 't');
    assert("sidebar.machineSectionOrder"@.len() == 27 && "sidebar.machineSectionOrder"@[8] == 'm');
    assert("sidebar.visiblePluginPanels"@.len() == 27 && "sidebar.visiblePluginPanels"@[8] == 'v');
    assert("sidebar.collapsedEnvironments"@.len() == 29);
    assert("sidebar.collapsedThreadSections"@.len() == 31);
}

/// A preference takes the values of its kind, and no others: a word of a few, sections, texts,
/// texts or nothing, or a text.
#[verifier::rlimit(50)]
pub proof fn preferences_take_what_fits(
    key: &str,
    value: Json,
    answer: bool,
)
    requires
        call_ensures(valid_ui_preference_value, (key, &value), answer),
    ensures
        (key@ == "sidebar.organizationMode"@) ==> (answer <==> value@ == Tree::Str("project"@) || value@ == Tree::Str("chronological"@) || value@ == Tree::Str("machine"@)),
        (key@ == "sidebar.chronologicalSort"@) ==> (answer <==> value@ == Tree::Str("none"@) || value@ == Tree::Str("updated"@) || value@ == Tree::Str("created"@) || value@ == Tree::Str("alpha"@)),
        (key@ == "sidebar.sortDirection"@) ==> (answer <==> value@ == Tree::Str("default"@) || value@ == Tree::Str("ascending"@) || value@ == Tree::Str("descending"@)),
        (key@ == "sidebar.collapsedSections"@) ==> (answer <==> value@ is Array && forall|i: int| 0 <= i < value@->Array_0.len() ==> #[trigger] value@->Array_0[i] == Tree::Str("pinned"@) || value@->Array_0[i] == Tree::Str("threads"@)),
        (key@ == "sidebar.sectionOrder"@ || key@ == "sidebar.manualSectionOrder"@ || key@ == "sidebar.machineSectionOrder"@ || key@ == "sidebar.collapsedProjects"@ || key@ == "sidebar.collapsedThreads"@ || key@ == "sidebar.collapsedEnvironments"@ || key@ == "sidebar.collapsedThreadSections"@ || key@ == "sidebar.collapsedMachines"@ || key@ == "sidebar.pluginPanelOrder"@) ==> (answer <==> value@ is Array && forall|i: int| 0 <= i < value@->Array_0.len() ==> #[trigger] value@->Array_0[i] is Str),
        (key@ == "sidebar.visiblePluginPanels"@) ==> (answer <==> value@ is Null || (value@ is Array && forall|i: int| 0 <= i < value@->Array_0.len() ==> #[trigger] value@->Array_0[i] is Str)),
        (key@ == "sidebar.navigationProvider"@ || key@ == "sidebar.threadListProvider"@) ==> (answer <==> value@ is Str),
        (key@ != "sidebar.organizationMode"@ && key@ != "sidebar.chronologicalSort"@ && key@ != "sidebar.sortDirection"@ && key@ != "sidebar.collapsedSections"@ && key@ != "sidebar.visiblePluginPanels"@ && key@ != "sidebar.navigationProvider"@ && key@ != "sidebar.threadListProvider"@ && key@ != "sidebar.sectionOrder"@ && key@ != "sidebar.manualSectionOrder"@ && key@ != "sidebar.machineSectionOrder"@ && key@ != "sidebar.collapsedProjects"@ && key@ != "sidebar.collapsedThreads"@ && key@ != "sidebar.collapsedEnvironments"@ && key@ != "sidebar.collapsedThreadSections"@ && key@ != "sidebar.collapsedMachines"@ && key@ != "sidebar.pluginPanelOrder"@) ==> !answer,
{
    reveal_strlit("sidebar.sectionOrder");
    reveal_strlit("sidebar.sortDirection");
    reveal_strlit("sidebar.collapsedThreads");
    reveal_strlit("sidebar.organizationMode");
    reveal_strlit("sidebar.pluginPanelOrder");
    reveal_strlit("sidebar.chronologicalSort");
    reveal_strlit("sidebar.collapsedMachines");
    reveal_strlit("sidebar.collapsedProjects");
    reveal_strlit("sidebar.collapsedSections");
    reveal_strlit("sidebar.manualSectionOrder");
    reveal_strlit("sidebar.navigationProvider");
    reveal_strlit("sidebar.threadListProvider");
    reveal_strlit("sidebar.machineSectionOrder");
    reveal_strlit("sidebar.visiblePluginPanels");
    reveal_strlit("sidebar.collapsedEnvironments");
    reveal_strlit("sidebar.collapsedThreadSections");
    assert("sidebar.sectionOrder"@.len() == 20);
    assert("sidebar.sortDirection"@.len() == 21);
    assert("sidebar.collapsedThreads"@.len() == 24 && "sidebar.collapsedThreads"@[8] == 'c');
    assert("sidebar.organizationMode"@.len() == 24 && "sidebar.organizationMode"@[8] == 'o');
    assert("sidebar.pluginPanelOrder"@.len() == 24 && "sidebar.pluginPanelOrder"@[8] == 'p');
    assert("sidebar.chronologicalSort"@.len() == 25 && "sidebar.chronologicalSort"@[17] == 'i');
    assert("sidebar.collapsedMachines"@.len() == 25 && "sidebar.collapsedMachines"@[17] == 'M');
    assert("sidebar.collapsedProjects"@.len() == 25 && "sidebar.collapsedProjects"@[17] == 'P');
    assert("sidebar.collapsedSections"@.len() == 25 && "sidebar.collapsedSections"@[17] == 'S');
    assert("sidebar.manualSectionOrder"@.len() == 26 && "sidebar.manualSectionOrder"@[8] == 'm');
    assert("sidebar.navigationProvider"@.len() == 26 && "sidebar.navigationProvider"@[8] == 'n');
    assert("sidebar.threadListProvider"@.len() == 26 && "sidebar.threadListProvider"@[8] == 't');
    assert("sidebar.machineSectionOrder"@.len() == 27 && "sidebar.machineSectionOrder"@[8] == 'm');
    assert("sidebar.visiblePluginPanels"@.len() == 27 && "sidebar.visiblePluginPanels"@[8] == 'v');
    assert("sidebar.collapsedEnvironments"@.len() == 29);
    assert("sidebar.collapsedThreadSections"@.len() == 31);
    if value@ is Array {
        let items = value@->Array_0;
        if forall|i: int|
            0 <= i < items.len() ==> #[trigger] items[i] == Tree::Str("pinned"@) || items[i]
                == Tree::Str("threads"@) {
            assert forall|i: int| 0 <= i < items.len() implies names_section(#[trigger] items[i]) by {}
        }
        if forall|i: int| 0 <= i < items.len() ==> names_section(#[trigger] items[i]) {
            assert forall|i: int| 0 <= i < items.len() implies #[trigger] items[i] == Tree::Str(
                "pinned"@,
            ) || items[i] == Tree::Str("threads"@) by {
                assert(names_section(items[i]));
            }
        }
    }
}

/// The names of the preferences are listed, each once.
pub proof fn names_are_listed(keys: Vec<String>)
    requires
        call_ensures(ui_preference_keys, (), keys),
    ensures
        keys@.len() == 16,
        texts(keys@).contains("sidebar.organizationMode"@),
        texts(keys@).contains("sidebar.chronologicalSort"@),
        texts(keys@).contains("sidebar.sortDirection"@),
        texts(keys@).contains("sidebar.collapsedSections"@),
        texts(keys@).contains("sidebar.visiblePluginPanels"@),
        texts(keys@).contains("sidebar.navigationProvider"@),
        texts(keys@).contains("sidebar.threadListProvider"@),
        texts(keys@).contains("sidebar.sectionOrder"@),
        texts(keys@).contains("sidebar.manualSectionOrder"@),
        texts(keys@).contains("sidebar.machineSectionOrder"@),
        texts(keys@).contains("sidebar.collapsedProjects"@),
        texts(keys@).contains("sidebar.collapsedThreads"@),
        texts(keys@).contains("sidebar.collapsedEnvironments"@),
        texts(keys@).contains("sidebar.collapsedThreadSections"@),
        texts(keys@).contains("sidebar.collapsedMachines"@),
        texts(keys@).contains("sidebar.pluginPanelOrder"@),
{
    let all = texts(keys@);
    assert(all.len() == keys@.len());
    assert(all[0] == "sidebar.organizationMode"@);
    assert(all[1] == "sidebar.chronologicalSort"@);
    assert(all[2] == "sidebar.sortDirection"@);
    assert(all[3] == "sidebar.sectionOrder"@);
    assert(all[4] == "sidebar.manualSectionOrder"@);
    assert(all[5] == "sidebar.machineSectionOrder"@);
    assert(all[6] == "sidebar.collapsedSections"@);
    assert(all[7] == "sidebar.collapsedProjects"@);
    assert(all[8] == "sidebar.collapsedThreads"@);
    assert(all[9] == "sidebar.collapsedEnvironments"@);
    assert(all[10] == "sidebar.collapsedThreadSections"@);
    assert(all[11] == "sidebar.collapsedMachines"@);
    assert(all[12] == "sidebar.pluginPanelOrder"@);
    assert(all[13] == "sidebar.visiblePluginPanels"@);
    assert(all[14] == "sidebar.navigationProvider"@);
    assert(all[15] == "sidebar.threadListProvider"@);
}

/// A preference changes exactly where it is known, the value fits, and the change was made against
/// its latest revision, which then counts one further. A refused change changes nothing, and no
/// other preference or setting ever changes with it.
pub proof fn changes_count_revisions(
    registry: &mut SettingsRegistry,
    key: &str,
    expected: u64,
    value: Json,
    answer: Result<UiPreference, PreferenceUpdateError>,
    other: Seq<char>,
)
    requires
        old(registry).wf(),
        call_ensures(SettingsRegistry::update_ui_preference, (registry, key, expected, value), answer),
    ensures
        ({
            let before = old(registry)@.ui_preferences@;
            let after = final(registry)@.ui_preferences@;
            let known = is_preference(key@);
            let fit = valid_preference(key@, value@);
            &&& !known ==> answer == Err::<UiPreference, PreferenceUpdateError>(PreferenceUpdateError::UnknownKey)
            &&& (known && !fit) ==> answer == Err::<UiPreference, PreferenceUpdateError>(PreferenceUpdateError::InvalidValue)
            &&& (fit && before[key@].revision != expected) ==> answer == Err::<UiPreference, PreferenceUpdateError>(PreferenceUpdateError::RevisionConflict { expected, actual: before[key@].revision })
            &&& (fit && before[key@].revision == expected && expected == u64::MAX) ==> answer == Err::<UiPreference, PreferenceUpdateError>(PreferenceUpdateError::RevisionExhausted)
            &&& answer is Ok <==> fit && before[key@].revision == expected && expected < u64::MAX
            &&& answer is Ok ==> answer->Ok_0.revision == expected + 1 && answer->Ok_0.value@ == value@ && after[key@].revision == expected + 1 && after[key@].value@ == value@
            &&& answer is Err ==> final(registry)@ == old(registry)@
            &&& other != key@ && before.dom().contains(other) ==> after.dom().contains(other) && after[other] == before[other]
            &&& final(registry)@.general == old(registry)@.general
            &&& final(registry)@.appearance == old(registry)@.appearance
            &&& final(registry)@.experiments == old(registry)@.experiments
            &&& final(registry)@.keyboard == old(registry)@.keyboard
            &&& final(registry)@.version == old(registry)@.version
        }),
{
    preferences_have_shapes(key@);
    assert(old(registry)@.ui_preferences@.dom().contains(key@) == (shape_of(key@) is Some));
}

/// Whether a name is a preference's.
pub open spec fn is_preference(key: Seq<char>) -> bool {
    ||| key == "sidebar.organizationMode"@
    ||| key == "sidebar.chronologicalSort"@
    ||| key == "sidebar.sortDirection"@
    ||| key == "sidebar.collapsedSections"@
    ||| key == "sidebar.visiblePluginPanels"@
    ||| key == "sidebar.navigationProvider"@
    ||| key == "sidebar.threadListProvider"@
    ||| key == "sidebar.sectionOrder"@
    ||| key == "sidebar.manualSectionOrder"@
    ||| key == "sidebar.machineSectionOrder"@
    ||| key == "sidebar.collapsedProjects"@
    ||| key == "sidebar.collapsedThreads"@
    ||| key == "sidebar.collapsedEnvironments"@
    ||| key == "sidebar.collapsedThreadSections"@
    ||| key == "sidebar.collapsedMachines"@
    ||| key == "sidebar.pluginPanelOrder"@
}

/// A name is a preference's exactly where it has a shape.
proof fn preferences_have_shapes(key: Seq<char>)
    ensures
        is_preference(key) <==> shape_of(key) is Some,
{
}

/// A preference that is reset has its default again, one revision further; what is not known cannot
/// be reset, and nothing else changes.
pub proof fn resets_count_revisions(
    registry: &mut SettingsRegistry,
    key: &str,
    answer: Result<UiPreference, PreferenceUpdateError>,
    other: Seq<char>,
)
    requires
        old(registry).wf(),
        call_ensures(SettingsRegistry::reset_ui_preference, (registry, key), answer),
    ensures
        ({
            let before = old(registry)@.ui_preferences@;
            let after = final(registry)@.ui_preferences@;
            &&& !is_preference(key@) ==> answer == Err::<UiPreference, PreferenceUpdateError>(PreferenceUpdateError::UnknownKey)
            &&& (is_preference(key@) && before[key@].revision == u64::MAX) ==> answer == Err::<UiPreference, PreferenceUpdateError>(PreferenceUpdateError::RevisionExhausted)
            &&& answer is Ok <==> is_preference(key@) && before[key@].revision < u64::MAX
            &&& answer is Ok ==> answer->Ok_0.revision == before[key@].revision + 1 && answer->Ok_0.value@ == shape_default(shape_of(key@)->0) && after[key@].revision == answer->Ok_0.revision && after[key@].value@ == answer->Ok_0.value@
            &&& answer is Err ==> final(registry)@ == old(registry)@
            &&& other != key@ && before.dom().contains(other) ==> after.dom().contains(other) && after[other] == before[other]
            &&& final(registry)@.general == old(registry)@.general
            &&& final(registry)@.appearance == old(registry)@.appearance
            &&& final(registry)@.experiments == old(registry)@.experiments
            &&& final(registry)@.keyboard == old(registry)@.keyboard
        }),
{
    preferences_have_shapes(key@);
    assert(old(registry)@.ui_preferences@.dom().contains(key@) == (shape_of(key@) is Some));
}

/// What is set is what is kept and handed back, and no other setting changes with it.
pub proof fn settings_change_one_at_a_time(
    first: &mut SettingsRegistry,
    experiments: ExperimentSettings,
    set_experiments: ExperimentSettings,
    second: &mut SettingsRegistry,
    general: GeneralSettings,
    set_general: &GeneralSettings,
    third: &mut SettingsRegistry,
    keyboard: Vec<Json>,
    set_keyboard: &Vec<Json>,
)
    requires
        call_ensures(SettingsRegistry::set_experiments, (first, experiments), set_experiments),
        call_ensures(SettingsRegistry::set_general, (second, general), set_general),
        call_ensures(SettingsRegistry::set_keyboard, (third, keyboard), set_keyboard),
    ensures
        final(first)@.experiments == experiments,
        set_experiments == experiments,
        final(first)@.general == old(first)@.general,
        final(first)@.keyboard == old(first)@.keyboard,
        final(first)@.appearance == old(first)@.appearance,
        final(first)@.ui_preferences == old(first)@.ui_preferences,
        final(second)@.general == general,
        *set_general == general,
        final(second)@.experiments == old(second)@.experiments,
        final(second)@.keyboard == old(second)@.keyboard,
        final(second)@.appearance == old(second)@.appearance,
        final(second)@.ui_preferences == old(second)@.ui_preferences,
        final(third)@.keyboard == keyboard,
        *set_keyboard == keyboard,
        final(third)@.experiments == old(third)@.experiments,
        final(third)@.general == old(third)@.general,
        final(third)@.appearance == old(third)@.appearance,
        final(third)@.ui_preferences == old(third)@.ui_preferences,
{
}

/// An appearance is set to its theme and its colour, without anything of what it was before.
pub proof fn appearances_are_set_whole(
    registry: &mut SettingsRegistry,
    theme: String,
    color: String,
    answer: &AppearanceSettings,
)
    requires
        call_ensures(SettingsRegistry::set_appearance, (registry, theme, color), answer),
    ensures
        final(registry)@.appearance.theme_id@ == theme@,
        final(registry)@.appearance.favicon_color@ == color@,
        final(registry)@.appearance.custom_css is None,
        final(registry)@.appearance.resolved_code_theme.dark@ == ""@,
        final(registry)@.appearance.resolved_code_theme.light@ == ""@,
        *answer == final(registry)@.appearance,
        final(registry)@.general == old(registry)@.general,
        final(registry)@.experiments == old(registry)@.experiments,
        final(registry)@.keyboard == old(registry)@.keyboard,
        final(registry)@.ui_preferences == old(registry)@.ui_preferences,
        final(registry)@.version == old(registry)@.version,
{
}

/// New settings are the defaults, with the provider first in order and as the default.
pub proof fn new_settings_are_the_defaults(provider: &str, registry: SettingsRegistry)
    requires
        call_ensures(SettingsRegistry::new, (provider,), registry),
    ensures
        registry@.version == 1,
        registry@.appearance.theme_id@ == "default"@,
        registry@.appearance.favicon_color@ == "default"@,
        registry@.appearance.custom_css is None,
        !registry@.experiments.changelog_preview,
        !registry@.experiments.mobile_app,
        !registry@.experiments.sidebar_progressive_disclosure,
        registry@.experiments.timeline_windowing,
        registry@.general.show_keyboard_hints,
        registry@.general.steer_active_thread_on_enter,
        !registry@.general.show_diagnostic_events,
        !registry@.general.streamer_mode,
        registry@.general.managed_branch_prefix@ == ""@,
        registry@.general.show_unhandled_provider_events is None,
        texts(registry@.general.provider_order@) == seq![provider@],
        registry@.general.default_provider_id is Some,
        registry@.general.default_provider_id->0@ == provider@,
        registry@.keyboard@.len() == 0,
{
}

/// What is read of the settings is what is kept.
pub proof fn getters_hand_out_what_is_kept(
    registry: SettingsRegistry,
    all: &SettingsSnapshot,
    appearance: &AppearanceSettings,
    experiments: ExperimentSettings,
    general: &GeneralSettings,
    keyboard: &Vec<Json>,
)
    requires
        call_ensures(SettingsRegistry::export, (&registry,), all),
        call_ensures(SettingsRegistry::appearance, (&registry,), appearance),
        call_ensures(SettingsRegistry::experiments, (&registry,), experiments),
        call_ensures(SettingsRegistry::general, (&registry,), general),
        call_ensures(SettingsRegistry::keyboard, (&registry,), keyboard),
    ensures
        *all == registry@,
        *appearance == registry@.appearance,
        experiments == registry@.experiments,
        *general == registry@.general,
        *keyboard == registry@.keyboard,
{
}

/// Settings of this version are restored as they were kept, save what is no longer valid: an
/// unknown theme, an unknown colour, a preference's value that does not fit. Those of the first
/// version also acquire the provider where they have no order.
pub proof fn restored_settings_are_mended(
    registry: &mut SettingsRegistry,
    kept: SettingsSnapshot,
    provider: &str,
    key: Seq<char>,
)
    requires
        call_ensures(SettingsRegistry::restore, (registry, kept, provider), ()),
        kept.version <= 1,
    ensures
        ({
            let now = final(registry)@;
            &&& now.version == 1
            &&& now.experiments == kept.experiments
            &&& now.keyboard == kept.keyboard
            &&& (kept.version == 1 || kept.general.provider_order@.len() > 0) ==> now.general == kept.general
            &&& (kept.version == 0 && kept.general.provider_order@.len() == 0) ==> texts(now.general.provider_order@) == seq![provider@] && now.general.default_provider_id is Some && now.general.streamer_mode == kept.general.streamer_mode && now.general.show_keyboard_hints == kept.general.show_keyboard_hints && now.general.managed_branch_prefix == kept.general.managed_branch_prefix
            &&& (kept.version == 0 && kept.general.provider_order@.len() == 0 && kept.general.default_provider_id is None) ==> now.general.default_provider_id->0@ == provider@
            &&& (kept.version == 0 && kept.general.provider_order@.len() == 0 && kept.general.default_provider_id is Some) ==> now.general.default_provider_id->0@ == kept.general.default_provider_id->0@
            &&& kept.appearance.theme_id@ == "default"@ ==> now.appearance.theme_id == kept.appearance.theme_id && now.appearance.custom_css == kept.appearance.custom_css
            &&& kept.appearance.theme_id@ != "default"@ ==> now.appearance.theme_id@ == "default"@ && now.appearance.favicon_color@ == "default"@ && now.appearance.custom_css is None
            &&& (kept.appearance.theme_id@ == "default"@ && favicon_color(kept.appearance.favicon_color@)) ==> now.appearance.favicon_color@ == kept.appearance.favicon_color@
            &&& (kept.appearance.theme_id@ == "default"@ && !favicon_color(kept.appearance.favicon_color@)) ==> now.appearance.favicon_color@ == "default"@
            &&& is_preference(key) ==> now.ui_preferences@.dom().contains(key)
            &&& (is_preference(key) && kept.ui_preferences@.dom().contains(key)) ==> now.ui_preferences@[key].revision == kept.ui_preferences@[key].revision
            &&& (is_preference(key) && kept.ui_preferences@.dom().contains(key) && valid_preference(key, kept.ui_preferences@[key].value@)) ==> now.ui_preferences@[key].value@ == kept.ui_preferences@[key].value@
            &&& (is_preference(key) && kept.ui_preferences@.dom().contains(key) && !valid_preference(key, kept.ui_preferences@[key].value@)) ==> now.ui_preferences@[key].value@ == shape_default(shape_of(key)->0)
            &&& (is_preference(key) && !kept.ui_preferences@.dom().contains(key)) ==> now.ui_preferences@[key].revision == 0 && now.ui_preferences@[key].value@ == shape_default(shape_of(key)->0)
        }),
{
    preferences_have_shapes(key);
    let now = final(registry)@;
    assert(now.ui_preferences@.dom().contains(key) == (shape_of(key) is Some));
    assert(shape_of(key) is Some ==> mended(
        key,
        entry(kept.ui_preferences@, key),
        now.ui_preferences@[key],
    ));
}

/// A colour is known exactly where it is one of these, and a theme where it is the default.
pub proof fn colours_and_themes_are_known_by_name(
    color: &str,
    known: bool,
    theme: &str,
    known_theme: bool,
    version: u32,
)
    requires
        call_ensures(is_valid_favicon_color, (color,), known),
        call_ensures(is_known_theme, (theme,), known_theme),
        call_ensures(current_settings_version, (), version),
    ensures
        known <==> (color@ == "default"@ || color@ == "red"@ || color@ == "orange"@ || color@ == "yellow"@ || color@ == "green"@ || color@ == "teal"@ || color@ == "blue"@ || color@ == "purple"@ || color@ == "pink"@),
        known_theme <==> theme@ == "default"@,
        version == 1,
{
}

/// An appearance is shown with its theme, its colour and how it colours code.
pub proof fn appearances_are_shown(
    settings: AppearanceSettings,
    value: Json,
    plain: Json,
)
    requires
        call_ensures(appearance_value, (&settings,), value),
        call_ensures(default_theme_value, (), plain),
    ensures
        member(value@, "themeId"@) == Some(Tree::Str(settings.theme_id@)),
        member(value@, "customCss"@) == Some(opt_tree(opt_view(settings.custom_css))),
        member(value@, "faviconColor"@) == Some(Tree::Str(settings.favicon_color@)),
        member(value@, "resolvedCodeTheme"@) is Some,
        member(member(value@, "resolvedCodeTheme"@)->0, "dark"@) == Some(Tree::Str(settings.resolved_code_theme.dark@)),
        member(member(value@, "resolvedCodeTheme"@)->0, "light"@) == Some(Tree::Str(settings.resolved_code_theme.light@)),
        member(member(value@, "resolvedCodeTheme"@)->0, "files"@) == Some(theme_files(settings.resolved_code_theme.files)),
        member(plain@, "themeId"@) == Some(Tree::Str("default"@)),
        member(plain@, "customCss"@) == Some(Tree::Null),
        member(plain@, "faviconColor"@) == Some(Tree::Str("default"@)),
        member(plain@, "resolvedCodeTheme"@) is Some,
        member(member(plain@, "resolvedCodeTheme"@)->0, "dark"@) == Some(Tree::Str(""@)),
        member(member(plain@, "resolvedCodeTheme"@)->0, "light"@) == Some(Tree::Str(""@)),
        member(member(plain@, "resolvedCodeTheme"@)->0, "files"@) == Some(Tree::Object(Seq::empty())),
{
    broadcast use {crate::json::member_of_field, crate::reply::errors_say_what_is_wrong};

    reveal_strlit("dark");
    reveal_strlit("files");
    reveal_strlit("light");
    reveal_strlit("themeId");
    reveal_strlit("customCss");
    reveal_strlit("faviconColor");
    reveal_strlit("resolvedCodeTheme");
    assert("dark"@.len() == 4);
    assert("files"@.len() == 5 && "files"@[0] == 'f');
    assert("light"@.len() == 5 && "light"@[0] == 'l');
    assert("themeId"@.len() == 7);
    assert("customCss"@.len() == 9);
    assert("faviconColor"@.len() == 12);
    assert("resolvedCodeTheme"@.len() == 17);
}

/// The general settings are shown one by one.
pub proof fn general_settings_are_shown(settings: GeneralSettings, value: Json)
    requires
        call_ensures(general_value, (&settings,), value),
    ensures
        member(value@, "showKeyboardHints"@) == Some(Tree::Bool(settings.show_keyboard_hints)),
        member(value@, "steerActiveThreadOnEnter"@) == Some(Tree::Bool(settings.steer_active_thread_on_enter)),
        member(value@, "showDiagnosticEvents"@) == Some(Tree::Bool(settings.show_diagnostic_events)),
        member(value@, "providerOrder"@) == Some(text_array(texts(settings.provider_order@))),
        member(value@, "defaultProviderId"@) == Some(opt_tree(opt_view(settings.default_provider_id))),
        member(value@, "streamerMode"@) == Some(Tree::Bool(settings.streamer_mode)),
        member(value@, "managedBranchPrefix"@) == Some(Tree::Str(settings.managed_branch_prefix@)),
        settings.show_unhandled_provider_events is None ==> member(value@, "showUnhandledProviderEvents"@) is None,
        settings.show_unhandled_provider_events matches Some(shown) ==> member(value@, "showUnhandledProviderEvents"@) == Some(Tree::Bool(shown)),
{
    broadcast use {crate::json::member_of_field, crate::reply::errors_say_what_is_wrong};

    reveal_strlit("streamerMode");
    reveal_strlit("providerOrder");
    reveal_strlit("defaultProviderId");
    reveal_strlit("showKeyboardHints");
    reveal_strlit("managedBranchPrefix");
    reveal_strlit("showDiagnosticEvents");
    reveal_strlit("steerActiveThreadOnEnter");
    reveal_strlit("showUnhandledProviderEvents");
    assert("streamerMode"@.len() == 12);
    assert("providerOrder"@.len() == 13);
    assert("defaultProviderId"@.len() == 17 && "defaultProviderId"@[0] == 'd');
    assert("showKeyboardHints"@.len() == 17 && "showKeyboardHints"@[0] == 's');
    assert("managedBranchPrefix"@.len() == 19);
    assert("showDiagnosticEvents"@.len() == 20);
    assert("steerActiveThreadOnEnter"@.len() == 24);
    assert("showUnhandledProviderEvents"@.len() == 27);
}

/// The experiments are shown one by one.
pub proof fn experiments_are_shown(settings: ExperimentSettings, value: Json)
    requires
        call_ensures(experiments_value, (&settings,), value),
    ensures
        member(value@, "changelogPreview"@) == Some(Tree::Bool(settings.changelog_preview)),
        member(value@, "mobileApp"@) == Some(Tree::Bool(settings.mobile_app)),
        member(value@, "sidebarProgressiveDisclosure"@) == Some(Tree::Bool(settings.sidebar_progressive_disclosure)),
        member(value@, "timelineWindowing"@) == Some(Tree::Bool(settings.timeline_windowing)),
{
    broadcast use {crate::json::member_of_field, crate::reply::errors_say_what_is_wrong};

    reveal_strlit("mobileApp");
    reveal_strlit("changelogPreview");
    reveal_strlit("timelineWindowing");
    reveal_strlit("sidebarProgressiveDisclosure");
    assert("mobileApp"@.len() == 9);
    assert("changelogPreview"@.len() == 16);
    assert("timelineWindowing"@.len() == 17);
    assert("sidebarProgressiveDisclosure"@.len() == 28);
}

/// The configuration shows every setting, and the machine that the server runs on.
#[verifier::rlimit(80)]
pub proof fn the_configuration_shows_every_setting(
    settings: SettingsSnapshot,
    host: Option<String>,
    answer: Reply,
)
    requires
        call_ensures(system_config, (&settings, &host), answer),
    ensures
        answer@.status == 200,
        member(answer@.body, "generalSettings"@) == Some(general_tree(settings.general)),
        member(answer@.body, "keybindings"@) == Some(Tree::Array(trees(settings.keyboard@))),
        member(answer@.body, "defaultKeybindings"@) == Some(Tree::Array(Seq::empty())),
        member(answer@.body, "keybindingOverrides"@) == Some(Tree::Array(Seq::empty())),
        member(answer@.body, "experiments"@) == Some(experiments_tree(settings.experiments)),
        member(answer@.body, "appearance"@) == Some(appearance_tree(settings.appearance)),
        member(answer@.body, "customThemes"@) == Some(Tree::Array(Seq::empty())),
        member(answer@.body, "pluginThemes"@) == Some(Tree::Array(Seq::empty())),
        member(answer@.body, "hostDaemonPort"@) == Some(Tree::Null),
        member(answer@.body, "localHelperPorts"@) == Some(Tree::Array(Seq::empty())),
        member(answer@.body, "serverUrl"@) == Some(Tree::Str(""@)),
        member(answer@.body, "primaryHostPlatform"@) == Some(Tree::Null),
        member(answer@.body, "voiceTranscriptionEnabled"@) == Some(Tree::Bool(false)),
        member(answer@.body, "dataDir"@) == Some(Tree::Str(""@)),
        host is None ==> member(answer@.body, "primaryHostId"@) == Some(Tree::Null),
        host matches Some(id) ==> member(answer@.body, "primaryHostId"@) == Some(Tree::Str(id@)),
        member(answer@.body, "featureFlags"@) is Some,
        member(member(answer@.body, "featureFlags"@)->0, "timelineWindowEventBudget"@) == Some(Tree::UInt(500)),
        member(member(answer@.body, "featureFlags"@)->0, "placeholder"@) == Some(Tree::Bool(false)),
        member(answer@.body, "aiServices"@) is Some,
        member(member(answer@.body, "aiServices"@)->0, "inference"@) == Some(Tree::Str(""@)),
        member(member(answer@.body, "aiServices"@)->0, "inferenceFallback"@) == Some(Tree::Str(""@)),
        member(member(answer@.body, "aiServices"@)->0, "transcription"@) == Some(Tree::Str(""@)),
        member(member(answer@.body, "aiServices"@)->0, "services"@) == Some(Tree::Array(Seq::empty())),
{
    broadcast use {crate::json::member_of_field, crate::reply::errors_say_what_is_wrong};

    reveal_strlit("dataDir");
    reveal_strlit("services");
    reveal_strlit("inference");
    reveal_strlit("serverUrl");
    reveal_strlit("aiServices");
    reveal_strlit("appearance");
    reveal_strlit("experiments");
    reveal_strlit("keybindings");
    reveal_strlit("placeholder");
    reveal_strlit("customThemes");
    reveal_strlit("featureFlags");
    reveal_strlit("pluginThemes");
    reveal_strlit("primaryHostId");
    reveal_strlit("transcription");
    reveal_strlit("hostDaemonPort");
    reveal_strlit("generalSettings");
    reveal_strlit("localHelperPorts");
    reveal_strlit("inferenceFallback");
    reveal_strlit("defaultKeybindings");
    reveal_strlit("keybindingOverrides");
    reveal_strlit("primaryHostPlatform");
    reveal_strlit("timelineWindowEventBudget");
    reveal_strlit("voiceTranscriptionEnabled");
    assert("dataDir"@.len() == 7);
    assert("services"@.len() == 8);
    assert("inference"@.len() == 9 && "inference"@[0] == 'i');
    assert("serverUrl"@.len() == 9 && "serverUrl"@[0] == 's');
    assert("aiServices"@.len() == 10 && "aiServices"@[1] == 'i');
    assert("appearance"@.len() == 10 && "appearance"@[1] == 'p');
    assert("experiments"@.len() == 11 && "experiments"@[0] == 'e');
    assert("keybindings"@.len() == 11 && "keybindings"@[0] == 'k');
    assert("placeholder"@.len() == 11 && "placeholder"@[0] == 'p');
    assert("customThemes"@.len() == 12 && "customThemes"@[0] == 'c');
    assert("featureFlags"@.len() == 12 && "featureFlags"@[0] == 'f');
    assert("pluginThemes"@.len() == 12 && "pluginThemes"@[0] == 'p');
    assert("primaryHostId"@.len() == 13 && "primaryHostId"@[0] == 'p');
    assert("transcription"@.len() == 13 && "transcription"@[0] == 't');
    assert("hostDaemonPort"@.len() == 14);
    assert("generalSettings"@.len() == 15);
    assert("localHelperPorts"@.len() == 16);
    assert("inferenceFallback"@.len() == 17);
    assert("defaultKeybindings"@.len() == 18);
    assert("keybindingOverrides"@.len() == 19 && "keybindingOverrides"@[0] == 'k');
    assert("primaryHostPlatform"@.len() == 19 && "primaryHostPlatform"@[0] == 'p');
    assert("timelineWindowEventBudget"@.len() == 25 && "timelineWindowEventBudget"@[0] == 't');
    assert("voiceTranscriptionEnabled"@.len() == 25 && "voiceTranscriptionEnabled"@[0] == 'v');
}

} // verus!
