//! Agents as a client sees them: how each is shown, which models it has, and where it can run.

use vstd::prelude::*;

use crate::domain::{
    by_id, find_by_id, Environment, Host, HostStatus, Identified, Project, ProjectSource,
    ProviderSpec,
};
use crate::json::{lookup_last, member, members, object, trees, view_of_parts, Fields, Json, Tree};
use crate::reply::{ok, ok_view, Reply};
use crate::text::{joined, joined3, opt_view, same_text};
use crate::timeline::{empty_array, member_text, text_member};

verus! {

/// The service tier of every run: the agents' protocol has none.
pub const DEFAULT_SERVICE_TIER: &'static str = "default";

/// The reasoning level of a run whose client picked none.
pub const DEFAULT_REASONING_LEVEL: &'static str = "medium";

/// What every machine allows a run to do.
pub const DEFAULT_PERMISSION_MODE: &'static str = "full";

impl Identified for ProviderSpec {
    open spec fn key(&self) -> Seq<char> {
        self.name@
    }

    fn id_text(&self) -> (result: &String) {
        &self.name
    }
}

/// The default agent's id: the first that is configured, and none where none is.
pub open spec fn default_provider(providers: Seq<ProviderSpec>) -> Seq<char> {
    if providers.len() == 0 {
        Seq::empty()
    } else {
        providers[0].name@
    }
}

/// The default agent's id, for a subject that records none of its own.
pub fn configured_provider_id(providers: &Vec<ProviderSpec>) -> (result: String)
    ensures
        result@ == default_provider(providers@),
{
    if providers.len() == 0 {
        String::new()
    } else {
        providers[0].name.clone()
    }
}

/// The agent that a query is about: the one it names where that is offered, else the default.
pub open spec fn queried_provider(providers: Seq<ProviderSpec>, named: Option<Seq<char>>) -> ProviderSpec {
    match named {
        Some(name) => match by_id(providers, name) {
            Some(spec) => spec,
            None => providers[0],
        },
        None => providers[0],
    }
}

/// The agent that a query is about.
pub fn query_provider<'a>(providers: &'a Vec<ProviderSpec>, provider_id: &Option<String>) -> (result:
    &'a ProviderSpec)
    requires
        providers@.len() > 0,
    ensures
        *result == queried_provider(providers@, opt_view(*provider_id)),
{
    if let Some(name) = provider_id {
        if let Some(spec) = find_by_id(providers, name.as_str()) {
            return spec;
        }
    }
    &providers[0]
}

/// The name that an agent is shown under; one that is not in the table goes by its id.
pub open spec fn display_name(provider_id: Seq<char>) -> Seq<char> {
    if provider_id == "pi"@ {
        "Pi"@
    } else if provider_id == "omp"@ {
        "OMP"@
    } else if provider_id == "hermes"@ {
        "Hermes"@
    } else if provider_id == "opencode"@ {
        "OpenCode"@
    } else if provider_id == "gemini"@ {
        "Gemini"@
    } else if provider_id == "cursor"@ {
        "Cursor"@
    } else if provider_id == "codex"@ {
        "Codex"@
    } else {
        provider_id
    }
}

/// The name that an agent is shown under.
pub fn provider_display_name(provider_id: &str) -> (result: String)
    ensures
        result@ == display_name(provider_id@),
{
    if same_text(provider_id, "pi") {
        "Pi".to_owned()
    } else if same_text(provider_id, "omp") {
        "OMP".to_owned()
    } else if same_text(provider_id, "hermes") {
        "Hermes".to_owned()
    } else if same_text(provider_id, "opencode") {
        "OpenCode".to_owned()
    } else if same_text(provider_id, "gemini") {
        "Gemini".to_owned()
    } else if same_text(provider_id, "cursor") {
        "Cursor".to_owned()
    } else if same_text(provider_id, "codex") {
        "Codex".to_owned()
    } else {
        provider_id.to_owned()
    }
}

/// How an agent presents itself.
#[derive(Debug, PartialEq, Eq)]
pub struct Branding {
    /// The command that signs it in.
    pub sign_in_command: String,
    /// Where it is installed from.
    pub install_url: String,
    /// Its colour on a light ground.
    pub light: Option<String>,
    /// Its colour on a dark ground.
    pub dark: Option<String>,
}

/// An agent on offer, with what its mark and its branding are.
#[derive(Debug, PartialEq, Eq)]
pub struct OfferedProvider {
    /// Its id.
    pub name: String,
    /// The content address of its mark.
    pub mark: String,
    /// Its branding, where it has one.
    pub branding: Option<Branding>,
}

/// The colour of a mark: both grounds, or none.
pub open spec fn tint_tree(branding: Branding) -> Option<Tree> {
    match (branding.light, branding.dark) {
        (Some(light), Some(dark)) => Some(
            object().field("light"@, Tree::Str(light@)).field("dark"@, Tree::Str(dark@)),
        ),
        _ => None,
    }
}

/// The presentation strings of a branded agent.
pub open spec fn strings_tree(name: Seq<char>, branding: Branding) -> Tree {
    object().field(
        "signInHint"@,
        Tree::Str("Run `"@ + branding.sign_in_command@ + "` on the machine to sign in."@),
    ).field(
        "expiredHint"@,
        Tree::Str(
            "Your "@ + display_name(name) + " session expired. Run `"@ + branding.sign_in_command@
                + "`, then reload."@,
        ),
    ).field("installUrl"@, Tree::Str(branding.install_url@)).field_if(
        "iconTint"@,
        tint_tree(branding),
    )
}

/// The presentation strings of an agent, where it has branding.
pub fn provider_strings(offered: &OfferedProvider) -> (result: Option<Json>)
    ensures
        match offered.branding {
            Some(branding) => result matches Some(strings) && strings@ == strings_tree(
                offered.name@,
                branding,
            ),
            None => result is None,
        },
{
    let branding: &Branding = match &offered.branding {
        Some(branding) => branding,
        None => {
            return None;
        },
    };
    let name: String = provider_display_name(offered.name.as_str());
    let mut expired: String = joined3("Your ", name.as_str(), " session expired. Run `");
    expired.append(branding.sign_in_command.as_str());
    expired.append("`, then reload.");
    let tint: Option<Json> = match (&branding.light, &branding.dark) {
        (Some(light), Some(dark)) => Some(
            Fields::new().with("light", Json::text(light.as_str())).with(
                "dark",
                Json::text(dark.as_str()),
            ).object(),
        ),
        _ => None,
    };
    Some(
        Fields::new().with(
            "signInHint",
            Json::Str(
                joined3(
                    "Run `",
                    branding.sign_in_command.as_str(),
                    "` on the machine to sign in.",
                ),
            ),
        ).with("expiredHint", Json::Str(expired)).with(
            "installUrl",
            Json::text(branding.install_url.as_str()),
        ).maybe("iconTint", tint).object(),
    )
}

/// The permission modes that every agent accepts.
pub open spec fn permission_modes_tree() -> Tree {
    Tree::Array(
        Seq::empty().push(Tree::Str("accept-edits"@)).push(Tree::Str("auto"@)).push(
            Tree::Str("full"@),
        ),
    )
}

/// An agent as a client is told of it.
pub open spec fn provider_tree(offered: OfferedProvider) -> Tree {
    object().field("id"@, Tree::Str(offered.name@))
        .field("pluginId"@, Tree::Str("loom"@))
        .field("displayName"@, Tree::Str(display_name(offered.name@)))
        .field(
            "logoUrl"@,
            Tree::Str(
                "/api/v1/system/providers/"@ + offered.name@ + "/logo?h="@ + offered.mark@,
            ),
        )
        .field("family"@, Tree::Str("acp"@))
        .field(
            "maintenance"@,
            object().field("health"@, Tree::Bool(true)).field("usage"@, Tree::Bool(true)).field(
                "installation"@,
                Tree::Bool(false),
            ),
        )
        .field(
            "capabilities"@,
            object().field("supportsThreadArchive"@, Tree::Bool(true))
                .field("supportsThreadRename"@, Tree::Bool(true))
                .field("supportsServiceTier"@, Tree::Bool(false))
                .field("supportsNativeUserQuestion"@, Tree::Bool(false))
                .field("supportsFork"@, Tree::Bool(false))
                .field("supportsSessionRewind"@, Tree::Bool(false))
                .field("permissionModes"@, permission_modes_tree())
                .field("modelCatalogScope"@, Tree::Str("workspace"@)),
        )
        .field("composerActions"@, Tree::Array(Seq::empty()))
        .field("available"@, Tree::Bool(true))
        .field_if(
            "strings"@,
            match offered.branding {
                Some(branding) => Some(strings_tree(offered.name@, branding)),
                None => None,
            },
        )
}

/// The permission modes that every agent accepts.
fn permission_modes() -> (result: Json)
    ensures
        result@ == permission_modes_tree(),
{
    let mut modes: Vec<Json> = Vec::new();
    modes.push(Json::text("accept-edits"));
    modes.push(Json::text("auto"));
    modes.push(Json::text("full"));
    assert(trees(modes@) =~= Seq::empty().push(Tree::Str("accept-edits"@)).push(
        Tree::Str("auto"@),
    ).push(Tree::Str("full"@)));
    Json::array(modes)
}

/// An agent as a client is told of it.
pub fn provider_info(offered: &OfferedProvider) -> (result: Json)
    ensures
        result@ == provider_tree(*offered),
{
    let mut logo: String = joined3("/api/v1/system/providers/", offered.name.as_str(), "/logo?h=");
    logo.append(offered.mark.as_str());
    let maintenance: Json = Fields::new().with("health", Json::Bool(true)).with(
        "usage",
        Json::Bool(true),
    ).with("installation", Json::Bool(false)).object();
    let capabilities: Json = Fields::new().with("supportsThreadArchive", Json::Bool(true))
        .with("supportsThreadRename", Json::Bool(true))
        .with("supportsServiceTier", Json::Bool(false))
        .with("supportsNativeUserQuestion", Json::Bool(false))
        .with("supportsFork", Json::Bool(false))
        .with("supportsSessionRewind", Json::Bool(false))
        .with("permissionModes", permission_modes())
        .with("modelCatalogScope", Json::text("workspace"))
        .object();
    Fields::new().with("id", Json::text(offered.name.as_str()))
        .with("pluginId", Json::text("loom"))
        .with("displayName", Json::Str(provider_display_name(offered.name.as_str())))
        .with("logoUrl", Json::Str(logo))
        .with("family", Json::text("acp"))
        .with("maintenance", maintenance)
        .with("capabilities", capabilities)
        .with("composerActions", empty_array())
        .with("available", Json::Bool(true))
        .maybe("strings", provider_strings(offered))
        .object()
}

/// The agents on offer as a client is told of them.
pub open spec fn provider_trees(offered: Seq<OfferedProvider>) -> Seq<Tree> {
    Seq::new(offered.len(), |i: int| provider_tree(offered[i]))
}

/// The agents on offer as a client is told of them.
pub fn provider_infos(offered: &Vec<OfferedProvider>) -> (result: Vec<Json>)
    ensures
        trees(result@) == provider_trees(offered@),
{
    let mut rows: Vec<Json> = Vec::new();
    for i in 0..offered.len()
        invariant
            rows@.len() == i,
            forall|k: int| 0 <= k < i ==> (#[trigger] rows@[k])@ == provider_tree(offered@[k]),
    {
        rows.push(provider_info(&offered[i]));
    }
    assert(trees(rows@) =~= provider_trees(offered@));
    rows
}

/// The answer to a list of the agents on offer.
pub fn system_providers(offered: &Vec<OfferedProvider>) -> (result: Reply)
    ensures
        result@ == ok_view(Tree::Array(provider_trees(offered@))),
{
    ok(Json::array(provider_infos(offered)))
}

/// What is known of an agent's installation: nothing beyond its name.
pub open spec fn provider_state_tree(name: Seq<char>) -> Tree {
    object().field("status"@, Tree::Str("unknown"@))
        .field("statusMessage"@, Tree::Null)
        .field("accountEmail"@, Tree::Null)
        .field("planLabel"@, Tree::Null)
        .field("installedVersion"@, Tree::Null)
        .field("minimumSupportedVersion"@, Tree::Null)
        .field("canInstall"@, Tree::Bool(false))
        .field("canUpdate"@, Tree::Bool(false))
        .field("loginCommand"@, Tree::Null)
        .field("providerId"@, Tree::Str(name))
        .field("displayName"@, Tree::Str(display_name(name)))
}

/// The answer to a query for the agents' states: one entry per configured agent.
pub fn system_provider_states(providers: &Vec<ProviderSpec>) -> (result: Reply)
    ensures
        result@ == ok_view(
            object().field(
                "providers"@,
                Tree::Array(
                    Seq::new(providers@.len(), |i: int| provider_state_tree(providers@[i].name@)),
                ),
            ),
        ),
{
    let mut rows: Vec<Json> = Vec::new();
    for i in 0..providers.len()
        invariant
            rows@.len() == i,
            forall|k: int|
                0 <= k < i ==> (#[trigger] rows@[k])@ == provider_state_tree(providers@[k].name@),
    {
        let name: &str = providers[i].name.as_str();
        rows.push(
            Fields::new().with("status", Json::text("unknown"))
                .with("statusMessage", Json::Null)
                .with("accountEmail", Json::Null)
                .with("planLabel", Json::Null)
                .with("installedVersion", Json::Null)
                .with("minimumSupportedVersion", Json::Null)
                .with("canInstall", Json::Bool(false))
                .with("canUpdate", Json::Bool(false))
                .with("loginCommand", Json::Null)
                .with("providerId", Json::text(name))
                .with("displayName", Json::Str(provider_display_name(name)))
                .object(),
        );
    }
    assert(trees(rows@) =~= Seq::new(
        providers@.len(),
        |i: int| provider_state_tree(providers@[i].name@),
    ));
    ok(Fields::new().with("providers", Json::array(rows)).object())
}

/// A reasoning level that a model offers.
#[derive(Debug, PartialEq, Eq)]
pub struct CatalogThinkingLevel {
    /// The agent's own id for it.
    pub id: String,
    /// Its name.
    pub name: String,
    /// What it means.
    pub description: Option<String>,
}

/// A model that an agent offers.
#[derive(Debug, PartialEq, Eq)]
pub struct CatalogModel {
    /// The agent's own id for it.
    pub id: String,
    /// Its name.
    pub name: String,
    /// The levels it offers, in the agent's order.
    pub thinking_levels: Vec<CatalogThinkingLevel>,
    /// The level it uses where none is picked.
    pub default_thinking_level: Option<String>,
}

/// What an agent on one machine says it offers.
#[derive(Debug, PartialEq, Eq)]
pub struct ProviderCatalog {
    /// The model it uses where none is picked.
    pub current_model: Option<String>,
    /// The models.
    pub models: Vec<CatalogModel>,
}

impl ProviderCatalog {
    /// Whether there is no model to pick.
    pub fn is_empty(&self) -> (result: bool)
        ensures
            result == (self.models@.len() == 0),
    {
        self.models.len() == 0
    }
}

/// The one model of an agent that has not described itself.
pub open spec fn configured_model_tree(provider_id: Seq<char>) -> Tree {
    object().field("id"@, Tree::Str(provider_id + "/default"@))
        .field("model"@, Tree::Str(provider_id))
        .field("displayName"@, Tree::Str("Default"@))
        .field("description"@, Tree::Str("The configured loom provider model"@))
        .field(
            "supportedReasoningEfforts"@,
            Tree::Array(
                seq![
                    object().field("reasoningEffort"@, Tree::Str("medium"@)).field(
                        "description"@,
                        Tree::Str("Balanced reasoning"@),
                    ),
                ],
            ),
        )
        .field("defaultReasoningEffort"@, Tree::Str("medium"@))
        .field("isDefault"@, Tree::Bool(true))
}

/// The one model of an agent that has not described itself.
pub fn configured_model(provider_id: &str) -> (result: Json)
    ensures
        result@ == configured_model_tree(provider_id@),
{
    let mut efforts: Vec<Json> = Vec::new();
    let effort: Json = Fields::new().with("reasoningEffort", Json::text("medium")).with(
        "description",
        Json::text("Balanced reasoning"),
    ).object();
    efforts.push(effort);
    assert(trees(efforts@) =~= seq![effort@]);
    Fields::new().with("id", Json::Str(joined(provider_id, "/default")))
        .with("model", Json::text(provider_id))
        .with("displayName", Json::text("Default"))
        .with("description", Json::text("The configured loom provider model"))
        .with("supportedReasoningEfforts", Json::array(efforts))
        .with("defaultReasoningEffort", Json::text("medium"))
        .with("isDefault", Json::Bool(true))
        .object()
}

/// A reasoning level as a client is told of it.
pub open spec fn level_tree(level: CatalogThinkingLevel) -> Tree {
    object().field("reasoningEffort"@, Tree::Str(level.id@)).field(
        "description"@,
        Tree::Str(
            match level.description {
                Some(description) => description@,
                None => level.name@,
            },
        ),
    )
}

/// The level of a model where none is picked: the stated one, else the first of its ladder, else
/// medium.
pub open spec fn default_effort(model: CatalogModel) -> Seq<char> {
    match model.default_thinking_level {
        Some(level) => level@,
        None => if model.thinking_levels@.len() > 0 {
            model.thinking_levels@[0].id@
        } else {
            "medium"@
        },
    }
}

/// A model as a client is told of it.
pub open spec fn model_tree(model: CatalogModel, provider_id: Seq<char>, is_default: bool) -> Tree {
    object().field("id"@, Tree::Str(provider_id + "/"@ + model.id@))
        .field("model"@, Tree::Str(model.id@))
        .field("displayName"@, Tree::Str(model.name@))
        .field("description"@, Tree::Str(model.name@))
        .field(
            "supportedReasoningEfforts"@,
            Tree::Array(
                Seq::new(
                    model.thinking_levels@.len(),
                    |i: int| level_tree(model.thinking_levels@[i]),
                ),
            ),
        )
        .field("defaultReasoningEffort"@, Tree::Str(default_effort(model)))
        .field("isDefault"@, Tree::Bool(is_default))
}

/// A model as a client is told of it. Every id is the agent's own: the client sends the model back
/// as it is.
pub fn catalog_model(model: &CatalogModel, provider_id: &str, is_default: bool) -> (result: Json)
    ensures
        result@ == model_tree(*model, provider_id@, is_default),
{
    let mut efforts: Vec<Json> = Vec::new();
    for i in 0..model.thinking_levels.len()
        invariant
            efforts@.len() == i,
            forall|k: int|
                0 <= k < i ==> (#[trigger] efforts@[k])@ == level_tree(model.thinking_levels@[k]),
    {
        let level: &CatalogThinkingLevel = &model.thinking_levels[i];
        let description: Json = match &level.description {
            Some(description) => Json::text(description.as_str()),
            None => Json::text(level.name.as_str()),
        };
        efforts.push(
            Fields::new().with("reasoningEffort", Json::text(level.id.as_str())).with(
                "description",
                description,
            ).object(),
        );
    }
    assert(trees(efforts@) =~= Seq::new(
        model.thinking_levels@.len(),
        |i: int| level_tree(model.thinking_levels@[i]),
    ));
    let default_level: String = match &model.default_thinking_level {
        Some(level) => level.clone(),
        None => if model.thinking_levels.len() > 0 {
            model.thinking_levels[0].id.clone()
        } else {
            "medium".to_owned()
        },
    };
    Fields::new().with("id", Json::Str(joined3(provider_id, "/", model.id.as_str())))
        .with("model", Json::text(model.id.as_str()))
        .with("displayName", Json::text(model.name.as_str()))
        .with("description", Json::text(model.name.as_str()))
        .with("supportedReasoningEfforts", Json::array(efforts))
        .with("defaultReasoningEffort", Json::Str(default_level))
        .with("isDefault", Json::Bool(is_default))
        .object()
}

/// The models of an agent as a client is told of them: the one marked is the agent's current one.
pub open spec fn model_trees(catalog: ProviderCatalog, provider_id: Seq<char>) -> Seq<Tree> {
    Seq::new(
        catalog.models@.len(),
        |i: int|
            model_tree(
                catalog.models@[i],
                provider_id,
                opt_view(catalog.current_model) == Some(catalog.models@[i].id@),
            ),
    )
}

/// The models of an agent as a client is told of them.
pub fn catalog_models(catalog: &ProviderCatalog, provider_id: &str) -> (result: Vec<Json>)
    ensures
        trees(result@) == model_trees(*catalog, provider_id@),
{
    let mut rows: Vec<Json> = Vec::new();
    for i in 0..catalog.models.len()
        invariant
            rows@.len() == i,
            forall|k: int|
                0 <= k < i ==> (#[trigger] rows@[k])@ == model_tree(
                    catalog.models@[k],
                    provider_id@,
                    opt_view(catalog.current_model) == Some(catalog.models@[k].id@),
                ),
    {
        let model: &CatalogModel = &catalog.models[i];
        let current: bool = match &catalog.current_model {
            Some(current) => same_text(current.as_str(), model.id.as_str()),
            None => false,
        };
        rows.push(catalog_model(model, provider_id, current));
    }
    assert(trees(rows@) =~= model_trees(*catalog, provider_id@));
    rows
}

/// Whose report of an agent's models answers a query.
#[derive(Debug, PartialEq, Eq)]
pub enum CatalogSource {
    /// This machine's own, and no other.
    OfHost(String),
    /// The newest of any machine.
    MostRecent,
    /// None: the query names a workspace that is not known.
    Nothing,
}

/// Whose report of an agent's models answers a query that names a machine or a workspace, if any:
/// a machine that is named is never answered for by another.
pub fn catalog_for_query(
    host_id: &Option<String>,
    environment_id: &Option<String>,
    environments: &Vec<Environment>,
) -> (result: CatalogSource)
    ensures
        result == (match *host_id {
            Some(host) => CatalogSource::OfHost(host),
            None => match *environment_id {
                Some(environment) => match by_id(environments@, environment@) {
                    Some(environment) => CatalogSource::OfHost(environment.host_id),
                    None => CatalogSource::Nothing,
                },
                None => CatalogSource::MostRecent,
            },
        }),
{
    match host_id {
        Some(host) => CatalogSource::OfHost(host.clone()),
        None => match environment_id {
            Some(environment) => match find_by_id(environments, environment.as_str()) {
                Some(environment) => CatalogSource::OfHost(environment.host_id.clone()),
                None => CatalogSource::Nothing,
            },
            None => CatalogSource::MostRecent,
        },
    }
}

/// The models that an agent's picker shows: those it described, else the configured one.
pub open spec fn picker_models(provider_id: Seq<char>, catalog: Option<ProviderCatalog>) -> Seq<Tree> {
    match catalog {
        Some(catalog) => if catalog.models@.len() > 0 {
            model_trees(catalog, provider_id)
        } else {
            seq![configured_model_tree(provider_id)]
        },
        None => seq![configured_model_tree(provider_id)],
    }
}

/// The execution options that an agent resolves to.
pub open spec fn options_tree(
    offered: Seq<OfferedProvider>,
    provider_id: Seq<char>,
    catalog: Option<ProviderCatalog>,
) -> Tree {
    object().field("providers"@, Tree::Array(provider_trees(offered)))
        .field("permissionCeiling"@, Tree::Str("full"@))
        .field("models"@, Tree::Array(picker_models(provider_id, catalog)))
        .field("selectedOnlyModels"@, Tree::Array(picker_models(provider_id, catalog)))
        .field("modelLoadError"@, Tree::Null)
}

/// The models that an agent's picker shows.
fn models_for(provider_id: &str, catalog: &Option<ProviderCatalog>) -> (result: Json)
    ensures
        result@ == Tree::Array(picker_models(provider_id@, *catalog)),
{
    if let Some(catalog) = catalog {
        if !catalog.is_empty() {
            return Json::array(catalog_models(catalog, provider_id));
        }
    }
    let mut rows: Vec<Json> = Vec::new();
    rows.push(configured_model(provider_id));
    assert(trees(rows@) =~= seq![configured_model_tree(provider_id@)]);
    Json::array(rows)
}

/// The execution options that an agent resolves to: every agent on offer, and the models of this
/// one alone.
pub fn execution_options_for(
    offered: &Vec<OfferedProvider>,
    provider_id: &str,
    catalog: &Option<ProviderCatalog>,
) -> (result: Json)
    ensures
        result@ == options_tree(offered@, provider_id@, *catalog),
{
    Fields::new().with("providers", Json::array(provider_infos(offered)))
        .with("permissionCeiling", Json::text("full"))
        .with("models", models_for(provider_id, catalog))
        .with("selectedOnlyModels", models_for(provider_id, catalog))
        .with("modelLoadError", Json::Null)
        .object()
}

/// Whether a kind of workspace is to be had on a machine.
pub open spec fn machine_tree(connected: bool, source_available: bool) -> Tree {
    if !connected {
        object().field("status"@, Tree::Str("unavailable"@)).field(
            "message"@,
            Tree::Str("Machine is disconnected"@),
        )
    } else if !source_available {
        object().field("status"@, Tree::Str("unavailable"@)).field(
            "message"@,
            Tree::Str("Project has no workspace source on this machine"@),
        )
    } else {
        object().field("status"@, Tree::Str("available"@))
    }
}

/// Whether a kind of workspace is to be had on a machine.
pub fn environment_provider_machine_availability(host: &Host, source_available: bool) -> (result:
    Json)
    ensures
        result@ == machine_tree(host.status is Connected, source_available),
{
    if !matches!(host.status, HostStatus::Connected) {
        return Fields::new().with("status", Json::text("unavailable")).with(
            "message",
            Json::text("Machine is disconnected"),
        ).object();
    }
    if !source_available {
        return Fields::new().with("status", Json::text("unavailable")).with(
            "message",
            Json::text("Project has no workspace source on this machine"),
        ).object();
    }
    Fields::new().with("status", Json::text("available")).object()
}

/// Whether a project has a directory on a machine.
pub open spec fn has_source(project: Option<Project>, host: Host) -> bool {
    project matches Some(project) && exists|i: int|
        0 <= i < project.sources@.len() && (#[trigger] project.sources@[i]).host_id@ == host.id@
            && project.sources@[i].path@.len() > 0
}

/// Whether a project has a directory on a machine.
fn source_on(project: &Option<Project>, host: &Host) -> (result: bool)
    ensures
        result == has_source(*project, *host),
{
    let sources: &Vec<ProjectSource> = match project {
        Some(project) => &project.sources,
        None => {
            return false;
        },
    };
    for i in 0..sources.len()
        invariant
            project is Some && project->0.sources == *sources,
            forall|k: int|
                0 <= k < i ==> !((#[trigger] sources@[k]).host_id@ == host.id@
                    && sources@[k].path@.len() > 0),
    {
        let source: &ProjectSource = &sources[i];
        if same_text(source.host_id.as_str(), host.id.as_str())
            && !source.path.as_str().is_empty() {
            assert(project->0.sources@[i as int].host_id@ == host.id@);
            return true;
        }
    }
    false
}

/// Whether a machine is one that a query asks about.
pub open spec fn asked_about(host: Host, requested: Option<Seq<char>>) -> bool {
    requested is Some ==> requested->0 == host.id@
}

/// Whether a machine can hold a workspace: a checkout needs a directory there.
pub open spec fn can_hold(host: Host, project: Option<Project>, checkout: bool) -> bool {
    host.status is Connected && (checkout ==> has_source(project, host))
}

/// What each machine that is asked about can hold, by its id.
pub open spec fn machine_members(
    hosts: Seq<Host>,
    project: Option<Project>,
    requested: Option<Seq<char>>,
    checkout: bool,
) -> Seq<(Seq<char>, Tree)>
    decreases hosts.len(),
{
    if hosts.len() == 0 {
        Seq::empty()
    } else {
        let before = machine_members(hosts.drop_last(), project, requested, checkout);
        let host = hosts.last();
        if asked_about(host, requested) {
            before.push(
                (
                    host.id@,
                    machine_tree(host.status is Connected, checkout ==> has_source(project, host)),
                ),
            )
        } else {
            before
        }
    }
}

/// Whether a report on a machine says that a workspace is to be had there.
pub open spec fn reports_available(report: Tree) -> bool {
    member_text(report, "status"@) == Some("available"@)
}

/// Whether any machine's report says that a workspace is to be had there.
pub open spec fn some_available(members: Seq<(Seq<char>, Tree)>) -> bool {
    exists|i: int| 0 <= i < members.len() && reports_available((#[trigger] members[i]).1)
}

/// Whether a kind of workspace is to be had anywhere.
pub open spec fn availability_tree(anywhere: bool) -> Tree {
    if anywhere {
        object().field("status"@, Tree::Str("available"@))
    } else {
        object().field("status"@, Tree::Str("setup-required"@)).field(
            "message"@,
            Tree::Str("Connect an eligible machine first"@),
        )
    }
}

/// Whether a kind of workspace is to be had anywhere, from what each machine reports.
pub fn aggregate_provider_availability(machine_availability: &Vec<(String, Json)>) -> (result: Json)
    ensures
        result@ == availability_tree(some_available(members(machine_availability@))),
{
    for i in 0..machine_availability.len()
        invariant
            forall|k: int|
                0 <= k < i ==> !reports_available((#[trigger] members(machine_availability@)[k]).1),
    {
        let status: Option<String> = text_member(&machine_availability[i].1, "status");
        assert(members(machine_availability@)[i as int].1 == machine_availability@[i as int].1@);
        if let Some(word) = status {
            if same_text(word.as_str(), "available") {
                return Fields::new().with("status", Json::text("available")).object();
            }
        }
    }
    Fields::new().with("status", Json::text("setup-required")).with(
        "message",
        Json::text("Connect an eligible machine first"),
    ).object()
}

/// A kind of workspace on offer.
pub open spec fn workspace_kind_tree(
    hosts: Seq<Host>,
    project: Option<Project>,
    requested: Option<Seq<char>>,
    checkout: bool,
) -> Tree {
    object().field(
        "id"@,
        Tree::Str(
            if checkout {
                "project-checkout"@
            } else {
                "personal-workspace"@
            },
        ),
    )
        .field(
            "displayName"@,
            Tree::Str(
                if checkout {
                    "Project checkout"@
                } else {
                    "Personal workspace"@
                },
            ),
        )
        .field(
            "icon"@,
            Tree::Str(
                if checkout {
                    "Laptop"@
                } else {
                    "Folder"@
                },
            ),
        )
        .field("logoUrl"@, Tree::Null)
        .field(
            "pluginId"@,
            Tree::Str(
                if checkout {
                    "environment-project-checkout"@
                } else {
                    "environment-personal-workspace"@
                },
            ),
        )
        .field(
            "requires"@,
            object().field("projectCheckout"@, Tree::Bool(checkout))
                .field("gitCheckout"@, Tree::Bool(false))
                .field("gitRemote"@, Tree::Bool(false))
                .field("projectless"@, Tree::Bool(!checkout)),
        )
        .field("inputs"@, Tree::Null)
        .field("acceptsEmptyInputs"@, Tree::Bool(true))
        .field(
            "availability"@,
            availability_tree(some_available(machine_members(hosts, project, requested, checkout))),
        )
        .field(
            "machineAvailability"@,
            Tree::Object(machine_members(hosts, project, requested, checkout)),
        )
}

/// A kind of workspace on offer.
fn workspace_kind(
    hosts: &Vec<Host>,
    project: &Option<Project>,
    requested: &Option<String>,
    checkout: bool,
) -> (result: Json)
    ensures
        result@ == workspace_kind_tree(hosts@, *project, opt_view(*requested), checkout),
{
    let ghost asked = opt_view(*requested);
    let mut reports: Vec<(String, Json)> = Vec::new();
    assert(hosts@.take(0) =~= Seq::<Host>::empty());
    for i in 0..hosts.len()
        invariant
            asked == opt_view(*requested),
            members(reports@) == machine_members(hosts@.take(i as int), *project, asked, checkout),
    {
        let host: &Host = &hosts[i];
        assert(hosts@.take(i + 1).drop_last() =~= hosts@.take(i as int));
        assert(hosts@.take(i + 1).last() == *host);
        let relevant: bool = match requested {
            Some(wanted) => same_text(wanted.as_str(), host.id.as_str()),
            None => true,
        };
        if relevant {
            let source: bool = !checkout || source_on(project, host);
            let report: Json = environment_provider_machine_availability(host, source);
            let ghost before = members(reports@);
            let ghost tree = report@;
            reports.push((host.id.clone(), report));
            assert(members(reports@) =~= before.push((host.id@, tree)));
        }
    }
    assert(hosts@.take(hosts@.len() as int) =~= hosts@);
    let (id, name, icon, plugin): (&str, &str, &str, &str) = if checkout {
        ("project-checkout", "Project checkout", "Laptop", "environment-project-checkout")
    } else {
        ("personal-workspace", "Personal workspace", "Folder", "environment-personal-workspace")
    };
    let needs: Json = Fields::new().with("projectCheckout", Json::Bool(checkout))
        .with("gitCheckout", Json::Bool(false))
        .with("gitRemote", Json::Bool(false))
        .with("projectless", Json::Bool(!checkout))
        .object();
    let availability: Json = aggregate_provider_availability(&reports);
    let by_machine: Json = Json::Object(reports);
    proof {
        view_of_parts(by_machine);
    }
    Fields::new().with("id", Json::text(id))
        .with("displayName", Json::text(name))
        .with("icon", Json::text(icon))
        .with("logoUrl", Json::Null)
        .with("pluginId", Json::text(plugin))
        .with("requires", needs)
        .with("inputs", Json::Null)
        .with("acceptsEmptyInputs", Json::Bool(true))
        .with("availability", availability)
        .with("machineAvailability", by_machine)
        .object()
}

/// The kinds of workspace that a composer offers: a personal one on any attached machine, and a
/// checkout where the project has a directory.
pub fn environment_providers(
    hosts: &Vec<Host>,
    project: &Option<Project>,
    requested: &Option<String>,
) -> (result: Reply)
    ensures
        result@ == ok_view(
            object().field(
                "providers"@,
                Tree::Array(
                    Seq::empty().push(
                        workspace_kind_tree(hosts@, *project, opt_view(*requested), false),
                    ).push(workspace_kind_tree(hosts@, *project, opt_view(*requested), true)),
                ),
            ),
        ),
{
    let mut kinds: Vec<Json> = Vec::new();
    kinds.push(workspace_kind(hosts, project, requested, false));
    kinds.push(workspace_kind(hosts, project, requested, true));
    assert(trees(kinds@) =~= Seq::empty().push(
        workspace_kind_tree(hosts@, *project, opt_view(*requested), false),
    ).push(workspace_kind_tree(hosts@, *project, opt_view(*requested), true)));
    ok(Fields::new().with("providers", Json::array(kinds)).object())
}

/// A kind of workspace is reported available exactly where some machine that was asked about can
/// hold it: a machine that is remembered but not attached never answers for another.
pub proof fn availability_is_some_machine(
    hosts: Seq<Host>,
    project: Option<Project>,
    requested: Option<Seq<char>>,
    checkout: bool,
)
    ensures
        some_available(machine_members(hosts, project, requested, checkout)) == (exists|i: int|
            0 <= i < hosts.len() && asked_about(#[trigger] hosts[i], requested) && can_hold(hosts[i], project, checkout)),
    decreases hosts.len(),
{
    let all = machine_members(hosts, project, requested, checkout);
    if hosts.len() > 0 {
        let before = hosts.drop_last();
        let last = hosts.last();
        let reports = machine_members(before, project, requested, checkout);
        availability_is_some_machine(before, project, requested, checkout);
        assert(reports_available(
            machine_tree(last.status is Connected, checkout ==> has_source(project, last)),
        ) == can_hold(last, project, checkout)) by {
            machine_reports_say_so(last.status is Connected, checkout ==> has_source(project, last));
        }
        if some_available(all) {
            let i = choose|i: int| 0 <= i < all.len() && reports_available((#[trigger] all[i]).1);
            if i < reports.len() {
                assert(reports[i] == all[i]);
                let k = choose|k: int|
                    0 <= k < before.len() && asked_about(#[trigger] before[k], requested)
                        && can_hold(before[k], project, checkout);
                assert(hosts[k] == before[k]);
            } else {
                assert(hosts[hosts.len() - 1] == last);
            }
        }
        if exists|i: int|
            0 <= i < hosts.len() && asked_about(#[trigger] hosts[i], requested) && can_hold(hosts[i], project, checkout) {
            let i = choose|i: int|
                0 <= i < hosts.len() && asked_about(#[trigger] hosts[i], requested)
                    && can_hold(hosts[i], project, checkout);
            if i < before.len() {
                assert(before[i] == hosts[i]);
                let k = choose|k: int|
                    0 <= k < reports.len() && reports_available((#[trigger] reports[k]).1);
                assert(all[k] == reports[k]);
            } else {
                assert(reports_available(all[all.len() - 1].1));
            }
        }
    }
}

/// A machine's report says that a workspace is to be had there exactly where that is so.
proof fn machine_reports_say_so(connected: bool, source_available: bool)
    ensures
        reports_available(machine_tree(connected, source_available)) == (connected
            && source_available),
{
    reveal_strlit("status");
    reveal_strlit("message");
    reveal_strlit("available");
    reveal_strlit("unavailable");
    assert("available"@.len() != "unavailable"@.len());
    assert("status"@[0] != "message"@[0]);
    let fields = machine_tree(connected, source_available)->Object_0;
    assert(fields[0].0 == "status"@);
    lookup_last(fields, 0);
}

/// The options that a thread reports for its next run: nothing where its client wrote none.
pub open spec fn thread_options_tree(
    model: Option<Seq<char>>,
    reasoning_level: Option<Seq<char>>,
    default_provider: Seq<char>,
) -> Tree {
    if model is None && reasoning_level is None {
        Tree::Null
    } else {
        object().field(
            "model"@,
            Tree::Str(
                match model {
                    Some(model) => model,
                    None => default_provider,
                },
            ),
        )
            .field("serviceTier"@, Tree::Str(DEFAULT_SERVICE_TIER@))
            .field(
                "reasoningLevel"@,
                Tree::Str(
                    match reasoning_level {
                        Some(level) => level,
                        None => DEFAULT_REASONING_LEVEL@,
                    },
                ),
            )
            .field("permissionMode"@, Tree::Str(DEFAULT_PERMISSION_MODE@))
            .field("source"@, Tree::Str("client/thread/start"@))
    }
}

/// The options that a thread reports for its next run.
pub fn thread_default_execution_options(
    model: &Option<String>,
    reasoning_level: &Option<String>,
    providers: &Vec<ProviderSpec>,
) -> (result: Reply)
    ensures
        result@ == ok_view(
            thread_options_tree(
                opt_view(*model),
                opt_view(*reasoning_level),
                default_provider(providers@),
            ),
        ),
{
    if model.is_none() && reasoning_level.is_none() {
        return ok(Json::Null);
    }
    let shown_model: String = match model {
        Some(model) => model.clone(),
        None => configured_provider_id(providers),
    };
    let shown_level: Json = match reasoning_level {
        Some(level) => Json::text(level.as_str()),
        None => Json::text(DEFAULT_REASONING_LEVEL),
    };
    ok(
        Fields::new().with("model", Json::Str(shown_model))
            .with("serviceTier", Json::text(DEFAULT_SERVICE_TIER))
            .with("reasoningLevel", shown_level)
            .with("permissionMode", Json::text(DEFAULT_PERMISSION_MODE))
            .with("source", Json::text("client/thread/start"))
            .object(),
    )
}

/// The options that a thread of a project would start with: the configured agent's, and nothing
/// where none is configured.
pub fn project_default_execution_options(providers: &Vec<ProviderSpec>) -> (result: Reply)
    ensures
        result@ == ok_view(
            if default_provider(providers@).len() == 0 {
                Tree::Null
            } else {
                object().field("providerId"@, Tree::Str(default_provider(providers@)))
                    .field("model"@, Tree::Str(default_provider(providers@)))
                    .field("serviceTier"@, Tree::Str(DEFAULT_SERVICE_TIER@))
                    .field("reasoningLevel"@, Tree::Str(DEFAULT_REASONING_LEVEL@))
                    .field("permissionMode"@, Tree::Str(DEFAULT_PERMISSION_MODE@))
            },
        ),
{
    let provider_id: String = configured_provider_id(providers);
    if same_text(provider_id.as_str(), "") {
        proof {
            reveal_strlit("");
        }
        return ok(Json::Null);
    }
    proof {
        reveal_strlit("");
        if provider_id@.len() == 0 {
            assert(provider_id@ =~= ""@);
        }
    }
    ok(
        Fields::new().with("providerId", Json::text(provider_id.as_str()))
            .with("model", Json::text(provider_id.as_str()))
            .with("serviceTier", Json::text(DEFAULT_SERVICE_TIER))
            .with("reasoningLevel", Json::text(DEFAULT_REASONING_LEVEL))
            .with("permissionMode", Json::text(DEFAULT_PERMISSION_MODE))
            .object(),
    )
}

// What is offered.

/// The first provider is the default, and there is none where there is no provider.
pub proof fn the_first_provider_is_the_default(providers: Vec<ProviderSpec>, id: String)
    requires
        call_ensures(configured_provider_id, (&providers,), id),
    ensures
        providers@.len() > 0 ==> id@ == providers@[0].name@,
        providers@.len() == 0 ==> id@ == Seq::<char>::empty(),
{
}

/// A query is about the first provider of the name it gives, and about the default where it gives
/// none that is known.
pub proof fn queries_name_their_provider(
    providers: Vec<ProviderSpec>,
    provider_id: Option<String>,
    answer: &ProviderSpec,
)
    requires
        call_ensures(query_provider, (&providers, &provider_id), answer),
        providers@.len() > 0,
    ensures
        provider_id is None ==> *answer == providers@[0],
        provider_id matches Some(name) ==> ((exists|i: int| 0 <= i < providers@.len() && (#[trigger] providers@[i]).name@ == name@) ==> answer.name@ == name@),
        provider_id matches Some(name) ==> ((forall|i: int| 0 <= i < providers@.len() ==> (#[trigger] providers@[i]).name@ != name@) ==> *answer == providers@[0]),
{
    if provider_id is Some {
        let name = provider_id->0@;
        if by_id(providers@, name) is Some {
            let i = crate::domain::found_by_id(providers@, name);
            assert(providers@[i].name@ == name);
        } else if exists|i: int| 0 <= i < providers@.len() && (#[trigger] providers@[i]).name@ == name {
            let i = choose|i: int| 0 <= i < providers@.len() && (#[trigger] providers@[i]).name@ == name;
            crate::domain::missed_by_id(providers@, name, i);
        }
    }
}

/// A known provider is shown by its name, and any other by its id.
pub proof fn providers_have_their_name(id: &str, name: String)
    requires
        call_ensures(provider_display_name, (id,), name),
    ensures
        id@ == "pi"@ ==> name@ == "Pi"@,
        id@ == "omp"@ ==> name@ == "OMP"@,
        id@ == "hermes"@ ==> name@ == "Hermes"@,
        id@ == "opencode"@ ==> name@ == "OpenCode"@,
        id@ == "gemini"@ ==> name@ == "Gemini"@,
        id@ == "cursor"@ ==> name@ == "Cursor"@,
        id@ == "codex"@ ==> name@ == "Codex"@,
        (id@ != "pi"@ && id@ != "omp"@ && id@ != "hermes"@ && id@ != "opencode"@ && id@ != "gemini"@ && id@ != "cursor"@ && id@ != "codex"@) ==> name@ == id@,
{
    reveal_strlit("pi");
    reveal_strlit("omp");
    reveal_strlit("codex");
    reveal_strlit("cursor");
    reveal_strlit("gemini");
    reveal_strlit("hermes");
    reveal_strlit("opencode");
    assert("pi"@.len() == 2);
    assert("omp"@.len() == 3);
    assert("codex"@.len() == 5);
    assert("cursor"@.len() == 6 && "cursor"@[0] == 'c');
    assert("gemini"@.len() == 6 && "gemini"@[0] == 'g');
    assert("hermes"@.len() == 6 && "hermes"@[0] == 'h');
    assert("opencode"@.len() == 8);
}

/// A provider with a branding says how to sign in, what to do when that ran out, where to get it,
/// and its colours where it has both.
pub proof fn providers_say_how_to_sign_in(offered: OfferedProvider, strings: Option<Json>)
    requires
        call_ensures(provider_strings, (&offered,), strings),
    ensures
        strings is Some <==> offered.branding is Some,
        offered.branding matches Some(branding) ==> {
            &&& member(strings->0@, "signInHint"@) == Some(Tree::Str("Run `"@ + branding.sign_in_command@ + "` on the machine to sign in."@))
            &&& member(strings->0@, "expiredHint"@) == Some(Tree::Str("Your "@ + display_name(offered.name@) + " session expired. Run `"@ + branding.sign_in_command@ + "`, then reload."@))
            &&& member(strings->0@, "installUrl"@) == Some(Tree::Str(branding.install_url@))
            &&& member(strings->0@, "iconTint"@) is Some <==> branding.light is Some && branding.dark is Some
            &&& (branding.light is Some && branding.dark is Some) ==> member(member(strings->0@, "iconTint"@)->0, "light"@) == Some(Tree::Str(branding.light->0@)) && member(member(strings->0@, "iconTint"@)->0, "dark"@) == Some(Tree::Str(branding.dark->0@))
        },
{
    broadcast use {crate::json::member_of_field, crate::reply::errors_say_what_is_wrong};

    reveal_strlit("dark");
    reveal_strlit("light");
    reveal_strlit("iconTint");
    reveal_strlit("installUrl");
    reveal_strlit("signInHint");
    reveal_strlit("expiredHint");
    assert("dark"@.len() == 4);
    assert("light"@.len() == 5);
    assert("iconTint"@.len() == 8);
    assert("installUrl"@.len() == 10 && "installUrl"@[0] == 'i');
    assert("signInHint"@.len() == 10 && "signInHint"@[0] == 's');
    assert("expiredHint"@.len() == 11);
}

/// A provider is shown with its name, its logo and what it can do.
#[verifier::rlimit(50)]
pub proof fn providers_are_shown(offered: OfferedProvider, value: Json)
    requires
        call_ensures(provider_info, (&offered,), value),
    ensures
        member(value@, "id"@) == Some(Tree::Str(offered.name@)),
        member(value@, "pluginId"@) == Some(Tree::Str("loom"@)),
        member(value@, "displayName"@) == Some(Tree::Str(display_name(offered.name@))),
        member(value@, "logoUrl"@) == Some(Tree::Str("/api/v1/system/providers/"@ + offered.name@ + "/logo?h="@ + offered.mark@)),
        member(value@, "family"@) == Some(Tree::Str("acp"@)),
        member(value@, "composerActions"@) == Some(Tree::Array(Seq::empty())),
        member(value@, "available"@) == Some(Tree::Bool(true)),
        member(value@, "strings"@) is Some <==> offered.branding is Some,
        offered.branding matches Some(branding) ==> member(value@, "strings"@) == Some(strings_tree(offered.name@, branding)),
        member(value@, "maintenance"@) is Some,
        member(value@, "capabilities"@) is Some,
        member(member(value@, "maintenance"@)->0, "health"@) == Some(Tree::Bool(true)),
        member(member(value@, "maintenance"@)->0, "usage"@) == Some(Tree::Bool(true)),
        member(member(value@, "maintenance"@)->0, "installation"@) == Some(Tree::Bool(false)),
        member(member(value@, "capabilities"@)->0, "supportsThreadArchive"@) == Some(Tree::Bool(true)),
        member(member(value@, "capabilities"@)->0, "supportsThreadRename"@) == Some(Tree::Bool(true)),
        member(member(value@, "capabilities"@)->0, "supportsServiceTier"@) == Some(Tree::Bool(false)),
        member(member(value@, "capabilities"@)->0, "supportsNativeUserQuestion"@) == Some(Tree::Bool(false)),
        member(member(value@, "capabilities"@)->0, "supportsFork"@) == Some(Tree::Bool(false)),
        member(member(value@, "capabilities"@)->0, "supportsSessionRewind"@) == Some(Tree::Bool(false)),
        member(member(value@, "capabilities"@)->0, "permissionModes"@) == Some(Tree::Array(seq![Tree::Str("accept-edits"@), Tree::Str("auto"@), Tree::Str("full"@)])),
        member(member(value@, "capabilities"@)->0, "modelCatalogScope"@) == Some(Tree::Str("workspace"@)),
{
    broadcast use {crate::json::member_of_field, crate::reply::errors_say_what_is_wrong};

    reveal_strlit("id");
    reveal_strlit("usage");
    reveal_strlit("family");
    reveal_strlit("health");
    reveal_strlit("logoUrl");
    reveal_strlit("strings");
    reveal_strlit("pluginId");
    reveal_strlit("available");
    reveal_strlit("displayName");
    reveal_strlit("maintenance");
    reveal_strlit("capabilities");
    reveal_strlit("installation");
    reveal_strlit("supportsFork");
    reveal_strlit("composerActions");
    reveal_strlit("permissionModes");
    reveal_strlit("modelCatalogScope");
    reveal_strlit("supportsServiceTier");
    reveal_strlit("supportsThreadRename");
    reveal_strlit("supportsSessionRewind");
    reveal_strlit("supportsThreadArchive");
    reveal_strlit("supportsNativeUserQuestion");
    assert("id"@.len() == 2);
    assert("usage"@.len() == 5);
    assert("family"@.len() == 6 && "family"@[0] == 'f');
    assert("health"@.len() == 6 && "health"@[0] == 'h');
    assert("logoUrl"@.len() == 7 && "logoUrl"@[0] == 'l');
    assert("strings"@.len() == 7 && "strings"@[0] == 's');
    assert("pluginId"@.len() == 8);
    assert("available"@.len() == 9);
    assert("displayName"@.len() == 11 && "displayName"@[0] == 'd');
    assert("maintenance"@.len() == 11 && "maintenance"@[0] == 'm');
    assert("capabilities"@.len() == 12 && "capabilities"@[0] == 'c');
    assert("installation"@.len() == 12 && "installation"@[0] == 'i');
    assert("supportsFork"@.len() == 12 && "supportsFork"@[0] == 's');
    assert("composerActions"@.len() == 15 && "composerActions"@[0] == 'c');
    assert("permissionModes"@.len() == 15 && "permissionModes"@[0] == 'p');
    assert("modelCatalogScope"@.len() == 17);
    assert("supportsServiceTier"@.len() == 19);
    assert("supportsThreadRename"@.len() == 20);
    assert("supportsSessionRewind"@.len() == 21 && "supportsSessionRewind"@[8] == 'S');
    assert("supportsThreadArchive"@.len() == 21 && "supportsThreadArchive"@[8] == 'T');
    assert("supportsNativeUserQuestion"@.len() == 26);
    assert(Seq::empty().push(Tree::Str("accept-edits"@)).push(Tree::Str("auto"@)).push(
        Tree::Str("full"@),
    ) =~= seq![Tree::Str("accept-edits"@), Tree::Str("auto"@), Tree::Str("full"@)]);
}

/// Every provider is shown, in its order.
pub proof fn all_providers_are_shown(
    offered: Vec<OfferedProvider>,
    shown: Vec<Json>,
    answer: Reply,
)
    requires
        call_ensures(provider_infos, (&offered,), shown),
        call_ensures(system_providers, (&offered,), answer),
    ensures
        shown@.len() == offered@.len(),
        forall|i: int| 0 <= i < offered@.len() ==> (#[trigger] shown@[i])@ == provider_tree(offered@[i]),
        answer@.status == 200,
        answer@.body == Tree::Array(trees(shown@)),
{
    assert(trees(shown@).len() == shown@.len());
    assert forall|i: int| 0 <= i < offered@.len() implies (#[trigger] shown@[i])@ == provider_tree(
        offered@[i],
    ) by {
        assert(trees(shown@)[i] == provider_trees(offered@)[i]);
    }
}

/// Of every provider it is said that nothing is known of its state, by its name.
pub proof fn provider_states_are_unknown(
    providers: Vec<ProviderSpec>,
    answer: Reply,
    i: int,
)
    requires
        call_ensures(system_provider_states, (&providers,), answer),
        0 <= i < providers@.len(),
    ensures
        answer@.status == 200,
        member(answer@.body, "providers"@) is Some,
        member(answer@.body, "providers"@)->0 is Array,
        member(answer@.body, "providers"@)->0->Array_0.len() == providers@.len(),
        member(member(answer@.body, "providers"@)->0->Array_0[i], "status"@) == Some(Tree::Str("unknown"@)),
        member(member(answer@.body, "providers"@)->0->Array_0[i], "statusMessage"@) == Some(Tree::Null),
        member(member(answer@.body, "providers"@)->0->Array_0[i], "accountEmail"@) == Some(Tree::Null),
        member(member(answer@.body, "providers"@)->0->Array_0[i], "planLabel"@) == Some(Tree::Null),
        member(member(answer@.body, "providers"@)->0->Array_0[i], "installedVersion"@) == Some(Tree::Null),
        member(member(answer@.body, "providers"@)->0->Array_0[i], "minimumSupportedVersion"@) == Some(Tree::Null),
        member(member(answer@.body, "providers"@)->0->Array_0[i], "canInstall"@) == Some(Tree::Bool(false)),
        member(member(answer@.body, "providers"@)->0->Array_0[i], "canUpdate"@) == Some(Tree::Bool(false)),
        member(member(answer@.body, "providers"@)->0->Array_0[i], "loginCommand"@) == Some(Tree::Null),
        member(member(answer@.body, "providers"@)->0->Array_0[i], "providerId"@) == Some(Tree::Str(providers@[i].name@)),
        member(member(answer@.body, "providers"@)->0->Array_0[i], "displayName"@) == Some(Tree::Str(display_name(providers@[i].name@))),
{
    broadcast use {crate::json::member_of_field, crate::reply::errors_say_what_is_wrong};

    reveal_strlit("status");
    reveal_strlit("canUpdate");
    reveal_strlit("planLabel");
    reveal_strlit("providers");
    reveal_strlit("canInstall");
    reveal_strlit("providerId");
    reveal_strlit("displayName");
    reveal_strlit("accountEmail");
    reveal_strlit("loginCommand");
    reveal_strlit("statusMessage");
    reveal_strlit("installedVersion");
    reveal_strlit("minimumSupportedVersion");
    assert("status"@.len() == 6);
    assert("canUpdate"@.len() == 9 && "canUpdate"@[1] == 'a');
    assert("planLabel"@.len() == 9 && "planLabel"@[1] == 'l');
    assert("providers"@.len() == 9 && "providers"@[1] == 'r');
    assert("canInstall"@.len() == 10 && "canInstall"@[0] == 'c');
    assert("providerId"@.len() == 10 && "providerId"@[0] == 'p');
    assert("displayName"@.len() == 11);
    assert("accountEmail"@.len() == 12 && "accountEmail"@[0] == 'a');
    assert("loginCommand"@.len() == 12 && "loginCommand"@[0] == 'l');
    assert("statusMessage"@.len() == 13);
    assert("installedVersion"@.len() == 16);
    assert("minimumSupportedVersion"@.len() == 23);
}

/// Where a provider has told no models, one stands for it, with the usual effort.
pub proof fn configured_models_stand_for_the_provider(provider_id: &str, value: Json)
    requires
        call_ensures(configured_model, (provider_id,), value),
    ensures
        member(value@, "id"@) == Some(Tree::Str(provider_id@ + "/default"@)),
        member(value@, "model"@) == Some(Tree::Str(provider_id@)),
        member(value@, "displayName"@) == Some(Tree::Str("Default"@)),
        member(value@, "description"@) == Some(Tree::Str("The configured loom provider model"@)),
        member(value@, "defaultReasoningEffort"@) == Some(Tree::Str("medium"@)),
        member(value@, "isDefault"@) == Some(Tree::Bool(true)),
        member(value@, "supportedReasoningEfforts"@) matches Some(Tree::Array(levels)) && levels.len() == 1 && member(levels[0], "reasoningEffort"@) == Some(Tree::Str("medium"@)) && member(levels[0], "description"@) == Some(Tree::Str("Balanced reasoning"@)),
{
    broadcast use {crate::json::member_of_field, crate::reply::errors_say_what_is_wrong};

    reveal_strlit("id");
    reveal_strlit("model");
    reveal_strlit("isDefault");
    reveal_strlit("description");
    reveal_strlit("displayName");
    reveal_strlit("reasoningEffort");
    reveal_strlit("defaultReasoningEffort");
    reveal_strlit("supportedReasoningEfforts");
    assert("id"@.len() == 2);
    assert("model"@.len() == 5);
    assert("isDefault"@.len() == 9);
    assert("description"@.len() == 11 && "description"@[1] == 'e');
    assert("displayName"@.len() == 11 && "displayName"@[1] == 'i');
    assert("reasoningEffort"@.len() == 15);
    assert("defaultReasoningEffort"@.len() == 22);
    assert("supportedReasoningEfforts"@.len() == 25);
}

/// A model is shown with its name and its levels of effort; its default level is the one it names,
/// else its first, else the usual one.
pub proof fn models_are_shown(
    model: CatalogModel,
    provider_id: &str,
    is_default: bool,
    value: Json,
)
    requires
        call_ensures(catalog_model, (&model, provider_id, is_default), value),
    ensures
        member(value@, "id"@) == Some(Tree::Str(provider_id@ + "/"@ + model.id@)),
        member(value@, "model"@) == Some(Tree::Str(model.id@)),
        member(value@, "displayName"@) == Some(Tree::Str(model.name@)),
        member(value@, "description"@) == Some(Tree::Str(model.name@)),
        member(value@, "isDefault"@) == Some(Tree::Bool(is_default)),
        model.default_thinking_level matches Some(level) ==> member(value@, "defaultReasoningEffort"@) == Some(Tree::Str(level@)),
        model.default_thinking_level is None && model.thinking_levels@.len() > 0 ==> member(value@, "defaultReasoningEffort"@) == Some(Tree::Str(model.thinking_levels@[0].id@)),
        model.default_thinking_level is None && model.thinking_levels@.len() == 0 ==> member(value@, "defaultReasoningEffort"@) == Some(Tree::Str("medium"@)),
        member(value@, "supportedReasoningEfforts"@) matches Some(Tree::Array(levels)) && levels.len() == model.thinking_levels@.len() && forall|i: int| 0 <= i < levels.len() ==> #[trigger] levels[i] == level_tree(model.thinking_levels@[i]),
{
    broadcast use {crate::json::member_of_field, crate::reply::errors_say_what_is_wrong};

    reveal_strlit("id");
    reveal_strlit("model");
    reveal_strlit("isDefault");
    reveal_strlit("description");
    reveal_strlit("displayName");
    reveal_strlit("reasoningEffort");
    reveal_strlit("defaultReasoningEffort");
    reveal_strlit("supportedReasoningEfforts");
    assert("id"@.len() == 2);
    assert("model"@.len() == 5);
    assert("isDefault"@.len() == 9);
    assert("description"@.len() == 11 && "description"@[1] == 'e');
    assert("displayName"@.len() == 11 && "displayName"@[1] == 'i');
    assert("reasoningEffort"@.len() == 15);
    assert("defaultReasoningEffort"@.len() == 22);
    assert("supportedReasoningEfforts"@.len() == 25);
}

/// A level of effort is shown by its id, and described by its description or else by its name.
pub proof fn levels_are_shown(level: CatalogThinkingLevel)
    ensures
        member(level_tree(level), "reasoningEffort"@) == Some(Tree::Str(level.id@)),
        level.description matches Some(text) ==> member(level_tree(level), "description"@) == Some(Tree::Str(text@)),
        level.description is None ==> member(level_tree(level), "description"@) == Some(Tree::Str(level.name@)),
{
    broadcast use {crate::json::member_of_field, crate::reply::errors_say_what_is_wrong};

    reveal_strlit("description");
    reveal_strlit("reasoningEffort");
    assert("description"@.len() == 11);
    assert("reasoningEffort"@.len() == 15);
}

/// A catalog is shown model by model; the current model alone is the default.
pub proof fn catalogs_are_shown_in_order(
    catalog: ProviderCatalog,
    provider_id: &str,
    shown: Vec<Json>,
    i: int,
)
    requires
        call_ensures(catalog_models, (&catalog, provider_id), shown),
        0 <= i < catalog.models@.len(),
    ensures
        shown@.len() == catalog.models@.len(),
        shown@[i]@ == model_tree(catalog.models@[i], provider_id@, catalog.current_model is Some && catalog.current_model->0@ == catalog.models@[i].id@),
{
    assert(trees(shown@).len() == shown@.len());
    assert(trees(shown@)[i] == model_trees(catalog, provider_id@)[i]);
}

/// The catalog asked for is the named machine's, else that of the named environment's machine, else
/// the most recent one; an environment that is not known has none.
pub proof fn catalogs_are_of_the_machine_asked_about(
    host_id: Option<String>,
    environment_id: Option<String>,
    environments: Vec<Environment>,
    source: CatalogSource,
)
    requires
        call_ensures(catalog_for_query, (&host_id, &environment_id, &environments), source),
    ensures
        host_id matches Some(host) ==> source == CatalogSource::OfHost(host),
        host_id is None && environment_id is None ==> source is MostRecent,
        host_id is None && environment_id is Some && by_id(environments@, environment_id->0@) is Some ==> source == CatalogSource::OfHost(by_id(environments@, environment_id->0@)->0.host_id),
        host_id is None && environment_id is Some && by_id(environments@, environment_id->0@) is None ==> source is Nothing,
{
}

/// What a thread may run with is offered: every provider, and the models of the catalog or, where
/// it has none, the one that stands for the provider.
pub proof fn options_offer_what_there_is(
    offered: Vec<OfferedProvider>,
    provider_id: &str,
    catalog: Option<ProviderCatalog>,
    value: Json,
)
    requires
        call_ensures(execution_options_for, (&offered, provider_id, &catalog), value),
    ensures
        member(value@, "providers"@) == Some(Tree::Array(provider_trees(offered@))),
        member(value@, "permissionCeiling"@) == Some(Tree::Str("full"@)),
        member(value@, "modelLoadError"@) == Some(Tree::Null),
        catalog is Some && catalog->0.models@.len() > 0 ==> member(value@, "models"@) == Some(Tree::Array(model_trees(catalog->0, provider_id@))),
        catalog is None || catalog->0.models@.len() == 0 ==> member(value@, "models"@) == Some(Tree::Array(seq![configured_model_tree(provider_id@)])),
        member(value@, "selectedOnlyModels"@) == member(value@, "models"@),
{
    broadcast use {crate::json::member_of_field, crate::reply::errors_say_what_is_wrong};

    reveal_strlit("models");
    reveal_strlit("providers");
    reveal_strlit("modelLoadError");
    reveal_strlit("permissionCeiling");
    reveal_strlit("selectedOnlyModels");
    assert("models"@.len() == 6);
    assert("providers"@.len() == 9);
    assert("modelLoadError"@.len() == 14);
    assert("permissionCeiling"@.len() == 17);
    assert("selectedOnlyModels"@.len() == 18);
}

/// A machine can hold a workspace exactly where it is connected and has the source; otherwise it
/// says which of the two is missing.
pub proof fn machines_are_available_or_say_why(
    host: Host,
    source_available: bool,
    value: Json,
)
    requires
        call_ensures(environment_provider_machine_availability, (&host, source_available), value),
    ensures
        host.status == HostStatus::Connected && source_available ==> member(value@, "status"@) == Some(Tree::Str("available"@)) && member(value@, "message"@) is None,
        host.status != HostStatus::Connected ==> member(value@, "status"@) == Some(Tree::Str("unavailable"@)) && member(value@, "message"@) == Some(Tree::Str("Machine is disconnected"@)),
        host.status == HostStatus::Connected && !source_available ==> member(value@, "status"@) == Some(Tree::Str("unavailable"@)) && member(value@, "message"@) == Some(Tree::Str("Project has no workspace source on this machine"@)),
{
    broadcast use {crate::json::member_of_field, crate::reply::errors_say_what_is_wrong};

    reveal_strlit("status");
    reveal_strlit("message");
    assert("status"@.len() == 6);
    assert("message"@.len() == 7);
}

/// A kind of workspace is available exactly where some machine says that it is.
pub proof fn one_machine_is_enough(machines: Vec<(String, Json)>, value: Json)
    requires
        call_ensures(aggregate_provider_availability, (&machines,), value),
    ensures
        (exists|i: int| 0 <= i < machines@.len() && member((#[trigger] machines@[i]).1@, "status"@) == Some(Tree::Str("available"@))) ==> member(value@, "status"@) == Some(Tree::Str("available"@)),
        (forall|i: int| 0 <= i < machines@.len() ==> member((#[trigger] machines@[i]).1@, "status"@) != Some(Tree::Str("available"@))) ==> member(value@, "status"@) == Some(Tree::Str("setup-required"@)) && member(value@, "message"@) == Some(Tree::Str("Connect an eligible machine first"@)),
{
    broadcast use {crate::json::member_of_field, crate::reply::errors_say_what_is_wrong};

    reveal_strlit("status");
    reveal_strlit("message");
    assert("status"@.len() == 6);
    assert("message"@.len() == 7);
    let reports = members(machines@);
    assert(reports.len() == machines@.len());
    if exists|i: int|
        0 <= i < machines@.len() && member((#[trigger] machines@[i]).1@, "status"@) == Some(
            Tree::Str("available"@),
        ) {
        let i = choose|i: int|
            0 <= i < machines@.len() && member((#[trigger] machines@[i]).1@, "status"@) == Some(
                Tree::Str("available"@),
            );
        assert(reports[i].1 == machines@[i].1@);
        assert(reports_available(reports[i].1));
    } else if some_available(reports) {
        let i = choose|i: int| 0 <= i < reports.len() && reports_available((#[trigger] reports[i]).1);
        assert(reports[i].1 == machines@[i].1@);
    }
}

/// A workspace is personal or a checkout of a project; only a checkout needs the project's source
/// on the machine.
#[verifier::rlimit(80)]
pub proof fn workspaces_come_in_two_kinds(
    hosts: Vec<Host>,
    project: Option<Project>,
    requested: Option<String>,
    answer: Reply,
)
    requires
        call_ensures(environment_providers, (&hosts, &project, &requested), answer),
    ensures
        answer@.status == 200,
        (member(answer@.body, "providers"@) matches Some(Tree::Array(kinds)) && kinds.len() == 2 && {
            &&& member(kinds[0], "id"@) == Some(Tree::Str("personal-workspace"@))
            &&& member(kinds[1], "id"@) == Some(Tree::Str("project-checkout"@))
            &&& member(kinds[0], "displayName"@) == Some(Tree::Str("Personal workspace"@))
            &&& member(kinds[1], "displayName"@) == Some(Tree::Str("Project checkout"@))
            &&& member(kinds[0], "icon"@) == Some(Tree::Str("Folder"@))
            &&& member(kinds[1], "icon"@) == Some(Tree::Str("Laptop"@))
            &&& member(kinds[0], "pluginId"@) == Some(Tree::Str("environment-personal-workspace"@))
            &&& member(kinds[1], "pluginId"@) == Some(Tree::Str("environment-project-checkout"@))
            &&& member(kinds[0], "machineAvailability"@) == Some(Tree::Object(machine_members(hosts@, project, opt_view(requested), false)))
            &&& member(kinds[1], "machineAvailability"@) == Some(Tree::Object(machine_members(hosts@, project, opt_view(requested), true)))
            &&& (member(kinds[0], "requires"@) matches Some(needs) && member(needs, "projectCheckout"@) == Some(Tree::Bool(false)) && member(needs, "projectless"@) == Some(Tree::Bool(true)) && member(needs, "gitCheckout"@) == Some(Tree::Bool(false)) && member(needs, "gitRemote"@) == Some(Tree::Bool(false)))
            &&& (member(kinds[1], "requires"@) matches Some(needs) && member(needs, "projectCheckout"@) == Some(Tree::Bool(true)) && member(needs, "projectless"@) == Some(Tree::Bool(false)) && member(needs, "gitCheckout"@) == Some(Tree::Bool(false)) && member(needs, "gitRemote"@) == Some(Tree::Bool(false)))
            &&& member(kinds[0], "acceptsEmptyInputs"@) == Some(Tree::Bool(true))
            &&& member(kinds[1], "acceptsEmptyInputs"@) == Some(Tree::Bool(true))
        }),
{
    broadcast use {crate::json::member_of_field, crate::reply::errors_say_what_is_wrong};

    reveal_strlit("id");
    reveal_strlit("icon");
    reveal_strlit("inputs");
    reveal_strlit("logoUrl");
    reveal_strlit("pluginId");
    reveal_strlit("requires");
    reveal_strlit("gitRemote");
    reveal_strlit("providers");
    reveal_strlit("displayName");
    reveal_strlit("gitCheckout");
    reveal_strlit("projectless");
    reveal_strlit("availability");
    reveal_strlit("projectCheckout");
    reveal_strlit("acceptsEmptyInputs");
    reveal_strlit("machineAvailability");
    assert("id"@.len() == 2);
    assert("icon"@.len() == 4);
    assert("inputs"@.len() == 6);
    assert("logoUrl"@.len() == 7);
    assert("pluginId"@.len() == 8 && "pluginId"@[0] == 'p');
    assert("requires"@.len() == 8 && "requires"@[0] == 'r');
    assert("gitRemote"@.len() == 9 && "gitRemote"@[0] == 'g');
    assert("providers"@.len() == 9 && "providers"@[0] == 'p');
    assert("displayName"@.len() == 11 && "displayName"@[0] == 'd');
    assert("gitCheckout"@.len() == 11 && "gitCheckout"@[0] == 'g');
    assert("projectless"@.len() == 11 && "projectless"@[0] == 'p');
    assert("availability"@.len() == 12);
    assert("projectCheckout"@.len() == 15);
    assert("acceptsEmptyInputs"@.len() == 18);
    assert("machineAvailability"@.len() == 19);
}

/// Whether a machine is asked about: where none is named all are, else the one that is named.
pub open spec fn is_asked(host: Host, requested: Option<Seq<char>>) -> bool {
    requested is None || requested == Some(host.id@)
}

/// The machines that are asked about are reported in their order, each as it can hold a workspace: a
/// personal one where it is connected, a checkout where it also has a source of the project.
pub proof fn machines_are_reported_in_order(
    hosts: Seq<Host>,
    project: Option<Project>,
    requested: Option<Seq<char>>,
    checkout: bool,
)
    ensures
        machine_members(hosts, project, requested, checkout) == hosts.filter(
            |host: Host| is_asked(host, requested),
        ).map_values(
            |host: Host|
                (
                    host.id@,
                    machine_tree(
                        host.status == HostStatus::Connected,
                        !checkout || has_source(project, host),
                    ),
                ),
        ),
    decreases hosts.len(),
{
    let asked = |host: Host| is_asked(host, requested);
    let row = |host: Host|
        (
            host.id@,
            machine_tree(
                host.status == HostStatus::Connected,
                !checkout || has_source(project, host),
            ),
        );
    reveal(Seq::filter);
    if hosts.len() == 0 {
        assert(hosts.filter(asked).map_values(row) =~= Seq::<(Seq<char>, Tree)>::empty());
    } else {
        let rest = hosts.drop_last();
        machines_are_reported_in_order(rest, project, requested, checkout);
        if asked(hosts.last()) {
            assert(rest.filter(asked).push(hosts.last()).map_values(row) =~= rest.filter(
                asked,
            ).map_values(row).push(row(hosts.last())));
        }
    }
}

/// A thread's options are those that were picked for it, completed by the usual ones; where none
/// was picked there are none.
pub proof fn threads_remember_their_options(
    model: Option<String>,
    reasoning_level: Option<String>,
    providers: Vec<ProviderSpec>,
    answer: Reply,
)
    requires
        call_ensures(thread_default_execution_options, (&model, &reasoning_level, &providers), answer),
    ensures
        answer@.status == 200,
        answer@.body == Tree::Null <==> model is None && reasoning_level is None,
        model is Some || reasoning_level is Some ==> {
            &&& model matches Some(picked) ==> member(answer@.body, "model"@) == Some(Tree::Str(picked@))
            &&& model is None && providers@.len() > 0 ==> member(answer@.body, "model"@) == Some(Tree::Str(providers@[0].name@))
            &&& reasoning_level matches Some(picked) ==> member(answer@.body, "reasoningLevel"@) == Some(Tree::Str(picked@))
            &&& reasoning_level is None ==> member(answer@.body, "reasoningLevel"@) == Some(Tree::Str("medium"@))
            &&& member(answer@.body, "serviceTier"@) == Some(Tree::Str("default"@))
            &&& member(answer@.body, "permissionMode"@) == Some(Tree::Str("full"@))
            &&& member(answer@.body, "source"@) == Some(Tree::Str("client/thread/start"@))
        },
{
    broadcast use {crate::json::member_of_field, crate::reply::errors_say_what_is_wrong};

    reveal_strlit("model");
    reveal_strlit("source");
    reveal_strlit("providerId");
    reveal_strlit("serviceTier");
    reveal_strlit("permissionMode");
    reveal_strlit("reasoningLevel");
    assert("model"@.len() == 5);
    assert("source"@.len() == 6);
    assert("providerId"@.len() == 10);
    assert("serviceTier"@.len() == 11);
    assert("permissionMode"@.len() == 14 && "permissionMode"@[0] == 'p');
    assert("reasoningLevel"@.len() == 14 && "reasoningLevel"@[0] == 'r');
}

/// A project's options begin with the default provider, and there are none where there is no
/// provider.
pub proof fn projects_begin_with_the_default(providers: Vec<ProviderSpec>, answer: Reply)
    requires
        call_ensures(project_default_execution_options, (&providers,), answer),
    ensures
        answer@.status == 200,
        providers@.len() == 0 ==> answer@.body == Tree::Null,
        providers@.len() > 0 && providers@[0].name@.len() > 0 ==> member(answer@.body, "providerId"@) == Some(Tree::Str(providers@[0].name@)) && member(answer@.body, "model"@) == Some(Tree::Str(providers@[0].name@)) && member(answer@.body, "serviceTier"@) == Some(Tree::Str("default"@)) && member(answer@.body, "reasoningLevel"@) == Some(Tree::Str("medium"@)) && member(answer@.body, "permissionMode"@) == Some(Tree::Str("full"@)),
{
    broadcast use {crate::json::member_of_field, crate::reply::errors_say_what_is_wrong};

    reveal_strlit("model");
    reveal_strlit("source");
    reveal_strlit("providerId");
    reveal_strlit("serviceTier");
    reveal_strlit("permissionMode");
    reveal_strlit("reasoningLevel");
    assert("model"@.len() == 5);
    assert("source"@.len() == 6);
    assert("providerId"@.len() == 10);
    assert("serviceTier"@.len() == 11);
    assert("permissionMode"@.len() == 14 && "permissionMode"@[0] == 'p');
    assert("reasoningLevel"@.len() == 14 && "reasoningLevel"@[0] == 'r');
}

/// A catalog is empty exactly where it has no models.
pub proof fn catalogs_are_empty_without_models(catalog: ProviderCatalog, answer: bool)
    requires
        call_ensures(ProviderCatalog::is_empty, (&catalog,), answer),
    ensures
        answer <==> catalog.models@ == Seq::<CatalogModel>::empty(),
{
    if catalog.models@.len() == 0 {
        assert(catalog.models@ =~= Seq::<CatalogModel>::empty());
    }
}

} // verus!
