//! Toggling many items at once: what is selected, how an operation stands, and
//! how the commands run.
use vstd::prelude::*;

use crate::commands::flow::{
    blocking, blocks, coded_exit, failing, failure_exit, failure_status, fails,
    law_steps_follow_success, passed, recovering, recovers, status_name, steps_taken, takes_effect,
    with_exit, CommandExit, CommandStep, EventView, FailureClass, StepRule,
};
use crate::laws::steps::stands_before;
use crate::laws::toggle::{
    law_selection_holds_every_filter, names_category, names_kind, names_layer,
};
use crate::text::{contains_text, joined, occurs, optional, outcome, same_text, string_views};

verus! {

/// How an operation over several providers stands.
#[derive(Debug, Clone, Copy, PartialEq, Eq, Structural)]
pub enum ProviderReachLifecycle {
    Applied,
    Partial,
    NoOp,
    NoTargetsInProviderReach,
    Blocked,
    RecoveryRequired,
}

/// The name of a lifecycle.
pub open spec fn lifecycle_text(lifecycle: ProviderReachLifecycle) -> Seq<char> {
    match lifecycle {
        ProviderReachLifecycle::Applied => "applied"@,
        ProviderReachLifecycle::Partial => "partial"@,
        ProviderReachLifecycle::NoOp => "no-op"@,
        ProviderReachLifecycle::NoTargetsInProviderReach => "no-targets-in-provider-reach"@,
        ProviderReachLifecycle::Blocked => "blocked"@,
        ProviderReachLifecycle::RecoveryRequired => "recovery-required"@,
    }
}

/// The name of a lifecycle.
pub fn lifecycle_name(lifecycle: ProviderReachLifecycle) -> (name: &'static str)
    ensures
        name@ == lifecycle_text(lifecycle),
{
    match lifecycle {
        ProviderReachLifecycle::Applied => "applied",
        ProviderReachLifecycle::Partial => "partial",
        ProviderReachLifecycle::NoOp => "no-op",
        ProviderReachLifecycle::NoTargetsInProviderReach => "no-targets-in-provider-reach",
        ProviderReachLifecycle::Blocked => "blocked",
        ProviderReachLifecycle::RecoveryRequired => "recovery-required",
    }
}

/// The exit code of a lifecycle.
pub open spec fn lifecycle_code(lifecycle: ProviderReachLifecycle) -> u8 {
    match lifecycle {
        ProviderReachLifecycle::Applied | ProviderReachLifecycle::NoOp => 0,
        ProviderReachLifecycle::Partial => 2,
        ProviderReachLifecycle::Blocked | ProviderReachLifecycle::NoTargetsInProviderReach => 3,
        ProviderReachLifecycle::RecoveryRequired => 4,
    }
}

/// The exit code of a lifecycle.
pub fn lifecycle_exit(lifecycle: ProviderReachLifecycle) -> (code: u8)
    ensures
        code == lifecycle_code(lifecycle),
{
    match lifecycle {
        ProviderReachLifecycle::Applied | ProviderReachLifecycle::NoOp => 0,
        ProviderReachLifecycle::Partial => 2,
        ProviderReachLifecycle::Blocked | ProviderReachLifecycle::NoTargetsInProviderReach => 3,
        ProviderReachLifecycle::RecoveryRequired => 4,
    }
}

/// The exit code of a status.
pub open spec fn status_code(status: Seq<char>) -> u8 {
    if status == "partial"@ {
        2
    } else if status == "blocked"@ || status == "no-targets"@ || status
        == "no-targets-in-provider-reach"@ {
        3
    } else if status == "recovery-required"@ {
        4
    } else {
        1
    }
}

/// The exit code of a status.
pub fn lifecycle_status_exit_code(status: &str) -> (code: u8)
    ensures
        code == status_code(status@),
{
    if same_text(status, "partial") {
        2
    } else if same_text(status, "blocked") || same_text(status, "no-targets") || same_text(
        status,
        "no-targets-in-provider-reach",
    ) {
        3
    } else if same_text(status, "recovery-required") {
        4
    } else {
        1
    }
}

/// What a planning error says of the operation.
pub open spec fn plan_error_class(text: Seq<char>) -> FailureClass {
    if occurs(text, "recovery-required"@) {
        FailureClass::RecoveryRequired
    } else if occurs(text, "no targets"@) {
        FailureClass::NoTargets
    } else {
        FailureClass::Plain
    }
}

/// The status of a planning error.
pub open spec fn plan_error_status(text: Seq<char>) -> Seq<char> {
    match plan_error_class(text) {
        FailureClass::RecoveryRequired => "recovery-required"@,
        FailureClass::NoTargets => "no-targets"@,
        _ => "blocked"@,
    }
}

/// What a planning error says of the operation.
pub fn class_of_plan_error(error: &str) -> (class: FailureClass)
    ensures
        class == plan_error_class(error@),
{
    if contains_text(error, "recovery-required") {
        FailureClass::RecoveryRequired
    } else if contains_text(error, "no targets") {
        FailureClass::NoTargets
    } else {
        FailureClass::Plain
    }
}

/// The status of a planning error, from its text.
pub fn lifecycle_status_for_plan_error(error: &str) -> (status: &'static str)
    ensures
        status@ == plan_error_status(error@),
{
    match class_of_plan_error(error) {
        FailureClass::RecoveryRequired => "recovery-required",
        FailureClass::NoTargets => "no-targets",
        _ => "blocked",
    }
}

/// The kinds of item that are discovered.
#[derive(Debug, Clone, Copy, PartialEq, Eq, Structural)]
pub enum DiscoveryKind {
    Skill,
    Mcp,
    Plugin,
    Agent,
    Hook,
    Setting,
}

/// The categories of item that are discovered.
#[derive(Debug, Clone, Copy, PartialEq, Eq, Structural)]
pub enum DiscoveryCategory {
    Skill,
    ConfiguredMcp,
    Tool,
    Agent,
    Hook,
    ProviderSetting,
    PluginConfig,
    PluginManifest,
}

/// The layers in which an item is discovered.
#[derive(Debug, Clone, Copy, PartialEq, Eq, Structural)]
pub enum DiscoveryLayer {
    Global,
    Project,
}

/// The kind with a name.
pub open spec fn kind_named(name: Seq<char>) -> Option<DiscoveryKind> {
    if name == "skill"@ {
        Some(DiscoveryKind::Skill)
    } else if name == "mcp"@ {
        Some(DiscoveryKind::Mcp)
    } else if name == "plugin"@ {
        Some(DiscoveryKind::Plugin)
    } else if name == "agent"@ {
        Some(DiscoveryKind::Agent)
    } else if name == "hook"@ {
        Some(DiscoveryKind::Hook)
    } else if name == "setting"@ {
        Some(DiscoveryKind::Setting)
    } else {
        None
    }
}

/// The category with a name.
pub open spec fn category_named(name: Seq<char>) -> Option<DiscoveryCategory> {
    if name == "skill"@ {
        Some(DiscoveryCategory::Skill)
    } else if name == "configured-mcp"@ {
        Some(DiscoveryCategory::ConfiguredMcp)
    } else if name == "tool"@ {
        Some(DiscoveryCategory::Tool)
    } else if name == "agent"@ {
        Some(DiscoveryCategory::Agent)
    } else if name == "hook"@ {
        Some(DiscoveryCategory::Hook)
    } else if name == "provider-setting"@ {
        Some(DiscoveryCategory::ProviderSetting)
    } else if name == "plugin-config"@ {
        Some(DiscoveryCategory::PluginConfig)
    } else if name == "plugin-manifest"@ {
        Some(DiscoveryCategory::PluginManifest)
    } else {
        None
    }
}

/// The layer with a name.
pub open spec fn layer_named(name: Seq<char>) -> Option<DiscoveryLayer> {
    if name == "global"@ {
        Some(DiscoveryLayer::Global)
    } else if name == "project"@ {
        Some(DiscoveryLayer::Project)
    } else {
        None
    }
}

/// Finds the kind with a name.
pub fn kind_of(name: &str) -> (kind: Option<DiscoveryKind>)
    ensures
        kind == kind_named(name@),
{
    if same_text(name, "skill") {
        Some(DiscoveryKind::Skill)
    } else if same_text(name, "mcp") {
        Some(DiscoveryKind::Mcp)
    } else if same_text(name, "plugin") {
        Some(DiscoveryKind::Plugin)
    } else if same_text(name, "agent") {
        Some(DiscoveryKind::Agent)
    } else if same_text(name, "hook") {
        Some(DiscoveryKind::Hook)
    } else if same_text(name, "setting") {
        Some(DiscoveryKind::Setting)
    } else {
        None
    }
}

/// Finds the category with a name.
pub fn category_of(name: &str) -> (category: Option<DiscoveryCategory>)
    ensures
        category == category_named(name@),
{
    if same_text(name, "skill") {
        Some(DiscoveryCategory::Skill)
    } else if same_text(name, "configured-mcp") {
        Some(DiscoveryCategory::ConfiguredMcp)
    } else if same_text(name, "tool") {
        Some(DiscoveryCategory::Tool)
    } else if same_text(name, "agent") {
        Some(DiscoveryCategory::Agent)
    } else if same_text(name, "hook") {
        Some(DiscoveryCategory::Hook)
    } else if same_text(name, "provider-setting") {
        Some(DiscoveryCategory::ProviderSetting)
    } else if same_text(name, "plugin-config") {
        Some(DiscoveryCategory::PluginConfig)
    } else if same_text(name, "plugin-manifest") {
        Some(DiscoveryCategory::PluginManifest)
    } else {
        None
    }
}

/// Finds the layer with a name.
pub fn layer_of(name: &str) -> (layer: Option<DiscoveryLayer>)
    ensures
        layer == layer_named(name@),
{
    if same_text(name, "global") {
        Some(DiscoveryLayer::Global)
    } else if same_text(name, "project") {
        Some(DiscoveryLayer::Project)
    } else {
        None
    }
}

/// A value that was found, or what to say of a name without one.
pub open spec fn named_or<T>(found: Option<T>, complaint: Seq<char>, name: Seq<char>) -> Result<
    T,
    Seq<char>,
> {
    match found {
        Some(value) => Ok(value),
        None => Err(complaint + name),
    }
}

/// Whether a result is what was expected of a name.
pub open spec fn names<T>(r: Result<T, String>, expected: Result<T, Seq<char>>) -> bool {
    match expected {
        Ok(value) => r == Ok::<T, String>(value),
        Err(message) => r is Err && r->Err_0@ == message,
    }
}

/// Reads a kind.
pub fn parse_kind(value: &str) -> (r: Result<DiscoveryKind, String>)
    ensures
        names(r, named_or(kind_named(value@), "invalid kind: "@, value@)),
{
    match kind_of(value) {
        Some(kind) => Ok(kind),
        None => Err(joined("invalid kind: ", value)),
    }
}

/// Reads a category.
pub fn parse_category(value: &str) -> (r: Result<DiscoveryCategory, String>)
    ensures
        names(r, named_or(category_named(value@), "invalid category: "@, value@)),
{
    match category_of(value) {
        Some(category) => Ok(category),
        None => Err(joined("invalid category: ", value)),
    }
}

/// Reads a layer.
pub fn parse_layer(value: &str) -> (r: Result<DiscoveryLayer, String>)
    ensures
        names(r, named_or(layer_named(value@), "invalid layer: "@, value@)),
{
    match layer_of(value) {
        Some(layer) => Ok(layer),
        None => Err(joined("invalid layer: ", value)),
    }
}

/// Every name in a list, read in order, or the complaint about the first that
/// means nothing.
pub open spec fn read_all<T>(
    list: Seq<Seq<char>>,
    read: spec_fn(Seq<char>) -> Option<T>,
    complaint: Seq<char>,
) -> Result<Seq<T>, Seq<char>>
    decreases list.len(),
{
    if list.len() == 0 {
        Ok(seq![])
    } else {
        match read_all(list.drop_last(), read, complaint) {
            Err(message) => Err(message),
            Ok(before) => match read(list.last()) {
                None => Err(complaint + list.last()),
                Some(value) => Ok(before.push(value)),
            },
        }
    }
}

proof fn lemma_read_all_stops<T>(
    list: Seq<Seq<char>>,
    read: spec_fn(Seq<char>) -> Option<T>,
    complaint: Seq<char>,
    n: int,
)
    requires
        0 <= n <= list.len(),
        read_all(list.take(n), read, complaint) is Err,
    ensures
        read_all(list, read, complaint) == read_all(list.take(n), read, complaint),
    decreases list.len(),
{
    if n == list.len() {
        assert(list.take(n) =~= list);
    } else {
        assert(list.drop_last().take(n) =~= list.take(n));
        lemma_read_all_stops(list.drop_last(), read, complaint, n);
    }
}

/// What is selected for a toggle.
pub struct BulkToggleSelector {
    pub providers: Vec<String>,
    pub kinds: Vec<DiscoveryKind>,
    pub categories: Vec<DiscoveryCategory>,
    pub layers: Vec<DiscoveryLayer>,
    pub ids: Vec<String>,
    pub enabled: Option<bool>,
}

pub struct SelectorView {
    pub providers: Seq<Seq<char>>,
    pub kinds: Seq<DiscoveryKind>,
    pub categories: Seq<DiscoveryCategory>,
    pub layers: Seq<DiscoveryLayer>,
    pub ids: Seq<Seq<char>>,
    pub enabled: Option<bool>,
}

impl View for BulkToggleSelector {
    type V = SelectorView;

    open spec fn view(&self) -> SelectorView {
        SelectorView {
            providers: string_views(self.providers@),
            kinds: self.kinds@,
            categories: self.categories@,
            layers: self.layers@,
            ids: string_views(self.ids@),
            enabled: self.enabled,
        }
    }
}

/// A provider's name as it was given, and whether there is such a provider.
pub struct NamedProvider {
    pub name: String,
    pub known: bool,
}

/// The names of providers that are all known, or the complaint about the first
/// that is not.
pub open spec fn known_providers(list: Seq<NamedProvider>) -> Result<Seq<Seq<char>>, Seq<char>>
    decreases list.len(),
{
    if list.len() == 0 {
        Ok(seq![])
    } else {
        match known_providers(list.drop_last()) {
            Err(message) => Err(message),
            Ok(before) => if list.last().known {
                Ok(before.push(list.last().name@))
            } else {
                Err("invalid provider: "@ + list.last().name@)
            },
        }
    }
}

proof fn lemma_known_providers_stops(list: Seq<NamedProvider>, n: int)
    requires
        0 <= n <= list.len(),
        known_providers(list.take(n)) is Err,
    ensures
        known_providers(list) == known_providers(list.take(n)),
    decreases list.len(),
{
    if n == list.len() {
        assert(list.take(n) =~= list);
    } else {
        assert(list.drop_last().take(n) =~= list.take(n));
        lemma_known_providers_stops(list.drop_last(), n);
    }
}

/// The selection in a command's arguments: providers are read first, then
/// kinds, categories and layers.
pub open spec fn selected(
    providers: Seq<NamedProvider>,
    kinds: Seq<Seq<char>>,
    categories: Seq<Seq<char>>,
    layers: Seq<Seq<char>>,
    ids: Seq<Seq<char>>,
    enabled: Option<bool>,
) -> Result<SelectorView, Seq<char>> {
    match known_providers(providers) {
        Err(message) => Err(message),
        Ok(providers) => match read_all(
            kinds,
            |name: Seq<char>| kind_named(name),
            "invalid kind: "@,
        ) {
            Err(message) => Err(message),
            Ok(kinds) => match read_all(
                categories,
                |name: Seq<char>| category_named(name),
                "invalid category: "@,
            ) {
                Err(message) => Err(message),
                Ok(categories) => match read_all(
                    layers,
                    |name: Seq<char>| layer_named(name),
                    "invalid layer: "@,
                ) {
                    Err(message) => Err(message),
                    Ok(layers) => Ok(
                        SelectorView { providers, kinds, categories, layers, ids, enabled },
                    ),
                },
            },
        },
    }
}

fn provider_names(list: &Vec<NamedProvider>) -> (r: Result<Vec<String>, String>)
    ensures
        match known_providers(list@) {
            Ok(names) => r is Ok && string_views(r->Ok_0@) == names,
            Err(message) => r is Err && r->Err_0@ == message,
        },
{
    let mut out: Vec<String> = Vec::new();
    let mut i: usize = 0;
    assert(list@.take(0) =~= seq![]);
    assert(string_views(out@) =~= seq![]);
    while i < list.len()
        invariant
            i <= list@.len(),
            known_providers(list@.take(i as int)) == Ok::<Seq<Seq<char>>, Seq<char>>(
                string_views(out@),
            ),
        decreases list@.len() - i,
    {
        assert(list@.take(i + 1).drop_last() =~= list@.take(i as int));
        if !list[i].known {
            proof {
                lemma_known_providers_stops(list@, i + 1);
            }
            return Err(joined("invalid provider: ", list[i].name.as_str()));
        }
        let ghost before = string_views(out@);
        out.push(list[i].name.clone());
        assert(string_views(out@) =~= before.push(list@[i as int].name@));
        i = i + 1;
    }
    assert(list@.take(i as int) =~= list@);
    Ok(out)
}

fn kinds_in(list: &Vec<String>) -> (r: Result<Vec<DiscoveryKind>, String>)
    ensures
        outcome(r) == read_all(
            string_views(list@),
            |name: Seq<char>| kind_named(name),
            "invalid kind: "@,
        ),
{
    let ghost views = string_views(list@);
    let ghost read = |name: Seq<char>| kind_named(name);
    let mut out: Vec<DiscoveryKind> = Vec::new();
    let mut i: usize = 0;
    assert(views.take(0) =~= seq![]);
    while i < list.len()
        invariant
            i <= list@.len(),
            views == string_views(list@),
            read == (|name: Seq<char>| kind_named(name)),
            read_all(views.take(i as int), read, "invalid kind: "@) == Ok::<
                Seq<DiscoveryKind>,
                Seq<char>,
            >(out@),
        decreases list@.len() - i,
    {
        assert(views.take(i + 1).drop_last() =~= views.take(i as int));
        match parse_kind(list[i].as_str()) {
            Ok(kind) => {
                out.push(kind);
            },
            Err(message) => {
                proof {
                    lemma_read_all_stops(views, read, "invalid kind: "@, i + 1);
                }
                return Err(message);
            },
        }
        i = i + 1;
    }
    assert(views.take(i as int) =~= views);
    Ok(out)
}

fn categories_in(list: &Vec<String>) -> (r: Result<Vec<DiscoveryCategory>, String>)
    ensures
        outcome(r) == read_all(
            string_views(list@),
            |name: Seq<char>| category_named(name),
            "invalid category: "@,
        ),
{
    let ghost views = string_views(list@);
    let ghost read = |name: Seq<char>| category_named(name);
    let mut out: Vec<DiscoveryCategory> = Vec::new();
    let mut i: usize = 0;
    assert(views.take(0) =~= seq![]);
    while i < list.len()
        invariant
            i <= list@.len(),
            views == string_views(list@),
            read == (|name: Seq<char>| category_named(name)),
            read_all(views.take(i as int), read, "invalid category: "@) == Ok::<
                Seq<DiscoveryCategory>,
                Seq<char>,
            >(out@),
        decreases list@.len() - i,
    {
        assert(views.take(i + 1).drop_last() =~= views.take(i as int));
        match parse_category(list[i].as_str()) {
            Ok(category) => {
                out.push(category);
            },
            Err(message) => {
                proof {
                    lemma_read_all_stops(views, read, "invalid category: "@, i + 1);
                }
                return Err(message);
            },
        }
        i = i + 1;
    }
    assert(views.take(i as int) =~= views);
    Ok(out)
}

fn layers_in(list: &Vec<String>) -> (r: Result<Vec<DiscoveryLayer>, String>)
    ensures
        outcome(r) == read_all(
            string_views(list@),
            |name: Seq<char>| layer_named(name),
            "invalid layer: "@,
        ),
{
    let ghost views = string_views(list@);
    let ghost read = |name: Seq<char>| layer_named(name);
    let mut out: Vec<DiscoveryLayer> = Vec::new();
    let mut i: usize = 0;
    assert(views.take(0) =~= seq![]);
    while i < list.len()
        invariant
            i <= list@.len(),
            views == string_views(list@),
            read == (|name: Seq<char>| layer_named(name)),
            read_all(views.take(i as int), read, "invalid layer: "@) == Ok::<
                Seq<DiscoveryLayer>,
                Seq<char>,
            >(out@),
        decreases list@.len() - i,
    {
        assert(views.take(i + 1).drop_last() =~= views.take(i as int));
        match parse_layer(list[i].as_str()) {
            Ok(layer) => {
                out.push(layer);
            },
            Err(message) => {
                proof {
                    lemma_read_all_stops(views, read, "invalid layer: "@, i + 1);
                }
                return Err(message);
            },
        }
        i = i + 1;
    }
    assert(views.take(i as int) =~= views);
    Ok(out)
}

/// Reads the selection in a command's arguments.
pub fn selector_from_args(
    providers: &Vec<NamedProvider>,
    kinds: &Vec<String>,
    categories: &Vec<String>,
    layers: &Vec<String>,
    ids: Vec<String>,
    enabled: Option<bool>,
) -> (r: Result<BulkToggleSelector, String>)
    ensures
        outcome(r) == selected(
            providers@,
            string_views(kinds@),
            string_views(categories@),
            string_views(layers@),
            string_views(ids@),
            enabled,
        ),
        r is Ok ==> {
            let selector = r->Ok_0;
            &&& selector.providers@.len() == providers@.len()
            &&& forall|i: int| 0 <= i < providers@.len() ==> (#[trigger] providers@[i]).known
            &&& forall|i: int|
                0 <= i < providers@.len() ==> (#[trigger] selector.providers@[i])@
                    == providers@[i].name@
            &&& selector.kinds@.len() == kinds@.len()
            &&& forall|i: int|
                0 <= i < kinds@.len() ==> names_kind(kinds@[i]@, #[trigger] selector.kinds@[i])
            &&& selector.categories@.len() == categories@.len()
            &&& forall|i: int|
                0 <= i < categories@.len() ==> names_category(
                    categories@[i]@,
                    #[trigger] selector.categories@[i],
                )
            &&& selector.layers@.len() == layers@.len()
            &&& forall|i: int|
                0 <= i < layers@.len() ==> names_layer(layers@[i]@, #[trigger] selector.layers@[i])
            &&& selector.ids@.len() == ids@.len()
            &&& forall|i: int| 0 <= i < ids@.len() ==> (#[trigger] selector.ids@[i])@ == ids@[i]@
            &&& selector.enabled == enabled
        },
{
    let ghost given = (providers@, kinds@, categories@, layers@, ids@);
    let providers = match provider_names(providers) {
        Ok(list) => list,
        Err(message) => return Err(message),
    };
    let kinds = match kinds_in(kinds) {
        Ok(list) => list,
        Err(message) => return Err(message),
    };
    let categories = match categories_in(categories) {
        Ok(list) => list,
        Err(message) => return Err(message),
    };
    let layers = match layers_in(layers) {
        Ok(list) => list,
        Err(message) => return Err(message),
    };
    let selector = BulkToggleSelector { providers, kinds, categories, layers, ids, enabled };
    proof {
        law_selection_holds_every_filter(
            given.0,
            given.1,
            given.2,
            given.3,
            given.4,
            enabled,
            selector,
        );
    }
    Ok(selector)
}

/// The mutation reach of a command: every provider, or a selected one.
#[derive(Debug, Clone, Copy, PartialEq, Eq, Structural)]
pub enum ProviderReachArg {
    All,
    Selected,
}

/// What a command asks to reach.
pub enum ProviderReachInput {
    Omitted,
    All,
    Selected { provider: String },
}

pub enum ReachView {
    Omitted,
    All,
    Selected(Seq<char>),
}

impl View for ProviderReachInput {
    type V = ReachView;

    open spec fn view(&self) -> ReachView {
        match self {
            ProviderReachInput::Omitted => ReachView::Omitted,
            ProviderReachInput::All => ReachView::All,
            ProviderReachInput::Selected { provider } => ReachView::Selected(provider@),
        }
    }
}

/// The reach of a choice: a selected one needs its provider.
pub open spec fn reach_of(choice: ProviderReachArg, provider: Option<Seq<char>>) -> Result<
    ReachView,
    Seq<char>,
> {
    match choice {
        ProviderReachArg::All => Ok(ReachView::All),
        ProviderReachArg::Selected => match provider {
            Some(provider) => Ok(ReachView::Selected(provider)),
            None => Err("selected-provider reach requires --provider"@),
        },
    }
}

impl ProviderReachArg {
    /// The reach of this choice.
    pub fn input(self, provider: Option<&str>) -> (r: Result<ProviderReachInput, String>)
        ensures
            outcome(r) == reach_of(self, crate::json::found_text(provider)),
    {
        match self {
            ProviderReachArg::All => Ok(ProviderReachInput::All),
            ProviderReachArg::Selected => match provider {
                Some(provider) => Ok(
                    ProviderReachInput::Selected { provider: provider.to_owned() },
                ),
                None => Err("selected-provider reach requires --provider".to_owned()),
            },
        }
    }
}

/// The reach of an optional choice.
pub fn requested_reach(choice: Option<ProviderReachArg>, provider: Option<&str>) -> (r: Result<
    ProviderReachInput,
    String,
>)
    ensures
        outcome(r) == (match choice {
            Some(choice) => reach_of(choice, crate::json::found_text(provider)),
            None => Ok(ReachView::Omitted),
        }),
{
    match choice {
        Some(choice) => choice.input(provider),
        None => Ok(ProviderReachInput::Omitted),
    }
}

/// What is said of a selected provider that does not exist.
pub fn unknown_selected_provider(value: &str) -> (message: String)
    ensures
        message@ == "invalid selected provider: "@ + value@,
{
    joined("invalid selected provider: ", value)
}

/// To which provider the authority of a plan is bound: to the selected one
/// where it was pinned, else to none.
pub fn principal_boundary(selected: &Option<String>, pinned: bool) -> (bound: Option<String>)
    ensures
        optional(bound) == (if pinned {
            optional(*selected)
        } else {
            None
        }),
{
    if !pinned {
        return None;
    }
    match selected {
        Some(provider) => Some(provider.clone()),
        None => None,
    }
}

/// The steps of `bulk plan`.
pub open spec fn plan_rules() -> Seq<StepRule> {
    seq![
        failing(CommandStep::ResolveConfig),
        failing(CommandStep::ResolveRoots),
        failing(CommandStep::Discover),
        failing(CommandStep::CheckInputs),
        coded_exit(blocking(CommandStep::ParseSelectedProvider), 3),
        coded_exit(blocking(CommandStep::SelectReach), 3),
        coded_exit(recovering(CommandStep::ReconcileReach), 3),
        coded_exit(recovering(CommandStep::PlanChange), 3),
    ]
}

/// The steps of `bulk plan`: one after the other, and no more.
pub proof fn law_plan_in_order()
    ensures
        ({
            let rules = plan_rules();
            &&& rules.len() == 8
            &&& stands_before(
                rules,
                failing(CommandStep::ResolveConfig),
                failing(CommandStep::ResolveRoots),
            )
            &&& stands_before(
                rules,
                failing(CommandStep::ResolveRoots),
                failing(CommandStep::Discover),
            )
            &&& stands_before(
                rules,
                failing(CommandStep::Discover),
                failing(CommandStep::CheckInputs),
            )
            &&& stands_before(
                rules,
                failing(CommandStep::CheckInputs),
                coded_exit(blocking(CommandStep::ParseSelectedProvider), 3),
            )
            &&& stands_before(
                rules,
                coded_exit(blocking(CommandStep::ParseSelectedProvider), 3),
                coded_exit(blocking(CommandStep::SelectReach), 3),
            )
            &&& stands_before(
                rules,
                coded_exit(blocking(CommandStep::SelectReach), 3),
                coded_exit(recovering(CommandStep::ReconcileReach), 3),
            )
            &&& stands_before(
                rules,
                coded_exit(recovering(CommandStep::ReconcileReach), 3),
                coded_exit(recovering(CommandStep::PlanChange), 3),
            )
        }),
{
    let rules = plan_rules();
    assert(rules[0] == failing(CommandStep::ResolveConfig));
    assert(rules[1] == failing(CommandStep::ResolveRoots));
    assert(rules[2] == failing(CommandStep::Discover));
    assert(rules[3] == failing(CommandStep::CheckInputs));
    assert(rules[4] == coded_exit(blocking(CommandStep::ParseSelectedProvider), 3));
    assert(rules[5] == coded_exit(blocking(CommandStep::SelectReach), 3));
    assert(rules[6] == coded_exit(recovering(CommandStep::ReconcileReach), 3));
    assert(rules[7] == coded_exit(recovering(CommandStep::PlanChange), 3));
}

/// The steps of `bulk plan`. A handoff is sealed afterwards.
pub fn plan() -> (rules: Vec<StepRule>)
    ensures
        rules@ == plan_rules(),
{
    let mut rules: Vec<StepRule> = Vec::new();
    rules.push(fails(CommandStep::ResolveConfig));
    rules.push(fails(CommandStep::ResolveRoots));
    rules.push(fails(CommandStep::Discover));
    rules.push(fails(CommandStep::CheckInputs));
    rules.push(with_exit(blocks(CommandStep::ParseSelectedProvider), 3));
    rules.push(with_exit(blocks(CommandStep::SelectReach), 3));
    rules.push(with_exit(recovers(CommandStep::ReconcileReach), 3));
    rules.push(with_exit(recovers(CommandStep::PlanChange), 3));
    assert(rules@ =~= plan_rules());
    rules
}

/// What becomes of the handoff of a plan.
pub enum HandoffDecision<H> {
    /// No handoff is wanted.
    Without,
    /// It could not be sealed and is not required; a program is told so.
    Unsealed(Option<String>),
    Sealed(H),
    /// The command is blocked, with code 3.
    Blocked(String),
}

/// Decides on the handoff of a plan: it is wanted where it is required or in a
/// fixture, and only a required one that cannot be sealed blocks.
pub fn decide_handoff<H>(
    required: bool,
    fixture_mode: bool,
    json: bool,
    sealed: Result<H, String>,
) -> (decision: HandoffDecision<H>)
    ensures
        if !required && !fixture_mode {
            decision == HandoffDecision::<H>::Without
        } else {
            match sealed {
                Ok(handoff) => decision == HandoffDecision::Sealed(handoff),
                Err(message) => if required {
                    decision == HandoffDecision::<H>::Blocked(message)
                } else {
                    decision is Unsealed && optional(decision->Unsealed_0) == (if json {
                        Some("handoff not sealed: "@ + message@)
                    } else {
                        None
                    })
                },
            }
        },
{
    if !required && !fixture_mode {
        return HandoffDecision::Without;
    }
    match sealed {
        Ok(handoff) => HandoffDecision::Sealed(handoff),
        Err(message) => {
            if required {
                HandoffDecision::Blocked(message)
            } else if json {
                HandoffDecision::Unsealed(Some(joined("handoff not sealed: ", message.as_str())))
            } else {
                HandoffDecision::Unsealed(None)
            }
        },
    }
}

/// The steps of `bulk apply`.
pub open spec fn apply_rules() -> Seq<StepRule> {
    seq![
        coded_exit(blocking(CommandStep::Confirm), 3),
        coded_exit(failing(CommandStep::ResolveConfig), 3),
        coded_exit(blocking(CommandStep::LoadHandoff), 3),
        coded_exit(blocking(CommandStep::MatchHandoff), 3),
        coded_exit(failing(CommandStep::ResolveRoots), 3),
        coded_exit(blocking(CommandStep::DurableContext), 3),
        coded_exit(failing(CommandStep::Discover), 3),
        coded_exit(blocking(CommandStep::Expectation), 3),
        coded_exit(blocking(CommandStep::Authorize), 3),
        coded_exit(recovering(CommandStep::Apply), 3),
    ]
}

/// The steps of `bulk apply`: one after the other, and no more.
pub proof fn law_apply_in_order()
    ensures
        ({
            let rules = apply_rules();
            &&& rules.len() == 10
            &&& stands_before(
                rules,
                coded_exit(blocking(CommandStep::Confirm), 3),
                coded_exit(failing(CommandStep::ResolveConfig), 3),
            )
            &&& stands_before(
                rules,
                coded_exit(failing(CommandStep::ResolveConfig), 3),
                coded_exit(blocking(CommandStep::LoadHandoff), 3),
            )
            &&& stands_before(
                rules,
                coded_exit(blocking(CommandStep::LoadHandoff), 3),
                coded_exit(blocking(CommandStep::MatchHandoff), 3),
            )
            &&& stands_before(
                rules,
                coded_exit(blocking(CommandStep::MatchHandoff), 3),
                coded_exit(failing(CommandStep::ResolveRoots), 3),
            )
            &&& stands_before(
                rules,
                coded_exit(failing(CommandStep::ResolveRoots), 3),
                coded_exit(blocking(CommandStep::DurableContext), 3),
            )
            &&& stands_before(
                rules,
                coded_exit(blocking(CommandStep::DurableContext), 3),
                coded_exit(failing(CommandStep::Discover), 3),
            )
            &&& stands_before(
                rules,
                coded_exit(failing(CommandStep::Discover), 3),
                coded_exit(blocking(CommandStep::Expectation), 3),
            )
            &&& stands_before(
                rules,
                coded_exit(blocking(CommandStep::Expectation), 3),
                coded_exit(blocking(CommandStep::Authorize), 3),
            )
            &&& stands_before(
                rules,
                coded_exit(blocking(CommandStep::Authorize), 3),
                coded_exit(recovering(CommandStep::Apply), 3),
            )
        }),
{
    let rules = apply_rules();
    assert(rules[0] == coded_exit(blocking(CommandStep::Confirm), 3));
    assert(rules[1] == coded_exit(failing(CommandStep::ResolveConfig), 3));
    assert(rules[2] == coded_exit(blocking(CommandStep::LoadHandoff), 3));
    assert(rules[3] == coded_exit(blocking(CommandStep::MatchHandoff), 3));
    assert(rules[4] == coded_exit(failing(CommandStep::ResolveRoots), 3));
    assert(rules[5] == coded_exit(blocking(CommandStep::DurableContext), 3));
    assert(rules[6] == coded_exit(failing(CommandStep::Discover), 3));
    assert(rules[7] == coded_exit(blocking(CommandStep::Expectation), 3));
    assert(rules[8] == coded_exit(blocking(CommandStep::Authorize), 3));
    assert(rules[9] == coded_exit(recovering(CommandStep::Apply), 3));
}

/// The steps of `bulk apply`: confirmation comes before anything is read, and
/// the sealed plan must be the one that is named.
pub fn apply() -> (rules: Vec<StepRule>)
    ensures
        rules@ == apply_rules(),
{
    let mut rules: Vec<StepRule> = Vec::new();
    rules.push(with_exit(blocks(CommandStep::Confirm), 3));
    rules.push(with_exit(fails(CommandStep::ResolveConfig), 3));
    rules.push(with_exit(blocks(CommandStep::LoadHandoff), 3));
    rules.push(with_exit(blocks(CommandStep::MatchHandoff), 3));
    rules.push(with_exit(fails(CommandStep::ResolveRoots), 3));
    rules.push(with_exit(blocks(CommandStep::DurableContext), 3));
    rules.push(with_exit(fails(CommandStep::Discover), 3));
    rules.push(with_exit(blocks(CommandStep::Expectation), 3));
    rules.push(with_exit(blocks(CommandStep::Authorize), 3));
    rules.push(with_exit(recovers(CommandStep::Apply), 3));
    assert(rules@ =~= apply_rules());
    rules
}

/// Whether a sealed plan is the one that a command names.
pub fn handoff_matches(
    sealed_operation: &str,
    sealed_fingerprint: &str,
    operation_id: &str,
    plan_fingerprint: &str,
) -> (r: bool)
    ensures
        r == (sealed_operation@ == operation_id@ && sealed_fingerprint@ == plan_fingerprint@),
{
    same_text(sealed_operation, operation_id) && same_text(sealed_fingerprint, plan_fingerprint)
}

/// The steps of `bulk status`.
pub open spec fn status_rules() -> Seq<StepRule> {
    seq![
        failing(CommandStep::ResolveConfig),
        coded_exit(blocking(CommandStep::SessionKey), 3),
        coded_exit(recovering(CommandStep::LoadHandoff), 3),
    ]
}

/// The steps of `bulk status`: one after the other, and no more.
pub proof fn law_status_in_order()
    ensures
        ({
            let rules = status_rules();
            &&& rules.len() == 3
            &&& stands_before(
                rules,
                failing(CommandStep::ResolveConfig),
                coded_exit(blocking(CommandStep::SessionKey), 3),
            )
            &&& stands_before(
                rules,
                coded_exit(blocking(CommandStep::SessionKey), 3),
                coded_exit(recovering(CommandStep::LoadHandoff), 3),
            )
        }),
{
    let rules = status_rules();
    assert(rules[0] == failing(CommandStep::ResolveConfig));
    assert(rules[1] == coded_exit(blocking(CommandStep::SessionKey), 3));
    assert(rules[2] == coded_exit(recovering(CommandStep::LoadHandoff), 3));
}

/// The steps of `bulk status`.
pub fn status() -> (rules: Vec<StepRule>)
    ensures
        rules@ == status_rules(),
{
    let mut rules: Vec<StepRule> = Vec::new();
    rules.push(fails(CommandStep::ResolveConfig));
    rules.push(with_exit(blocks(CommandStep::SessionKey), 3));
    rules.push(with_exit(recovers(CommandStep::LoadHandoff), 3));
    assert(rules@ =~= status_rules());
    rules
}

/// The exit of a failure agrees with the exit of its status.
pub proof fn law_failure_exits_agree(error: Seq<char>)
    ensures
        failure_exit(
            coded_exit(recovering(CommandStep::Apply), 3),
            plan_error_class(error),
        ) == CommandExit::Code(status_code(plan_error_status(error))),
        status_name(
            failure_status(
                coded_exit(recovering(CommandStep::Apply), 3),
                plan_error_class(error),
            ),
        ) == plan_error_status(error),
{
    reveal_strlit("partial");
    reveal_strlit("blocked");
    reveal_strlit("no-targets");
    reveal_strlit("no-targets-in-provider-reach");
    reveal_strlit("recovery-required");
    assert("recovery-required"@.len() == 17 && "partial"@.len() == 7 && "no-targets"@.len() == 10);
    assert("no-targets-in-provider-reach"@.len() == 28);
    assert("blocked"@[0] == 'b' && "partial"@[0] == 'p');
}

/// Nothing is authorized or applied without confirmation and a plan that
/// matches.
pub proof fn law_apply_is_confirmed(events: Seq<EventView>, i: int)
    requires
        0 <= i < steps_taken(apply_rules(), 0, events),
        takes_effect(apply_rules()[i].step),
    ensures
        passed(apply_rules(), events, CommandStep::Confirm),
        passed(apply_rules(), events, CommandStep::MatchHandoff),
{
    let rules = apply_rules();
    law_steps_follow_success(rules, events, i);
    assert(rules[0].step is Confirm && rules[3].step is MatchHandoff);
    assert(i > 3);
}

} // verus!
