//! The roots under which providers keep their files, and how a handoff seals
//! and restores them.
use vstd::prelude::*;

use crate::text::{joined, optional, outcome, same_text, string_views};

verus! {

/// A provider.
#[derive(Debug, Clone, Copy, PartialEq, Eq, Structural)]
pub enum ProviderId {
    Claude,
    Codex,
    Cursor,
    Pi,
    OpenCode,
    Zed,
}

/// Which of its roots a provider means.
#[derive(Debug, Clone, Copy, PartialEq, Eq, Structural)]
pub enum RootScope {
    Primary,
    Project,
}

/// The roots under which providers keep their files.
pub struct DiscoveryRoots {
    pub claude_global: String,
    pub claude_user_state: String,
    pub claude_project: String,
    pub codex_global: String,
    pub codex_admin: String,
    pub codex_project: String,
    pub cursor_global: String,
    pub cursor_config: String,
    pub cursor_project: String,
    pub pi_global: String,
    pub pi_project: String,
    pub opencode_global: String,
    pub opencode_project: String,
    pub shared_global: String,
    pub shared_project: String,
    pub zed_global: String,
    pub zed_project: String,
    pub app_state_root: Option<String>,
}

pub struct RootsView {
    pub claude_global: Seq<char>,
    pub claude_user_state: Seq<char>,
    pub claude_project: Seq<char>,
    pub codex_global: Seq<char>,
    pub codex_admin: Seq<char>,
    pub codex_project: Seq<char>,
    pub cursor_global: Seq<char>,
    pub cursor_config: Seq<char>,
    pub cursor_project: Seq<char>,
    pub pi_global: Seq<char>,
    pub pi_project: Seq<char>,
    pub opencode_global: Seq<char>,
    pub opencode_project: Seq<char>,
    pub shared_global: Seq<char>,
    pub shared_project: Seq<char>,
    pub zed_global: Seq<char>,
    pub zed_project: Seq<char>,
    pub app_state_root: Option<Seq<char>>,
}

impl View for DiscoveryRoots {
    type V = RootsView;

    open spec fn view(&self) -> RootsView {
        RootsView {
            claude_global: self.claude_global@,
            claude_user_state: self.claude_user_state@,
            claude_project: self.claude_project@,
            codex_global: self.codex_global@,
            codex_admin: self.codex_admin@,
            codex_project: self.codex_project@,
            cursor_global: self.cursor_global@,
            cursor_config: self.cursor_config@,
            cursor_project: self.cursor_project@,
            pi_global: self.pi_global@,
            pi_project: self.pi_project@,
            opencode_global: self.opencode_global@,
            opencode_project: self.opencode_project@,
            shared_global: self.shared_global@,
            shared_project: self.shared_project@,
            zed_global: self.zed_global@,
            zed_project: self.zed_project@,
            app_state_root: optional(self.app_state_root),
        }
    }
}

impl DiscoveryRoots {
    /// The same roots again.
    pub fn duplicate(&self) -> (roots: DiscoveryRoots)
        ensures
            roots@ == self@,
    {
        DiscoveryRoots {
            claude_global: self.claude_global.clone(),
            claude_user_state: self.claude_user_state.clone(),
            claude_project: self.claude_project.clone(),
            codex_global: self.codex_global.clone(),
            codex_admin: self.codex_admin.clone(),
            codex_project: self.codex_project.clone(),
            cursor_global: self.cursor_global.clone(),
            cursor_config: self.cursor_config.clone(),
            cursor_project: self.cursor_project.clone(),
            pi_global: self.pi_global.clone(),
            pi_project: self.pi_project.clone(),
            opencode_global: self.opencode_global.clone(),
            opencode_project: self.opencode_project.clone(),
            shared_global: self.shared_global.clone(),
            shared_project: self.shared_project.clone(),
            zed_global: self.zed_global.clone(),
            zed_project: self.zed_project.clone(),
            app_state_root: match &self.app_state_root {
                Some(root) => Some(root.clone()),
                None => None,
            },
        }
    }

    /// The same roots with a root for the state of the application.
    pub fn with_app_state_root(self, root: &str) -> (roots: DiscoveryRoots)
        ensures
            roots@ == (RootsView { app_state_root: Some(root@), ..self@ }),
    {
        let mut roots = self;
        roots.app_state_root = Some(root.to_owned());
        roots
    }
}

/// Everything that a fixture may write to: the state of the application, the
/// workspace, and the roots of every provider.
pub open spec fn sandbox_roots(
    app_state_root: Seq<char>,
    workspace_root: Seq<char>,
    roots: RootsView,
) -> Seq<
    Seq<char>,
> {
    let all = seq![
        app_state_root,
        workspace_root,
        roots.claude_global,
        roots.claude_user_state,
        roots.claude_project,
        roots.codex_global,
        roots.codex_admin,
        roots.codex_project,
        roots.cursor_global,
        roots.cursor_config,
        roots.cursor_project,
        roots.pi_global,
        roots.pi_project,
        roots.opencode_global,
        roots.opencode_project,
        roots.shared_global,
        roots.shared_project,
        roots.zed_global,
        roots.zed_project,
    ];
    match roots.app_state_root {
        Some(root) => all.push(root),
        None => all,
    }
}

/// Everything that a fixture may write to.
pub fn fixture_write_roots(
    app_state_root: &str,
    workspace_root: &str,
    roots: &DiscoveryRoots,
) -> (all:
    Vec<String>)
    ensures
        string_views(all@) == sandbox_roots(app_state_root@, workspace_root@, roots@),
{
    let mut all: Vec<String> = Vec::new();
    all.push(app_state_root.to_owned());
    all.push(workspace_root.to_owned());
    all.push(roots.claude_global.clone());
    all.push(roots.claude_user_state.clone());
    all.push(roots.claude_project.clone());
    all.push(roots.codex_global.clone());
    all.push(roots.codex_admin.clone());
    all.push(roots.codex_project.clone());
    all.push(roots.cursor_global.clone());
    all.push(roots.cursor_config.clone());
    all.push(roots.cursor_project.clone());
    all.push(roots.pi_global.clone());
    all.push(roots.pi_project.clone());
    all.push(roots.opencode_global.clone());
    all.push(roots.opencode_project.clone());
    all.push(roots.shared_global.clone());
    all.push(roots.shared_project.clone());
    all.push(roots.zed_global.clone());
    all.push(roots.zed_project.clone());
    if let Some(root) = &roots.app_state_root {
        all.push(root.clone());
    }
    assert(string_views(all@) =~= sandbox_roots(app_state_root@, workspace_root@, roots@));
    all
}

/// A sealed root, with the name of its provider.
pub struct ProviderRoot {
    pub provider: ProviderId,
    pub name: String,
    pub scope: RootScope,
    pub root: String,
}

pub struct SealedRoot {
    pub provider: ProviderId,
    pub name: Seq<char>,
    pub scope: RootScope,
    pub root: Seq<char>,
}

impl View for ProviderRoot {
    type V = SealedRoot;

    open spec fn view(&self) -> SealedRoot {
        SealedRoot {
            provider: self.provider,
            name: self.name@,
            scope: self.scope,
            root: self.root@,
        }
    }
}

/// A provider and its name.
pub struct NamedProvider {
    pub provider: ProviderId,
    pub name: String,
}

/// Sealed roots by their views.
pub open spec fn sealed_views(list: Seq<ProviderRoot>) -> Seq<SealedRoot> {
    Seq::new(list.len(), |i: int| list[i]@)
}

/// The primary root of a provider.
pub open spec fn primary_root(roots: RootsView, provider: ProviderId) -> Seq<char> {
    match provider {
        ProviderId::Claude => roots.claude_global,
        ProviderId::Codex => roots.codex_global,
        ProviderId::Cursor => roots.cursor_config,
        ProviderId::Pi => roots.pi_global,
        ProviderId::OpenCode => roots.opencode_global,
        ProviderId::Zed => roots.zed_global,
    }
}

/// The primary root of a provider.
pub fn provider_root(roots: &DiscoveryRoots, provider: ProviderId) -> (root: String)
    ensures
        root@ == primary_root(roots@, provider),
{
    match provider {
        ProviderId::Claude => roots.claude_global.clone(),
        ProviderId::Codex => roots.codex_global.clone(),
        ProviderId::Cursor => roots.cursor_config.clone(),
        ProviderId::Pi => roots.pi_global.clone(),
        ProviderId::OpenCode => roots.opencode_global.clone(),
        ProviderId::Zed => roots.zed_global.clone(),
    }
}

/// The roots with one sealed root put back. Only one provider has a project
/// root.
pub open spec fn with_root(roots: RootsView, sealed: SealedRoot) -> Option<RootsView> {
    match (sealed.provider, sealed.scope) {
        (ProviderId::Claude, RootScope::Primary) => Some(
            RootsView { claude_global: sealed.root, ..roots },
        ),
        (ProviderId::Claude, RootScope::Project) => Some(
            RootsView { claude_project: sealed.root, ..roots },
        ),
        (ProviderId::Codex, RootScope::Primary) => Some(
            RootsView { codex_global: sealed.root, ..roots },
        ),
        (ProviderId::Cursor, RootScope::Primary) => Some(
            RootsView { cursor_config: sealed.root, ..roots },
        ),
        (ProviderId::Pi, RootScope::Primary) => Some(RootsView { pi_global: sealed.root, ..roots }),
        (ProviderId::OpenCode, RootScope::Primary) => Some(
            RootsView { opencode_global: sealed.root, ..roots },
        ),
        (ProviderId::Zed, RootScope::Primary) => Some(RootsView { zed_global: sealed.root, ..roots }),
        (_, RootScope::Project) => None,
    }
}

/// What is said of a project root that no provider has.
pub open spec fn unsupported_root(name: Seq<char>) -> Seq<char> {
    "sealed Agent Plugin handoff contains an unsupported project root for "@ + name
}

/// The roots with the sealed ones put back in order, or what is said of the
/// first that cannot be.
pub open spec fn with_roots(roots: RootsView, sealed: Seq<SealedRoot>) -> Result<
    RootsView,
    Seq<char>,
>
    decreases sealed.len(),
{
    if sealed.len() == 0 {
        Ok(roots)
    } else {
        match with_roots(roots, sealed.drop_last()) {
            Err(message) => Err(message),
            Ok(before) => match with_root(before, sealed.last()) {
                Some(after) => Ok(after),
                None => Err(unsupported_root(sealed.last().name)),
            },
        }
    }
}

proof fn lemma_roots_stop(roots: RootsView, sealed: Seq<SealedRoot>, n: int)
    requires
        0 <= n <= sealed.len(),
        with_roots(roots, sealed.take(n)) is Err,
    ensures
        with_roots(roots, sealed) == with_roots(roots, sealed.take(n)),
    decreases sealed.len(),
{
    if n == sealed.len() {
        assert(sealed.take(n) =~= sealed);
    } else {
        assert(sealed.drop_last().take(n) =~= sealed.take(n));
        lemma_roots_stop(roots, sealed.drop_last(), n);
    }
}

/// Puts sealed roots back.
pub fn apply_sealed_agent_plugin_provider_roots(
    roots: &DiscoveryRoots,
    bindings: &Vec<ProviderRoot>,
) -> (r: Result<DiscoveryRoots, String>)
    ensures
        outcome(r) == with_roots(roots@, sealed_views(bindings@)),
{
    let ghost sealed = sealed_views(bindings@);
    let mut restored = roots.duplicate();
    let mut i: usize = 0;
    assert(sealed.take(0) =~= seq![]);
    while i < bindings.len()
        invariant
            i <= bindings@.len(),
            sealed == sealed_views(bindings@),
            with_roots(roots@, sealed.take(i as int)) == Ok::<RootsView, Seq<char>>(restored@),
        decreases bindings@.len() - i,
    {
        assert(sealed.take(i + 1).drop_last() =~= sealed.take(i as int));
        let root = bindings[i].root.clone();
        match (bindings[i].provider, bindings[i].scope) {
            (ProviderId::Claude, RootScope::Primary) => restored.claude_global = root,
            (ProviderId::Claude, RootScope::Project) => restored.claude_project = root,
            (ProviderId::Codex, RootScope::Primary) => restored.codex_global = root,
            (ProviderId::Cursor, RootScope::Primary) => restored.cursor_config = root,
            (ProviderId::Pi, RootScope::Primary) => restored.pi_global = root,
            (ProviderId::OpenCode, RootScope::Primary) => restored.opencode_global = root,
            (ProviderId::Zed, RootScope::Primary) => restored.zed_global = root,
            (_, RootScope::Project) => {
                proof {
                    lemma_roots_stop(roots@, sealed, i + 1);
                }
                return Err(
                    joined(
                        "sealed Agent Plugin handoff contains an unsupported project root for ",
                        bindings[i].name.as_str(),
                    ),
                );
            },
        }
        i = i + 1;
    }
    assert(sealed.take(i as int) =~= sealed);
    Ok(restored)
}

/// A recorded operation, and the roots that it was sealed with, if any.
pub struct SealedOperation {
    pub operation_id: String,
    pub roots: Option<SealedRoots>,
}

/// The roots of a sealed operation.
pub struct SealedRoots {
    pub app_state_root: String,
    pub provider_roots: Vec<ProviderRoot>,
}

/// The place of an operation with sealed roots among the recorded ones, or what
/// is missing.
pub fn sealed_operation(operations: &Vec<SealedOperation>, operation_id: &str) -> (r: Result<
    usize,
    String,
>)
    ensures
        match r {
            Ok(at) => at < operations@.len() && operations@[at as int].operation_id@ == operation_id@
                && operations@[at as int].roots is Some && forall|j: int|
                0 <= j < at ==> (#[trigger] operations@[j]).operation_id@ != operation_id@,
            Err(message) => {
                ||| message@ == "sealed operation journal not found"@ && forall|j: int|
                    0 <= j < operations@.len() ==> (#[trigger] operations@[j]).operation_id@
                        != operation_id@
                ||| message@ == "sealed operation root binding not found"@ && exists|i: int|
                    0 <= i < operations@.len() && (#[trigger] operations@[i]).operation_id@
                        == operation_id@ && operations@[i].roots is None && forall|j: int|
                        0 <= j < i ==> (#[trigger] operations@[j]).operation_id@ != operation_id@
            },
        },
{
    let mut i: usize = 0;
    while i < operations.len()
        invariant
            i <= operations@.len(),
            forall|j: int|
                0 <= j < i ==> (#[trigger] operations@[j]).operation_id@ != operation_id@,
        decreases operations@.len() - i,
    {
        if same_text(operations[i].operation_id.as_str(), operation_id) {
            if operations[i].roots.is_some() {
                return Ok(i);
            }
            assert(operations@[i as int].operation_id@ == operation_id@);
            return Err("sealed operation root binding not found".to_owned());
        }
        i = i + 1;
    }
    Err("sealed operation journal not found".to_owned())
}

/// The roots of a sealed operation put back over the ones in force, for the
/// same state of the application. The roots of that state are canonical.
pub open spec fn unsealed(
    current: RootsView,
    app_state_root: Seq<char>,
    sealed_app_state_root: Seq<char>,
    sealed: Seq<SealedRoot>,
) -> Result<RootsView, Seq<char>> {
    if sealed_app_state_root != app_state_root {
        Err("sealed operation is bound to a different app-state root"@)
    } else {
        match with_roots(current, sealed) {
            Ok(roots) => Ok(RootsView { app_state_root: Some(app_state_root), ..roots }),
            Err(message) => Err(message),
        }
    }
}

/// Puts the roots of a sealed operation back.
pub fn sealed_agent_plugin_roots(
    current: &DiscoveryRoots,
    app_state_root: &str,
    sealed_app_state_root: &str,
    sealed: &Vec<ProviderRoot>,
) -> (r: Result<DiscoveryRoots, String>)
    ensures
        outcome(r) == unsealed(
            current@,
            app_state_root@,
            sealed_app_state_root@,
            sealed_views(sealed@),
        ),
{
    if !same_text(sealed_app_state_root, app_state_root) {
        return Err("sealed operation is bound to a different app-state root".to_owned());
    }
    match apply_sealed_agent_plugin_provider_roots(current, sealed) {
        Ok(roots) => Ok(roots.with_app_state_root(app_state_root)),
        Err(message) => Err(message),
    }
}

/// The providers of a list, each once, in the order of providers.
pub open spec fn included_in_order(order: Seq<NamedProvider>, included: Seq<ProviderId>) -> Seq<
    NamedProvider,
>
    decreases order.len(),
{
    if order.len() == 0 {
        seq![]
    } else {
        let before = included_in_order(order.drop_last(), included);
        if included.contains(order.last().provider) {
            before.push(order.last())
        } else {
            before
        }
    }
}

/// The primary roots of providers.
pub open spec fn primary_roots(roots: RootsView, providers: Seq<NamedProvider>) -> Seq<SealedRoot> {
    Seq::new(
        providers.len(),
        |i: int|
            SealedRoot {
                provider: providers[i].provider,
                name: providers[i].name@,
                scope: RootScope::Primary,
                root: primary_root(roots, providers[i].provider),
            },
    )
}

/// The name of a provider in a list.
pub open spec fn name_of(order: Seq<NamedProvider>, provider: ProviderId) -> Seq<char>
    decreases order.len(),
{
    if order.len() == 0 {
        seq![]
    } else if order[0].provider == provider {
        order[0].name@
    } else {
        name_of(order.skip(1), provider)
    }
}

fn find_name(order: &Vec<NamedProvider>, provider: ProviderId) -> (name: String)
    ensures
        name@ == name_of(order@, provider),
{
    let mut i: usize = 0;
    assert(order@.skip(0) =~= order@);
    while i < order.len()
        invariant
            i <= order@.len(),
            name_of(order@, provider) == name_of(order@.skip(i as int), provider),
        decreases order@.len() - i,
    {
        assert(order@.skip(i as int)[0] == order@[i as int]);
        if order[i].provider == provider {
            return order[i].name.clone();
        }
        assert(order@.skip(i as int).skip(1) =~= order@.skip(i + 1));
        i = i + 1;
    }
    let name = String::new();
    assert(name@ =~= seq![]);
    name
}

/// The roots that a handoff seals: the primary root of each provider that it
/// reaches, and the project root where it changes something there.
pub open spec fn bound_roots(
    roots: RootsView,
    order: Seq<NamedProvider>,
    included: Seq<ProviderId>,
    changes_claude_project: bool,
) -> Seq<SealedRoot> {
    let primary = primary_roots(roots, included_in_order(order, included));
    if changes_claude_project && included.contains(ProviderId::Claude) {
        primary.push(
            SealedRoot {
                provider: ProviderId::Claude,
                name: name_of(order, ProviderId::Claude),
                scope: RootScope::Project,
                root: roots.claude_project,
            },
        )
    } else {
        primary
    }
}

fn holds(list: &Vec<ProviderId>, provider: ProviderId) -> (r: bool)
    ensures
        r == list@.contains(provider),
{
    let mut i: usize = 0;
    while i < list.len()
        invariant
            i <= list@.len(),
            forall|j: int| 0 <= j < i ==> list@[j] != provider,
        decreases list@.len() - i,
    {
        if list[i] == provider {
            assert(list@[i as int] == provider);
            return true;
        }
        i = i + 1;
    }
    false
}

/// The roots that a handoff seals. `order` holds every provider, in order.
pub fn root_binding(
    roots: &DiscoveryRoots,
    order: &Vec<NamedProvider>,
    included: &Vec<ProviderId>,
    changes_claude_project: bool,
) -> (sealed: Vec<ProviderRoot>)
    ensures
        sealed_views(sealed@) == bound_roots(roots@, order@, included@, changes_claude_project),
{
    let mut sealed: Vec<ProviderRoot> = Vec::new();
    let mut i: usize = 0;
    assert(order@.take(0) =~= seq![]);
    assert(sealed_views(sealed@) =~= primary_roots(roots@, seq![]));
    while i < order.len()
        invariant
            i <= order@.len(),
            sealed_views(sealed@) == primary_roots(
                roots@,
                included_in_order(order@.take(i as int), included@),
            ),
        decreases order@.len() - i,
    {
        assert(order@.take(i + 1).drop_last() =~= order@.take(i as int));
        let ghost before = sealed_views(sealed@);
        let provider = order[i].provider;
        if holds(included, provider) {
            sealed.push(
                ProviderRoot {
                    provider,
                    name: order[i].name.clone(),
                    scope: RootScope::Primary,
                    root: provider_root(roots, provider),
                },
            );
            assert(sealed_views(sealed@) =~= before.push(sealed@.last()@));
            assert(sealed_views(sealed@) =~= primary_roots(
                roots@,
                included_in_order(order@.take(i + 1), included@),
            ));
        }
        i = i + 1;
    }
    assert(order@.take(i as int) =~= order@);
    if changes_claude_project && holds(included, ProviderId::Claude) {
        let ghost before = sealed_views(sealed@);
        sealed.push(
            ProviderRoot {
                provider: ProviderId::Claude,
                name: find_name(order, ProviderId::Claude),
                scope: RootScope::Project,
                root: roots.claude_project.clone(),
            },
        );
        assert(sealed_views(sealed@) =~= before.push(sealed@.last()@));
    }
    sealed
}

/// Whether a list names a provider.
pub open spec fn names(list: Seq<NamedProvider>, provider: ProviderId) -> bool {
    exists|i: int| 0 <= i < list.len() && (#[trigger] list[i]).provider == provider
}

proof fn lemma_names(list: Seq<NamedProvider>, provider: ProviderId)
    requires
        list.len() > 0,
    ensures
        names(list, provider) == (names(list.drop_last(), provider) || list.last().provider
            == provider),
{
    let shorter = list.drop_last();
    if names(shorter, provider) {
        let i = choose|i: int| 0 <= i < shorter.len() && (#[trigger] shorter[i]).provider == provider;
        assert(list[i].provider == provider);
    }
    if list.last().provider == provider {
        assert(list[list.len() - 1].provider == provider);
    }
    if names(list, provider) && list.last().provider != provider {
        let i = choose|i: int| 0 <= i < list.len() && (#[trigger] list[i]).provider == provider;
        assert(shorter[i].provider == provider);
    }
}

proof fn lemma_primary_roots_restore(
    from: RootsView,
    to: RootsView,
    providers: Seq<NamedProvider>,
    provider: ProviderId,
)
    ensures
        with_roots(to, primary_roots(from, providers)) is Ok,
        ({
            let restored = with_roots(to, primary_roots(from, providers))->Ok_0;
            &&& primary_root(restored, provider) == if names(providers, provider) {
                primary_root(from, provider)
            } else {
                primary_root(to, provider)
            }
            &&& restored.claude_project == to.claude_project
        }),
    decreases providers.len(),
{
    if providers.len() == 0 {
        assert(primary_roots(from, providers) =~= seq![]);
    } else {
        let shorter = providers.drop_last();
        assert(primary_roots(from, providers).drop_last() =~= primary_roots(from, shorter));
        lemma_primary_roots_restore(from, to, shorter, provider);
        lemma_names(providers, provider);
    }
}

proof fn lemma_included_in_order(
    order: Seq<NamedProvider>,
    included: Seq<ProviderId>,
    provider: ProviderId,
)
    ensures
        names(included_in_order(order, included), provider) == (names(order, provider)
            && included.contains(provider)),
    decreases order.len(),
{
    if order.len() > 0 {
        let before = included_in_order(order.drop_last(), included);
        lemma_included_in_order(order.drop_last(), included, provider);
        lemma_names(order, provider);
        if included.contains(order.last().provider) {
            let after = before.push(order.last());
            assert(after.drop_last() =~= before);
            lemma_names(after, provider);
        }
    }
}

/// A handoff is carried out under the roots that it was planned with: whatever
/// roots are in force then, the sealed roots of every provider that it reaches
/// come back, with the project root where it is sealed. The roots of the other
/// providers stay as they are.
pub proof fn law_sealed_roots_restore(
    from: RootsView,
    to: RootsView,
    order: Seq<NamedProvider>,
    included: Seq<ProviderId>,
    changes_claude_project: bool,
    provider: ProviderId,
)
    requires
        names(order, provider),
    ensures
        with_roots(to, bound_roots(from, order, included, changes_claude_project)) is Ok,
        ({
            let restored = with_roots(
                to,
                bound_roots(from, order, included, changes_claude_project),
            )->Ok_0;
            &&& primary_root(restored, provider) == if included.contains(provider) {
                primary_root(from, provider)
            } else {
                primary_root(to, provider)
            }
            &&& restored.claude_project == if changes_claude_project && included.contains(
                ProviderId::Claude,
            ) {
                from.claude_project
            } else {
                to.claude_project
            }
        }),
{
    let providers = included_in_order(order, included);
    lemma_included_in_order(order, included, provider);
    lemma_primary_roots_restore(from, to, providers, provider);
    let primary = primary_roots(from, providers);
    if changes_claude_project && included.contains(ProviderId::Claude) {
        let sealed = bound_roots(from, order, included, changes_claude_project);
        assert(sealed.drop_last() =~= primary);
    }
}

} // verus!
