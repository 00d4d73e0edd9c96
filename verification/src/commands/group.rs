//! Inventory groups: how members and challenges are read, what a reviewed
//! definition change shows, and how the commands run.
use vstd::prelude::*;
use vstd::utf8::*;

use crate::commands::flow::{
    blocking, blocks, coded_exit, failing, fails, law_steps_follow_success, passed, reviewed_first,
    steps_taken, takes_effect, with_exit, CommandStep, EventView, StepRule,
};
use crate::commands::toggle::{
    category_named, category_of, kind_named, kind_of, layer_named, layer_of, lifecycle_code,
    lifecycle_exit, DiscoveryCategory, DiscoveryKind, DiscoveryLayer, ProviderReachLifecycle,
};
use crate::json::{Json, JsonView, ObjectBuilder};
use crate::laws::shown::{lemma_shows_all, shows, shows_only};
use crate::laws::steps::stands_before;
use crate::text::{
    cut, cut_text, decode_text, joined, outcome, same_text, string_views, trim_text, trimmed,
};

verus! {

/// Where a group is defined.
#[derive(Debug, Clone, Copy, PartialEq, Eq, Structural)]
pub enum GroupScope {
    Personal,
    Repository,
}

/// The name of a scope.
pub open spec fn scope_name(scope: GroupScope) -> Seq<char> {
    match scope {
        GroupScope::Personal => "personal"@,
        GroupScope::Repository => "repository"@,
    }
}

/// The scope with a name.
pub open spec fn scope_named(name: Seq<char>) -> Option<GroupScope> {
    if name == "personal"@ {
        Some(GroupScope::Personal)
    } else if name == "repository"@ {
        Some(GroupScope::Repository)
    } else {
        None
    }
}

impl GroupScope {
    /// The name of this scope.
    pub fn as_str(self) -> (name: &'static str)
        ensures
            name@ == scope_name(self),
    {
        match self {
            GroupScope::Personal => "personal",
            GroupScope::Repository => "repository",
        }
    }

    /// The scope with a name.
    pub fn named(name: &str) -> (scope: Option<GroupScope>)
        ensures
            scope == scope_named(name@),
    {
        if same_text(name, "personal") {
            Some(GroupScope::Personal)
        } else if same_text(name, "repository") {
            Some(GroupScope::Repository)
        } else {
            None
        }
    }
}

/// A member of a group.
pub struct GroupMember {
    pub provider: String,
    pub layer: DiscoveryLayer,
    pub kind: DiscoveryKind,
    pub category: DiscoveryCategory,
    pub id: String,
}

pub struct MemberView {
    pub provider: Seq<char>,
    pub layer: DiscoveryLayer,
    pub kind: DiscoveryKind,
    pub category: DiscoveryCategory,
    pub id: Seq<char>,
}

impl View for GroupMember {
    type V = MemberView;

    open spec fn view(&self) -> MemberView {
        MemberView {
            provider: self.provider@,
            layer: self.layer,
            kind: self.kind,
            category: self.category,
            id: self.id@,
        }
    }
}

/// The text of a member, and what is known from outside about it: whether there
/// is such a provider, and whether its parts make an identity.
pub struct MemberText {
    pub text: String,
    pub provider_known: bool,
    pub identity: Result<(), String>,
}

/// The text of a member as a mathematical value.
pub struct MemberTextView {
    pub text: Seq<char>,
    pub provider_known: bool,
    pub identity: Result<(), Seq<char>>,
}

impl View for MemberText {
    type V = MemberTextView;

    open spec fn view(&self) -> MemberTextView {
        MemberTextView {
            text: self.text@,
            provider_known: self.provider_known,
            identity: outcome(self.identity),
        }
    }
}

/// The views of the texts of members.
pub open spec fn member_texts(members: Seq<MemberText>) -> Seq<MemberTextView> {
    Seq::new(members.len(), |i: int| members[i]@)
}

/// The member that a text names: provider, layer, kind, category and id,
/// between colons; the id may hold colons of its own. The parts must make an
/// identity.
pub open spec fn member_in(member: MemberTextView) -> Result<MemberView, Seq<char>> {
    let fields = cut(member.text, ':', 5);
    if fields.len() != 5 {
        Err("member must use provider:layer:kind:category:id full identity"@)
    } else if !member.provider_known {
        Err("unsupported provider"@)
    } else {
        match (layer_named(fields[1]), kind_named(fields[2]), category_named(fields[3])) {
            (None, _, _) => Err("unsupported member layer"@),
            (Some(_), None, _) => Err("unsupported member kind"@),
            (Some(_), Some(_), None) => Err("unsupported member category"@),
            (Some(layer), Some(kind), Some(category)) => match member.identity {
                Err(error) => Err(error),
                Ok(()) => Ok(
                    MemberView { provider: fields[0], layer, kind, category, id: fields[4] },
                ),
            },
        }
    }
}

/// The provider in the text of a member: what comes before the first colon.
pub fn member_provider(value: &str) -> (provider: String)
    ensures
        provider@ == cut(value@, ':', 5)[0],
{
    let fields = cut_text(value, ':', 5);
    proof {
        assert(string_views(fields@).len() == fields@.len());
        assert(cut(value@, ':', 5).len() > 0);
    }
    let provider = fields[0].clone();
    assert(provider@ == string_views(fields@)[0]);
    provider
}

/// Reads a member.
pub fn parse_member(member: &MemberText) -> (r: Result<GroupMember, String>)
    ensures
        outcome(r) == member_in(member@),
{
    let fields = cut_text(member.text.as_str(), ':', 5);
    let ghost views = string_views(fields@);
    if fields.len() != 5 {
        return Err("member must use provider:layer:kind:category:id full identity".to_owned());
    }
    if !member.provider_known {
        return Err("unsupported provider".to_owned());
    }
    assert(forall|i: int| 0 <= i < 5 ==> views[i] == (#[trigger] fields@[i])@);
    let layer = match layer_of(fields[1].as_str()) {
        Some(layer) => layer,
        None => return Err("unsupported member layer".to_owned()),
    };
    let kind = match kind_of(fields[2].as_str()) {
        Some(kind) => kind,
        None => return Err("unsupported member kind".to_owned()),
    };
    let category = match category_of(fields[3].as_str()) {
        Some(category) => category,
        None => return Err("unsupported member category".to_owned()),
    };
    if let Err(error) = &member.identity {
        return Err(error.clone());
    }
    Ok(
        GroupMember {
            provider: fields[0].clone(),
            layer,
            kind,
            category,
            id: fields[4].clone(),
        },
    )
}

/// The views of members.
pub open spec fn member_views(members: Seq<GroupMember>) -> Seq<MemberView> {
    Seq::new(members.len(), |i: int| members[i]@)
}

/// The members that texts name, in their order, or what is wrong with the first
/// text that names none, whether in its form or in its identity.
pub open spec fn members_in(values: Seq<MemberTextView>) -> Result<Seq<MemberView>, Seq<char>>
    decreases values.len(),
{
    if values.len() == 0 {
        Ok(seq![])
    } else {
        match members_in(values.drop_last()) {
            Err(error) => Err(error),
            Ok(members) => match member_in(values.last()) {
                Err(error) => Err(error),
                Ok(member) => Ok(members.push(member)),
            },
        }
    }
}

proof fn lemma_first_bad_member(values: Seq<MemberTextView>, n: int)
    requires
        0 <= n <= values.len(),
        members_in(values.take(n)) is Err,
    ensures
        members_in(values) == members_in(values.take(n)),
    decreases values.len(),
{
    if n == values.len() {
        assert(values.take(n) =~= values);
    } else {
        assert(values.drop_last().take(n) =~= values.take(n));
        lemma_first_bad_member(values.drop_last(), n);
    }
}

/// Reads the members of a definition; the first failure of either kind decides.
pub fn parse_members(values: &Vec<MemberText>) -> (r: Result<Vec<GroupMember>, String>)
    ensures
        match members_in(member_texts(values@)) {
            Ok(members) => r is Ok && member_views(r->Ok_0@) == members,
            Err(error) => r is Err && r->Err_0@ == error,
        },
{
    let ghost texts = member_texts(values@);
    let mut members: Vec<GroupMember> = Vec::new();
    let mut i: usize = 0;
    assert(texts.take(0) =~= seq![]);
    assert(member_views(members@) =~= seq![]);
    while i < values.len()
        invariant
            i <= values@.len(),
            texts == member_texts(values@),
            members_in(texts.take(i as int)) == Ok::<Seq<MemberView>, Seq<char>>(
                member_views(members@),
            ),
        decreases values@.len() - i,
    {
        assert(texts.take(i + 1).drop_last() =~= texts.take(i as int));
        assert(texts.take(i + 1).last() == values@[i as int]@);
        match parse_member(&values[i]) {
            Err(error) => {
                proof {
                    lemma_first_bad_member(texts, i + 1);
                }
                return Err(error);
            },
            Ok(member) => {
                let ghost before = member_views(members@);
                let ghost seen = member@;
                members.push(member);
                assert(member_views(members@) =~= before.push(seen));
            },
        }
        i = i + 1;
    }
    assert(texts.take(i as int) =~= texts);
    Ok(members)
}

/// Reads a definition: the members come before what they and the name make
/// together.
pub fn parse_definition<D>(values: &Vec<MemberText>, built: Result<D, String>) -> (r: Result<
    D,
    String,
>)
    ensures
        match members_in(member_texts(values@)) {
            Ok(_) => r == built,
            Err(error) => r is Err && r->Err_0@ == error,
        },
{
    match parse_members(values) {
        Ok(_) => built,
        Err(error) => Err(error),
    }
}

/// Whether a group is named with its scope, as a change of its definition
/// needs.
pub fn qualified_reference(parsed: Result<Option<GroupScope>, String>) -> (r: Result<
    GroupScope,
    String,
>)
    ensures
        match parsed {
            Err(message) => r == Err::<GroupScope, String>(message),
            Ok(None) => r is Err && r->Err_0@
                == "definition mutation requires personal:name or repository:name"@,
            Ok(Some(scope)) => r == Ok::<GroupScope, String>(scope),
        },
{
    match parsed {
        Err(message) => Err(message),
        Ok(None) => Err("definition mutation requires personal:name or repository:name".to_owned()),
        Ok(Some(scope)) => Ok(scope),
    }
}

/// The challenge in what was read: not too large, valid UTF-8, and not blank.
pub open spec fn challenge_in(bytes: Seq<u8>, limit: nat) -> Result<Seq<char>, Seq<char>> {
    if bytes.len() > limit {
        Err("inventory group challenge input is too large"@)
    } else if !valid_utf8(bytes) {
        Err("inventory group challenge input is not valid UTF-8"@)
    } else if trimmed(decode_utf8(bytes)).len() == 0 {
        Err("inventory group challenge input is empty"@)
    } else {
        Ok(trimmed(decode_utf8(bytes)))
    }
}

/// The challenge of an approval: the one on the command line as it stands, or
/// the one that was read, with at most one byte more than the limit.
pub fn read_approval_challenge(
    challenge: Option<String>,
    read: Option<Result<Vec<u8>, String>>,
    limit: usize,
) -> (r: Result<String, String>)
    ensures
        outcome(r) == (match (challenge, read) {
            (Some(challenge), _) => Ok(challenge@),
            (None, None) => Err("inventory group challenge is required"@),
            (None, Some(Err(message))) => Err(message@),
            (None, Some(Ok(bytes))) => challenge_in(bytes@, limit as nat),
        }),
{
    if let Some(challenge) = challenge {
        return Ok(challenge);
    }
    let bytes = match read {
        None => return Err("inventory group challenge is required".to_owned()),
        Some(Err(message)) => return Err(message),
        Some(Ok(bytes)) => bytes,
    };
    if bytes.len() > limit {
        return Err("inventory group challenge input is too large".to_owned());
    }
    match decode_text(bytes) {
        None => Err("inventory group challenge input is not valid UTF-8".to_owned()),
        Some(text) => {
            let challenge = trim_text(text.as_str());
            if challenge.as_str().is_empty() {
                Err("inventory group challenge input is empty".to_owned())
            } else {
                Ok(challenge)
            }
        },
    }
}

/// How the reading of a challenge fails.
#[derive(Debug, Clone, Copy, PartialEq, Eq, Structural)]
pub enum ChallengeReadFailure {
    Input,
    Open,
    Read,
}

/// What is said of a challenge that cannot be read: from a file with its path.
pub open spec fn challenge_read_text(
    failure: ChallengeReadFailure,
    path: Seq<char>,
    error: Seq<char>,
) -> Seq<char> {
    match failure {
        ChallengeReadFailure::Input => "inventory group challenge stdin could not be read: "@
            + error,
        ChallengeReadFailure::Open => "inventory group challenge file could not be opened: "@ + path
            + ": "@ + error,
        ChallengeReadFailure::Read => "inventory group challenge file could not be read: "@ + path
            + ": "@ + error,
    }
}

/// What is said of a challenge that cannot be read.
pub fn challenge_read_error(failure: ChallengeReadFailure, path: &str, error: &str) -> (message:
    String)
    ensures
        message@ == challenge_read_text(failure, path@, error@),
{
    match failure {
        ChallengeReadFailure::Input => {
            joined("inventory group challenge stdin could not be read: ", error)
        },
        ChallengeReadFailure::Open => {
            let mut message = joined("inventory group challenge file could not be opened: ", path);
            message.push_str(": ");
            message.push_str(error);
            message
        },
        ChallengeReadFailure::Read => {
            let mut message = joined("inventory group challenge file could not be read: ", path);
            message.push_str(": ");
            message.push_str(error);
            message
        },
    }
}

/// Whether a challenge is read from the input and not from a file.
pub fn reads_input(path: &str) -> (r: bool)
    ensures
        r == (path@ == "-"@),
{
    same_text(path, "-")
}

/// What is said of a fixture whose state root cannot be resolved.
pub fn state_root_error(error: &str) -> (message: String)
    ensures
        message@ == "fixture state root could not be resolved: "@ + error@,
{
    joined("fixture state root could not be resolved: ", error)
}

/// Whether an approval belongs to this workspace.
pub fn approval_context_matches(
    claimed_repository: &str,
    claimed_workspace: &str,
    repository_key: &str,
    workspace_key: &str,
) -> (r: bool)
    ensures
        r == (claimed_repository@ == repository_key@ && claimed_workspace@ == workspace_key@),
{
    same_text(claimed_repository, repository_key) && same_text(claimed_workspace, workspace_key)
}

/// What a definition change shows before it is applied.
pub open spec fn preview_view(plan_fingerprint: Seq<char>, preview: JsonView) -> JsonView {
    JsonView::Object(
        seq![
            ("status"@, JsonView::Text("planned"@)),
            ("planFingerprint"@, JsonView::Text(plan_fingerprint)),
            ("preview"@, preview),
            (
                "humanAction"@,
                JsonView::Object(
                    seq![
                        ("code"@, JsonView::Text("confirm-definition-change"@)),
                        (
                            "guidance"@,
                            JsonView::Text(
                                "Re-run with --apply --confirm and this plan fingerprint."@,
                            ),
                        ),
                    ],
                ),
            ),
        ],
    )
}

/// What a definition change shows before it is applied: each part under its own
/// name, and nothing else.
pub proof fn law_shown_preview(plan_fingerprint: Seq<char>, preview: JsonView)
    ensures
        ({
            let shown = preview_view(plan_fingerprint, preview);
            &&& shows_only(shown, 4)
            &&& shows(shown, "status"@, JsonView::Text("planned"@))
            &&& shows(shown, "planFingerprint"@, JsonView::Text(plan_fingerprint))
            &&& shows(shown, "preview"@, preview)
            &&& shows(
                shown,
                "humanAction"@,
                JsonView::Object(
                    seq![
                        ("code"@, JsonView::Text("confirm-definition-change"@)),
                        (
                            "guidance"@,
                            JsonView::Text(
                                "Re-run with --apply --confirm and this plan fingerprint."@,
                            ),
                        ),
                    ],
                ),
            )
        }),
{
    let shown = preview_view(plan_fingerprint, preview);
    lemma_shows_all(shown);
    let at = shown->Object_0;
    assert(at[0] == at[0] && at[1] == at[1] && at[2] == at[2] && at[3] == at[3]);
}

/// What a definition change shows before it is applied.
pub fn definition_preview(plan_fingerprint: &str, preview: Json) -> (response: Json)
    ensures
        response@ == preview_view(plan_fingerprint@, preview@),
{
    let ghost expected = preview_view(plan_fingerprint@, preview@)->Object_0;
    let mut action = ObjectBuilder::new();
    action.put_text("code", "confirm-definition-change");
    action.put_text("guidance", "Re-run with --apply --confirm and this plan fingerprint.");
    assert(action@ =~= expected[3].1->Object_0);
    let mut response = ObjectBuilder::new();
    response.put_text("status", "planned");
    response.put_text("planFingerprint", plan_fingerprint);
    response.put("preview", preview);
    response.put("humanAction", action.finish());
    assert(response@ =~= expected);
    response.finish()
}

/// The exit code of a plan over a group.
pub fn group_reach_lifecycle_exit(lifecycle: ProviderReachLifecycle) -> (code: u8)
    ensures
        code == lifecycle_code(lifecycle),
{
    lifecycle_exit(lifecycle)
}

/// The owner under which definitions are written.
pub struct OwnerGeneration {
    pub owner_id: String,
    pub generation: u64,
}

/// The owner under which definitions are written: always its first generation.
pub fn definition_owner(owner_id: &str) -> (owner: OwnerGeneration)
    ensures
        owner.owner_id@ == owner_id@,
        owner.generation == 1,
{
    OwnerGeneration { owner_id: owner_id.to_owned(), generation: 1 }
}

/// The steps of `group create`.
pub open spec fn create_rules() -> Seq<StepRule> {
    seq![
        failing(CommandStep::ResolveConfig),
        failing(CommandStep::ParseDefinition),
        blocking(CommandStep::ValidateMembers),
        failing(CommandStep::ComputeRevision),
        blocking(CommandStep::Review),
        blocking(CommandStep::WriteSandbox),
        failing(CommandStep::OpenStore),
        failing(CommandStep::Apply),
    ]
}

/// The steps of `group create`: one after the other, and no more.
pub proof fn law_create_in_order()
    ensures
        ({
            let rules = create_rules();
            &&& rules.len() == 8
            &&& stands_before(
                rules,
                failing(CommandStep::ResolveConfig),
                failing(CommandStep::ParseDefinition),
            )
            &&& stands_before(
                rules,
                failing(CommandStep::ParseDefinition),
                blocking(CommandStep::ValidateMembers),
            )
            &&& stands_before(
                rules,
                blocking(CommandStep::ValidateMembers),
                failing(CommandStep::ComputeRevision),
            )
            &&& stands_before(
                rules,
                failing(CommandStep::ComputeRevision),
                blocking(CommandStep::Review),
            )
            &&& stands_before(
                rules,
                blocking(CommandStep::Review),
                blocking(CommandStep::WriteSandbox),
            )
            &&& stands_before(
                rules,
                blocking(CommandStep::WriteSandbox),
                failing(CommandStep::OpenStore),
            )
            &&& stands_before(rules, failing(CommandStep::OpenStore), failing(CommandStep::Apply))
        }),
{
    let rules = create_rules();
    assert(rules[0] == failing(CommandStep::ResolveConfig));
    assert(rules[1] == failing(CommandStep::ParseDefinition));
    assert(rules[2] == blocking(CommandStep::ValidateMembers));
    assert(rules[3] == failing(CommandStep::ComputeRevision));
    assert(rules[4] == blocking(CommandStep::Review));
    assert(rules[5] == blocking(CommandStep::WriteSandbox));
    assert(rules[6] == failing(CommandStep::OpenStore));
    assert(rules[7] == failing(CommandStep::Apply));
}

/// The steps of `group create`.
pub fn create() -> (rules: Vec<StepRule>)
    ensures
        rules@ == create_rules(),
{
    let mut rules: Vec<StepRule> = Vec::new();
    rules.push(fails(CommandStep::ResolveConfig));
    rules.push(fails(CommandStep::ParseDefinition));
    rules.push(blocks(CommandStep::ValidateMembers));
    rules.push(fails(CommandStep::ComputeRevision));
    rules.push(blocks(CommandStep::Review));
    rules.push(blocks(CommandStep::WriteSandbox));
    rules.push(fails(CommandStep::OpenStore));
    rules.push(fails(CommandStep::Apply));
    assert(rules@ =~= create_rules());
    rules
}

/// The steps of `group edit`.
pub open spec fn edit_rules() -> Seq<StepRule> {
    seq![
        failing(CommandStep::ResolveConfig),
        failing(CommandStep::ParseReference),
        failing(CommandStep::ResolveGroup),
        failing(CommandStep::ParseDefinition),
        blocking(CommandStep::ValidateMembers),
        failing(CommandStep::ParseRevision),
        failing(CommandStep::ComputeRevision),
        blocking(CommandStep::Review),
        blocking(CommandStep::WriteSandbox),
        failing(CommandStep::OpenStore),
        failing(CommandStep::Apply),
    ]
}

/// The steps of `group edit`: one after the other, and no more.
pub proof fn law_edit_in_order()
    ensures
        ({
            let rules = edit_rules();
            &&& rules.len() == 11
            &&& stands_before(
                rules,
                failing(CommandStep::ResolveConfig),
                failing(CommandStep::ParseReference),
            )
            &&& stands_before(
                rules,
                failing(CommandStep::ParseReference),
                failing(CommandStep::ResolveGroup),
            )
            &&& stands_before(
                rules,
                failing(CommandStep::ResolveGroup),
                failing(CommandStep::ParseDefinition),
            )
            &&& stands_before(
                rules,
                failing(CommandStep::ParseDefinition),
                blocking(CommandStep::ValidateMembers),
            )
            &&& stands_before(
                rules,
                blocking(CommandStep::ValidateMembers),
                failing(CommandStep::ParseRevision),
            )
            &&& stands_before(
                rules,
                failing(CommandStep::ParseRevision),
                failing(CommandStep::ComputeRevision),
            )
            &&& stands_before(
                rules,
                failing(CommandStep::ComputeRevision),
                blocking(CommandStep::Review),
            )
            &&& stands_before(
                rules,
                blocking(CommandStep::Review),
                blocking(CommandStep::WriteSandbox),
            )
            &&& stands_before(
                rules,
                blocking(CommandStep::WriteSandbox),
                failing(CommandStep::OpenStore),
            )
            &&& stands_before(rules, failing(CommandStep::OpenStore), failing(CommandStep::Apply))
        }),
{
    let rules = edit_rules();
    assert(rules[0] == failing(CommandStep::ResolveConfig));
    assert(rules[1] == failing(CommandStep::ParseReference));
    assert(rules[2] == failing(CommandStep::ResolveGroup));
    assert(rules[3] == failing(CommandStep::ParseDefinition));
    assert(rules[4] == blocking(CommandStep::ValidateMembers));
    assert(rules[5] == failing(CommandStep::ParseRevision));
    assert(rules[6] == failing(CommandStep::ComputeRevision));
    assert(rules[7] == blocking(CommandStep::Review));
    assert(rules[8] == blocking(CommandStep::WriteSandbox));
    assert(rules[9] == failing(CommandStep::OpenStore));
    assert(rules[10] == failing(CommandStep::Apply));
}

/// The steps of `group edit`.
pub fn edit() -> (rules: Vec<StepRule>)
    ensures
        rules@ == edit_rules(),
{
    let mut rules: Vec<StepRule> = Vec::new();
    rules.push(fails(CommandStep::ResolveConfig));
    rules.push(fails(CommandStep::ParseReference));
    rules.push(fails(CommandStep::ResolveGroup));
    rules.push(fails(CommandStep::ParseDefinition));
    rules.push(blocks(CommandStep::ValidateMembers));
    rules.push(fails(CommandStep::ParseRevision));
    rules.push(fails(CommandStep::ComputeRevision));
    rules.push(blocks(CommandStep::Review));
    rules.push(blocks(CommandStep::WriteSandbox));
    rules.push(fails(CommandStep::OpenStore));
    rules.push(fails(CommandStep::Apply));
    assert(rules@ =~= edit_rules());
    rules
}

/// The steps of `group rename`.
pub open spec fn rename_rules() -> Seq<StepRule> {
    seq![
        failing(CommandStep::ResolveConfig),
        failing(CommandStep::ParseReference),
        failing(CommandStep::ResolveGroup),
        failing(CommandStep::ParseRevision),
        failing(CommandStep::ParseDefinition),
        failing(CommandStep::ComputeRevision),
        blocking(CommandStep::Review),
        blocking(CommandStep::WriteSandbox),
        failing(CommandStep::OpenStore),
        failing(CommandStep::Apply),
    ]
}

/// The steps of `group rename`: one after the other, and no more.
pub proof fn law_rename_in_order()
    ensures
        ({
            let rules = rename_rules();
            &&& rules.len() == 10
            &&& stands_before(
                rules,
                failing(CommandStep::ResolveConfig),
                failing(CommandStep::ParseReference),
            )
            &&& stands_before(
                rules,
                failing(CommandStep::ParseReference),
                failing(CommandStep::ResolveGroup),
            )
            &&& stands_before(
                rules,
                failing(CommandStep::ResolveGroup),
                failing(CommandStep::ParseRevision),
            )
            &&& stands_before(
                rules,
                failing(CommandStep::ParseRevision),
                failing(CommandStep::ParseDefinition),
            )
            &&& stands_before(
                rules,
                failing(CommandStep::ParseDefinition),
                failing(CommandStep::ComputeRevision),
            )
            &&& stands_before(
                rules,
                failing(CommandStep::ComputeRevision),
                blocking(CommandStep::Review),
            )
            &&& stands_before(
                rules,
                blocking(CommandStep::Review),
                blocking(CommandStep::WriteSandbox),
            )
            &&& stands_before(
                rules,
                blocking(CommandStep::WriteSandbox),
                failing(CommandStep::OpenStore),
            )
            &&& stands_before(rules, failing(CommandStep::OpenStore), failing(CommandStep::Apply))
        }),
{
    let rules = rename_rules();
    assert(rules[0] == failing(CommandStep::ResolveConfig));
    assert(rules[1] == failing(CommandStep::ParseReference));
    assert(rules[2] == failing(CommandStep::ResolveGroup));
    assert(rules[3] == failing(CommandStep::ParseRevision));
    assert(rules[4] == failing(CommandStep::ParseDefinition));
    assert(rules[5] == failing(CommandStep::ComputeRevision));
    assert(rules[6] == blocking(CommandStep::Review));
    assert(rules[7] == blocking(CommandStep::WriteSandbox));
    assert(rules[8] == failing(CommandStep::OpenStore));
    assert(rules[9] == failing(CommandStep::Apply));
}

/// The steps of `group rename`.
pub fn rename() -> (rules: Vec<StepRule>)
    ensures
        rules@ == rename_rules(),
{
    let mut rules: Vec<StepRule> = Vec::new();
    rules.push(fails(CommandStep::ResolveConfig));
    rules.push(fails(CommandStep::ParseReference));
    rules.push(fails(CommandStep::ResolveGroup));
    rules.push(fails(CommandStep::ParseRevision));
    rules.push(fails(CommandStep::ParseDefinition));
    rules.push(fails(CommandStep::ComputeRevision));
    rules.push(blocks(CommandStep::Review));
    rules.push(blocks(CommandStep::WriteSandbox));
    rules.push(fails(CommandStep::OpenStore));
    rules.push(fails(CommandStep::Apply));
    assert(rules@ =~= rename_rules());
    rules
}

/// The steps of `group delete`.
pub open spec fn delete_rules() -> Seq<StepRule> {
    seq![
        failing(CommandStep::ResolveConfig),
        failing(CommandStep::ParseReference),
        failing(CommandStep::ResolveGroup),
        failing(CommandStep::ParseRevision),
        blocking(CommandStep::Review),
        blocking(CommandStep::WriteSandbox),
        failing(CommandStep::OpenStore),
        failing(CommandStep::Apply),
    ]
}

/// The steps of `group delete`: one after the other, and no more.
pub proof fn law_delete_in_order()
    ensures
        ({
            let rules = delete_rules();
            &&& rules.len() == 8
            &&& stands_before(
                rules,
                failing(CommandStep::ResolveConfig),
                failing(CommandStep::ParseReference),
            )
            &&& stands_before(
                rules,
                failing(CommandStep::ParseReference),
                failing(CommandStep::ResolveGroup),
            )
            &&& stands_before(
                rules,
                failing(CommandStep::ResolveGroup),
                failing(CommandStep::ParseRevision),
            )
            &&& stands_before(
                rules,
                failing(CommandStep::ParseRevision),
                blocking(CommandStep::Review),
            )
            &&& stands_before(
                rules,
                blocking(CommandStep::Review),
                blocking(CommandStep::WriteSandbox),
            )
            &&& stands_before(
                rules,
                blocking(CommandStep::WriteSandbox),
                failing(CommandStep::OpenStore),
            )
            &&& stands_before(rules, failing(CommandStep::OpenStore), failing(CommandStep::Apply))
        }),
{
    let rules = delete_rules();
    assert(rules[0] == failing(CommandStep::ResolveConfig));
    assert(rules[1] == failing(CommandStep::ParseReference));
    assert(rules[2] == failing(CommandStep::ResolveGroup));
    assert(rules[3] == failing(CommandStep::ParseRevision));
    assert(rules[4] == blocking(CommandStep::Review));
    assert(rules[5] == blocking(CommandStep::WriteSandbox));
    assert(rules[6] == failing(CommandStep::OpenStore));
    assert(rules[7] == failing(CommandStep::Apply));
}

/// The steps of `group delete`.
pub fn delete() -> (rules: Vec<StepRule>)
    ensures
        rules@ == delete_rules(),
{
    let mut rules: Vec<StepRule> = Vec::new();
    rules.push(fails(CommandStep::ResolveConfig));
    rules.push(fails(CommandStep::ParseReference));
    rules.push(fails(CommandStep::ResolveGroup));
    rules.push(fails(CommandStep::ParseRevision));
    rules.push(blocks(CommandStep::Review));
    rules.push(blocks(CommandStep::WriteSandbox));
    rules.push(fails(CommandStep::OpenStore));
    rules.push(fails(CommandStep::Apply));
    assert(rules@ =~= delete_rules());
    rules
}

/// The steps of `group history`.
pub open spec fn history_rules() -> Seq<StepRule> {
    seq![
        failing(CommandStep::ResolveConfig),
        failing(CommandStep::OpenStore),
        failing(CommandStep::LoadHistory),
    ]
}

/// The steps of `group history`: one after the other, and no more.
pub proof fn law_history_in_order()
    ensures
        ({
            let rules = history_rules();
            &&& rules.len() == 3
            &&& stands_before(
                rules,
                failing(CommandStep::ResolveConfig),
                failing(CommandStep::OpenStore),
            )
            &&& stands_before(
                rules,
                failing(CommandStep::OpenStore),
                failing(CommandStep::LoadHistory),
            )
        }),
{
    let rules = history_rules();
    assert(rules[0] == failing(CommandStep::ResolveConfig));
    assert(rules[1] == failing(CommandStep::OpenStore));
    assert(rules[2] == failing(CommandStep::LoadHistory));
}

/// The steps of `group history`.
pub fn history() -> (rules: Vec<StepRule>)
    ensures
        rules@ == history_rules(),
{
    let mut rules: Vec<StepRule> = Vec::new();
    rules.push(fails(CommandStep::ResolveConfig));
    rules.push(fails(CommandStep::OpenStore));
    rules.push(fails(CommandStep::LoadHistory));
    assert(rules@ =~= history_rules());
    rules
}

/// The steps of `group restore-definition`: the store is opened to read its
/// history.
pub open spec fn restore_definition_rules() -> Seq<StepRule> {
    seq![
        failing(CommandStep::ResolveConfig),
        failing(CommandStep::ParseRevision),
        failing(CommandStep::OpenStore),
        failing(CommandStep::LoadHistory),
        blocking(CommandStep::PriorDefinition),
        failing(CommandStep::ComputeRevision),
        blocking(CommandStep::Review),
        blocking(CommandStep::WriteSandbox),
        failing(CommandStep::Apply),
    ]
}

/// The steps of `group restore-definition`: the store is opened to read its
/// history: one after the other, and no more.
pub proof fn law_restore_definition_in_order()
    ensures
        ({
            let rules = restore_definition_rules();
            &&& rules.len() == 9
            &&& stands_before(
                rules,
                failing(CommandStep::ResolveConfig),
                failing(CommandStep::ParseRevision),
            )
            &&& stands_before(
                rules,
                failing(CommandStep::ParseRevision),
                failing(CommandStep::OpenStore),
            )
            &&& stands_before(
                rules,
                failing(CommandStep::OpenStore),
                failing(CommandStep::LoadHistory),
            )
            &&& stands_before(
                rules,
                failing(CommandStep::LoadHistory),
                blocking(CommandStep::PriorDefinition),
            )
            &&& stands_before(
                rules,
                blocking(CommandStep::PriorDefinition),
                failing(CommandStep::ComputeRevision),
            )
            &&& stands_before(
                rules,
                failing(CommandStep::ComputeRevision),
                blocking(CommandStep::Review),
            )
            &&& stands_before(
                rules,
                blocking(CommandStep::Review),
                blocking(CommandStep::WriteSandbox),
            )
            &&& stands_before(
                rules,
                blocking(CommandStep::WriteSandbox),
                failing(CommandStep::Apply),
            )
        }),
{
    let rules = restore_definition_rules();
    assert(rules[0] == failing(CommandStep::ResolveConfig));
    assert(rules[1] == failing(CommandStep::ParseRevision));
    assert(rules[2] == failing(CommandStep::OpenStore));
    assert(rules[3] == failing(CommandStep::LoadHistory));
    assert(rules[4] == blocking(CommandStep::PriorDefinition));
    assert(rules[5] == failing(CommandStep::ComputeRevision));
    assert(rules[6] == blocking(CommandStep::Review));
    assert(rules[7] == blocking(CommandStep::WriteSandbox));
    assert(rules[8] == failing(CommandStep::Apply));
}

/// The steps of `group restore-definition`: the store is opened to read its
/// history.
pub fn restore_definition() -> (rules: Vec<StepRule>)
    ensures
        rules@ == restore_definition_rules(),
{
    let mut rules: Vec<StepRule> = Vec::new();
    rules.push(fails(CommandStep::ResolveConfig));
    rules.push(fails(CommandStep::ParseRevision));
    rules.push(fails(CommandStep::OpenStore));
    rules.push(fails(CommandStep::LoadHistory));
    rules.push(blocks(CommandStep::PriorDefinition));
    rules.push(fails(CommandStep::ComputeRevision));
    rules.push(blocks(CommandStep::Review));
    rules.push(blocks(CommandStep::WriteSandbox));
    rules.push(fails(CommandStep::Apply));
    assert(rules@ =~= restore_definition_rules());
    rules
}

/// The steps of `group plan`, which changes nothing.
pub open spec fn plan_rules(provider_given: bool) -> Seq<StepRule> {
    seq![
        failing(CommandStep::ResolveConfig),
        failing(CommandStep::ParseReference),
    ] + (if provider_given {
        seq![
            coded_exit(blocking(CommandStep::ParseSelectedProvider), 3),
        ]
    } else {
        seq![]
    }) + seq![
        coded_exit(blocking(CommandStep::SelectReach), 3),
        coded_exit(blocking(CommandStep::PlanChange), 3),
    ]
}

/// The steps of `group plan`, which changes nothing: one after the other, and
/// no more.
pub proof fn law_plan_in_order(provider_given: bool)
    ensures
        ({
            let rules = plan_rules(provider_given);
            &&& rules.len() == 4 + if provider_given {
                1int
            } else {
                0int
            }
            &&& stands_before(
                rules,
                failing(CommandStep::ResolveConfig),
                failing(CommandStep::ParseReference),
            )
            &&& provider_given ==> stands_before(
                rules,
                failing(CommandStep::ParseReference),
                coded_exit(blocking(CommandStep::ParseSelectedProvider), 3),
            )
            &&& provider_given ==> stands_before(
                rules,
                coded_exit(blocking(CommandStep::ParseSelectedProvider), 3),
                coded_exit(blocking(CommandStep::SelectReach), 3),
            )
            &&& stands_before(
                rules,
                failing(CommandStep::ParseReference),
                coded_exit(blocking(CommandStep::SelectReach), 3),
            )
            &&& stands_before(
                rules,
                coded_exit(blocking(CommandStep::SelectReach), 3),
                coded_exit(blocking(CommandStep::PlanChange), 3),
            )
        }),
{
    let rules = plan_rules(provider_given);
    if provider_given {
        assert(rules[0] == failing(CommandStep::ResolveConfig));
        assert(rules[1] == failing(CommandStep::ParseReference));
        assert(rules[2] == coded_exit(blocking(CommandStep::ParseSelectedProvider), 3));
        assert(rules[3] == coded_exit(blocking(CommandStep::SelectReach), 3));
        assert(rules[4] == coded_exit(blocking(CommandStep::PlanChange), 3));
    } else {
        assert(rules[0] == failing(CommandStep::ResolveConfig));
        assert(rules[1] == failing(CommandStep::ParseReference));
        assert(rules[2] == coded_exit(blocking(CommandStep::SelectReach), 3));
        assert(rules[3] == coded_exit(blocking(CommandStep::PlanChange), 3));
    }
}

/// The steps of `group plan`, which changes nothing.
pub fn plan(provider_given: bool) -> (rules: Vec<StepRule>)
    ensures
        rules@ == plan_rules(provider_given),
{
    let mut rules: Vec<StepRule> = Vec::new();
    rules.push(fails(CommandStep::ResolveConfig));
    rules.push(fails(CommandStep::ParseReference));
    if provider_given {
        rules.push(with_exit(blocks(CommandStep::ParseSelectedProvider), 3));
    }
    rules.push(with_exit(blocks(CommandStep::SelectReach), 3));
    rules.push(with_exit(blocks(CommandStep::PlanChange), 3));
    assert(rules@ =~= plan_rules(provider_given));
    rules
}

/// The steps of `group approve`. Only a fixture has its state root resolved.
pub open spec fn approve_rules() -> Seq<StepRule> {
    seq![
        failing(CommandStep::ReadChallenge),
        failing(CommandStep::ResolveConfig),
        failing(CommandStep::ResolveStateRoot),
        failing(CommandStep::SessionCredential),
        failing(CommandStep::ReadClock),
        blocking(CommandStep::AuthenticateChallenge),
        blocking(CommandStep::MatchWorkspace),
        blocking(CommandStep::VerifyLease),
        blocking(CommandStep::VerifyClaims),
        failing(CommandStep::ApprovalContext),
        blocking(CommandStep::Expectation),
        blocking(CommandStep::Authorize),
        failing(CommandStep::Apply),
    ]
}

/// The steps of `group approve`. Only a fixture has its state root resolved:
/// one after the other, and no more.
pub proof fn law_approve_in_order()
    ensures
        ({
            let rules = approve_rules();
            &&& rules.len() == 13
            &&& stands_before(
                rules,
                failing(CommandStep::ReadChallenge),
                failing(CommandStep::ResolveConfig),
            )
            &&& stands_before(
                rules,
                failing(CommandStep::ResolveConfig),
                failing(CommandStep::ResolveStateRoot),
            )
            &&& stands_before(
                rules,
                failing(CommandStep::ResolveStateRoot),
                failing(CommandStep::SessionCredential),
            )
            &&& stands_before(
                rules,
                failing(CommandStep::SessionCredential),
                failing(CommandStep::ReadClock),
            )
            &&& stands_before(
                rules,
                failing(CommandStep::ReadClock),
                blocking(CommandStep::AuthenticateChallenge),
            )
            &&& stands_before(
                rules,
                blocking(CommandStep::AuthenticateChallenge),
                blocking(CommandStep::MatchWorkspace),
            )
            &&& stands_before(
                rules,
                blocking(CommandStep::MatchWorkspace),
                blocking(CommandStep::VerifyLease),
            )
            &&& stands_before(
                rules,
                blocking(CommandStep::VerifyLease),
                blocking(CommandStep::VerifyClaims),
            )
            &&& stands_before(
                rules,
                blocking(CommandStep::VerifyClaims),
                failing(CommandStep::ApprovalContext),
            )
            &&& stands_before(
                rules,
                failing(CommandStep::ApprovalContext),
                blocking(CommandStep::Expectation),
            )
            &&& stands_before(
                rules,
                blocking(CommandStep::Expectation),
                blocking(CommandStep::Authorize),
            )
            &&& stands_before(
                rules,
                blocking(CommandStep::Authorize),
                failing(CommandStep::Apply),
            )
        }),
{
    let rules = approve_rules();
    assert(rules[0] == failing(CommandStep::ReadChallenge));
    assert(rules[1] == failing(CommandStep::ResolveConfig));
    assert(rules[2] == failing(CommandStep::ResolveStateRoot));
    assert(rules[3] == failing(CommandStep::SessionCredential));
    assert(rules[4] == failing(CommandStep::ReadClock));
    assert(rules[5] == blocking(CommandStep::AuthenticateChallenge));
    assert(rules[6] == blocking(CommandStep::MatchWorkspace));
    assert(rules[7] == blocking(CommandStep::VerifyLease));
    assert(rules[8] == blocking(CommandStep::VerifyClaims));
    assert(rules[9] == failing(CommandStep::ApprovalContext));
    assert(rules[10] == blocking(CommandStep::Expectation));
    assert(rules[11] == blocking(CommandStep::Authorize));
    assert(rules[12] == failing(CommandStep::Apply));
}

/// The steps of `group approve`.
pub fn approve() -> (rules: Vec<StepRule>)
    ensures
        rules@ == approve_rules(),
{
    let mut rules: Vec<StepRule> = Vec::new();
    rules.push(fails(CommandStep::ReadChallenge));
    rules.push(fails(CommandStep::ResolveConfig));
    rules.push(fails(CommandStep::ResolveStateRoot));
    rules.push(fails(CommandStep::SessionCredential));
    rules.push(fails(CommandStep::ReadClock));
    rules.push(blocks(CommandStep::AuthenticateChallenge));
    rules.push(blocks(CommandStep::MatchWorkspace));
    rules.push(blocks(CommandStep::VerifyLease));
    rules.push(blocks(CommandStep::VerifyClaims));
    rules.push(fails(CommandStep::ApprovalContext));
    rules.push(blocks(CommandStep::Expectation));
    rules.push(blocks(CommandStep::Authorize));
    rules.push(fails(CommandStep::Apply));
    assert(rules@ =~= approve_rules());
    rules
}

/// The steps of `group operation-show`: an operation that cannot be read blocks,
/// one that is not there fails.
pub open spec fn operation_show_rules() -> Seq<StepRule> {
    seq![
        failing(CommandStep::ResolveConfig),
        failing(CommandStep::BackupCredential),
        blocking(CommandStep::ReadState),
        failing(CommandStep::FindOperation),
    ]
}

/// The steps of `group operation-show`: an operation that cannot be read
/// blocks, one that is not there fails: one after the other, and no more.
pub proof fn law_operation_show_in_order()
    ensures
        ({
            let rules = operation_show_rules();
            &&& rules.len() == 4
            &&& stands_before(
                rules,
                failing(CommandStep::ResolveConfig),
                failing(CommandStep::BackupCredential),
            )
            &&& stands_before(
                rules,
                failing(CommandStep::BackupCredential),
                blocking(CommandStep::ReadState),
            )
            &&& stands_before(
                rules,
                blocking(CommandStep::ReadState),
                failing(CommandStep::FindOperation),
            )
        }),
{
    let rules = operation_show_rules();
    assert(rules[0] == failing(CommandStep::ResolveConfig));
    assert(rules[1] == failing(CommandStep::BackupCredential));
    assert(rules[2] == blocking(CommandStep::ReadState));
    assert(rules[3] == failing(CommandStep::FindOperation));
}

/// The steps of `group operation-show`.
pub fn operation_show() -> (rules: Vec<StepRule>)
    ensures
        rules@ == operation_show_rules(),
{
    let mut rules: Vec<StepRule> = Vec::new();
    rules.push(fails(CommandStep::ResolveConfig));
    rules.push(fails(CommandStep::BackupCredential));
    rules.push(blocks(CommandStep::ReadState));
    rules.push(fails(CommandStep::FindOperation));
    assert(rules@ =~= operation_show_rules());
    rules
}

/// The steps of `group list`.
pub open spec fn list_rules() -> Seq<StepRule> {
    seq![
        failing(CommandStep::ResolveConfig),
        failing(CommandStep::Discover),
        failing(CommandStep::ReadState),
    ]
}

/// The steps of `group list`: one after the other, and no more.
pub proof fn law_list_in_order()
    ensures
        ({
            let rules = list_rules();
            &&& rules.len() == 3
            &&& stands_before(
                rules,
                failing(CommandStep::ResolveConfig),
                failing(CommandStep::Discover),
            )
            &&& stands_before(
                rules,
                failing(CommandStep::Discover),
                failing(CommandStep::ReadState),
            )
        }),
{
    let rules = list_rules();
    assert(rules[0] == failing(CommandStep::ResolveConfig));
    assert(rules[1] == failing(CommandStep::Discover));
    assert(rules[2] == failing(CommandStep::ReadState));
}

/// The steps of `group list`.
pub fn list() -> (rules: Vec<StepRule>)
    ensures
        rules@ == list_rules(),
{
    let mut rules: Vec<StepRule> = Vec::new();
    rules.push(fails(CommandStep::ResolveConfig));
    rules.push(fails(CommandStep::Discover));
    rules.push(fails(CommandStep::ReadState));
    assert(rules@ =~= list_rules());
    rules
}

/// The steps of `group show`.
pub open spec fn show_rules() -> Seq<StepRule> {
    seq![
        failing(CommandStep::ResolveConfig),
        failing(CommandStep::ParseReference),
        failing(CommandStep::Discover),
        failing(CommandStep::ReadState),
    ]
}

/// The steps of `group show`: one after the other, and no more.
pub proof fn law_show_in_order()
    ensures
        ({
            let rules = show_rules();
            &&& rules.len() == 4
            &&& stands_before(
                rules,
                failing(CommandStep::ResolveConfig),
                failing(CommandStep::ParseReference),
            )
            &&& stands_before(
                rules,
                failing(CommandStep::ParseReference),
                failing(CommandStep::Discover),
            )
            &&& stands_before(
                rules,
                failing(CommandStep::Discover),
                failing(CommandStep::ReadState),
            )
        }),
{
    let rules = show_rules();
    assert(rules[0] == failing(CommandStep::ResolveConfig));
    assert(rules[1] == failing(CommandStep::ParseReference));
    assert(rules[2] == failing(CommandStep::Discover));
    assert(rules[3] == failing(CommandStep::ReadState));
}

/// The steps of `group show`.
pub fn show() -> (rules: Vec<StepRule>)
    ensures
        rules@ == show_rules(),
{
    let mut rules: Vec<StepRule> = Vec::new();
    rules.push(fails(CommandStep::ResolveConfig));
    rules.push(fails(CommandStep::ParseReference));
    rules.push(fails(CommandStep::Discover));
    rules.push(fails(CommandStep::ReadState));
    assert(rules@ =~= show_rules());
    rules
}

/// No definition is written without a review.
pub proof fn law_definition_changes_are_reviewed()
    ensures
        reviewed_first(create_rules()),
        reviewed_first(edit_rules()),
        reviewed_first(rename_rules()),
        reviewed_first(delete_rules()),
        reviewed_first(restore_definition_rules()),
{
    assert(create_rules()[4].step is Review);
    assert(edit_rules()[7].step is Review);
    assert(rename_rules()[6].step is Review);
    assert(delete_rules()[4].step is Review);
    assert(restore_definition_rules()[6].step is Review);
}

/// Nothing is approved unless the challenge is authentic, belongs to this
/// workspace, and its lease and claims are valid.
pub proof fn law_approval_is_verified(events: Seq<EventView>, i: int)
    requires
        0 <= i < steps_taken(approve_rules(), 0, events),
        takes_effect(approve_rules()[i].step),
    ensures
        passed(approve_rules(), events, CommandStep::AuthenticateChallenge),
        passed(approve_rules(), events, CommandStep::MatchWorkspace),
        passed(approve_rules(), events, CommandStep::VerifyLease),
        passed(approve_rules(), events, CommandStep::VerifyClaims),
{
    let rules = approve_rules();
    law_steps_follow_success(rules, events, i);
    assert(rules[5].step is AuthenticateChallenge && rules[6].step is MatchWorkspace);
    assert(rules[7].step is VerifyLease && rules[8].step is VerifyClaims);
    assert(i > 8);
}

/// The name of a scope names it.
pub proof fn law_scope_names(scope: GroupScope)
    ensures
        scope_named(scope_name(scope)) == Some(scope),
{
    reveal_strlit("personal");
    reveal_strlit("repository");
    assert("personal"@.len() == 8 && "repository"@.len() == 10);
}

} // verus!
