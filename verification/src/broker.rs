//! The decisions of a client of the credential broker: what it makes of a reply,
//! when the broker is started, what counts as a sound installation, and who a
//! peer on the socket must be.
use vstd::prelude::*;

use crate::broker_protocol::{BrokerResponse, ResponseView};
use crate::text::{
    alphanumeric_char, chars_of, hex_text, is_hex_text, is_plain_name, joined, lower_text, optional,
    outcome, to_lower_text,
};

verus! {

pub const EXISTING_BROKER_PROBE_TIMEOUT_MILLIS: u64 = 100;

pub const BROKER_OPERATION_TIMEOUT_MILLIS: u64 = 120000;

pub const BROKER_STARTUP_TIMEOUT_MILLIS: u64 = 2000;

pub const BROKER_POLL_MILLIS: u64 = 20;

pub const BROKER_DIRECTORY: &'static str = "credential-broker";

pub const BROKER_PROTOCOL_DIRECTORY: &'static str = "v1";

pub const BROKER_EXECUTABLE: &'static str = "unpin-credential-broker";

pub const BROKER_CODE_IDENTIFIER: &'static str = "dev.unpin.credential-broker";

/// The error of a reply that does not fit its request.
pub open spec fn unexpected_reply() -> Seq<char> {
    "credential broker returned an invalid response"@
}

/// What a client makes of the reply to a read.
pub open spec fn read_reply(response: ResponseView) -> Result<Option<Seq<u8>>, Seq<char>> {
    match response {
        ResponseView::Value(value) => Ok(Some(value)),
        ResponseView::NotFound => Ok(None),
        ResponseView::Error(error) => Err(error),
        ResponseView::Success => Err(unexpected_reply()),
    }
}

/// What a client makes of the reply to a write.
pub open spec fn write_reply(response: ResponseView) -> Result<(), Seq<char>> {
    match response {
        ResponseView::Success => Ok(()),
        ResponseView::Error(error) => Err(error),
        _ => Err(unexpected_reply()),
    }
}

/// What a client makes of the reply to a removal.
pub open spec fn delete_reply(response: ResponseView) -> Result<bool, Seq<char>> {
    match response {
        ResponseView::Success => Ok(true),
        ResponseView::NotFound => Ok(false),
        ResponseView::Error(error) => Err(error),
        ResponseView::Value(_) => Err(unexpected_reply()),
    }
}

/// The secret that the broker gave for a read.
pub fn get(response: BrokerResponse) -> (r: Result<Option<Vec<u8>>, String>)
    ensures
        match read_reply(response@) {
            Ok(found) => r is Ok && optional(r->Ok_0) == found,
            Err(error) => r is Err && r->Err_0@ == error,
        },
{
    match response {
        BrokerResponse::Value(value) => Ok(Some(value)),
        BrokerResponse::NotFound => Ok(None),
        BrokerResponse::Error(error) => Err(error),
        BrokerResponse::Success => Err("credential broker returned an invalid response".to_owned()),
    }
}

/// Whether the broker stored a secret.
pub fn set(response: BrokerResponse) -> (r: Result<(), String>)
    ensures
        outcome(r) == write_reply(response@),
{
    match response {
        BrokerResponse::Success => Ok(()),
        BrokerResponse::Error(error) => Err(error),
        _ => Err("credential broker returned an invalid response".to_owned()),
    }
}

/// Whether there was a secret for the broker to remove.
pub fn delete(response: BrokerResponse) -> (r: Result<bool, String>)
    ensures
        outcome(r) == delete_reply(response@),
{
    match response {
        BrokerResponse::Success => Ok(true),
        BrokerResponse::NotFound => Ok(false),
        BrokerResponse::Error(error) => Err(error),
        BrokerResponse::Value(_) => Err("credential broker returned an invalid response".to_owned()),
    }
}

/// One exchange with a broker that may be running.
#[derive(Clone, Copy, PartialEq, Eq, Structural)]
pub enum BrokerCall {
    /// Ping it, and wait that long for the answer.
    Probe { timeout_millis: u64 },
    /// Send it the real request, and wait that long for the answer.
    Perform { timeout_millis: u64 },
}

/// What to do after an exchange.
pub enum ReadyStep {
    Call(BrokerCall),
    Answered(BrokerResponse),
    NotReady,
    Failed(String),
}

/// The first exchange: the broker is pinged before it gets a real request.
pub fn request_ready_broker() -> (call: BrokerCall)
    ensures
        call == (BrokerCall::Probe { timeout_millis: EXISTING_BROKER_PROBE_TIMEOUT_MILLIS }),
{
    BrokerCall::Probe { timeout_millis: EXISTING_BROKER_PROBE_TIMEOUT_MILLIS }
}

/// What follows an exchange: only a broker that answered the ping with success
/// gets the request, and it gets it once.
pub fn request_ready_broker_with(
    call: BrokerCall,
    reply: Result<BrokerResponse, String>,
) -> (step: ReadyStep)
    ensures
        match call {
            BrokerCall::Probe { .. } => if reply is Ok && reply->Ok_0@ is Success {
                step == ReadyStep::Call(
                    BrokerCall::Perform { timeout_millis: BROKER_OPERATION_TIMEOUT_MILLIS },
                )
            } else {
                step is NotReady
            },
            BrokerCall::Perform { .. } => match reply {
                Ok(response) => step == ReadyStep::Answered(response),
                Err(error) => step == ReadyStep::Failed(error),
            },
        },
{
    match call {
        BrokerCall::Probe { .. } => match reply {
            Ok(BrokerResponse::Success) => ReadyStep::Call(
                BrokerCall::Perform { timeout_millis: BROKER_OPERATION_TIMEOUT_MILLIS },
            ),
            _ => ReadyStep::NotReady,
        },
        BrokerCall::Perform { .. } => match reply {
            Ok(response) => ReadyStep::Answered(response),
            Err(error) => ReadyStep::Failed(error),
        },
    }
}

/// How far a request to a broker that may have to be started has come.
#[derive(Clone, Copy, PartialEq, Eq, Structural)]
pub enum StartStage {
    /// Ask the broker that may be running.
    TryExisting,
    /// Find the executable that came with the command line.
    Locate,
    /// Install it under the state root.
    Install,
    /// Start the installed executable.
    Spawn,
    /// Ask again until the broker is ready or the time is over.
    Wait,
}

/// What came of a stage.
pub enum StartEvent {
    /// A ready broker answered.
    Answered(BrokerResponse),
    /// The stage failed, or a ready broker refused the request.
    Failed(String),
    /// No broker is ready yet.
    NotReady,
    /// The stage is complete.
    Done,
    /// The time for the start is over.
    TimedOut,
}

/// What to do after a stage.
pub enum StartStep {
    Continue(StartStage),
    /// Hand the answer on; a started broker keeps running.
    Answer(BrokerResponse),
    Fail { error: String, terminate_child: bool },
}

/// What follows each stage of a request that may have to start the broker. An
/// event that does not answer its stage leaves it open.
pub fn request_or_start_broker(stage: StartStage, event: StartEvent) -> (step: StartStep)
    ensures
        match (stage, event) {
            (_, StartEvent::Failed(error)) => match stage {
                StartStage::Spawn => step is Fail && step->error@
                    == "credential broker could not start: "@ + error@ && !step->terminate_child,
                _ => step == (StartStep::Fail { error, terminate_child: false }),
            },
            (StartStage::TryExisting, StartEvent::Answered(response)) => step == StartStep::Answer(
                response,
            ),
            (StartStage::Wait, StartEvent::Answered(response)) => step == StartStep::Answer(response),
            (StartStage::TryExisting, StartEvent::NotReady) => step == StartStep::Continue(
                StartStage::Locate,
            ),
            (StartStage::Locate, StartEvent::Done) => step == StartStep::Continue(
                StartStage::Install,
            ),
            (StartStage::Install, StartEvent::Done) => step == StartStep::Continue(
                StartStage::Spawn,
            ),
            (StartStage::Spawn, StartEvent::Done) => step == StartStep::Continue(StartStage::Wait),
            (StartStage::Wait, StartEvent::TimedOut) => step is Fail && step->error@
                == "credential broker did not become ready"@ && step->terminate_child,
            (_, _) => step == StartStep::Continue(stage),
        },
{
    match (stage, event) {
        (StartStage::Spawn, StartEvent::Failed(error)) => StartStep::Fail {
            error: joined("credential broker could not start: ", error.as_str()),
            terminate_child: false,
        },
        (_, StartEvent::Failed(error)) => StartStep::Fail { error, terminate_child: false },
        (StartStage::TryExisting, StartEvent::Answered(response)) => StartStep::Answer(response),
        (StartStage::Wait, StartEvent::Answered(response)) => StartStep::Answer(response),
        (StartStage::TryExisting, StartEvent::NotReady) => StartStep::Continue(StartStage::Locate),
        (StartStage::Locate, StartEvent::Done) => StartStep::Continue(StartStage::Install),
        (StartStage::Install, StartEvent::Done) => StartStep::Continue(StartStage::Spawn),
        (StartStage::Spawn, StartEvent::Done) => StartStep::Continue(StartStage::Wait),
        (StartStage::Wait, StartEvent::TimedOut) => StartStep::Fail {
            error: "credential broker did not become ready".to_owned(),
            terminate_child: true,
        },
        (_, _) => StartStep::Continue(stage),
    }
}

/// How long to wait before the next attempt: a poll interval, or what is left.
pub fn next_poll_millis(elapsed_millis: u64) -> (wait: Option<u64>)
    ensures
        elapsed_millis >= BROKER_STARTUP_TIMEOUT_MILLIS ==> wait is None,
        elapsed_millis < BROKER_STARTUP_TIMEOUT_MILLIS ==> wait == Some(
            if BROKER_STARTUP_TIMEOUT_MILLIS - elapsed_millis < BROKER_POLL_MILLIS {
                (BROKER_STARTUP_TIMEOUT_MILLIS - elapsed_millis) as u64
            } else {
                BROKER_POLL_MILLIS
            },
        ),
{
    if elapsed_millis >= BROKER_STARTUP_TIMEOUT_MILLIS {
        None
    } else {
        let left: u64 = BROKER_STARTUP_TIMEOUT_MILLIS - elapsed_millis;
        if left < BROKER_POLL_MILLIS {
            Some(left)
        } else {
            Some(BROKER_POLL_MILLIS)
        }
    }
}

/// What the file system says of a path, links not followed.
#[derive(Clone, Copy, PartialEq, Eq, Structural)]
pub struct FileMetadata {
    pub symlink: bool,
    pub directory: bool,
    pub regular: bool,
    pub uid: u32,
    /// The permission bits.
    pub mode: u32,
}

/// The outcome of looking at a path.
pub enum FileStatus {
    /// Nothing is there, in the system's words.
    Missing(String),
    Present(FileMetadata),
    Failed(String),
}

/// A private directory: no link, owned by the user, closed to everyone else.
pub open spec fn owned_directory(metadata: FileMetadata, uid: u32) -> bool {
    !metadata.symlink && metadata.directory && metadata.uid == uid
}

/// What the metadata of a socket directory gives a client.
pub open spec fn socket_directory_error(metadata: FileMetadata, uid: u32) -> Option<Seq<char>> {
    if metadata.symlink || !metadata.directory {
        Some("credential broker socket directory must be a regular directory"@)
    } else if metadata.uid != uid {
        Some("credential broker socket directory owner is invalid"@)
    } else if metadata.mode % 512 != 448 {
        Some("credential broker socket directory permissions are invalid"@)
    } else {
        None
    }
}

/// Whether a client may use the socket directory: a real directory of the
/// user's, with permissions 0700.
pub fn validate_broker_socket_directory_for_client(directory: &FileStatus, expected_uid: u32) -> (r:
    Result<(), String>)
    ensures
        match directory {
            FileStatus::Missing(error) | FileStatus::Failed(error) => r is Err && r->Err_0@
                == "credential broker socket directory is unavailable: "@ + error@,
            FileStatus::Present(metadata) => match socket_directory_error(*metadata, expected_uid) {
                Some(error) => r is Err && r->Err_0@ == error,
                None => r is Ok,
            },
        },
{
    match directory {
        FileStatus::Missing(error) | FileStatus::Failed(error) => Err(
            joined("credential broker socket directory is unavailable: ", error.as_str()),
        ),
        FileStatus::Present(metadata) => {
            if metadata.symlink || !metadata.directory {
                Err("credential broker socket directory must be a regular directory".to_owned())
            } else if metadata.uid != expected_uid {
                Err("credential broker socket directory owner is invalid".to_owned())
            } else if metadata.mode % 512 != 448 {
                Err("credential broker socket directory permissions are invalid".to_owned())
            } else {
                Ok(())
            }
        },
    }
}

/// What an installed component directory must be.
pub open spec fn component_valid(metadata: FileMetadata, root: FileMetadata) -> bool {
    owned_directory(metadata, root.uid) && metadata.mode % 512 == 448
}

/// What is wrong with the component directories that exist; the first missing
/// one ends the check.
pub open spec fn components_error(
    root: FileMetadata,
    first: FileStatus,
    second: FileStatus,
) -> Option<Seq<char>> {
    match first {
        FileStatus::Missing(_) => None,
        FileStatus::Failed(error) => Some(error@),
        FileStatus::Present(metadata) => if !component_valid(metadata, root) {
            Some("credential broker installation directory is invalid"@)
        } else {
            match second {
                FileStatus::Missing(_) => None,
                FileStatus::Failed(error) => Some(error@),
                FileStatus::Present(inner) => if component_valid(inner, root) {
                    None
                } else {
                    Some("credential broker installation directory is invalid"@)
                },
            }
        },
    }
}

/// What is wrong with an installation: `first` is the broker directory under
/// the root, `second` the protocol directory under that.
pub open spec fn installation_error(
    root: FileStatus,
    first: FileStatus,
    second: FileStatus,
    uid: u32,
) -> Option<Seq<char>> {
    match root {
        FileStatus::Missing(_) => None,
        FileStatus::Failed(error) => Some(error@),
        FileStatus::Present(metadata) => if !owned_directory(metadata, uid) {
            Some("credential broker app state root must be a regular directory"@)
        } else {
            components_error(metadata, first, second)
        },
    }
}

/// Checks the directories of an installation that may exist.
pub fn validate_existing_broker_installation_directories(
    root: &FileStatus,
    first: &FileStatus,
    second: &FileStatus,
    effective_uid: u32,
) -> (r: Result<(), String>)
    ensures
        match installation_error(*root, *first, *second, effective_uid) {
            Some(error) => r is Err && r->Err_0@ == error,
            None => r is Ok,
        },
{
    let root_metadata = match root {
        FileStatus::Missing(_) => return Ok(()),
        FileStatus::Failed(error) => return Err(error.clone()),
        FileStatus::Present(metadata) => *metadata,
    };
    if root_metadata.symlink || !root_metadata.directory || root_metadata.uid != effective_uid {
        return Err("credential broker app state root must be a regular directory".to_owned());
    }
    match validate_component(root_metadata, first) {
        Err(error) => return Err(error),
        Ok(false) => return Ok(()),
        Ok(true) => {},
    }
    match validate_component(root_metadata, second) {
        Err(error) => Err(error),
        Ok(_) => Ok(()),
    }
}

fn validate_component(root: FileMetadata, status: &FileStatus) -> (r: Result<bool, String>)
    ensures
        match status {
            FileStatus::Missing(_) => r == Ok::<bool, String>(false),
            FileStatus::Failed(error) => r is Err && r->Err_0@ == error@,
            FileStatus::Present(metadata) => if component_valid(*metadata, root) {
                r == Ok::<bool, String>(true)
            } else {
                r is Err && r->Err_0@ == "credential broker installation directory is invalid"@
            },
        },
{
    match status {
        FileStatus::Missing(_) => Ok(false),
        FileStatus::Failed(error) => Err(error.clone()),
        FileStatus::Present(metadata) => {
            if metadata.symlink || !metadata.directory || metadata.uid != root.uid || metadata.mode
                % 512 != 448 {
                Err("credential broker installation directory is invalid".to_owned())
            } else {
                Ok(true)
            }
        },
    }
}

/// What was seen of an installation and of its socket.
pub struct InstallationEvidence {
    pub root: FileStatus,
    pub broker_directory: FileStatus,
    pub protocol_directory: FileStatus,
    pub stable_executable: FileStatus,
    pub bundled_executable: FileStatus,
    pub socket_directory: FileStatus,
    pub socket: FileStatus,
    pub effective_uid: u32,
}

/// Whether the keyring may still be used directly: only while no broker
/// executable and no broker socket exist, in a sound installation.
pub open spec fn fallback_decision(seen: InstallationEvidence) -> Result<bool, Seq<char>> {
    match installation_error(
        seen.root,
        seen.broker_directory,
        seen.protocol_directory,
        seen.effective_uid,
    ) {
        Some(error) => Err(error),
        None => match (seen.stable_executable, seen.bundled_executable) {
            (FileStatus::Present(_), _) => Ok(false),
            (FileStatus::Failed(error), _) => Err(
                "credential broker availability could not be checked: "@ + error@,
            ),
            (FileStatus::Missing(_), FileStatus::Present(_)) => Ok(false),
            (FileStatus::Missing(_), FileStatus::Failed(error)) => Err(
                "credential broker availability could not be checked: "@ + error@,
            ),
            (FileStatus::Missing(_), FileStatus::Missing(_)) => match seen.socket_directory {
                FileStatus::Missing(_) => Ok(true),
                FileStatus::Failed(error) => Err(
                    "credential broker directory availability could not be checked: "@ + error@,
                ),
                FileStatus::Present(metadata) => match socket_directory_error(
                    metadata,
                    seen.effective_uid,
                ) {
                    Some(error) => Err(error),
                    None => match seen.socket {
                        FileStatus::Present(_) => Ok(false),
                        FileStatus::Missing(_) => Ok(true),
                        FileStatus::Failed(error) => Err(
                            "credential broker socket availability could not be checked: "@ + error@,
                        ),
                    },
                },
            },
        },
    }
}

/// Decides on the direct use of the keyring from what was seen.
pub fn legacy_keyring_fallback_allowed_for_paths(seen: &InstallationEvidence) -> (r: Result<
    bool,
    String,
>)
    ensures
        outcome(r) == fallback_decision(*seen),
{
    if let Err(error) = validate_existing_broker_installation_directories(
        &seen.root,
        &seen.broker_directory,
        &seen.protocol_directory,
        seen.effective_uid,
    ) {
        return Err(error);
    }
    match &seen.stable_executable {
        FileStatus::Present(_) => return Ok(false),
        FileStatus::Failed(error) => return Err(
            joined("credential broker availability could not be checked: ", error.as_str()),
        ),
        FileStatus::Missing(_) => {},
    }
    match &seen.bundled_executable {
        FileStatus::Present(_) => return Ok(false),
        FileStatus::Failed(error) => return Err(
            joined("credential broker availability could not be checked: ", error.as_str()),
        ),
        FileStatus::Missing(_) => {},
    }
    match &seen.socket_directory {
        FileStatus::Missing(_) => Ok(true),
        FileStatus::Failed(error) => Err(
            joined("credential broker directory availability could not be checked: ", error.as_str()),
        ),
        FileStatus::Present(_) => {
            if let Err(error) = validate_broker_socket_directory_for_client(
                &seen.socket_directory,
                seen.effective_uid,
            ) {
                return Err(error);
            }
            match &seen.socket {
                FileStatus::Present(_) => Ok(false),
                FileStatus::Missing(_) => Ok(true),
                FileStatus::Failed(error) => Err(
                    joined("credential broker socket availability could not be checked: ", error.as_str()),
                ),
            }
        },
    }
}

/// Decides on the direct use of the keyring where the bundled executable could
/// be located; an error of that search is the answer otherwise.
pub fn legacy_keyring_fallback_allowed(seen: Result<InstallationEvidence, String>) -> (r: Result<
    bool,
    String,
>)
    ensures
        outcome(r) == (match seen {
            Ok(evidence) => fallback_decision(evidence),
            Err(error) => Err(error@),
        }),
{
    match seen {
        Ok(evidence) => legacy_keyring_fallback_allowed_for_paths(&evidence),
        Err(error) => Err(error),
    }
}

/// The keyring is never used directly beside a broker: neither executable nor,
/// in a sound socket directory, the socket may exist.
pub proof fn law_fallback_means_no_broker(seen: InstallationEvidence)
    requires
        fallback_decision(seen) == Ok::<bool, Seq<char>>(true),
    ensures
        seen.stable_executable is Missing,
        seen.bundled_executable is Missing,
        seen.socket_directory is Missing || seen.socket is Missing,
        installation_error(
            seen.root,
            seen.broker_directory,
            seen.protocol_directory,
            seen.effective_uid,
        ) is None,
{
}

/// A path below another, as `/`-separated text.
pub open spec fn below(base: Seq<char>, name: Seq<char>) -> Seq<char> {
    if base.len() == 0 {
        name
    } else if base.last() == '/' {
        base + name
    } else {
        base + "/"@ + name
    }
}

fn join_path(base: &str, name: &str) -> (path: String)
    ensures
        path@ == below(base@, name@),
{
    let chars = chars_of(base);
    if chars.len() == 0 {
        proof {
            assert(base@ =~= Seq::<char>::empty());
        }
        name.to_owned()
    } else if chars[chars.len() - 1] == '/' {
        joined(base, name)
    } else {
        let mut path = base.to_owned();
        path.push_str("/");
        path.push_str(name);
        path
    }
}

/// Where the broker executable is installed under a state root.
pub fn stable_broker_executable_path(app_state_root: &str) -> (path: String)
    ensures
        path@ == below(
            below(below(app_state_root@, BROKER_DIRECTORY@), BROKER_PROTOCOL_DIRECTORY@),
            BROKER_EXECUTABLE@,
        ),
{
    let directory = join_path(app_state_root, BROKER_DIRECTORY);
    let protocol = join_path(directory.as_str(), BROKER_PROTOCOL_DIRECTORY);
    join_path(protocol.as_str(), BROKER_EXECUTABLE)
}

/// A certificate fingerprint: forty hexadecimal digits.
pub open spec fn fingerprint_valid(fingerprint: Seq<char>) -> bool {
    fingerprint.len() == 40 && hex_text(fingerprint)
}

/// A code identifier: letters, digits, dots and dashes, at least one.
pub open spec fn identifier_valid(identifier: Seq<char>) -> bool {
    identifier.len() > 0 && forall|i: int|
        0 <= i < identifier.len() ==> alphanumeric_char(#[trigger] identifier[i]) || identifier[i]
            == '.' || identifier[i] == '-'
}

/// The requirement that pins an identifier and a certificate.
pub open spec fn pinned_requirement(identifier: Seq<char>, fingerprint: Seq<char>) -> Seq<char> {
    "identifier \""@ + identifier + "\" and certificate leaf = H\""@ + lower_text(fingerprint)
        + "\""@
}

fn is_fingerprint(fingerprint: &str) -> (r: bool)
    ensures
        r == fingerprint_valid(fingerprint@),
{
    chars_of(fingerprint).len() == 40 && is_hex_text(fingerprint)
}

fn requirement_text(identifier: &str, fingerprint: &str) -> (text: String)
    ensures
        text@ == pinned_requirement(identifier@, fingerprint@),
{
    let mut text = "identifier \"".to_owned();
    text.push_str(identifier);
    text.push_str("\" and certificate leaf = H\"");
    text.push_str(to_lower_text(fingerprint).as_str());
    text.push_str("\"");
    text
}

/// The requirement on a broker, where the identifier and the certificate are
/// sound.
pub open spec fn broker_requirement(identifier: Seq<char>, fingerprint: Seq<char>) -> Result<
    Seq<char>,
    Seq<char>,
> {
    if fingerprint_valid(fingerprint) && identifier_valid(identifier) {
        Ok(pinned_requirement(identifier, fingerprint))
    } else {
        Err("Unpin broker certificate requirement is invalid"@)
    }
}

/// The requirement on a client: the command line or its desktop bridge, signed
/// with one certificate.
pub open spec fn client_requirement(fingerprint: Seq<char>) -> Result<Seq<char>, Seq<char>> {
    if fingerprint_valid(fingerprint) {
        Ok(
            "(identifier \"dev.unpin.cli\" or identifier \"dev.unpin.workbench.bridge\") and certificate leaf = H\""@
                + lower_text(fingerprint) + "\""@,
        )
    } else {
        Err("Unpin client certificate fingerprint is invalid"@)
    }
}

/// The requirement on a peer, from the fingerprint that the build holds.
pub open spec fn peer_requirement(kind: PeerKind, fingerprint: Option<Seq<char>>) -> Result<
    Seq<char>,
    Seq<char>,
> {
    match (kind, fingerprint) {
        (PeerKind::Broker, None) => Err(
            "Unpin was not built with a broker certificate fingerprint"@,
        ),
        (PeerKind::Broker, Some(text)) => broker_requirement(BROKER_CODE_IDENTIFIER@, text),
        (PeerKind::Client, None) => Err(
            "credential broker was not built with an Unpin client certificate"@,
        ),
        (PeerKind::Client, Some(text)) => client_requirement(text),
    }
}

/// The code requirement of a broker.
pub fn code_requirement(identifier: &str, fingerprint: &str) -> (r: Result<String, String>)
    ensures
        outcome(r) == broker_requirement(identifier@, fingerprint@),
{
    let marks: [char; 2] = ['.', '-'];
    assert forall|c: char| marks@.contains(c) == (c == '.' || c == '-') by {
        assert(marks@[0] == '.' && marks@[1] == '-');
    }
    if !is_fingerprint(fingerprint) || identifier.is_empty() || !is_plain_name(
        identifier,
        marks.as_slice(),
    ) {
        return Err("Unpin broker certificate requirement is invalid".to_owned());
    }
    Ok(requirement_text(identifier, fingerprint))
}

/// The code requirement of a client: the command line or its desktop bridge,
/// signed with one certificate.
pub fn client_code_requirement(fingerprint: &str) -> (r: Result<String, String>)
    ensures
        outcome(r) == client_requirement(fingerprint@),
{
    if !is_fingerprint(fingerprint) {
        return Err("Unpin client certificate fingerprint is invalid".to_owned());
    }
    let mut text =
        "(identifier \"dev.unpin.cli\" or identifier \"dev.unpin.workbench.bridge\") and certificate leaf = H\"".to_owned();
    text.push_str(to_lower_text(fingerprint).as_str());
    text.push_str("\"");
    Ok(text)
}

/// The requirement against which the signature of a broker executable is
/// checked, given the fingerprint that the build holds.
pub fn verify_broker_code_signature(fingerprint: Option<&str>) -> (r: Result<String, String>)
    ensures
        outcome(r) == (match fingerprint {
            None => Err("Unpin was not built with a broker certificate fingerprint"@),
            Some(text) => if fingerprint_valid(text@) {
                Ok(pinned_requirement(BROKER_CODE_IDENTIFIER@, text@))
            } else {
                Err("Unpin broker certificate fingerprint is invalid"@)
            },
        }),
{
    match fingerprint {
        None => Err("Unpin was not built with a broker certificate fingerprint".to_owned()),
        Some(text) => {
            if !is_fingerprint(text) {
                return Err("Unpin broker certificate fingerprint is invalid".to_owned());
            }
            Ok(requirement_text(BROKER_CODE_IDENTIFIER, text))
        },
    }
}

/// The verdict of the signing tool.
pub fn judge_code_signature(checked: Result<bool, String>) -> (r: Result<(), String>)
    ensures
        outcome(r) == (match checked {
            Ok(true) => Ok(()),
            Ok(false) => Err("credential broker has an invalid Unpin code signature"@),
            Err(error) => Err("credential broker signature could not be checked: "@ + error@),
        }),
{
    match checked {
        Ok(true) => Ok(()),
        Ok(false) => Err("credential broker has an invalid Unpin code signature".to_owned()),
        Err(error) => Err(
            joined("credential broker signature could not be checked: ", error.as_str()),
        ),
    }
}

/// The two roles in which a peer is authenticated.
#[derive(Clone, Copy, PartialEq, Eq, Structural)]
pub enum PeerKind {
    Broker,
    Client,
}

impl PeerKind {
    /// How the peer is named in an error.
    pub fn description(self) -> (text: &'static str)
        ensures
            text@ == if self is Broker {
                "credential broker"@
            } else {
                "credential broker client"@
            },
    {
        match self {
            PeerKind::Broker => "credential broker",
            PeerKind::Client => "credential broker client",
        }
    }

    /// The code requirement of the peer, given the fingerprint that the build
    /// holds.
    pub fn requirement(self, fingerprint: Option<&str>) -> (r: Result<String, String>)
        ensures
            outcome(r) == peer_requirement(
                self,
                match fingerprint {
                    Some(text) => Some(text@),
                    None => None,
                },
            ),
    {
        match (self, fingerprint) {
            (PeerKind::Broker, None) => Err(
                "Unpin was not built with a broker certificate fingerprint".to_owned(),
            ),
            (PeerKind::Broker, Some(text)) => code_requirement(BROKER_CODE_IDENTIFIER, text),
            (PeerKind::Client, None) => Err(
                "credential broker was not built with an Unpin client certificate".to_owned(),
            ),
            (PeerKind::Client, Some(text)) => client_code_requirement(text),
        }
    }

    pub fn socket_error(self) -> (text: &'static str)
        ensures
            text@ == if self is Broker {
                "Unpin could not authenticate the credential broker socket"@
            } else {
                "credential broker could not authenticate client socket"@
            },
    {
        match self {
            PeerKind::Broker => "Unpin could not authenticate the credential broker socket",
            PeerKind::Client => "credential broker could not authenticate client socket",
        }
    }

    pub fn attributes_description(self) -> (text: &'static str)
        ensures
            text@ == if self is Broker {
                "peer attributes"@
            } else {
                "client attributes"@
            },
    {
        match self {
            PeerKind::Broker => "peer attributes",
            PeerKind::Client => "client attributes",
        }
    }

    pub fn requirement_description(self) -> (text: &'static str)
        ensures
            text@ == if self is Broker {
                "peer requirement"@
            } else {
                "client requirement"@
            },
    {
        match self {
            PeerKind::Broker => "peer requirement",
            PeerKind::Client => "client requirement",
        }
    }

    pub fn requirement_error(self) -> (text: &'static str)
        ensures
            text@ == if self is Broker {
                "credential broker requirement is invalid"@
            } else {
                "credential broker client requirement is invalid"@
            },
    {
        match self {
            PeerKind::Broker => "credential broker requirement is invalid",
            PeerKind::Client => "credential broker client requirement is invalid",
        }
    }

    pub fn identity_error(self) -> (text: &'static str)
        ensures
            text@ == if self is Broker {
                "credential broker identity is unavailable"@
            } else {
                "credential broker client identity is unavailable"@
            },
    {
        match self {
            PeerKind::Broker => "credential broker identity is unavailable",
            PeerKind::Client => "credential broker client identity is unavailable",
        }
    }

    pub fn identity_description(self) -> (text: &'static str)
        ensures
            text@ == if self is Broker {
                "peer identity"@
            } else {
                "client identity"@
            },
    {
        match self {
            PeerKind::Broker => "peer identity",
            PeerKind::Client => "client identity",
        }
    }

    pub fn signature_error(self) -> (text: &'static str)
        ensures
            text@ == if self is Broker {
                "Unpin rejected the credential broker code signature"@
            } else {
                "credential broker rejected client code signature"@
            },
    {
        match self {
            PeerKind::Broker => "Unpin rejected the credential broker code signature",
            PeerKind::Client => "credential broker rejected client code signature",
        }
    }
}

/// Whether a peer on the socket is the same user: `peer` is its user id, where
/// the system could tell it.
pub fn authorize_same_user(peer: Option<u32>, effective_uid: u32, description: &str) -> (r: Result<
    (),
    String,
>)
    ensures
        outcome(r) == (match peer {
            None => Err(description@ + " socket peer credentials are unavailable"@),
            Some(uid) => if uid == effective_uid {
                Ok(())
            } else {
                Err(description@ + " socket peer owner is invalid"@)
            },
        }),
{
    match peer {
        None => Err(joined(description, " socket peer credentials are unavailable")),
        Some(uid) => {
            if uid != effective_uid {
                Err(joined(description, " socket peer owner is invalid"))
            } else {
                Ok(())
            }
        },
    }
}

} // verus!
