//! Installing the broker executable under the state root, and preparing its
//! directories: the order of the steps, what ends them, and what the files and
//! directories on the way must be.
use vstd::prelude::*;

use crate::broker::{owned_directory, FileMetadata, FileStatus};
use crate::text::{joined, outcome, same_text};

verus! {

/// The steps of an installation, in the order in which they may come.
#[derive(Clone, Copy, PartialEq, Eq, Structural)]
pub enum InstallStage {
    /// Create and check the directories of the installation.
    EnsureDirectory,
    /// Look for an installed executable.
    FindInstalled,
    ValidateInstalled,
    VerifyInstalled,
    /// Look for the executable that came with the command line.
    FindCandidate,
    ValidateCandidate,
    VerifyCandidate,
    /// Draw the name of the temporary file.
    DrawSuffix,
    /// Copy the candidate to the temporary file.
    CopyTemporary,
    VerifyTemporary,
    /// Link the temporary file to its final name.
    Link,
    /// Another process linked first: check what it linked.
    ValidateLinked,
    VerifyLinked,
    SyncDirectory,
    /// Remove the temporary file.
    CleanUp,
    /// Compare the owner of the installed file with that of the state root.
    CompareOwners,
}

/// What came of a step.
pub enum InstallEvent {
    Done,
    /// The file that was looked for is not there.
    Missing,
    /// The name to link to is taken.
    Taken,
    Owners { installed: u32, root: u32 },
    Failed(String),
}

/// What to do next.
pub enum InstallStep {
    Continue(InstallStage),
    Installed,
    Fail(String),
    /// Remove the temporary file, whatever comes of that, and fail.
    CleanUpThenFail(String),
}

/// What to do next, as a mathematical value.
pub enum InstallStepView {
    Continue(InstallStage),
    Installed,
    Fail(Seq<char>),
    CleanUpThenFail(Seq<char>),
}

impl View for InstallStep {
    type V = InstallStepView;

    open spec fn view(&self) -> InstallStepView {
        match self {
            InstallStep::Continue(stage) => InstallStepView::Continue(*stage),
            InstallStep::Installed => InstallStepView::Installed,
            InstallStep::Fail(error) => InstallStepView::Fail(error@),
            InstallStep::CleanUpThenFail(error) => InstallStepView::CleanUpThenFail(error@),
        }
    }
}

/// Whether a temporary file may exist while the step runs.
pub open spec fn holds_temporary(stage: InstallStage) -> bool {
    match stage {
        InstallStage::CopyTemporary | InstallStage::VerifyTemporary | InstallStage::Link
        | InstallStage::ValidateLinked | InstallStage::VerifyLinked | InstallStage::SyncDirectory => true,
        _ => false,
    }
}

/// What follows a step that did not fail. An event that does not answer its step
/// leaves it open.
pub open spec fn after_success(stage: InstallStage, event: InstallEvent) -> InstallStepView {
    match (stage, event) {
        (InstallStage::EnsureDirectory, InstallEvent::Done) => InstallStepView::Continue(
            InstallStage::FindInstalled,
        ),
        (InstallStage::FindInstalled, InstallEvent::Done) => InstallStepView::Continue(
            InstallStage::ValidateInstalled,
        ),
        (InstallStage::FindInstalled, InstallEvent::Missing) => InstallStepView::Continue(
            InstallStage::FindCandidate,
        ),
        (InstallStage::ValidateInstalled, InstallEvent::Done) => InstallStepView::Continue(
            InstallStage::VerifyInstalled,
        ),
        (InstallStage::VerifyInstalled, InstallEvent::Done) => InstallStepView::Installed,
        (InstallStage::FindCandidate, InstallEvent::Done) => InstallStepView::Continue(
            InstallStage::ValidateCandidate,
        ),
        (InstallStage::FindCandidate, InstallEvent::Missing) => InstallStepView::Fail(
            "credential broker companion is missing; reinstall unpin and unpin-credential-broker together"@,
        ),
        (InstallStage::ValidateCandidate, InstallEvent::Done) => InstallStepView::Continue(
            InstallStage::VerifyCandidate,
        ),
        (InstallStage::VerifyCandidate, InstallEvent::Done) => InstallStepView::Continue(
            InstallStage::DrawSuffix,
        ),
        (InstallStage::DrawSuffix, InstallEvent::Done) => InstallStepView::Continue(
            InstallStage::CopyTemporary,
        ),
        (InstallStage::CopyTemporary, InstallEvent::Done) => InstallStepView::Continue(
            InstallStage::VerifyTemporary,
        ),
        (InstallStage::VerifyTemporary, InstallEvent::Done) => InstallStepView::Continue(
            InstallStage::Link,
        ),
        (InstallStage::Link, InstallEvent::Done) => InstallStepView::Continue(
            InstallStage::SyncDirectory,
        ),
        (InstallStage::Link, InstallEvent::Taken) => InstallStepView::Continue(
            InstallStage::ValidateLinked,
        ),
        (InstallStage::ValidateLinked, InstallEvent::Done) => InstallStepView::Continue(
            InstallStage::VerifyLinked,
        ),
        (InstallStage::VerifyLinked, InstallEvent::Done) => InstallStepView::Continue(
            InstallStage::SyncDirectory,
        ),
        (InstallStage::SyncDirectory, InstallEvent::Done) => InstallStepView::Continue(
            InstallStage::CleanUp,
        ),
        (InstallStage::CleanUp, InstallEvent::Done) => InstallStepView::Continue(
            InstallStage::CompareOwners,
        ),
        (InstallStage::CompareOwners, InstallEvent::Owners { installed, root }) => if installed
            == root {
            InstallStepView::Installed
        } else {
            InstallStepView::Fail("installed credential broker owner is invalid"@)
        },
        (_, _) => InstallStepView::Continue(stage),
    }
}

/// What follows a step.
pub open spec fn install_next(stage: InstallStage, event: InstallEvent) -> InstallStepView {
    match event {
        InstallEvent::Failed(error) => if holds_temporary(stage) {
            InstallStepView::CleanUpThenFail(error@)
        } else if stage is CleanUp {
            InstallStepView::Fail("stable broker temporary file cleanup failed: "@ + error@)
        } else {
            InstallStepView::Fail(error@)
        },
        _ => after_success(stage, event),
    }
}

/// Decides the step after the given one. An installation starts with
/// `EnsureDirectory`.
pub fn install_stable_broker_from(stage: InstallStage, event: InstallEvent) -> (step: InstallStep)
    ensures
        step@ == install_next(stage, event),
{
    if let InstallEvent::Failed(error) = event {
        return match stage {
            InstallStage::CopyTemporary | InstallStage::VerifyTemporary | InstallStage::Link
            | InstallStage::ValidateLinked | InstallStage::VerifyLinked
            | InstallStage::SyncDirectory => InstallStep::CleanUpThenFail(error),
            InstallStage::CleanUp => InstallStep::Fail(
                joined("stable broker temporary file cleanup failed: ", error.as_str()),
            ),
            _ => InstallStep::Fail(error),
        };
    }
    match (stage, event) {
        (InstallStage::EnsureDirectory, InstallEvent::Done) => InstallStep::Continue(
            InstallStage::FindInstalled,
        ),
        (InstallStage::FindInstalled, InstallEvent::Done) => InstallStep::Continue(
            InstallStage::ValidateInstalled,
        ),
        (InstallStage::FindInstalled, InstallEvent::Missing) => InstallStep::Continue(
            InstallStage::FindCandidate,
        ),
        (InstallStage::ValidateInstalled, InstallEvent::Done) => InstallStep::Continue(
            InstallStage::VerifyInstalled,
        ),
        (InstallStage::VerifyInstalled, InstallEvent::Done) => InstallStep::Installed,
        (InstallStage::FindCandidate, InstallEvent::Done) => InstallStep::Continue(
            InstallStage::ValidateCandidate,
        ),
        (InstallStage::FindCandidate, InstallEvent::Missing) => InstallStep::Fail(
            "credential broker companion is missing; reinstall unpin and unpin-credential-broker together".to_owned(),
        ),
        (InstallStage::ValidateCandidate, InstallEvent::Done) => InstallStep::Continue(
            InstallStage::VerifyCandidate,
        ),
        (InstallStage::VerifyCandidate, InstallEvent::Done) => InstallStep::Continue(
            InstallStage::DrawSuffix,
        ),
        (InstallStage::DrawSuffix, InstallEvent::Done) => InstallStep::Continue(
            InstallStage::CopyTemporary,
        ),
        (InstallStage::CopyTemporary, InstallEvent::Done) => InstallStep::Continue(
            InstallStage::VerifyTemporary,
        ),
        (InstallStage::VerifyTemporary, InstallEvent::Done) => InstallStep::Continue(
            InstallStage::Link,
        ),
        (InstallStage::Link, InstallEvent::Done) => InstallStep::Continue(
            InstallStage::SyncDirectory,
        ),
        (InstallStage::Link, InstallEvent::Taken) => InstallStep::Continue(
            InstallStage::ValidateLinked,
        ),
        (InstallStage::ValidateLinked, InstallEvent::Done) => InstallStep::Continue(
            InstallStage::VerifyLinked,
        ),
        (InstallStage::VerifyLinked, InstallEvent::Done) => InstallStep::Continue(
            InstallStage::SyncDirectory,
        ),
        (InstallStage::SyncDirectory, InstallEvent::Done) => InstallStep::Continue(
            InstallStage::CleanUp,
        ),
        (InstallStage::CleanUp, InstallEvent::Done) => InstallStep::Continue(
            InstallStage::CompareOwners,
        ),
        (InstallStage::CompareOwners, InstallEvent::Owners { installed, root }) => {
            if installed == root {
                InstallStep::Installed
            } else {
                InstallStep::Fail("installed credential broker owner is invalid".to_owned())
            }
        },
        (_, _) => InstallStep::Continue(stage),
    }
}

/// An installation after a list of events, and whether a signature of the file
/// under the final name, or of the temporary file linked to it, was verified.
pub open spec fn install_run(events: Seq<InstallEvent>) -> (InstallStepView, bool)
    decreases events.len(),
{
    if events.len() == 0 {
        (InstallStepView::Continue(InstallStage::EnsureDirectory), false)
    } else {
        let (step, verified) = install_run(events.drop_last());
        let event = events.last();
        match step {
            InstallStepView::Continue(stage) => {
                let checks = stage is VerifyInstalled || stage is VerifyTemporary
                    || stage is VerifyLinked;
                let forgets = stage is Link && event is Taken;
                (
                    install_next(stage, event),
                    if forgets {
                        false
                    } else {
                        verified || (checks && event is Done)
                    },
                )
            },
            _ => (step, verified),
        }
    }
}

proof fn lemma_run_stage(events: Seq<InstallEvent>)
    ensures
        install_run(events).0 is Installed ==> install_run(events).1,
        install_run(events).0 matches InstallStepView::Continue(stage) ==> (match stage {
            InstallStage::Link | InstallStage::SyncDirectory | InstallStage::CleanUp
            | InstallStage::CompareOwners => install_run(events).1,
            _ => true,
        }),
    decreases events.len(),
{
    if events.len() > 0 {
        lemma_run_stage(events.drop_last());
    }
}

/// Whatever happens on the way, an installation that succeeds ends with an
/// executable whose signature was verified.
pub proof fn law_installed_means_verified(events: Seq<InstallEvent>)
    requires
        install_run(events).0 is Installed,
    ensures
        install_run(events).1,
{
    lemma_run_stage(events);
}

/// An executable is installed once: after a run has found one, no step of it
/// writes a file, whatever comes of the others. What was found is checked, and
/// stays.
pub proof fn law_installed_executable_stays(events: Seq<InstallEvent>, found: int)
    requires
        0 <= found < events.len(),
        install_run(events.take(found)).0 == InstallStepView::Continue(InstallStage::FindInstalled),
        events[found] is Done,
    ensures
        match install_run(events).0 {
            InstallStepView::Continue(stage) => (stage is ValidateInstalled
                || stage is VerifyInstalled) && !holds_temporary(stage),
            InstallStepView::CleanUpThenFail(_) => false,
            _ => true,
        },
    decreases events.len(),
{
    if found == events.len() - 1 {
        assert(events.drop_last() =~= events.take(found));
    } else {
        assert(events.drop_last().take(found) =~= events.take(found));
        assert(events.drop_last()[found] == events[found]);
        law_installed_executable_stays(events.drop_last(), found);
    }
}

/// A failed step never leaves the temporary file behind: it is removed first.
pub proof fn law_failure_removes_temporary(stage: InstallStage, event: InstallEvent)
    requires
        event is Failed,
        holds_temporary(stage),
    ensures
        install_next(stage, event) is CleanUpThenFail,
{
}

/// Checks that a broker file is a regular file.
pub fn validate_regular_broker_file(status: &FileStatus) -> (r: Result<(), String>)
    ensures
        outcome(r) == (match status {
            FileStatus::Missing(error) | FileStatus::Failed(error) => Err(error@),
            FileStatus::Present(metadata) => if metadata.symlink || !metadata.regular {
                Err("credential broker must be a regular file"@)
            } else {
                Ok(())
            },
        }),
{
    match status {
        FileStatus::Missing(error) | FileStatus::Failed(error) => Err(error.clone()),
        FileStatus::Present(metadata) => {
            if metadata.symlink || !metadata.regular {
                Err("credential broker must be a regular file".to_owned())
            } else {
                Ok(())
            }
        },
    }
}

/// The name of the temporary file of an installation.
pub fn temporary_name(suffix: &str) -> (name: String)
    ensures
        name@ == ".broker-install-"@ + suffix@,
{
    joined(".broker-install-", suffix)
}

/// The directories that the broker needs below its state root, or beside it.
#[derive(Clone, Copy, PartialEq, Eq, Structural)]
pub enum DirectoryPurpose {
    /// The two nested directories of the installed executable.
    Installation,
    /// The one directory of the socket.
    Socket,
}

/// How many directories a purpose asks for.
pub open spec fn directory_count(purpose: DirectoryPurpose) -> u8 {
    match purpose {
        DirectoryPurpose::Installation => 2,
        DirectoryPurpose::Socket => 1,
    }
}

/// What is said of a directory that is a link, no directory, or someone else's.
pub open spec fn directory_complaint(purpose: DirectoryPurpose) -> Seq<char> {
    match purpose {
        DirectoryPurpose::Installation => "credential broker installation directory is invalid"@,
        DirectoryPurpose::Socket => "credential broker directory must be a regular directory"@,
    }
}

/// What is said of a directory that is a link, no directory, or someone else's:
/// each has its own words.
pub proof fn law_words_of_directory_complaint(purpose: DirectoryPurpose)
    ensures
        purpose is Installation ==> directory_complaint(purpose)
            == "credential broker installation directory is invalid"@,
        purpose is Socket ==> directory_complaint(purpose)
            == "credential broker directory must be a regular directory"@,
{
}

/// The steps on the way to a sound directory, in the order in which they come.
#[derive(Clone, Copy, PartialEq, Eq, Structural)]
pub enum DirectoryStage {
    /// Create the state root, with its parents.
    CreateRoot,
    /// Look at the state root.
    InspectRoot,
    /// Create one directory; one that exists already is as good.
    Create { index: u8 },
    /// Look at that directory, links not followed.
    Inspect { index: u8 },
    /// Close it to everyone else.
    Restrict { index: u8 },
}

/// What came of a step.
pub enum DirectoryEvent {
    Done,
    Found(FileMetadata),
    Failed(String),
}

/// What to do next.
pub enum DirectoryStep {
    Continue(DirectoryStage),
    Ready,
    Fail(String),
}

/// What to do next, as a mathematical value.
pub enum DirectoryStepView {
    Continue(DirectoryStage),
    Ready,
    Fail(Seq<char>),
}

impl View for DirectoryStep {
    type V = DirectoryStepView;

    open spec fn view(&self) -> DirectoryStepView {
        match self {
            DirectoryStep::Continue(stage) => DirectoryStepView::Continue(*stage),
            DirectoryStep::Ready => DirectoryStepView::Ready,
            DirectoryStep::Fail(error) => DirectoryStepView::Fail(error@),
        }
    }
}

/// What follows a step. An event that does not answer its step leaves it open.
pub open spec fn directory_next(
    purpose: DirectoryPurpose,
    uid: u32,
    stage: DirectoryStage,
    event: DirectoryEvent,
) -> DirectoryStepView {
    match (stage, event) {
        (_, DirectoryEvent::Failed(error)) => DirectoryStepView::Fail(error@),
        (DirectoryStage::CreateRoot, DirectoryEvent::Done) => DirectoryStepView::Continue(
            DirectoryStage::InspectRoot,
        ),
        (DirectoryStage::InspectRoot, DirectoryEvent::Found(metadata)) => if owned_directory(
            metadata,
            uid,
        ) {
            DirectoryStepView::Continue(DirectoryStage::Create { index: 0 })
        } else {
            DirectoryStepView::Fail("credential broker app state root must be a regular directory"@)
        },
        (DirectoryStage::Create { index }, DirectoryEvent::Done) => DirectoryStepView::Continue(
            DirectoryStage::Inspect { index },
        ),
        (DirectoryStage::Inspect { index }, DirectoryEvent::Found(metadata)) => if owned_directory(
            metadata,
            uid,
        ) {
            DirectoryStepView::Continue(DirectoryStage::Restrict { index })
        } else {
            DirectoryStepView::Fail(directory_complaint(purpose))
        },
        (DirectoryStage::Restrict { index }, DirectoryEvent::Done) => if index + 1 < directory_count(
            purpose,
        ) {
            DirectoryStepView::Continue(DirectoryStage::Create { index: (index + 1) as u8 })
        } else {
            DirectoryStepView::Ready
        },
        (_, _) => DirectoryStepView::Continue(stage),
    }
}

fn directory_step(
    purpose: DirectoryPurpose,
    effective_uid: u32,
    stage: DirectoryStage,
    event: DirectoryEvent,
) -> (step: DirectoryStep)
    ensures
        step@ == directory_next(purpose, effective_uid, stage, event),
{
    let found = match event {
        DirectoryEvent::Failed(error) => return DirectoryStep::Fail(error),
        DirectoryEvent::Found(metadata) => Some(
            !metadata.symlink && metadata.directory && metadata.uid == effective_uid,
        ),
        DirectoryEvent::Done => None,
    };
    match stage {
        DirectoryStage::CreateRoot => match found {
            None => DirectoryStep::Continue(DirectoryStage::InspectRoot),
            Some(_) => DirectoryStep::Continue(stage),
        },
        DirectoryStage::InspectRoot => match found {
            Some(true) => DirectoryStep::Continue(DirectoryStage::Create { index: 0 }),
            Some(false) => DirectoryStep::Fail(
                "credential broker app state root must be a regular directory".to_owned(),
            ),
            None => DirectoryStep::Continue(stage),
        },
        DirectoryStage::Create { index } => match found {
            None => DirectoryStep::Continue(DirectoryStage::Inspect { index }),
            Some(_) => DirectoryStep::Continue(stage),
        },
        DirectoryStage::Inspect { index } => match found {
            Some(true) => DirectoryStep::Continue(DirectoryStage::Restrict { index }),
            Some(false) => match purpose {
                DirectoryPurpose::Installation => DirectoryStep::Fail(
                    "credential broker installation directory is invalid".to_owned(),
                ),
                DirectoryPurpose::Socket => DirectoryStep::Fail(
                    "credential broker directory must be a regular directory".to_owned(),
                ),
            },
            None => DirectoryStep::Continue(stage),
        },
        DirectoryStage::Restrict { index } => match (found, purpose) {
            (Some(_), _) => DirectoryStep::Continue(stage),
            (None, DirectoryPurpose::Installation) => {
                if index < 1 {
                    DirectoryStep::Continue(DirectoryStage::Create { index: index + 1 })
                } else {
                    DirectoryStep::Ready
                }
            },
            (None, DirectoryPurpose::Socket) => DirectoryStep::Ready,
        },
    }
}

/// Decides the step after the given one on the way to the directories of an
/// installation. The way starts with `CreateRoot`.
pub fn ensure_stable_broker_directory(
    effective_uid: u32,
    stage: DirectoryStage,
    event: DirectoryEvent,
) -> (step: DirectoryStep)
    ensures
        step@ == directory_next(DirectoryPurpose::Installation, effective_uid, stage, event),
{
    directory_step(DirectoryPurpose::Installation, effective_uid, stage, event)
}

/// Decides the step after the given one on the way to the directory of the
/// socket. The way starts with `CreateRoot`.
pub fn ensure_socket_directory(
    effective_uid: u32,
    stage: DirectoryStage,
    event: DirectoryEvent,
) -> (step: DirectoryStep)
    ensures
        step@ == directory_next(DirectoryPurpose::Socket, effective_uid, stage, event),
{
    directory_step(DirectoryPurpose::Socket, effective_uid, stage, event)
}

/// The way to the directories after a list of events, and what was seen of the
/// state root and of each directory.
pub open spec fn directory_run(
    purpose: DirectoryPurpose,
    uid: u32,
    events: Seq<DirectoryEvent>,
) -> (DirectoryStepView, Seq<FileMetadata>)
    decreases events.len(),
{
    if events.len() == 0 {
        (DirectoryStepView::Continue(DirectoryStage::CreateRoot), seq![])
    } else {
        let (step, seen) = directory_run(purpose, uid, events.drop_last());
        let event = events.last();
        match step {
            DirectoryStepView::Continue(stage) => {
                let looked = stage is InspectRoot || stage is Inspect;
                (
                    directory_next(purpose, uid, stage, event),
                    match event {
                        DirectoryEvent::Found(metadata) => if looked {
                            seen.push(metadata)
                        } else {
                            seen
                        },
                        _ => seen,
                    },
                )
            },
            _ => (step, seen),
        }
    }
}

/// How many directories have been seen when a stage begins.
spec fn seen_before(stage: DirectoryStage) -> int {
    match stage {
        DirectoryStage::CreateRoot | DirectoryStage::InspectRoot => 0,
        DirectoryStage::Create { index } | DirectoryStage::Inspect { index } => 1 + index,
        DirectoryStage::Restrict { index } => 2 + index,
    }
}

/// Directories are ready only once the state root and every one of them was
/// seen to be a directory of the user's, and no link.
pub proof fn law_ready_directories_are_owned(
    purpose: DirectoryPurpose,
    uid: u32,
    events: Seq<DirectoryEvent>,
)
    ensures
        directory_run(purpose, uid, events).0 is Ready ==> ({
            let seen = directory_run(purpose, uid, events).1;
            &&& seen.len() == 1 + directory_count(purpose)
            &&& forall|i: int| 0 <= i < seen.len() ==> owned_directory(#[trigger] seen[i], uid)
        }),
{
    lemma_directory_run(purpose, uid, events);
}

proof fn lemma_directory_run(purpose: DirectoryPurpose, uid: u32, events: Seq<DirectoryEvent>)
    ensures
        ({
            let (step, seen) = directory_run(purpose, uid, events);
            match step {
                DirectoryStepView::Continue(stage) => {
                    &&& seen.len() == seen_before(stage)
                    &&& seen.len() <= 1 + directory_count(purpose)
                    &&& (stage is Create || stage is Inspect ==> seen.len() <= directory_count(
                        purpose,
                    ))
                    &&& forall|i: int|
                        0 <= i < seen.len() ==> owned_directory(#[trigger] seen[i], uid)
                },
                DirectoryStepView::Ready => {
                    &&& seen.len() == 1 + directory_count(purpose)
                    &&& forall|i: int|
                        0 <= i < seen.len() ==> owned_directory(#[trigger] seen[i], uid)
                },
                DirectoryStepView::Fail(_) => true,
            }
        }),
    decreases events.len(),
{
    if events.len() > 0 {
        lemma_directory_run(purpose, uid, events.drop_last());
    }
}

/// What the broker's own command line asks for.
#[derive(Debug, PartialEq, Eq)]
pub enum BrokerCommand {
    Version,
    Help,
    Serve { app_state_root: String },
    /// Print the message and exit with code 2.
    Usage { message: &'static str },
}

/// What a list of arguments asks for.
pub open spec fn broker_command(arguments: Seq<String>, command: BrokerCommand) -> bool {
    let usage = "usage: unpin-credential-broker --app-state-root PATH"@;
    if arguments.len() == 0 {
        command matches BrokerCommand::Usage { message } && message@ == usage
    } else if arguments[0]@ == "--version"@ && arguments.len() == 1 {
        command is Version
    } else if (arguments[0]@ == "--help"@ || arguments[0]@ == "-h"@) && arguments.len() == 1 {
        command is Help
    } else if arguments[0]@ != "--app-state-root"@ {
        command matches BrokerCommand::Usage { message } && message@ == usage
    } else if arguments.len() == 1 {
        command matches BrokerCommand::Usage { message } && message@
            == "credential broker app state root is missing"@
    } else if arguments.len() > 2 {
        command matches BrokerCommand::Usage { message } && message@
            == "credential broker received unexpected arguments"@
    } else {
        command matches BrokerCommand::Serve { app_state_root } && app_state_root@ == arguments[1]@
    }
}

/// Reads the broker's command line, without the program's own name.
pub fn parse_broker_arguments(arguments: &Vec<String>) -> (command: BrokerCommand)
    ensures
        broker_command(arguments@, command),
{
    let usage = "usage: unpin-credential-broker --app-state-root PATH";
    if arguments.len() == 0 {
        return BrokerCommand::Usage { message: usage };
    }
    let first = arguments[0].as_str();
    if same_text(first, "--version") && arguments.len() == 1 {
        BrokerCommand::Version
    } else if (same_text(first, "--help") || same_text(first, "-h"))
        && arguments.len() == 1 {
        BrokerCommand::Help
    } else if !same_text(first, "--app-state-root") {
        BrokerCommand::Usage { message: usage }
    } else if arguments.len() == 1 {
        BrokerCommand::Usage { message: "credential broker app state root is missing" }
    } else if arguments.len() > 2 {
        BrokerCommand::Usage { message: "credential broker received unexpected arguments" }
    } else {
        BrokerCommand::Serve { app_state_root: arguments[1].clone() }
    }
}

} // verus!
