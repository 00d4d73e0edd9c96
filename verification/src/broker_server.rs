//! The server end of the credential broker: how it comes to its socket, which
//! clients it takes, when it stops, and what it answers.
use vstd::prelude::*;

use crate::broker_protocol::{
    decoded_request, encoded_response, read_request, write_response, BrokerRequest, BrokerResponse,
    ByteReader, RequestView, ResponseView,
};
use crate::secret_store::{
    same_but_slot, slot, with_slot, without_slot, SecretStore, Secrets, KEYCHAIN_SERVICE,
};

verus! {

pub const MAX_ACTIVE_CLIENTS: usize = 8;

pub const IDLE_TIMEOUT_MILLIS: u64 = 600000;

pub const CLIENT_TIMEOUT_MILLIS: u64 = 2000;

pub const ACCEPT_PAUSE_MILLIS: u64 = 20;

/// The steps of a server, in the order in which they may come.
#[derive(Clone, Copy, PartialEq, Eq, Structural)]
pub enum ListenStage {
    /// Prepare the directory of the socket.
    PrepareDirectory,
    Bind,
    /// The name is taken: see whether a server answers there.
    Connect,
    /// Nobody answers: remove what is left of the socket.
    RemoveStale,
    BindAgain,
    /// Close the socket to everyone else.
    Restrict,
    /// Serve clients until nobody has asked for a while.
    Serve,
}

/// What came of a step.
pub enum ListenEvent {
    Done,
    /// The name of the socket is in use, in the system's words.
    Taken(String),
    Failed(String),
}

/// What to do next.
pub enum ListenStep {
    Continue(ListenStage),
    /// Another server is there already: there is nothing to do.
    AlreadyServed,
    Fail(String),
    /// Remove the socket and its directory, whatever comes of that, and end
    /// with the result.
    Close(Result<(), String>),
}

/// What follows a step of a server, which starts with `PrepareDirectory`. A
/// socket is removed only after the attempt to reach its server has failed.
pub fn run(stage: ListenStage, event: ListenEvent) -> (step: ListenStep)
    ensures
        match (stage, event) {
            (ListenStage::PrepareDirectory, ListenEvent::Done) => step == ListenStep::Continue(
                ListenStage::Bind,
            ),
            (ListenStage::Bind, ListenEvent::Done) => step == ListenStep::Continue(
                ListenStage::Restrict,
            ),
            (ListenStage::Bind, ListenEvent::Taken(_)) => step == ListenStep::Continue(
                ListenStage::Connect,
            ),
            (ListenStage::Connect, ListenEvent::Done) => step is AlreadyServed,
            (ListenStage::Connect, _) => step == ListenStep::Continue(ListenStage::RemoveStale),
            (ListenStage::RemoveStale, ListenEvent::Done) => step == ListenStep::Continue(
                ListenStage::BindAgain,
            ),
            (ListenStage::BindAgain, ListenEvent::Done) => step == ListenStep::Continue(
                ListenStage::Restrict,
            ),
            (ListenStage::Restrict, ListenEvent::Done) => step == ListenStep::Continue(
                ListenStage::Serve,
            ),
            (ListenStage::Serve, ListenEvent::Done) => step == ListenStep::Close(Ok(())),
            (ListenStage::Serve, ListenEvent::Taken(error) | ListenEvent::Failed(error)) => step
                == ListenStep::Close(Err(error)),
            (_, ListenEvent::Taken(error) | ListenEvent::Failed(error)) => step == ListenStep::Fail(
                error,
            ),
        },
{
    match event {
        ListenEvent::Done => match stage {
            ListenStage::PrepareDirectory => ListenStep::Continue(ListenStage::Bind),
            ListenStage::Bind | ListenStage::BindAgain => ListenStep::Continue(
                ListenStage::Restrict,
            ),
            ListenStage::Connect => ListenStep::AlreadyServed,
            ListenStage::RemoveStale => ListenStep::Continue(ListenStage::BindAgain),
            ListenStage::Restrict => ListenStep::Continue(ListenStage::Serve),
            ListenStage::Serve => ListenStep::Close(Ok(())),
        },
        ListenEvent::Taken(error) => match stage {
            ListenStage::Bind => ListenStep::Continue(ListenStage::Connect),
            ListenStage::Connect => ListenStep::Continue(ListenStage::RemoveStale),
            ListenStage::Serve => ListenStep::Close(Err(error)),
            _ => ListenStep::Fail(error),
        },
        ListenEvent::Failed(error) => match stage {
            ListenStage::Connect => ListenStep::Continue(ListenStage::RemoveStale),
            ListenStage::Serve => ListenStep::Close(Err(error)),
            _ => ListenStep::Fail(error),
        },
    }
}

/// What came of looking for a client.
pub enum AcceptEvent {
    Client,
    /// Nobody has come; the last one came that long ago.
    Nobody { idle_millis: u64 },
    Failed(String),
}

/// What a server does next.
pub enum ServeStep {
    /// Serve the client beside the others.
    Admit,
    /// Close the connection: there are enough clients.
    TurnAway,
    /// Look again after a pause.
    Pause { millis: u64 },
    Stop,
    Fail(String),
}

/// What a server with that many clients does next. It serves no more than
/// `MAX_ACTIVE_CLIENTS` at a time, and stops once it was idle for long enough.
pub fn serve(active: usize, event: AcceptEvent) -> (step: ServeStep)
    ensures
        match event {
            AcceptEvent::Client => if active < MAX_ACTIVE_CLIENTS {
                step is Admit
            } else {
                step is TurnAway
            },
            AcceptEvent::Nobody { idle_millis } => if idle_millis >= IDLE_TIMEOUT_MILLIS {
                step is Stop
            } else {
                step == (ServeStep::Pause { millis: ACCEPT_PAUSE_MILLIS })
            },
            AcceptEvent::Failed(error) => step == ServeStep::Fail(error),
        },
{
    match event {
        AcceptEvent::Client => {
            if active < MAX_ACTIVE_CLIENTS {
                ServeStep::Admit
            } else {
                ServeStep::TurnAway
            }
        },
        AcceptEvent::Nobody { idle_millis } => {
            if idle_millis >= IDLE_TIMEOUT_MILLIS {
                ServeStep::Stop
            } else {
                ServeStep::Pause { millis: ACCEPT_PAUSE_MILLIS }
            }
        },
        AcceptEvent::Failed(error) => ServeStep::Fail(error),
    }
}

/// What a request does to the secrets of a store that carries it out.
pub open spec fn secrets_after(secrets: Secrets, request: RequestView) -> Secrets {
    match request {
        RequestView::Put { account, secret } => with_slot(secrets, account, secret),
        RequestView::Delete { account } => without_slot(secrets, account),
        _ => secrets,
    }
}

/// The reply to a request that a store carries out.
pub open spec fn reply_from(secrets: Secrets, request: RequestView) -> ResponseView {
    match request {
        RequestView::Ping => ResponseView::Success,
        RequestView::Get { account } => match slot(secrets, account) {
            Some(secret) => ResponseView::Value(secret),
            None => ResponseView::NotFound,
        },
        RequestView::Put { .. } => ResponseView::Success,
        RequestView::Delete { account } => if slot(secrets, account) is Some {
            ResponseView::Success
        } else {
            ResponseView::NotFound
        },
    }
}

/// What a request at which a store failed may have changed: at most the secret
/// that it was to write or remove.
pub open spec fn failed_request_leaves(
    before: Secrets,
    after: Secrets,
    request: RequestView,
) -> bool {
    match request {
        RequestView::Put { account, .. } | RequestView::Delete { account } => same_but_slot(
            before,
            after,
            account,
        ),
        _ => after == before,
    }
}

/// Whether a response answers a request, given what the store held before and
/// holds now: it is what the store holds, or the error at which it failed.
pub open spec fn request_answered(
    before: Secrets,
    after: Secrets,
    request: RequestView,
    response: ResponseView,
) -> bool {
    if response is Error {
        !(request is Ping) && failed_request_leaves(before, after, request)
    } else {
        response == reply_from(before, request) && after == secrets_after(before, request)
    }
}

/// The response to what a store gave for a read.
pub fn answer_get(found: Result<Option<Vec<u8>>, String>) -> (response: BrokerResponse)
    ensures
        response@ == (match found {
            Ok(Some(secret)) => ResponseView::Value(secret@),
            Ok(None) => ResponseView::NotFound,
            Err(error) => ResponseView::Error(error@),
        }),
{
    match found {
        Ok(Some(secret)) => BrokerResponse::Value(secret),
        Ok(None) => BrokerResponse::NotFound,
        Err(error) => BrokerResponse::Error(error),
    }
}

/// The response to what came of a write.
pub fn answer_set(written: Result<(), String>) -> (response: BrokerResponse)
    ensures
        response@ == (match written {
            Ok(()) => ResponseView::Success,
            Err(error) => ResponseView::Error(error@),
        }),
{
    match written {
        Ok(()) => BrokerResponse::Success,
        Err(error) => BrokerResponse::Error(error),
    }
}

/// The response to what came of a removal.
pub fn answer_delete(removed: Result<bool, String>) -> (response: BrokerResponse)
    ensures
        response@ == (match removed {
            Ok(true) => ResponseView::Success,
            Ok(false) => ResponseView::NotFound,
            Err(error) => ResponseView::Error(error@),
        }),
{
    match removed {
        Ok(true) => BrokerResponse::Success,
        Ok(false) => BrokerResponse::NotFound,
        Err(error) => BrokerResponse::Error(error),
    }
}

/// Carries out one request on the store, and hands on what the store says.
pub fn answer_request<S: SecretStore>(store: &mut S, request: &BrokerRequest) -> (response:
    BrokerResponse)
    ensures
        request_answered(old(store).secrets(), final(store).secrets(), request@, response@),
        request@ is Put && !(response@ is Error) ==> final(store).writes() == old(store).writes()
            + 1,
        request@ is Put && response@ is Error ==> old(store).writes() <= final(store).writes()
            <= old(store).writes() + 1,
        !(request@ is Put) ==> final(store).writes() == old(store).writes(),
        old(store).answers() ==> !(response@ is Error),
        final(store).answers() == old(store).answers(),
{
    match request {
        BrokerRequest::Ping => BrokerResponse::Success,
        BrokerRequest::Get { account } => answer_get(store.get(KEYCHAIN_SERVICE, account.as_str())),
        BrokerRequest::Put { account, secret } => answer_set(
            store.set(KEYCHAIN_SERVICE, account.as_str(), secret.as_slice()),
        ),
        BrokerRequest::Delete { account } => answer_delete(
            store.delete(KEYCHAIN_SERVICE, account.as_str()),
        ),
    }
}

/// What came of writing a response: its frame follows what was written before,
/// or nothing is written and the error says why.
pub open spec fn response_written(
    before: Seq<u8>,
    after: Seq<u8>,
    response: ResponseView,
    r: Result<(), String>,
) -> bool {
    match encoded_response(response) {
        Ok(frame) => r is Ok && after == before + frame,
        Err(error) => r is Err && r->Err_0@ == error && after == before,
    }
}

/// Serves one client: nothing is read before the client was authorized, and
/// the store is touched only for a request that could be read.
pub fn serve_client<S: SecretStore>(
    authorized: Result<(), String>,
    input: &mut ByteReader,
    output: &mut Vec<u8>,
    store: &mut S,
) -> (r: Result<(), String>)
    ensures
        authorized is Err ==> r == authorized && final(input)@ == old(input)@ && final(output)@
            == old(output)@ && final(store).secrets() == old(store).secrets()
            && final(store).writes() == old(store).writes(),
        authorized is Ok ==> final(input)@ == decoded_request(old(input)@).1,
        authorized is Ok ==> match decoded_request(old(input)@).0 {
            Err(error) => r is Err && r->Err_0@ == error && final(output)@ == old(output)@
                && final(store).secrets() == old(store).secrets() && final(store).writes() == old(
                store,
            ).writes(),
            Ok(request) => {
                &&& !(request is Put) ==> final(store).writes() == old(store).writes()
                &&& old(store).writes() <= final(store).writes() <= old(store).writes() + 1
                &&& exists|response: ResponseView|
                    #[trigger] request_answered(
                        old(store).secrets(),
                        final(store).secrets(),
                        request,
                        response,
                    ) && response_written(old(output)@, final(output)@, response, r)
                &&& old(store).answers() ==> final(store).secrets() == secrets_after(
                    old(store).secrets(),
                    request,
                ) && response_written(
                    old(output)@,
                    final(output)@,
                    reply_from(old(store).secrets(), request),
                    r,
                )
            },
        },
{
    if let Err(error) = authorized {
        return Err(error);
    }
    match read_request(input) {
        Err(error) => Err(error),
        Ok(request) => {
            let response = answer_request(store, &request);
            write_response(output, &response)
        },
    }
}

/// The broker keeps what it is given: a read after a write gives the secret
/// that was written, a read after a removal gives none, and neither shows in
/// the secret of another account.
pub proof fn law_reads_see_writes(
    secrets: Secrets,
    account: Seq<char>,
    secret: Seq<u8>,
    other: Seq<char>,
)
    ensures
        reply_from(
            secrets_after(secrets, RequestView::Put { account, secret }),
            RequestView::Get { account },
        ) == ResponseView::Value(secret),
        reply_from(
            secrets_after(secrets, RequestView::Delete { account }),
            RequestView::Get { account },
        ) == ResponseView::NotFound,
        other != account ==> reply_from(
            secrets_after(secrets, RequestView::Put { account, secret }),
            RequestView::Get { account: other },
        ) == reply_from(secrets, RequestView::Get { account: other }),
        other != account ==> reply_from(
            secrets_after(secrets, RequestView::Delete { account }),
            RequestView::Get { account: other },
        ) == reply_from(secrets, RequestView::Get { account: other }),
{
}

} // verus!
