//! The wire protocol between the command line and its credential broker:
//! framed requests and responses, and the socket that carries them.
use vstd::prelude::*;
use vstd::utf8::*;

use crate::text::{
    byte_len, control_byte_free, decode_text, hex_of, is_control_byte_free, outcome, same_bytes,
    to_hex, utf8_len,
};

verus! {

pub const MAX_SECRET_BYTES: usize = 131072;

pub const MAX_ACCOUNT_BYTES: usize = 512;

pub const MAX_ERROR_BYTES: usize = 4096;

pub const REQUEST_HEADER_BYTES: usize = 15;

pub const RESPONSE_HEADER_BYTES: usize = 13;

pub const OP_PING: u8 = 0;

pub const OP_GET: u8 = 1;

pub const OP_SET: u8 = 2;

pub const OP_DELETE: u8 = 3;

pub const STATUS_SUCCESS: u8 = 0;

pub const STATUS_VALUE: u8 = 1;

pub const STATUS_NOT_FOUND: u8 = 2;

pub const STATUS_ERROR: u8 = 3;

/// What a client asks of the broker.
#[derive(PartialEq, Eq)]
pub enum BrokerRequest {
    Ping,
    Get { account: String },
    Put { account: String, secret: Vec<u8> },
    Delete { account: String },
}

/// What the broker answers.
#[derive(PartialEq, Eq)]
pub enum BrokerResponse {
    Success,
    Value(Vec<u8>),
    NotFound,
    Error(String),
}

/// A request as a mathematical value.
pub enum RequestView {
    Ping,
    Get { account: Seq<char> },
    Put { account: Seq<char>, secret: Seq<u8> },
    Delete { account: Seq<char> },
}

/// A response as a mathematical value.
pub enum ResponseView {
    Success,
    Value(Seq<u8>),
    NotFound,
    Error(Seq<char>),
}

impl View for BrokerRequest {
    type V = RequestView;

    open spec fn view(&self) -> RequestView {
        match self {
            BrokerRequest::Ping => RequestView::Ping,
            BrokerRequest::Get { account } => RequestView::Get { account: account@ },
            BrokerRequest::Put { account, secret } => RequestView::Put {
                account: account@,
                secret: secret@,
            },
            BrokerRequest::Delete { account } => RequestView::Delete { account: account@ },
        }
    }
}

impl View for BrokerResponse {
    type V = ResponseView;

    open spec fn view(&self) -> ResponseView {
        match self {
            BrokerResponse::Success => ResponseView::Success,
            BrokerResponse::Value(value) => ResponseView::Value(value@),
            BrokerResponse::NotFound => ResponseView::NotFound,
            BrokerResponse::Error(error) => ResponseView::Error(error@),
        }
    }
}

/// The eight bytes `UNPINCB1` that open every frame.
pub open spec fn magic() -> Seq<u8> {
    seq![0x55u8, 0x4e, 0x50, 0x49, 0x4e, 0x43, 0x42, 0x31]
}

/// Two bytes, most significant first.
pub open spec fn be16(n: nat) -> Seq<u8> {
    seq![(n / 256 % 256) as u8, (n % 256) as u8]
}

/// Four bytes, most significant first.
pub open spec fn be32(n: nat) -> Seq<u8> {
    seq![
        (n / 16777216 % 256) as u8,
        (n / 65536 % 256) as u8,
        (n / 256 % 256) as u8,
        (n % 256) as u8,
    ]
}

/// The number in two bytes from `at` on.
pub open spec fn be16_at(s: Seq<u8>, at: int) -> nat {
    (s[at] * 256 + s[at + 1]) as nat
}

/// The number in four bytes from `at` on.
pub open spec fn be32_at(s: Seq<u8>, at: int) -> nat {
    (s[at] * 16777216 + s[at + 1] * 65536 + s[at + 2] * 256 + s[at + 3]) as nat
}

/// What the broker takes for an account: a short text without control bytes.
pub open spec fn account_valid(account: Seq<char>) -> bool {
    &&& account.len() > 0
    &&& utf8_len(account) <= MAX_ACCOUNT_BYTES
    &&& control_byte_free(encode_utf8(account))
}

/// The operation byte, account and secret of a request.
pub open spec fn request_fields(request: RequestView) -> (u8, Seq<char>, Seq<u8>) {
    match request {
        RequestView::Ping => (OP_PING, seq![], seq![]),
        RequestView::Get { account } => (OP_GET, account, seq![]),
        RequestView::Put { account, secret } => (OP_SET, account, secret),
        RequestView::Delete { account } => (OP_DELETE, account, seq![]),
    }
}

/// The bytes of a request frame.
pub open spec fn request_frame(operation: u8, account: Seq<char>, secret: Seq<u8>) -> Seq<u8> {
    magic() + seq![operation] + be16(utf8_len(account)) + be32(secret.len()) + encode_utf8(account)
        + secret
}

/// The frame of a request, or why it has none.
pub open spec fn encoded_request(request: RequestView) -> Result<Seq<u8>, Seq<char>> {
    let (operation, account, secret) = request_fields(request);
    if operation != OP_PING && !account_valid(account) {
        Err("credential broker account is invalid"@)
    } else if secret.len() > MAX_SECRET_BYTES {
        Err("credential broker secret exceeds size limit"@)
    } else {
        Ok(request_frame(operation, account, secret))
    }
}

/// The status byte and payload of a response.
pub open spec fn response_fields(response: ResponseView) -> (u8, Seq<u8>) {
    match response {
        ResponseView::Success => (STATUS_SUCCESS, seq![]),
        ResponseView::Value(value) => (STATUS_VALUE, value),
        ResponseView::NotFound => (STATUS_NOT_FOUND, seq![]),
        ResponseView::Error(error) => (STATUS_ERROR, encode_utf8(error)),
    }
}

/// The bytes of a response frame.
pub open spec fn response_frame(status: u8, payload: Seq<u8>) -> Seq<u8> {
    magic() + seq![status] + be32(payload.len()) + payload
}

/// The frame of a response, or why it has none.
pub open spec fn encoded_response(response: ResponseView) -> Result<Seq<u8>, Seq<char>> {
    let (status, payload) = response_fields(response);
    if status == STATUS_VALUE && payload.len() > MAX_SECRET_BYTES {
        Err("credential broker response exceeds size limit"@)
    } else if status == STATUS_ERROR && payload.len() > MAX_ERROR_BYTES {
        Err("credential broker error exceeds size limit"@)
    } else {
        Ok(response_frame(status, payload))
    }
}

/// What is wrong with the header of a request, judged before its payload is
/// read.
pub open spec fn request_header_error(header: Seq<u8>) -> Option<Seq<char>> {
    let operation = header[8];
    let account_length = be16_at(header, 9);
    let secret_length = be32_at(header, 11);
    if header.take(8) != magic() {
        Some("credential broker protocol magic is invalid"@)
    } else if operation == OP_PING && (account_length != 0 || secret_length != 0) {
        Some("credential broker ping payload is invalid"@)
    } else if operation != OP_PING && (account_length == 0 || account_length > MAX_ACCOUNT_BYTES) {
        Some("credential broker account is invalid"@)
    } else if secret_length > MAX_SECRET_BYTES {
        Some("credential broker secret exceeds size limit"@)
    } else if operation != OP_SET && secret_length != 0 {
        Some("credential broker request payload is invalid"@)
    } else if operation > OP_DELETE {
        Some("credential broker operation is invalid"@)
    } else {
        None
    }
}

/// The error of a stream that ends inside a frame.
pub open spec fn short_read() -> Seq<char> {
    "failed to fill whole buffer"@
}

/// The account that a payload holds, or the error that it gives.
pub open spec fn decoded_account(operation: u8, bytes: Seq<u8>) -> Result<Seq<char>, Seq<char>> {
    if !valid_utf8(bytes) || (operation != OP_PING && !account_valid(decode_utf8(bytes))) {
        Err("credential broker account is invalid"@)
    } else {
        Ok(decode_utf8(bytes))
    }
}

/// The request that an operation byte stands for.
pub open spec fn request_of(operation: u8, account: Seq<char>, secret: Seq<u8>) -> RequestView {
    if operation == OP_PING {
        RequestView::Ping
    } else if operation == OP_GET {
        RequestView::Get { account }
    } else if operation == OP_SET {
        RequestView::Put { account, secret }
    } else {
        RequestView::Delete { account }
    }
}

/// The first request of a stream, and what of the stream is left after it.
pub open spec fn decoded_request(stream: Seq<u8>) -> (Result<RequestView, Seq<char>>, Seq<u8>) {
    if stream.len() < REQUEST_HEADER_BYTES {
        (Err(short_read()), seq![])
    } else {
        let header = stream.take(REQUEST_HEADER_BYTES as int);
        let payload = stream.skip(REQUEST_HEADER_BYTES as int);
        let account_length = be16_at(header, 9) as int;
        let secret_length = be32_at(header, 11) as int;
        if request_header_error(header) is Some {
            (Err(request_header_error(header)->0), payload)
        } else if payload.len() < account_length {
            (Err(short_read()), seq![])
        } else {
            let rest = payload.skip(account_length);
            match decoded_account(header[8], payload.take(account_length)) {
                Err(error) => (Err(error), rest),
                Ok(account) => if rest.len() < secret_length {
                    (Err(short_read()), seq![])
                } else {
                    (
                        Ok(request_of(header[8], account, rest.take(secret_length))),
                        rest.skip(secret_length),
                    )
                },
            }
        }
    }
}

/// What is wrong with the header of a response.
pub open spec fn response_header_error(header: Seq<u8>) -> Option<Seq<char>> {
    let status = header[8];
    let payload_length = be32_at(header, 9);
    let maximum = if status == STATUS_ERROR {
        MAX_ERROR_BYTES
    } else {
        MAX_SECRET_BYTES
    };
    if header.take(8) != magic() {
        Some("credential broker protocol magic is invalid"@)
    } else if payload_length > maximum {
        Some("credential broker response exceeds size limit"@)
    } else if (status == STATUS_SUCCESS || status == STATUS_NOT_FOUND) && payload_length != 0 {
        Some("credential broker response payload is invalid"@)
    } else if status > STATUS_ERROR {
        Some("credential broker response status is invalid"@)
    } else {
        None
    }
}

/// The response that a status byte and a payload stand for.
pub open spec fn response_of(status: u8, payload: Seq<u8>) -> Result<ResponseView, Seq<char>> {
    if status == STATUS_SUCCESS {
        Ok(ResponseView::Success)
    } else if status == STATUS_VALUE {
        Ok(ResponseView::Value(payload))
    } else if status == STATUS_NOT_FOUND {
        Ok(ResponseView::NotFound)
    } else if valid_utf8(payload) {
        Ok(ResponseView::Error(decode_utf8(payload)))
    } else {
        Err("credential broker error response is invalid"@)
    }
}

/// The first response of a stream, and what of the stream is left after it.
pub open spec fn decoded_response(stream: Seq<u8>) -> (Result<ResponseView, Seq<char>>, Seq<u8>) {
    if stream.len() < RESPONSE_HEADER_BYTES {
        (Err(short_read()), seq![])
    } else {
        let header = stream.take(RESPONSE_HEADER_BYTES as int);
        let payload = stream.skip(RESPONSE_HEADER_BYTES as int);
        let payload_length = be32_at(header, 9) as int;
        if response_header_error(header) is Some {
            (Err(response_header_error(header)->0), payload)
        } else if payload.len() < payload_length {
            (Err(short_read()), seq![])
        } else {
            (response_of(header[8], payload.take(payload_length)), payload.skip(payload_length))
        }
    }
}

/// Overwrites the bytes and empties the vector: `zeroize::Zeroize::zeroize` on
/// a `Vec<u8>`, which leaves it without elements.
#[verifier::external_body]
pub(crate) fn wipe_bytes(bytes: &mut Vec<u8>)
    ensures
        final(bytes)@ == Seq::<u8>::empty(),
{
    zeroize::Zeroize::zeroize(bytes)
}

/// A text between quotes with its special characters escaped.
pub uninterp spec fn quoted_text(text: Seq<char>) -> Seq<char>;

/// `format!` with `{:?}` on a text: the text between quotes, with its special
/// characters escaped.
#[verifier::external_body]
fn quote(text: &str) -> (out: String)
    ensures
        out@ == quoted_text(text@),
{
    format!("{text:?}")
}

/// How a request is described in diagnostics; a secret shows its length alone.
pub open spec fn request_description(request: RequestView) -> Seq<char> {
    match request {
        RequestView::Ping => "Ping"@,
        RequestView::Get { account } => "Get { account: "@ + quoted_text(account) + " }"@,
        RequestView::Put { account, secret } => "Set { account: "@ + quoted_text(account)
            + ", secret_bytes: "@ + crate::text::decimal_of(secret.len()) + " }"@,
        RequestView::Delete { account } => "Delete { account: "@ + quoted_text(account) + " }"@,
    }
}

/// How a response is described in diagnostics; a value shows its length alone.
pub open spec fn response_description(response: ResponseView) -> Seq<char> {
    match response {
        ResponseView::Success => "Success"@,
        ResponseView::Value(value) => "Value { secret_bytes: "@ + crate::text::decimal_of(
            value.len(),
        ) + " }"@,
        ResponseView::NotFound => "NotFound"@,
        ResponseView::Error(error) => "Error("@ + quoted_text(error) + ")"@,
    }
}

impl BrokerRequest {
    /// Overwrites the secret that the request carries, if it carries one.
    pub fn wipe(&mut self)
        ensures
            final(self)@ == (match old(self)@ {
                RequestView::Put { account, secret } => RequestView::Put { account, secret: seq![] },
                other => other,
            }),
    {
        if let BrokerRequest::Put { secret, .. } = self {
            wipe_bytes(secret);
        }
    }

    /// A description for diagnostics that keeps the secret out.
    pub fn describe(&self) -> (out: String)
        ensures
            out@ == request_description(self@),
    {
        match self {
            BrokerRequest::Ping => "Ping".to_owned(),
            BrokerRequest::Get { account } => {
                let mut out = "Get { account: ".to_owned();
                out.push_str(quote(account.as_str()).as_str());
                out.push_str(" }");
                out
            },
            BrokerRequest::Put { account, secret } => {
                let mut out = "Set { account: ".to_owned();
                out.push_str(quote(account.as_str()).as_str());
                out.push_str(", secret_bytes: ");
                out.push_str(crate::text::to_decimal(secret.len() as u64).as_str());
                out.push_str(" }");
                out
            },
            BrokerRequest::Delete { account } => {
                let mut out = "Delete { account: ".to_owned();
                out.push_str(quote(account.as_str()).as_str());
                out.push_str(" }");
                out
            },
        }
    }
}

impl BrokerResponse {
    /// Overwrites the value that the response carries, if it carries one.
    pub fn wipe(&mut self)
        ensures
            final(self)@ == (match old(self)@ {
                ResponseView::Value(value) => ResponseView::Value(seq![]),
                other => other,
            }),
    {
        if let BrokerResponse::Value(value) = self {
            wipe_bytes(value);
        }
    }

    /// A description for diagnostics that keeps the value out.
    pub fn describe(&self) -> (out: String)
        ensures
            out@ == response_description(self@),
    {
        match self {
            BrokerResponse::Success => "Success".to_owned(),
            BrokerResponse::Value(value) => {
                let mut out = "Value { secret_bytes: ".to_owned();
                out.push_str(crate::text::to_decimal(value.len() as u64).as_str());
                out.push_str(" }");
                out
            },
            BrokerResponse::NotFound => "NotFound".to_owned(),
            BrokerResponse::Error(error) => {
                let mut out = "Error(".to_owned();
                out.push_str(quote(error.as_str()).as_str());
                out.push_str(")");
                out
            },
        }
    }
}

/// Checks an account: not empty, at most 512 bytes, no control bytes.
pub fn validate_account(account: &str) -> (r: Result<(), String>)
    ensures
        r is Ok == account_valid(account@),
        r is Err ==> r->Err_0@ == "credential broker account is invalid"@,
{
    if account.is_empty() || byte_len(account) > MAX_ACCOUNT_BYTES || !is_control_byte_free(
        account.as_bytes(),
    ) {
        Err("credential broker account is invalid".to_owned())
    } else {
        Ok(())
    }
}

/// A stream of bytes that is read from front to back.
pub struct ByteReader {
    bytes: Vec<u8>,
    position: usize,
}

impl View for ByteReader {
    type V = Seq<u8>;

    /// The bytes that were not read yet.
    closed spec fn view(&self) -> Seq<u8> {
        if self.position <= self.bytes@.len() {
            self.bytes@.skip(self.position as int)
        } else {
            Seq::empty()
        }
    }
}

impl ByteReader {
    /// A stream over all of the bytes.
    pub fn new(bytes: Vec<u8>) -> (reader: ByteReader)
        ensures
            reader@ == bytes@,
    {
        let reader = ByteReader { bytes, position: 0 };
        assert(reader@ =~= reader.bytes@);
        reader
    }

    /// The next bytes, at most `limit`, without consuming them.
    pub fn fill(&self, limit: usize) -> (available: &[u8])
        ensures
            available@ == self@.take(
                if limit < self@.len() {
                    limit as int
                } else {
                    self@.len() as int
                },
            ),
    {
        let end: usize = self.bytes.len();
        let start: usize = if self.position <= end {
            self.position
        } else {
            end
        };
        let stop: usize = if limit < end - start {
            start + limit
        } else {
            end
        };
        let available = vstd::slice::slice_subrange(self.bytes.as_slice(), start, stop);
        assert(available@ =~= self@.take(stop - start));
        available
    }

    /// Consumes bytes that are there.
    pub fn consume(&mut self, count: usize)
        requires
            count <= old(self)@.len(),
        ensures
            final(self)@ == old(self)@.skip(count as int),
    {
        let end: usize = self.bytes.len();
        if count > 0 {
            assert(self.position + count <= end);
            self.position = self.position + count;
        }
        assert(self@ =~= old(self)@.skip(count as int));
    }

    /// Reads exactly `count` bytes, or reads to the end and fails where there
    /// are not that many.
    pub fn read_exact(&mut self, count: usize) -> (r: Result<Vec<u8>, String>)
        ensures
            old(self)@.len() >= count ==> r is Ok && r->Ok_0@ == old(self)@.take(count as int)
                && final(self)@ == old(self)@.skip(count as int),
            old(self)@.len() < count ==> r is Err && r->Err_0@ == short_read() && final(self)@
                == Seq::<u8>::empty(),
    {
        let end: usize = self.bytes.len();
        let left: usize = if self.position <= end {
            end - self.position
        } else {
            0
        };
        if left < count {
            self.position = end;
            assert(self@ =~= Seq::<u8>::empty());
            return Err("failed to fill whole buffer".to_owned());
        }
        if count == 0 {
            assert(old(self)@.take(0) =~= Seq::<u8>::empty());
            assert(self@ =~= old(self)@.skip(0));
            return Ok(Vec::new());
        }
        let start: usize = self.position;
        let taken = vstd::slice::slice_to_vec(
            vstd::slice::slice_subrange(self.bytes.as_slice(), start, start + count),
        );
        self.position = start + count;
        assert(taken@ =~= old(self)@.take(count as int));
        assert(self@ =~= old(self)@.skip(count as int));
        Ok(taken)
    }
}

fn push_magic(out: &mut Vec<u8>)
    ensures
        final(out)@ == old(out)@ + magic(),
{
    out.push(0x55);
    out.push(0x4e);
    out.push(0x50);
    out.push(0x49);
    out.push(0x4e);
    out.push(0x43);
    out.push(0x42);
    out.push(0x31);
    assert(out@ =~= old(out)@ + magic());
}

fn push_be16(out: &mut Vec<u8>, n: usize)
    ensures
        final(out)@ == old(out)@ + be16(n as nat),
{
    out.push((n / 256 % 256) as u8);
    out.push((n % 256) as u8);
    assert(out@ =~= old(out)@ + be16(n as nat));
}

fn push_be32(out: &mut Vec<u8>, n: usize)
    ensures
        final(out)@ == old(out)@ + be32(n as nat),
{
    out.push((n / 16777216 % 256) as u8);
    out.push((n / 65536 % 256) as u8);
    out.push((n / 256 % 256) as u8);
    out.push((n % 256) as u8);
    assert(out@ =~= old(out)@ + be32(n as nat));
}

fn read_be16(s: &[u8], at: usize) -> (n: usize)
    requires
        at + 1 < s@.len(),
    ensures
        n == be16_at(s@, at as int),
{
    s[at] as usize * 256 + s[at + 1] as usize
}

fn read_be32(s: &[u8], at: usize) -> (n: usize)
    requires
        at + 3 < s@.len(),
    ensures
        n == be32_at(s@, at as int),
{
    s[at] as usize * 16777216 + s[at + 1] as usize * 65536 + s[at + 2] as usize * 256 + s[at
        + 3] as usize
}

fn has_magic(header: &[u8]) -> (r: bool)
    requires
        header@.len() >= 8,
    ensures
        r == (header@.take(8) == magic()),
{
    let mut expected: Vec<u8> = Vec::new();
    push_magic(&mut expected);
    assert(expected@ =~= magic());
    let start = vstd::slice::slice_subrange(header, 0, 8);
    same_bytes(start, expected.as_slice())
}

/// Appends the frame of a request, or says why the request has none.
pub fn write_request(writer: &mut Vec<u8>, request: &BrokerRequest) -> (r: Result<(), String>)
    ensures
        match encoded_request(request@) {
            Ok(frame) => r is Ok && final(writer)@ == old(writer)@ + frame,
            Err(error) => r is Err && r->Err_0@ == error && final(writer)@ == old(writer)@,
        },
{
    let ghost before = writer@;
    let empty: Vec<u8> = Vec::new();
    let (operation, account, secret): (u8, &str, &[u8]) = match request {
        BrokerRequest::Ping => (OP_PING, "", empty.as_slice()),
        BrokerRequest::Get { account } => (OP_GET, account.as_str(), empty.as_slice()),
        BrokerRequest::Put { account, secret } => (OP_SET, account.as_str(), secret.as_slice()),
        BrokerRequest::Delete { account } => (OP_DELETE, account.as_str(), empty.as_slice()),
    };
    proof {
        reveal_strlit("");
        assert(""@ =~= Seq::<char>::empty());
        assert(empty@ =~= Seq::<u8>::empty());
        assert(request_fields(request@) == (operation, account@, secret@));
    }
    if operation != OP_PING {
        if let Err(error) = validate_account(account) {
            return Err(error);
        }
    }
    if secret.len() > MAX_SECRET_BYTES {
        return Err("credential broker secret exceeds size limit".to_owned());
    }
    let bytes = account.as_bytes();
    push_magic(writer);
    writer.push(operation);
    push_be16(writer, bytes.len());
    push_be32(writer, secret.len());
    writer.extend_from_slice(bytes);
    writer.extend_from_slice(secret);
    assert(writer@ =~= before + request_frame(operation, account@, secret@));
    Ok(())
}

/// The fields of a request header that passed its checks.
#[derive(Clone, Copy)]
pub struct RequestHeader {
    pub operation: u8,
    pub account_length: usize,
    pub secret_length: usize,
}

/// Checks the header of a request before anything of its payload is read.
pub fn read_request_header(header: &[u8; 15]) -> (r: Result<RequestHeader, String>)
    ensures
        match request_header_error(header@) {
            Some(error) => r is Err && r->Err_0@ == error,
            None => r is Ok && r->Ok_0.operation == header@[8] && r->Ok_0.account_length == be16_at(
                header@,
                9,
            ) && r->Ok_0.secret_length == be32_at(header@, 11),
        },
{
    let header = header.as_slice();
    if !has_magic(header) {
        return Err("credential broker protocol magic is invalid".to_owned());
    }
    let operation: u8 = header[8];
    let account_length: usize = read_be16(header, 9);
    let secret_length: usize = read_be32(header, 11);
    if operation == OP_PING && (account_length != 0 || secret_length != 0) {
        return Err("credential broker ping payload is invalid".to_owned());
    }
    if operation != OP_PING && (account_length == 0 || account_length > MAX_ACCOUNT_BYTES) {
        return Err("credential broker account is invalid".to_owned());
    }
    if secret_length > MAX_SECRET_BYTES {
        return Err("credential broker secret exceeds size limit".to_owned());
    }
    if operation != OP_SET && secret_length != 0 {
        return Err("credential broker request payload is invalid".to_owned());
    }
    if operation > OP_DELETE {
        return Err("credential broker operation is invalid".to_owned());
    }
    Ok(RequestHeader { operation, account_length, secret_length })
}

/// The account in the payload of a request.
pub fn read_request_account(operation: u8, bytes: Vec<u8>) -> (r: Result<String, String>)
    ensures
        outcome(r) == decoded_account(operation, bytes@),
{
    match decode_text(bytes) {
        None => Err("credential broker account is invalid".to_owned()),
        Some(account) => {
            if operation != OP_PING {
                if let Err(error) = validate_account(account.as_str()) {
                    return Err(error);
                }
            }
            Ok(account)
        },
    }
}

/// The request with the given parts.
pub fn assemble_request(operation: u8, account: String, secret: Vec<u8>) -> (request: BrokerRequest)
    ensures
        request@ == request_of(operation, account@, secret@),
{
    if operation == OP_PING {
        BrokerRequest::Ping
    } else if operation == OP_GET {
        BrokerRequest::Get { account }
    } else if operation == OP_SET {
        BrokerRequest::Put { account, secret }
    } else {
        BrokerRequest::Delete { account }
    }
}

fn header15(bytes: &Vec<u8>) -> (header: [u8; 15])
    requires
        bytes@.len() == 15,
    ensures
        header@ == bytes@,
{
    let header: [u8; 15] = [
        bytes[0], bytes[1], bytes[2], bytes[3], bytes[4], bytes[5], bytes[6], bytes[7], bytes[8],
        bytes[9], bytes[10], bytes[11], bytes[12], bytes[13], bytes[14],
    ];
    assert(header@ =~= bytes@);
    header
}

fn header13(bytes: &Vec<u8>) -> (header: [u8; 13])
    requires
        bytes@.len() == 13,
    ensures
        header@ == bytes@,
{
    let header: [u8; 13] = [
        bytes[0], bytes[1], bytes[2], bytes[3], bytes[4], bytes[5], bytes[6], bytes[7], bytes[8],
        bytes[9], bytes[10], bytes[11], bytes[12],
    ];
    assert(header@ =~= bytes@);
    header
}

/// Reads one request from the stream.
pub fn read_request(reader: &mut ByteReader) -> (r: Result<BrokerRequest, String>)
    ensures
        (outcome(r), final(reader)@) == decoded_request(old(reader)@),
{
    let header = match reader.read_exact(REQUEST_HEADER_BYTES) {
        Ok(bytes) => bytes,
        Err(error) => return Err(error),
    };
    let fields = match read_request_header(&header15(&header)) {
        Ok(fields) => fields,
        Err(error) => return Err(error),
    };
    let account = match reader.read_exact(fields.account_length) {
        Ok(bytes) => bytes,
        Err(error) => return Err(error),
    };
    let account = match read_request_account(fields.operation, account) {
        Ok(account) => account,
        Err(error) => return Err(error),
    };
    let secret = match reader.read_exact(fields.secret_length) {
        Ok(bytes) => bytes,
        Err(error) => return Err(error),
    };
    Ok(assemble_request(fields.operation, account, secret))
}

/// Appends the frame of a response, or says why the response has none.
pub fn write_response(writer: &mut Vec<u8>, response: &BrokerResponse) -> (r: Result<(), String>)
    ensures
        match encoded_response(response@) {
            Ok(frame) => r is Ok && final(writer)@ == old(writer)@ + frame,
            Err(error) => r is Err && r->Err_0@ == error && final(writer)@ == old(writer)@,
        },
{
    let ghost before = writer@;
    let empty: Vec<u8> = Vec::new();
    let (status, payload): (u8, &[u8]) = match response {
        BrokerResponse::Success => (STATUS_SUCCESS, empty.as_slice()),
        BrokerResponse::Value(value) => {
            if value.len() > MAX_SECRET_BYTES {
                return Err("credential broker response exceeds size limit".to_owned());
            }
            (STATUS_VALUE, value.as_slice())
        },
        BrokerResponse::NotFound => (STATUS_NOT_FOUND, empty.as_slice()),
        BrokerResponse::Error(error) => {
            if byte_len(error.as_str()) > MAX_ERROR_BYTES {
                return Err("credential broker error exceeds size limit".to_owned());
            }
            (STATUS_ERROR, error.as_str().as_bytes())
        },
    };
    assert(empty@ =~= Seq::<u8>::empty());
    push_magic(writer);
    writer.push(status);
    push_be32(writer, payload.len());
    writer.extend_from_slice(payload);
    assert(writer@ =~= before + response_frame(status, payload@));
    Ok(())
}

/// Checks the header of a response; gives its status and payload length.
pub fn read_response_header(header: &[u8; 13]) -> (r: Result<(u8, usize), String>)
    ensures
        match response_header_error(header@) {
            Some(error) => r is Err && r->Err_0@ == error,
            None => r is Ok && r->Ok_0.0 == header@[8] && r->Ok_0.1 == be32_at(header@, 9),
        },
{
    let header = header.as_slice();
    if !has_magic(header) {
        return Err("credential broker protocol magic is invalid".to_owned());
    }
    let status: u8 = header[8];
    let payload_length: usize = read_be32(header, 9);
    let maximum: usize = if status == STATUS_ERROR {
        MAX_ERROR_BYTES
    } else {
        MAX_SECRET_BYTES
    };
    if payload_length > maximum {
        return Err("credential broker response exceeds size limit".to_owned());
    }
    if (status == STATUS_SUCCESS || status == STATUS_NOT_FOUND) && payload_length != 0 {
        return Err("credential broker response payload is invalid".to_owned());
    }
    if status > STATUS_ERROR {
        return Err("credential broker response status is invalid".to_owned());
    }
    Ok((status, payload_length))
}

/// The response with the given status and payload.
pub fn assemble_response(status: u8, payload: Vec<u8>) -> (r: Result<BrokerResponse, String>)
    ensures
        outcome(r) == response_of(status, payload@),
{
    if status == STATUS_SUCCESS {
        Ok(BrokerResponse::Success)
    } else if status == STATUS_VALUE {
        Ok(BrokerResponse::Value(payload))
    } else if status == STATUS_NOT_FOUND {
        Ok(BrokerResponse::NotFound)
    } else {
        match decode_text(payload) {
            Some(error) => Ok(BrokerResponse::Error(error)),
            None => Err("credential broker error response is invalid".to_owned()),
        }
    }
}

/// Reads one response from the stream.
pub fn read_response(reader: &mut ByteReader) -> (r: Result<BrokerResponse, String>)
    ensures
        (outcome(r), final(reader)@) == decoded_response(old(reader)@),
{
    let header = match reader.read_exact(RESPONSE_HEADER_BYTES) {
        Ok(bytes) => bytes,
        Err(error) => return Err(error),
    };
    let (status, payload_length) = match read_response_header(&header13(&header)) {
        Ok(fields) => fields,
        Err(error) => return Err(error),
    };
    let payload = match reader.read_exact(payload_length) {
        Ok(bytes) => bytes,
        Err(error) => return Err(error),
    };
    assemble_response(status, payload)
}

/// The FNV-1a hash of a byte sequence.
pub open spec fn fnv1a(bytes: Seq<u8>) -> u64
    decreases bytes.len(),
{
    if bytes.len() == 0 {
        0xcbf2_9ce4_8422_2325
    } else {
        (fnv1a(bytes.drop_last()) ^ (bytes.last() as u64)).wrapping_mul(0x0000_0100_0000_01b3)
    }
}

/// Eight bytes, most significant first.
pub open spec fn be64(n: u64) -> Seq<u8> {
    seq![
        (n / 0x100_0000_0000_0000 % 256) as u8,
        (n / 0x1_0000_0000_0000 % 256) as u8,
        (n / 0x100_0000_0000 % 256) as u8,
        (n / 0x1_0000_0000 % 256) as u8,
        (n / 0x100_0000 % 256) as u8,
        (n / 0x1_0000 % 256) as u8,
        (n / 0x100 % 256) as u8,
        (n % 256) as u8,
    ]
}

/// The directory of the broker socket for a state root, named by a hash of the
/// root's bytes.
pub open spec fn socket_directory(app_state_root: Seq<u8>) -> Seq<char> {
    "/tmp/unpin-stable-credential-broker-v1-"@ + hex_of(be64(fnv1a(app_state_root)))
}

/// The directory of the broker socket.
pub fn broker_socket_directory(app_state_root: &[u8]) -> (path: String)
    ensures
        path@ == socket_directory(app_state_root@),
{
    let mut hash: u64 = 0xcbf2_9ce4_8422_2325;
    let mut i: usize = 0;
    while i < app_state_root.len()
        invariant
            i <= app_state_root.len(),
            hash == fnv1a(app_state_root@.take(i as int)),
        decreases app_state_root.len() - i,
    {
        hash = (hash ^ (app_state_root[i] as u64)).wrapping_mul(0x0000_0100_0000_01b3);
        i = i + 1;
        assert(app_state_root@.take(i as int).drop_last() =~= app_state_root@.take(i - 1));
    }
    assert(app_state_root@.take(i as int) =~= app_state_root@);
    let mut digits: Vec<u8> = Vec::new();
    digits.push((hash / 0x100_0000_0000_0000 % 256) as u8);
    digits.push((hash / 0x1_0000_0000_0000 % 256) as u8);
    digits.push((hash / 0x100_0000_0000 % 256) as u8);
    digits.push((hash / 0x1_0000_0000 % 256) as u8);
    digits.push((hash / 0x100_0000 % 256) as u8);
    digits.push((hash / 0x1_0000 % 256) as u8);
    digits.push((hash / 0x100 % 256) as u8);
    digits.push((hash % 256) as u8);
    assert(digits@ =~= be64(hash));
    let mut path = "/tmp/unpin-stable-credential-broker-v1-".to_owned();
    path.push_str(to_hex(digits.as_slice()).as_str());
    path
}

/// The broker socket of a state root. Its path stays short however long the
/// root is.
pub fn broker_socket_path(app_state_root: &[u8]) -> (path: String)
    ensures
        path@ == socket_directory(app_state_root@) + "/broker-v1.sock"@,
        path@.len() < 104,
{
    let mut path = broker_socket_directory(app_state_root);
    path.push_str("/broker-v1.sock");
    proof {
        reveal_strlit("/broker-v1.sock");
        reveal_strlit("/tmp/unpin-stable-credential-broker-v1-");
    }
    path
}

proof fn lemma_be32_round_trip(n: nat)
    requires
        n < 0x1_0000_0000,
    ensures
        (n / 16777216 % 256) * 16777216 + (n / 65536 % 256) * 65536 + (n / 256 % 256) * 256 + n
            % 256 == n,
{
}

/// A request that was written reads back as itself, whatever follows it in the
/// stream, and exactly its frame is consumed.
pub proof fn law_request_round_trip(request: RequestView, rest: Seq<u8>)
    requires
        encoded_request(request) is Ok,
    ensures
        decoded_request(encoded_request(request)->Ok_0 + rest) == (
            Ok::<RequestView, Seq<char>>(request),
            rest,
        ),
{
    let (operation, account, secret) = request_fields(request);
    let frame = request_frame(operation, account, secret);
    let stream = frame + rest;
    let header = stream.take(REQUEST_HEADER_BYTES as int);
    let payload = stream.skip(REQUEST_HEADER_BYTES as int);
    encode_utf8_valid_utf8(account);
    encode_utf8_decode_utf8(account);
    lemma_be32_round_trip(secret.len());
    assert(utf8_len(account) <= MAX_ACCOUNT_BYTES);
    assert(header.take(8) =~= magic());
    assert(header[8] == operation);
    assert(be16_at(header, 9) == utf8_len(account));
    assert(be32_at(header, 11) == secret.len());
    if operation != OP_PING {
        assert(utf8_len(account) > 0) by {
            if utf8_len(account) == 0 {
                assert(encode_utf8(account) =~= encode_utf8(Seq::<char>::empty()));
                crate::text::utf8_is_injective(account, Seq::<char>::empty());
            }
        }
    }
    assert(payload.take(utf8_len(account) as int) =~= encode_utf8(account));
    let after_account = payload.skip(utf8_len(account) as int);
    assert(after_account.take(secret.len() as int) =~= secret);
    assert(after_account.skip(secret.len() as int) =~= rest);
    assert(request_of(operation, account, secret) == request);
}

/// A response that was written reads back as itself, whatever follows it in
/// the stream, and exactly its frame is consumed.
pub proof fn law_response_round_trip(response: ResponseView, rest: Seq<u8>)
    requires
        encoded_response(response) is Ok,
    ensures
        decoded_response(encoded_response(response)->Ok_0 + rest) == (
            Ok::<ResponseView, Seq<char>>(response),
            rest,
        ),
{
    let (status, payload) = response_fields(response);
    let stream = response_frame(status, payload) + rest;
    let header = stream.take(RESPONSE_HEADER_BYTES as int);
    let tail = stream.skip(RESPONSE_HEADER_BYTES as int);
    if let ResponseView::Error(error) = response {
        encode_utf8_valid_utf8(error);
        encode_utf8_decode_utf8(error);
    }
    lemma_be32_round_trip(payload.len());
    assert(header.take(8) =~= magic());
    assert(header[8] == status);
    assert(be32_at(header, 9) == payload.len());
    assert(tail.take(payload.len() as int) =~= payload);
    assert(tail.skip(payload.len() as int) =~= rest);
}

/// Only frames that could have been written are read: the bytes consumed by a
/// successful read are the frame of the request that came out.
pub proof fn law_read_requests_were_writable(stream: Seq<u8>)
    requires
        decoded_request(stream).0 is Ok,
    ensures
        encoded_request(decoded_request(stream).0->Ok_0) is Ok,
        stream == encoded_request(decoded_request(stream).0->Ok_0)->Ok_0 + decoded_request(
            stream,
        ).1,
{
    let header = stream.take(REQUEST_HEADER_BYTES as int);
    let payload = stream.skip(REQUEST_HEADER_BYTES as int);
    let account_length = be16_at(header, 9) as int;
    let secret_length = be32_at(header, 11) as int;
    let account_bytes = payload.take(account_length);
    let account = decode_utf8(account_bytes);
    let secret = payload.skip(account_length).take(secret_length);
    let request = decoded_request(stream).0->Ok_0;
    decode_utf8_encode_utf8(account_bytes);
    assert(secret_length <= MAX_SECRET_BYTES);
    if header[8] == OP_PING {
        assert(account_bytes =~= Seq::<u8>::empty());
        assert(account =~= Seq::<char>::empty());
    }
    if header[8] != OP_SET {
        assert(secret =~= Seq::<u8>::empty());
    }
    assert(request_fields(request) == (header[8], account, secret));
    let frame = request_frame(header[8], account, secret);
    assert(frame.take(8) =~= magic());
    assert(frame.subrange(9, 11) =~= be16(account_length as nat));
    assert(frame.subrange(11, 15) =~= be32(secret_length as nat));
    assert(frame + decoded_request(stream).1 =~= stream) by {
        let whole = frame + decoded_request(stream).1;
        assert(whole.len() == stream.len());
        assert forall|i: int| 0 <= i < stream.len() implies whole[i] == stream[i] by {
            if i < 8 {
                assert(header.take(8)[i] == stream[i]);
                assert(frame.take(8)[i] == whole[i]);
            } else if i == 8 {
                assert(header[8] == stream[8]);
            } else if i < 11 {
                assert(frame.subrange(9, 11)[i - 9] == whole[i]);
                assert(header[i] == stream[i]);
            } else if i < 15 {
                assert(frame.subrange(11, 15)[i - 11] == whole[i]);
                assert(header[i] == stream[i]);
            } else if i < 15 + account_length {
                assert(whole[i] == encode_utf8(account)[i - 15]);
            } else if i < 15 + account_length + secret_length {
                assert(whole[i] == secret[i - 15 - account_length]);
            }
        }
    }
}

/// Descriptions depend on a secret by its length alone.
pub proof fn law_descriptions_hide_secrets(account: Seq<char>, a: Seq<u8>, b: Seq<u8>)
    requires
        a.len() == b.len(),
    ensures
        request_description(RequestView::Put { account, secret: a }) == request_description(
            RequestView::Put { account, secret: b },
        ),
        response_description(ResponseView::Value(a)) == response_description(ResponseView::Value(b)),
{
}

} // verus!
