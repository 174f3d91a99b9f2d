//! The wire form of the backend protocol.
//!
//! Every call travels as an HTTP POST. This module says, for each [`Call`],
//! where the request goes, which transaction it is tagged with, what its body
//! holds and how long a reply may take; and it reads the reply to a start
//! call. The bodies are JSON documents, encoded and decoded by `serde_json`.

use crate::backend::{Call, StartFailure, TransactionHandle};
use crate::json::{
    array_value, bool_value, decode_value, encode_value, json_decoding, json_encoding,
    json_member, json_model, member_value, members_model, number_value, object_value, text_of,
    text_value, Json, JsonNumber,
};
use vstd::prelude::*;
use vstd::string::StringExecFns;

verus! {

/// Where queries and mutations are posted.
pub const BACKEND_URI: &'static str = "http://127.0.0.1:4466";

/// Where a transaction is started.
pub const START_URI: &'static str = "http://127.0.0.1:4466/transaction/start";

/// What precedes the transaction's identifier in the address of a commit or a rollback.
pub const TRANSACTION_URI_PREFIX: &'static str = "http://127.0.0.1:4466/transaction/";

/// What follows the transaction's identifier in the address of a commit.
pub const COMMIT_URI_SUFFIX: &'static str = "/commit";

/// What follows the transaction's identifier in the address of a rollback.
pub const ROLLBACK_URI_SUFFIX: &'static str = "/rollback";

/// The header that tags an operation with its transaction.
pub const TRANSACTION_HEADER: &'static str = "X-transaction-id";

/// The mutation that puts the account every lifecycle works on into its initial state.
pub const SEED_QUERY: &'static str = "mutation {\n            upsertOneAccount(where: {email: \"test@test.com\"}, create: {email: \"test@test.com\", balance: 100}, update: {balance: 100}) {\n                id\n                email\n                balance\n            }\n        }";

/// The mutation that takes 100 off the account's balance.
pub const DECREMENT_100_QUERY: &'static str = "mutation {\n            updateOneAccount(\n                data: {\n                    balance: { decrement: 100 }\n                }\n                where: { \n                    email: \"test@test.com\"\n                }) { \n                    id,\n                    email,\n                    balance \n                }\n            }";

/// The mutation that takes 200 off the account's balance.
pub const DECREMENT_200_QUERY: &'static str = "mutation {\n            updateOneAccount(\n                data: {\n                    balance: { decrement: 200 }\n                }\n                where: { \n                    email: \"test@test.com\"\n                }) { \n                    id,\n                    email,\n                    balance \n                }\n            }";

/// One HTTP POST, ready to be sent.
#[derive(Clone, Debug, PartialEq, Eq)]
pub struct Request {
    /// The address the request goes to.
    pub uri: String,
    /// The value of the transaction header, where the request carries one.
    pub transaction: Option<String>,
    /// The bytes of the body.
    pub body: Vec<u8>,
    /// How long a reply may take, in milliseconds; `None` where the sender waits without limit.
    pub deadline_millis: Option<u64>,
}

/// A [`Request`] as plain values.
pub struct RequestView {
    pub uri: Seq<char>,
    pub transaction: Option<Seq<char>>,
    pub body: Seq<u8>,
    pub deadline_millis: Option<u64>,
}

impl View for Request {
    type V = RequestView;

    open spec fn view(&self) -> RequestView {
        RequestView {
            uri: self.uri@,
            transaction: match self.transaction {
                Some(id) => Some(id@),
                None => None,
            },
            body: self.body@,
            deadline_millis: self.deadline_millis,
        }
    }
}

/// What a start reply holds under its `id` member.
#[derive(Clone, Debug, PartialEq, Eq)]
pub enum IdentifierField {
    /// The reply is no JSON text.
    Unreadable,
    /// The reply is no object, or an object without that member.
    Absent,
    /// The member is there and is no string.
    NotText,
    /// The member is this string.
    Text(String),
}

impl IdentifierField {
    /// Whether this is what a decoded reply holds under `id`.
    pub open spec fn describes(self, decoded: Option<Json>) -> bool {
        match decoded {
            None => self is Unreadable,
            Some(document) => match json_member(document, "id"@) {
                None => self is Absent,
                Some(Json::Text(id)) => self matches IdentifierField::Text(text) && text@ == id,
                Some(_) => self is NotText,
            },
        }
    }
}

/// The document that asks for a transaction with the given time limits.
pub open spec fn start_document(timeout_millis: u32, max_wait_millis: u32) -> Json {
    Json::Object(
        map![
            "max_wait"@ => Json::Number(JsonNumber::PosInt(max_wait_millis as u64)),
            "timeout"@ => Json::Number(JsonNumber::PosInt(timeout_millis as u64)),
        ],
    )
}

/// The document that submits one query without variables.
pub open spec fn query_document(query: Seq<char>) -> Json {
    Json::Object(
        map![
            "variables"@ => Json::Object(Map::empty()),
            "query"@ => Json::Text(query),
        ],
    )
}

/// The document that submits the two decrements together, to be run as one transaction.
pub open spec fn batch_document() -> Json {
    Json::Object(
        map![
            "batch"@ => Json::Array(
                seq![query_document(DECREMENT_100_QUERY@), query_document(DECREMENT_200_QUERY@)],
            ),
            "transaction"@ => Json::Bool(true),
        ],
    )
}

/// The body of a commit or a rollback: an empty JSON object, written out.
pub open spec fn empty_object_text() -> Seq<u8> {
    seq![0x7bu8, 0x7du8]
}

/// The document in the body of a call; a commit or a rollback carries
/// [`empty_object_text`] instead of an encoded document.
pub open spec fn call_document(call: Call) -> Option<Json> {
    match call {
        Call::Start { timeout_millis, max_wait_millis } => Some(
            start_document(timeout_millis, max_wait_millis),
        ),
        Call::SingleOperation { .. } => Some(query_document(DECREMENT_100_QUERY@)),
        Call::BatchOperation { .. } => Some(batch_document()),
        Call::Commit { .. } => None,
        Call::Rollback { .. } => None,
    }
}

/// The bytes in the body of a call: the encoding of its document, which is
/// the encoder's to give or to refuse, or the text of an empty object.
pub open spec fn call_body(call: Call) -> Option<Seq<u8>> {
    match call_document(call) {
        Some(document) => json_encoding(document),
        None => Some(empty_object_text()),
    }
}

/// The request that carries a call, where there are bytes for its body.
pub open spec fn call_request(call: Call) -> Option<RequestView> {
    match call_body(call) {
        Some(body) => Some(wire_request(call, body)),
        None => None,
    }
}

/// The request that seeds the backend, where the encoder gives bytes for its body.
pub open spec fn seed_call_request() -> Option<RequestView> {
    match json_encoding(query_document(SEED_QUERY@)) {
        Some(body) => Some(seed_wire_request(body)),
        None => None,
    }
}

/// The address a call is posted to.
pub open spec fn call_uri(call: Call) -> Seq<char> {
    match call {
        Call::Start { .. } => START_URI@,
        Call::SingleOperation { .. } => BACKEND_URI@,
        Call::BatchOperation { .. } => BACKEND_URI@,
        Call::Commit { handle } => TRANSACTION_URI_PREFIX@ + handle.id@ + COMMIT_URI_SUFFIX@,
        Call::Rollback { handle } => TRANSACTION_URI_PREFIX@ + handle.id@ + ROLLBACK_URI_SUFFIX@,
    }
}

/// The transaction header of a call: operations carry their transaction's
/// identifier, a commit or a rollback names it in the address, a start has none.
pub open spec fn call_transaction(call: Call) -> Option<Seq<char>> {
    match call {
        Call::SingleOperation { handle } => Some(handle.id@),
        Call::BatchOperation { handle } => Some(handle.id@),
        _ => None,
    }
}

/// The request that carries `call` with `body` as its body.
pub open spec fn wire_request(call: Call, body: Seq<u8>) -> RequestView {
    RequestView {
        uri: call_uri(call),
        transaction: call_transaction(call),
        body,
        deadline_millis: call.spec_deadline_millis(),
    }
}

/// The request that seeds the backend, with `body` as its body.
pub open spec fn seed_wire_request(body: Seq<u8>) -> RequestView {
    RequestView { uri: BACKEND_URI@, transaction: None, body, deadline_millis: None }
}

/// Builds the object with two members under distinct keys.
fn pair_object(
    first_key: &str,
    first: serde_json::Value,
    second_key: &str,
    second: serde_json::Value,
) -> (value: serde_json::Value)
    requires
        first_key@ != second_key@,
    ensures
        json_model(value) == Json::Object(
            map![first_key@ => json_model(first), second_key@ => json_model(second)],
        ),
{
    let mut members: Vec<(String, serde_json::Value)> = Vec::new();
    members.push((String::from_str(first_key), first));
    members.push((String::from_str(second_key), second));
    proof {
        let pairs = members@;
        assert(pairs.drop_last().drop_last() =~= Seq::empty());
        assert(members_model(pairs.drop_last().drop_last()) == Map::<Seq<char>, Json>::empty());
        assert(members_model(pairs.drop_last()) == Map::<Seq<char>, Json>::empty().insert(
            first_key@,
            json_model(first),
        ));
    }
    object_value(members)
}

/// Builds the document that submits one query without variables.
fn query_value(query: &str) -> (value: serde_json::Value)
    ensures
        json_model(value) == query_document(query@),
{
    proof {
        reveal_strlit("variables");
        reveal_strlit("query");
        assert("variables"@.len() != "query"@.len());
    }
    let variables = object_value(Vec::new());
    pair_object("variables", variables, "query", text_value(query))
}

/// Builds the document in the body of a call, where it carries one.
fn call_value(call: &Call) -> (value: Option<serde_json::Value>)
    ensures
        match value {
            Some(v) => call_document(*call) == Some(json_model(v)),
            None => call_document(*call) is None,
        },
{
    match call {
        Call::Start { timeout_millis, max_wait_millis } => {
            proof {
                reveal_strlit("max_wait");
                reveal_strlit("timeout");
                assert("max_wait"@.len() != "timeout"@.len());
            }
            Some(
                pair_object(
                    "max_wait",
                    number_value(*max_wait_millis),
                    "timeout",
                    number_value(*timeout_millis),
                ),
            )
        },
        Call::SingleOperation { .. } => Some(query_value(DECREMENT_100_QUERY)),
        Call::BatchOperation { .. } => {
            proof {
                reveal_strlit("batch");
                reveal_strlit("transaction");
                assert("batch"@.len() != "transaction"@.len());
            }
            let mut queries: Vec<serde_json::Value> = Vec::new();
            queries.push(query_value(DECREMENT_100_QUERY));
            queries.push(query_value(DECREMENT_200_QUERY));
            let ghost models = queries@.map_values(|item: serde_json::Value| json_model(item));
            assert(models =~= seq![
                query_document(DECREMENT_100_QUERY@),
                query_document(DECREMENT_200_QUERY@),
            ]);
            Some(pair_object("batch", array_value(queries), "transaction", bool_value(true)))
        },
        Call::Commit { .. } => None,
        Call::Rollback { .. } => None,
    }
}

/// Builds the request that carries a call, with its body still empty.
pub fn envelope(call: &Call) -> (request: Request)
    ensures
        request@ == wire_request(*call, Seq::empty()),
{
    let deadline_millis = call.deadline_millis();
    let body: Vec<u8> = Vec::new();
    match call {
        Call::Start { .. } => Request {
            uri: String::from_str(START_URI),
            transaction: None,
            body,
            deadline_millis,
        },
        Call::SingleOperation { handle } => Request {
            uri: String::from_str(BACKEND_URI),
            transaction: Some(handle.id.clone()),
            body,
            deadline_millis,
        },
        Call::BatchOperation { handle } => Request {
            uri: String::from_str(BACKEND_URI),
            transaction: Some(handle.id.clone()),
            body,
            deadline_millis,
        },
        Call::Commit { handle } => Request {
            uri: String::from_str(TRANSACTION_URI_PREFIX).concat(handle.id.as_str()).concat(
                COMMIT_URI_SUFFIX,
            ),
            transaction: None,
            body,
            deadline_millis,
        },
        Call::Rollback { handle } => Request {
            uri: String::from_str(TRANSACTION_URI_PREFIX).concat(handle.id.as_str()).concat(
                ROLLBACK_URI_SUFFIX,
            ),
            transaction: None,
            body,
            deadline_millis,
        },
    }
}

/// Builds the request that seeds the backend, with its body still empty.
pub fn seed_envelope() -> (request: Request)
    ensures
        request@ == seed_wire_request(Seq::empty()),
{
    Request {
        uri: String::from_str(BACKEND_URI),
        transaction: None,
        body: Vec::new(),
        deadline_millis: None,
    }
}

/// Puts the encoded body into a request. Where the encoder gave no body
/// there is no request; where it gave one, the request carries exactly that
/// body and is otherwise unchanged.
pub fn with_body(envelope: Request, encoded: Option<Vec<u8>>) -> (request: Option<Request>)
    ensures
        match encoded {
            Some(body) => request matches Some(r) && r@ == (RequestView {
                body: body@,
                ..envelope@
            }),
            None => request is None,
        },
{
    match encoded {
        Some(body) => Some(
            Request {
                uri: envelope.uri,
                transaction: envelope.transaction,
                body,
                deadline_millis: envelope.deadline_millis,
            },
        ),
        None => None,
    }
}

/// Builds the request that carries a call.
///
/// A commit or a rollback always yields a request. For the other calls the
/// body comes from the JSON encoder, and there is a request exactly when the
/// encoder gives one for the call's document.
pub fn request_for(call: &Call) -> (request: Option<Request>)
    ensures
        match request {
            Some(r) => call_request(*call) == Some(r@),
            None => call_request(*call) is None,
        },
        call_document(*call) is None ==> request is Some,
{
    match call_value(call) {
        Some(document) => with_body(envelope(call), encode_value(&document)),
        None => {
            let mut body: Vec<u8> = Vec::new();
            body.push(0x7bu8);
            body.push(0x7du8);
            assert(body@ =~= empty_object_text());
            with_body(envelope(call), Some(body))
        },
    }
}

/// Builds the request that seeds the backend: the account is created, or
/// put back to its initial balance. There is a request exactly when the JSON
/// encoder gives a body for the seeding document, and it carries that body.
pub fn seed_request() -> (request: Option<Request>)
    ensures
        match request {
            Some(r) => seed_call_request() == Some(r@),
            None => seed_call_request() is None,
        },
{
    let document = query_value(SEED_QUERY);
    with_body(seed_envelope(), encode_value(&document))
}

/// Looks up the `id` member of a start reply.
pub fn find_identifier(reply: &[u8]) -> (field: IdentifierField)
    ensures
        field.describes(json_decoding(reply@)),
{
    match decode_value(reply) {
        None => IdentifierField::Unreadable,
        Some(document) => match member_value(&document, "id") {
            None => IdentifierField::Absent,
            Some(member) => match text_of(member) {
                Some(text) => IdentifierField::Text(text),
                None => IdentifierField::NotText,
            },
        },
    }
}

/// The result of a start call whose reply holds `field` under `id`: a handle
/// for a string, and a failure for everything else.
pub fn handle_from_identifier(field: IdentifierField) -> (started: Result<
    TransactionHandle,
    StartFailure,
>)
    ensures
        started == (match field {
            IdentifierField::Text(id) => Ok::<TransactionHandle, StartFailure>(
                TransactionHandle { id },
            ),
            IdentifierField::Absent => Err(StartFailure::NoIdentifier),
            IdentifierField::Unreadable => Err(StartFailure::Malformed),
            IdentifierField::NotText => Err(StartFailure::Malformed),
        }),
{
    match field {
        IdentifierField::Text(id) => Ok(TransactionHandle { id }),
        IdentifierField::Absent => Err(StartFailure::NoIdentifier),
        IdentifierField::Unreadable => Err(StartFailure::Malformed),
        IdentifierField::NotText => Err(StartFailure::Malformed),
    }
}

/// What a decoded start reply amounts to: the identifier it names, or why it names none.
pub open spec fn start_reply(decoded: Option<Json>) -> Result<Seq<char>, StartFailure> {
    match decoded {
        None => Err(StartFailure::Malformed),
        Some(document) => match json_member(document, "id"@) {
            None => Err(StartFailure::NoIdentifier),
            Some(Json::Text(id)) => Ok(id),
            Some(_) => Err(StartFailure::Malformed),
        },
    }
}

/// Reads the reply to a start call: a handle where the reply is a JSON
/// object whose `id` member is a string, and a failure otherwise.
pub fn read_start_reply(reply: &[u8]) -> (started: Result<TransactionHandle, StartFailure>)
    ensures
        match started {
            Ok(handle) => start_reply(json_decoding(reply@)) == Ok::<Seq<char>, StartFailure>(
                handle.id@,
            ),
            Err(failure) => start_reply(json_decoding(reply@)) == Err::<Seq<char>, StartFailure>(
                failure,
            ),
        },
{
    handle_from_identifier(find_identifier(reply))
}

} // verus!
