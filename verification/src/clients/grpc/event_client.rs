//! Log lines and streamed chunks on their way to the engine.
use tonic::metadata::MetadataMap;
use vstd::prelude::*;

use super::metadata::new_metadata;
use crate::duration::Duration;
use crate::error::{ErrorView, HatchetError};
use crate::utils::{add_grpc_auth_header, proto_timestamp, Timestamp};

verus! {

/// A log line as the engine is to get it.
#[derive(Debug)]
pub struct LogEntry {
    pub task_run_external_id: String,
    pub message: String,
    pub level: Option<String>,
    pub metadata: String,
    pub task_retry_count: Option<i32>,
}

/// A log line, as the engine takes it.
#[derive(Debug)]
pub struct PutLogRequest {
    pub task_run_external_id: String,
    pub created_at: Option<Timestamp>,
    pub message: String,
    pub level: Option<String>,
    pub metadata: String,
    pub task_retry_count: Option<i32>,
}

/// A streamed chunk, as the engine takes it.
#[derive(Debug)]
pub struct PutStreamEventRequest {
    pub task_run_external_id: String,
    pub created_at: Option<Timestamp>,
    pub message: Vec<u8>,
    pub metadata: String,
    pub event_index: Option<i64>,
}

/// A message together with the headers that it is sent with.
pub struct Authorized<T> {
    pub message: T,
    pub metadata: MetadataMap,
}

/// The headers of a message of its own that carries the token.
pub open spec fn token_only(token: Seq<char>) -> Map<Seq<char>, Seq<Seq<char>>> {
    crate::clients::grpc::metadata::no_metadata().insert(
        "authorization"@,
        seq![crate::utils::bearer(token)],
    )
}

/// Why nothing can be sent at this time with this token, or `None` where something can: the
/// clock stands before the start of 1970, or no header can carry the token.
pub open spec fn send_problem(token: Seq<char>, since_epoch: Option<Duration>) -> Option<ErrorView> {
    if since_epoch is None {
        Some(ErrorView::SystemTimeError)
    } else if !crate::clients::grpc::metadata::is_header_text(crate::utils::bearer(token)) {
        Some(crate::utils::token_refused())
    } else {
        None
    }
}

/// Makes out what is sent to the engine's event service.
#[derive(Debug)]
pub struct EventClient {
    api_token: String,
}

impl View for EventClient {
    type V = Seq<char>;

    /// The token that every message carries.
    closed spec fn view(&self) -> Seq<char> {
        self.api_token@
    }
}

impl EventClient {
    /// A client whose messages carry the token.
    pub fn new(api_token: String) -> (client: EventClient)
        ensures
            client@ == api_token@,
    {
        EventClient { api_token }
    }

    /// The stamp and the headers of a message that is sent now.
    fn stamped(&self, since_epoch: Option<Duration>) -> (res: Result<
        (Timestamp, MetadataMap),
        HatchetError,
    >)
        ensures
            match res {
                Ok((stamp, metadata)) => {
                    &&& send_problem(self@, since_epoch) is None
                    &&& crate::utils::stamp_of(since_epoch) == Some(stamp)
                    &&& crate::clients::grpc::metadata::metadata_content(metadata) == token_only(
                        self@,
                    )
                },
                Err(e) => send_problem(self@, since_epoch) == Some(e@),
            },
    {
        let stamp = match proto_timestamp(since_epoch) {
            Ok(stamp) => stamp,
            Err(e) => {
                return Err(e);
            },
        };
        let mut metadata = new_metadata();
        match add_grpc_auth_header(&mut metadata, self.api_token.as_str()) {
            Ok(()) => Ok((stamp, metadata)),
            Err(e) => Err(e),
        }
    }

    /// The result of sending a message, where the engine's answer is given: nothing, or the
    /// message of the status with which it refused.
    pub fn answered(answer: Result<(), String>) -> (res: Result<(), HatchetError>)
        ensures
            match answer {
                Ok(()) => res is Ok,
                Err(message) => res matches Err(e) && e@ == ErrorView::GrpcErrorStatus(message@),
            },
    {
        match answer {
            Ok(()) => Ok(()),
            Err(message) => Err(HatchetError::GrpcErrorStatus(message)),
        }
    }

    /// The message that sends a single log line.
    ///
    /// `level` should be one of `DEBUG`, `INFO`, `WARN` or `ERROR`, the four that the engine
    /// recognises, or `None` to leave the line unlevelled. `metadata` is a JSON object as text,
    /// or an empty text where there is none.
    pub fn put_log(
        &self,
        task_run_external_id: &str,
        message: String,
        level: Option<String>,
        metadata: String,
        task_retry_count: Option<i32>,
        since_epoch: Option<Duration>,
    ) -> (res: Result<Authorized<PutLogRequest>, HatchetError>)
        ensures
            match res {
                Ok(request) => {
                    &&& send_problem(self@, since_epoch) is None
                    &&& crate::clients::grpc::metadata::metadata_content(request.metadata)
                        == token_only(self@)
                    &&& request.message.task_run_external_id@ == task_run_external_id@
                    &&& request.message.created_at == crate::utils::stamp_of(since_epoch)
                    &&& request.message.message == message
                    &&& request.message.level == level
                    &&& request.message.metadata == metadata
                    &&& request.message.task_retry_count == task_retry_count
                },
                Err(e) => send_problem(self@, since_epoch) == Some(e@),
            },
    {
        match self.stamped(since_epoch) {
            Ok((stamp, headers)) => Ok(
                Authorized {
                    message: PutLogRequest {
                        task_run_external_id: task_run_external_id.to_owned(),
                        created_at: Some(stamp),
                        message,
                        level,
                        metadata,
                        task_retry_count,
                    },
                    metadata: headers,
                },
            ),
            Err(e) => Err(e),
        }
    }

    /// The message that sends a chunk of a stream.
    pub fn put_stream_event(
        &self,
        task_run_external_id: &str,
        message: Vec<u8>,
        event_index: Option<i64>,
        since_epoch: Option<Duration>,
    ) -> (res: Result<Authorized<PutStreamEventRequest>, HatchetError>)
        ensures
            match res {
                Ok(request) => {
                    &&& send_problem(self@, since_epoch) is None
                    &&& crate::clients::grpc::metadata::metadata_content(request.metadata)
                        == token_only(self@)
                    &&& request.message.task_run_external_id@ == task_run_external_id@
                    &&& request.message.created_at == crate::utils::stamp_of(since_epoch)
                    &&& request.message.message == message
                    &&& request.message.metadata@ == Seq::<char>::empty()
                    &&& request.message.event_index == event_index
                },
                Err(e) => send_problem(self@, since_epoch) == Some(e@),
            },
    {
        match self.stamped(since_epoch) {
            Ok((stamp, headers)) => Ok(
                Authorized {
                    message: PutStreamEventRequest {
                        task_run_external_id: task_run_external_id.to_owned(),
                        created_at: Some(stamp),
                        message,
                        metadata: String::new(),
                        event_index,
                    },
                    metadata: headers,
                },
            ),
            Err(e) => Err(e),
        }
    }
}

/// Something can be sent exactly if the clock stands behind the start of 1970 and a header can
/// carry the token; a clock that does not is reported before a token that cannot be sent.
pub proof fn law_when_something_can_be_sent(token: Seq<char>, since_epoch: Option<Duration>)
    ensures
        send_problem(token, since_epoch) is None <==> since_epoch is Some
            && crate::clients::grpc::metadata::is_header_text(token),
        since_epoch is None ==> send_problem(token, since_epoch) == Some(
            ErrorView::SystemTimeError,
        ),
        since_epoch is Some && !crate::clients::grpc::metadata::is_header_text(token)
            ==> send_problem(token, since_epoch) == Some(
            ErrorView::InvalidAuthHeader("failed to parse metadata value"@),
        ),
{
    crate::utils::law_which_tokens_can_be_sent(token);
}

/// A message carries one header, `authorization`, with one value, which is made of the token.
pub proof fn law_a_message_carries_its_token_and_nothing_else(token: Seq<char>, name: Seq<char>)
    ensures
        token_only(token).contains_key(name) <==> name == "authorization"@,
        token_only(token)["authorization"@] == seq!["Bearer "@ + token],
{
}

/// A log line and a chunk reach the engine as they were handed in, for the task run that they
/// were handed in for, with the time and the client's own token.
pub proof fn law_messages_carry_what_they_were_given(
    token: String,
    client: EventClient,
    task_run_external_id: &str,
    message: String,
    level: Option<String>,
    metadata: String,
    task_retry_count: Option<i32>,
    chunk: Vec<u8>,
    event_index: Option<i64>,
    since_epoch: Option<Duration>,
    log: Result<Authorized<PutLogRequest>, HatchetError>,
    stream: Result<Authorized<PutStreamEventRequest>, HatchetError>,
)
    requires
        call_ensures(EventClient::new, (token,), client),
        call_ensures(
            EventClient::put_log,
            (
                &client,
                task_run_external_id,
                message,
                level,
                metadata,
                task_retry_count,
                since_epoch,
            ),
            log,
        ),
        call_ensures(
            EventClient::put_stream_event,
            (&client, task_run_external_id, chunk, event_index, since_epoch),
            stream,
        ),
    ensures
        log is Ok <==> since_epoch is Some && crate::clients::grpc::metadata::is_header_text(
            token@,
        ),
        stream is Ok <==> log is Ok,
        since_epoch is None ==> (log matches Err(e) && e@ == ErrorView::SystemTimeError),
        since_epoch is None ==> (stream matches Err(e) && e@ == ErrorView::SystemTimeError),
        log matches Ok(request) ==> {
            &&& request.message.task_run_external_id@ == task_run_external_id@
            &&& request.message.message == message
            &&& request.message.level == level
            &&& request.message.metadata == metadata
            &&& request.message.task_retry_count == task_retry_count
            &&& request.message.created_at == crate::utils::stamp_of(since_epoch)
            &&& crate::clients::grpc::metadata::metadata_content(
                request.metadata,
            )["authorization"@] == seq!["Bearer "@ + token@]
        },
        stream matches Ok(request) ==> {
            &&& request.message.task_run_external_id@ == task_run_external_id@
            &&& request.message.message == chunk
            &&& request.message.metadata@.len() == 0
            &&& request.message.event_index == event_index
            &&& request.message.created_at == crate::utils::stamp_of(since_epoch)
            &&& crate::clients::grpc::metadata::metadata_content(
                request.metadata,
            )["authorization"@] == seq!["Bearer "@ + token@]
        },
{
    law_when_something_can_be_sent(token@, since_epoch);
    law_a_message_carries_its_token_and_nothing_else(token@, "authorization"@);
}

/// An answer of the server is passed on: success as success, and a refusal with its own words.
pub proof fn law_an_answer_is_passed_on(
    answer: Result<(), String>,
    res: Result<(), HatchetError>,
)
    requires
        call_ensures(EventClient::answered, (answer,), res),
    ensures
        res is Ok <==> answer is Ok,
        answer is Err ==> res->Err_0@ == ErrorView::GrpcErrorStatus(answer->Err_0@),
{
}

} // verus!
