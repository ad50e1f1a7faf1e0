//! Time stamps, durations as text, the run a task belongs to, and the empty model.
use serde_json::Value;
use tonic::metadata::MetadataMap;
use vstd::prelude::*;

use crate::clients::grpc::metadata::{insert_header, metadata_error_text};
use crate::duration::{Duration, NANOS_PER_SEC};
use crate::error::{ErrorView, HatchetError};
use crate::json::{as_fields, fields_are_empty, invalid_type, no_fields, object_value, Json};
use crate::text::{decimal_text, joined};

verus! {

/// A point in time, as the engine takes it: seconds since the start of 1970, and nanoseconds
/// beyond them.
#[derive(Clone, Copy, Debug, PartialEq, Eq, Structural)]
pub struct Timestamp {
    pub seconds: i64,
    pub nanos: i32,
}

/// A count of seconds in the sixty-four bits of a signed number.
pub open spec fn signed_seconds(seconds: nat) -> int {
    if seconds <= i64::MAX {
        seconds as int
    } else {
        seconds - 0x1_0000_0000_0000_0000
    }
}

/// The stamp of the time that lies a span after the start of 1970, or `None` where the clock
/// stands before that.
pub open spec fn stamp_of(since_epoch: Option<Duration>) -> Option<Timestamp> {
    match since_epoch {
        Some(elapsed) => Some(
            Timestamp {
                seconds: signed_seconds(elapsed@ / (NANOS_PER_SEC as nat)) as i64,
                nanos: (elapsed@ % (NANOS_PER_SEC as nat)) as i32,
            },
        ),
        None => None,
    }
}

/// The stamp of the time that lies `since_epoch` after the start of 1970, or an error where
/// the clock stands before that.
pub fn proto_timestamp(since_epoch: Option<Duration>) -> (res: Result<Timestamp, HatchetError>)
    ensures
        match since_epoch {
            Some(elapsed) => res matches Ok(stamp) && stamp.seconds == signed_seconds(
                elapsed@ / (NANOS_PER_SEC as nat),
            ) && stamp.nanos == elapsed@ % (NANOS_PER_SEC as nat) && stamp_of(since_epoch) == Some(
                stamp,
            ),
            None => res matches Err(e) && e@ == ErrorView::SystemTimeError,
        },
{
    match since_epoch {
        Some(elapsed) => {
            let secs: u64 = elapsed.as_secs();
            proof {
                assert(secs > 0x7fff_ffff_ffff_ffffu64 ==> (secs as i64) == secs
                    - 0x1_0000_0000_0000_0000) by (bit_vector);
            }
            let nanos: u32 = elapsed.subsec_nanos();
            Ok(Timestamp { seconds: secs as i64, nanos: nanos as i32 })
        },
        None => Err(HatchetError::SystemTimeError),
    }
}

/// The header that carries a token.
pub open spec fn bearer(token: Seq<char>) -> Seq<char> {
    "Bearer "@ + token
}

/// The error where no header can carry a token.
pub open spec fn token_refused() -> ErrorView {
    ErrorView::InvalidAuthHeader("failed to parse metadata value"@)
}

/// Adds the header that carries the token to those of a request, in place of an earlier one.
pub fn add_grpc_auth_header(metadata: &mut MetadataMap, token: &str) -> (res: Result<
    (),
    HatchetError,
>)
    requires
        crate::clients::grpc::metadata::has_room(*old(metadata)),
    ensures
        match res {
            Ok(()) => {
                &&& crate::clients::grpc::metadata::is_header_text(bearer(token@))
                &&& crate::clients::grpc::metadata::metadata_content(*final(metadata))
                    == crate::clients::grpc::metadata::metadata_content(*old(metadata)).insert(
                    "authorization"@,
                    seq![bearer(token@)],
                )
            },
            Err(e) => {
                &&& !crate::clients::grpc::metadata::is_header_text(bearer(token@))
                &&& e@ == token_refused()
                &&& crate::clients::grpc::metadata::metadata_content(*final(metadata))
                    == crate::clients::grpc::metadata::metadata_content(*old(metadata))
            },
        },
{
    proof {
        reveal_strlit("authorization");
    }
    match insert_header(metadata, "authorization", joined("Bearer ", token).as_str()) {
        Ok(()) => Ok(()),
        Err(e) => Err(HatchetError::InvalidAuthHeader(metadata_error_text(&e))),
    }
}

/// A token can be sent exactly if it holds no control character but the tabulator.
pub proof fn law_which_tokens_can_be_sent(token: Seq<char>)
    ensures
        crate::clients::grpc::metadata::is_header_text(bearer(token))
            <==> crate::clients::grpc::metadata::is_header_text(token),
{
    reveal_strlit("Bearer ");
    let header = bearer(token);
    assert("Bearer "@.len() == 7);
    if crate::clients::grpc::metadata::is_header_text(header) {
        assert forall|i: int|
            0 <= i < token.len() implies crate::clients::grpc::metadata::is_header_char(
            #[trigger] token[i],
        ) by {
            assert(header[i + 7] == token[i]);
        }
    }
}

/// Whole seconds as the engine takes a duration: in hours where they come out even, else in
/// minutes where those do, else in seconds.
pub open spec fn seconds_expr(seconds: nat) -> Seq<char> {
    if seconds == 0 {
        "0s"@
    } else if seconds % 3600 == 0 {
        crate::text::decimal(seconds / 3600) + "h"@
    } else if seconds % 60 == 0 {
        crate::text::decimal(seconds / 60) + "m"@
    } else {
        crate::text::decimal(seconds) + "s"@
    }
}

/// Writes a duration as the engine takes it. What is beyond whole seconds is left out.
pub fn duration_to_expr(duration: Duration) -> (expr: String)
    ensures
        expr@ == seconds_expr(duration@ / (NANOS_PER_SEC as nat)),
{
    let seconds: u64 = duration.as_secs();
    if seconds == 0 {
        return "0s".to_owned();
    }
    if seconds % 3600 == 0 {
        return decimal_text(seconds / 3600).concat("h");
    }
    if seconds % 60 == 0 {
        return decimal_text(seconds / 60).concat("m");
    }
    decimal_text(seconds).concat("s")
}

/// How many seconds the unit at the end of an expression stands for.
pub open spec fn unit_seconds(unit: char) -> int {
    if unit == 'h' {
        3600
    } else if unit == 'm' {
        60
    } else {
        1
    }
}

/// An expression denotes exactly the seconds that it was written for: the number before the
/// unit, times the unit.
pub proof fn law_expression_denotes_its_seconds(seconds: nat)
    ensures
        ({
            let expr = seconds_expr(seconds);
            &&& expr.len() > 1
            &&& expr.last() == 'h' || expr.last() == 'm' || expr.last() == 's'
            &&& crate::text::numeral_value(expr.drop_last()) * unit_seconds(expr.last()) == seconds
        }),
{
    reveal_strlit("0s");
    reveal_strlit("h");
    reveal_strlit("m");
    reveal_strlit("s");
    let expr = seconds_expr(seconds);
    if seconds == 0 {
        crate::text::law_decimal_denotes_its_number(0);
        assert(expr.drop_last() =~= crate::text::decimal(0));
    } else {
        let count = if seconds % 3600 == 0 {
            seconds / 3600
        } else if seconds % 60 == 0 {
            seconds / 60
        } else {
            seconds
        };
        crate::text::law_decimal_denotes_its_number(count);
        assert(expr.drop_last() =~= crate::text::decimal(count));
        assert(crate::text::decimal(count).len() > 0);
    }
}

/// Different durations of whole seconds never share an expression.
pub proof fn law_expressions_tell_seconds_apart(a: nat, b: nat)
    requires
        seconds_expr(a) == seconds_expr(b),
    ensures
        a == b,
{
    law_expression_denotes_its_seconds(a);
    law_expression_denotes_its_seconds(b);
}

/// The task run that the current code works for.
#[derive(Debug)]
pub struct ExecutionContext {
    pub workflow_run_id: String,
    pub task_run_external_id: String,
    pub child_index: i32,
    /// Which attempt of the task this is. The dashboard uses it to group log lines by
    /// attempt, so a retry's lines are not mixed with those of the first run.
    pub retry_count: i32,
}

/// A model without content, for tasks that need no input or give no output. In JSON it is an
/// empty object.
#[derive(Clone, Copy, Debug)]
pub struct EmptyModel;

/// What a JSON value is read as, or what the error says where it is no [`EmptyModel`]: that the
/// object is not empty, or that the value is of another type.
pub open spec fn read_empty_model(content: Json) -> Result<EmptyModel, Seq<char>> {
    match content {
        Json::Object(members) => if members == crate::json::no_members() {
            Ok(EmptyModel)
        } else {
            Err("expected empty object"@)
        },
        other => Err(crate::json::invalid_type_text(other, "an empty object"@)),
    }
}

impl EmptyModel {
    /// The model as a JSON value: an object without members.
    pub fn to_json(&self) -> (value: Value)
        ensures
            crate::json::json_content(value) == Json::Object(crate::json::no_members()),
    {
        object_value(no_fields())
    }

    /// Reads the model from a JSON value. Only an object without members is one; for any other
    /// value, what is wrong with it is given.
    pub fn from_json(value: &Value) -> (res: Result<EmptyModel, String>)
        ensures
            match res {
                Ok(model) => read_empty_model(crate::json::json_content(*value)) == Ok::<
                    EmptyModel,
                    Seq<char>,
                >(model),
                Err(text) => read_empty_model(crate::json::json_content(*value)) == Err::<
                    EmptyModel,
                    Seq<char>,
                >(text@),
            },
    {
        match as_fields(value) {
            Some(fields) => {
                if fields_are_empty(fields) {
                    Ok(EmptyModel)
                } else {
                    Err("expected empty object".to_owned())
                }
            },
            None => Err(invalid_type(value, "an empty object")),
        }
    }
}

/// The empty model can be read back from the JSON value that it is written as, and from no
/// other.
pub proof fn law_empty_model_is_read_from_what_it_is_written_as(content: Json)
    ensures
        read_empty_model(content) is Ok <==> content == Json::Object(crate::json::no_members()),
{
}

/// A stamp lies as long after the start of 1970 as it was made for, up to a wrap around of its
/// seconds where they do not fit; its nanoseconds are less than a second. There is none only
/// where the clock stands before 1970.
pub proof fn law_a_stamp_tells_its_time(since_epoch: Option<Duration>)
    requires
        since_epoch matches Some(elapsed) ==> elapsed@ <= crate::duration::max_nanos(),
    ensures
        stamp_of(since_epoch) is None <==> since_epoch is None,
        since_epoch matches Some(elapsed) ==> {
            let stamp = stamp_of(since_epoch)->0;
            &&& 0 <= stamp.nanos < 1_000_000_000
            &&& elapsed@ < 0x8000_0000_0000_0000 * 1_000_000_000 ==> stamp.seconds * 1_000_000_000
                + stamp.nanos == elapsed@
            &&& elapsed@ >= 0x8000_0000_0000_0000 * 1_000_000_000 ==> (stamp.seconds
                + 0x1_0000_0000_0000_0000) * 1_000_000_000 + stamp.nanos == elapsed@
        },
{
    if let Some(elapsed) = since_epoch {
        let seconds = elapsed@ / 1_000_000_000;
        assert(elapsed@ == seconds * 1_000_000_000 + elapsed@ % 1_000_000_000);
    }
}

/// Whole hours are written in hours, whole minutes that make no whole hours in minutes, and
/// everything else in seconds, each with the letter of its unit behind the number.
pub proof fn law_expressions_use_the_largest_even_unit(count: nat)
    requires
        count > 0,
    ensures
        seconds_expr(count * 3600) == crate::text::decimal(count).push('h'),
        count % 60 != 0 ==> seconds_expr(count * 60) == crate::text::decimal(count).push('m'),
        count % 60 != 0 ==> seconds_expr(count) == crate::text::decimal(count).push('s'),
        seconds_expr(0) == seq!['0', 's'],
{
    reveal_strlit("0s");
    reveal_strlit("h");
    reveal_strlit("m");
    reveal_strlit("s");
    assert("h"@ =~= seq!['h'] && "m"@ =~= seq!['m'] && "s"@ =~= seq!['s']);
    assert("0s"@ =~= seq!['0', 's']);
    assert((count * 3600) % 3600 == 0 && (count * 3600) / 3600 == count);
    assert(crate::text::decimal(count) + "h"@ =~= crate::text::decimal(count).push('h'));
    assert(crate::text::decimal(count) + "m"@ =~= crate::text::decimal(count).push('m'));
    assert(crate::text::decimal(count) + "s"@ =~= crate::text::decimal(count).push('s'));
    if count % 60 != 0 {
        assert((count * 60) % 3600 != 0) by {
            if (count * 60) % 3600 == 0 {
                let hours = (count * 60) / 3600;
                assert(count * 60 == 3600 * hours);
                assert(count == 60 * hours);
                assert((60 * hours) % 60 == 0);
            }
        }
        assert((count * 60) % 60 == 0 && (count * 60) / 60 == count);
        assert(count % 3600 != 0);
    }
}

/// The header that carries a token is the word `Bearer`, a blank, and the token itself.
pub proof fn law_the_token_stands_behind_the_word_bearer(token: Seq<char>)
    ensures
        bearer(token).len() == 7 + token.len(),
        bearer(token).take(7) == seq!['B', 'e', 'a', 'r', 'e', 'r', ' '],
        bearer(token).skip(7) == token,
{
    reveal_strlit("Bearer ");
    assert(bearer(token).take(7) =~= seq!['B', 'e', 'a', 'r', 'e', 'r', ' ']);
    assert(bearer(token).skip(7) =~= token);
}

/// A value that is no empty model is refused for what is wrong with it: an object for having
/// members, anything else for its type.
pub proof fn law_why_a_value_is_no_empty_model(content: Json, name: Seq<char>)
    ensures
        content matches Json::Object(members) && members.contains_key(name) ==> read_empty_model(
            content,
        ) == Err::<EmptyModel, Seq<char>>("expected empty object"@),
        content !is Object ==> read_empty_model(content) == Err::<EmptyModel, Seq<char>>(
            crate::json::invalid_type_text(content, "an empty object"@),
        ),
{
}

/// A token that no header can carry is refused with what the parser of headers says.
pub proof fn law_a_token_is_refused_with_the_reason()
    ensures
        token_refused() == ErrorView::InvalidAuthHeader("failed to parse metadata value"@),
{
}

/// What a clock reading is stamped as, what a span of whole seconds is written as, and that the
/// empty model is read back from what it is written as.
pub proof fn law_stamps_expressions_and_models(
    elapsed: Duration,
    stamped: Result<Timestamp, HatchetError>,
    unstamped: Result<Timestamp, HatchetError>,
    hours: nat,
    span: Duration,
    expr: String,
    model: EmptyModel,
    written: Value,
    read: Result<EmptyModel, String>,
)
    requires
        elapsed@ < 0x8000_0000_0000_0000 * 1_000_000_000,
        call_ensures(proto_timestamp, (Some(elapsed),), stamped),
        call_ensures(proto_timestamp, (None,), unstamped),
        hours > 0,
        span@ == hours * 3600 * 1_000_000_000,
        call_ensures(duration_to_expr, (span,), expr),
        call_ensures(EmptyModel::to_json, (&model,), written),
        call_ensures(EmptyModel::from_json, (&written,), read),
    ensures
        stamped matches Ok(stamp) && stamp.seconds * 1_000_000_000 + stamp.nanos == elapsed@ && 0
            <= stamp.nanos < 1_000_000_000,
        unstamped matches Err(e) && e is SystemTimeError,
        expr@ == crate::text::decimal(hours).push('h'),
        read is Ok,
{
    law_expressions_use_the_largest_even_unit(hours);
    assert(span@ / 1_000_000_000 == hours * 3600);
    law_empty_model_is_read_from_what_it_is_written_as(crate::json::json_content(written));
}

/// Whatever a span is, its expression says its whole seconds.
pub proof fn law_an_expression_says_the_seconds_of_its_span(span: Duration, expr: String)
    requires
        call_ensures(duration_to_expr, (span,), expr),
    ensures
        expr@.len() > 1,
        ({
            let unit: int = if expr@.last() == 'h' {
                3600
            } else if expr@.last() == 'm' {
                60
            } else {
                1
            };
            crate::text::numeral_value(expr@.drop_last()) * unit == span@ / 1_000_000_000
        }),
{
    law_expression_denotes_its_seconds(span@ / 1_000_000_000);
}

/// A header that carries a token stands under `authorization`, in place of what stood there, and
/// leaves all other headers as they were; where no header can carry the token, all stay as they
/// were.
pub proof fn law_the_token_replaces_only_its_own_header(
    metadata: &mut MetadataMap,
    token: &str,
    res: Result<(), HatchetError>,
    name: Seq<char>,
)
    requires
        call_ensures(add_grpc_auth_header, (metadata, token), res),
    ensures
        ({
            let before = crate::clients::grpc::metadata::metadata_content(*old(metadata));
            let after = crate::clients::grpc::metadata::metadata_content(*final(metadata));
            &&& res is Ok <==> crate::clients::grpc::metadata::is_header_text(token@)
            &&& res is Ok ==> after.contains_key("authorization"@) && after["authorization"@]
                == seq!["Bearer "@ + token@]
            &&& name != "authorization"@ || res is Err ==> {
                &&& after.contains_key(name) <==> before.contains_key(name)
                &&& before.contains_key(name) ==> after[name] == before[name]
            }
            &&& res matches Err(e) ==> e@ == ErrorView::InvalidAuthHeader(
                "failed to parse metadata value"@,
            )
        }),
{
    law_which_tokens_can_be_sent(token@);
}

} // verus!
