//! Turning the events that a task emits into log lines of its task run.
//!
//! A [`HatchetLayer`] decides which events reach the dashboard. An event's fields are
//! gathered by a [`FieldCollector`], folded together with those of the enclosing spans, and
//! become a [`LogLine`], which a bounded queue carries to the engine.
use serde_json::Value;
use vstd::prelude::*;

use crate::clients::grpc::event_client::LogEntry;
use crate::error::HatchetError;
use crate::json::{
    bool_value, copied_fields, extend_fields, i64_value, insert_field, into_text, no_fields,
    object_value, text_value, u64_value, value_text, Fields, Json,
};
use crate::text::{same_text, starts_with};
use crate::utils::ExecutionContext;

verus! {

/// How many log lines may be waiting for delivery before further lines are dropped.
pub const SINK_CAPACITY: usize = 1000;

/// How grave an event is, from the gravest to the most talkative.
#[derive(Clone, Copy, Debug, PartialEq, Eq, Structural)]
pub enum Level {
    ERROR,
    WARN,
    INFO,
    DEBUG,
    TRACE,
}

impl Level {
    /// How talkative a level is: an error is the least, a trace the most.
    pub open spec fn verbosity(self) -> nat {
        match self {
            Level::ERROR => 0,
            Level::WARN => 1,
            Level::INFO => 2,
            Level::DEBUG => 3,
            Level::TRACE => 4,
        }
    }

    /// How talkative a level is: an error is the least, a trace the most.
    pub fn rank(self) -> (rank: u8)
        ensures
            rank == self.verbosity(),
    {
        match self {
            Level::ERROR => 0,
            Level::WARN => 1,
            Level::INFO => 2,
            Level::DEBUG => 3,
            Level::TRACE => 4,
        }
    }
}

/// The level of the server that stands for a level.
pub open spec fn server_level(level: Level) -> Seq<char> {
    match level {
        Level::ERROR => "ERROR"@,
        Level::WARN => "WARN"@,
        Level::INFO => "INFO"@,
        Level::DEBUG => "DEBUG"@,
        Level::TRACE => "DEBUG"@,
    }
}

/// Maps a level onto one of the four that the server recognises. `TRACE` has no counterpart
/// there and is reported as `DEBUG`.
pub fn level_name(level: &Level) -> (name: &'static str)
    ensures
        name@ == server_level(*level),
{
    match *level {
        Level::ERROR => "ERROR",
        Level::WARN => "WARN",
        Level::INFO => "INFO",
        Level::DEBUG => "DEBUG",
        Level::TRACE => "DEBUG",
    }
}

/// Two levels share a name only if they are the same or are `DEBUG` and `TRACE`.
pub proof fn law_only_trace_folds_into_another_level(a: Level, b: Level)
    ensures
        server_level(a) == server_level(b) <==> a == b || (a.verbosity() >= 3 && b.verbosity()
            >= 3),
{
    reveal_strlit("ERROR");
    reveal_strlit("WARN");
    reveal_strlit("INFO");
    reveal_strlit("DEBUG");
    assert("ERROR"@[0] == 'E' && "WARN"@[0] == 'W' && "INFO"@[0] == 'I' && "DEBUG"@[0] == 'D');
}

/// The model of a [`FieldCollector`].
#[verifier::ext_equal]
pub struct CollectedFields {
    pub message: Option<Seq<char>>,
    pub fields: Map<Seq<char>, Json>,
}

/// What has been gathered once one more field is recorded: a field of the name `message` is
/// the message, as text, and every other joins the fields, replacing one of the same name.
pub open spec fn with_field(
    collected: CollectedFields,
    name: Seq<char>,
    value: Json,
) -> CollectedFields {
    if name == "message"@ {
        CollectedFields {
            message: Some(
                match value {
                    Json::Text(text) => text,
                    other => crate::json::json_text(other),
                },
            ),
            ..collected
        }
    } else {
        CollectedFields { fields: collected.fields.insert(name, value), ..collected }
    }
}

/// Gathers the fields of an event or a span, keeping the message apart from the rest.
///
/// No field of the name `message` is ever among the others.
pub struct FieldCollector {
    message: Option<String>,
    fields: Fields,
}

impl View for FieldCollector {
    type V = CollectedFields;

    closed spec fn view(&self) -> CollectedFields {
        CollectedFields {
            message: match self.message {
                Some(text) => Some(text@),
                None => None,
            },
            fields: crate::json::fields_content(self.fields),
        }
    }
}

impl FieldCollector {
    #[verifier::type_invariant]
    spec fn wf(self) -> bool {
        !crate::json::fields_content(self.fields).contains_key("message"@)
    }

    /// A collector that has gathered nothing.
    pub fn new() -> (collector: FieldCollector)
        ensures
            collector@ == (CollectedFields { message: None, fields: crate::json::no_members() }),
    {
        FieldCollector { message: None, fields: no_fields() }
    }

    /// Gives up what was gathered: the message, and the other fields.
    pub fn into_parts(self) -> (parts: (Option<String>, Fields))
        ensures
            match parts.0 {
                Some(text) => self@.message == Some(text@),
                None => self@.message is None,
            },
            crate::json::fields_content(parts.1) == self@.fields,
            !self@.fields.contains_key("message"@),
    {
        proof {
            use_type_invariant(&self);
        }
        (self.message, self.fields)
    }

    /// Records a field. A message that is anything but a text is unusual, but its rendering
    /// is still more useful as the message than hidden among the fields.
    pub fn insert(&mut self, name: &str, value: Value)
        ensures
            final(self)@ == with_field(old(self)@, name@, crate::json::json_content(value)),
    {
        proof {
            use_type_invariant(&*self);
        }
        if same_text(name, "message") {
            let message = match into_text(value) {
                Ok(text) => text,
                Err(other) => value_text(&other),
            };
            self.message = Some(message);
        } else {
            let mut fields = no_fields();
            core::mem::swap(&mut fields, &mut self.fields);
            insert_field(&mut fields, name.to_owned(), value);
            self.fields = fields;
        }
    }

    /// Records a field by its debug rendering.
    pub fn record_debug(&mut self, name: &str, rendered: String)
        ensures
            final(self)@ == with_field(old(self)@, name@, Json::Text(rendered@)),
    {
        self.insert(name, text_value(rendered));
    }

    /// Records a text.
    pub fn record_str(&mut self, name: &str, value: &str)
        ensures
            final(self)@ == with_field(old(self)@, name@, Json::Text(value@)),
    {
        self.insert(name, text_value(value.to_owned()));
    }

    /// Records a truth value.
    pub fn record_bool(&mut self, name: &str, value: bool)
        ensures
            final(self)@ == with_field(old(self)@, name@, Json::Bool(value)),
    {
        self.insert(name, bool_value(value));
    }

    /// Records a signed number.
    pub fn record_i64(&mut self, name: &str, value: i64)
        ensures
            final(self)@ == with_field(old(self)@, name@, Json::Integer(value as int)),
    {
        self.insert(name, i64_value(value));
    }

    /// Records an unsigned number.
    pub fn record_u64(&mut self, name: &str, value: u64)
        ensures
            final(self)@ == with_field(old(self)@, name@, Json::Integer(value as int)),
    {
        self.insert(name, u64_value(value));
    }

    /// Records an error by what it displays.
    pub fn record_error(&mut self, name: &str, rendered: String)
        ensures
            final(self)@ == with_field(old(self)@, name@, Json::Text(rendered@)),
    {
        self.insert(name, text_value(rendered));
    }
}

/// The fields recorded on a span, kept so that an event inside it can inherit them.
///
/// Its view is what each name is mapped to. No name is `message`.
pub struct SpanFields {
    fields: Fields,
}

impl View for SpanFields {
    type V = Map<Seq<char>, Json>;

    closed spec fn view(&self) -> Map<Seq<char>, Json> {
        crate::json::fields_content(self.fields)
    }
}

impl SpanFields {
    #[verifier::type_invariant]
    spec fn wf(self) -> bool {
        !crate::json::fields_content(self.fields).contains_key("message"@)
    }

    /// The fields that a span is opened with.
    pub fn new(collector: FieldCollector) -> (span: SpanFields)
        ensures
            span@ == collector@.fields,
            !span@.contains_key("message"@),
    {
        let (_, fields) = collector.into_parts();
        SpanFields { fields }
    }

    /// The fields of a span once further ones are recorded on it: a later record replaces an
    /// earlier one of the same name. A span on which nothing was kept gets just the new ones.
    pub fn recorded(existing: Option<SpanFields>, collector: FieldCollector) -> (span: SpanFields)
        ensures
            span@ == (match existing {
                Some(before) => before@.union_prefer_right(collector@.fields),
                None => collector@.fields,
            }),
            !span@.contains_key("message"@),
    {
        match existing {
            Some(before) => {
                proof {
                    use_type_invariant(&before);
                }
                let (_, more) = collector.into_parts();
                let mut fields = before.fields;
                extend_fields(&mut fields, more);
                SpanFields { fields }
            },
            None => SpanFields::new(collector),
        }
    }

    /// A copy of the fields.
    pub fn copied(&self) -> (copy: SpanFields)
        ensures
            copy@ == self@,
            !copy@.contains_key("message"@),
    {
        proof {
            use_type_invariant(self);
        }
        SpanFields { fields: copied_fields(&self.fields) }
    }
}

/// What a list of spans holds, span by span.
pub open spec fn span_views(spans: Seq<SpanFields>) -> Seq<Map<Seq<char>, Json>> {
    spans.map_values(|span: SpanFields| span@)
}

/// The fields of nested spans, outermost first, folded so that an inner one wins over an
/// outer one of the same name.
pub open spec fn folded(spans: Seq<Map<Seq<char>, Json>>) -> Map<Seq<char>, Json>
    decreases spans.len(),
{
    if spans.len() == 0 {
        crate::json::no_members()
    } else {
        folded(spans.drop_last()).union_prefer_right(spans.last())
    }
}

/// The metadata of a log line: the fields of the enclosing spans, outermost first, those of
/// the event, the event's target, and how many lines were dropped, if any were.
pub open spec fn line_metadata(
    spans: Seq<Map<Seq<char>, Json>>,
    event: Map<Seq<char>, Json>,
    target: Seq<char>,
    dropped: u64,
) -> Map<Seq<char>, Json> {
    let attributed = folded(spans).union_prefer_right(event).insert(
        "target"@,
        Json::Text(target),
    );
    if dropped > 0 {
        attributed.insert("hatchet_dropped_log_lines"@, Json::Integer(dropped as int))
    } else {
        attributed
    }
}

/// Puts together the metadata of a log line.
pub fn event_fields(
    spans: &Vec<SpanFields>,
    event: Fields,
    target: &str,
    dropped: u64,
) -> (metadata: Fields)
    ensures
        crate::json::fields_content(metadata) == line_metadata(
            span_views(spans@),
            crate::json::fields_content(event),
            target@,
            dropped,
        ),
        !crate::json::fields_content(event).contains_key("message"@)
            ==> !crate::json::fields_content(metadata).contains_key("message"@),
{
    let mut fields = no_fields();
    let ghost views = span_views(spans@);
    let mut i: usize = 0;
    proof {
        assert(views.take(0) =~= Seq::empty());
    }
    while i < spans.len()
        invariant
            i <= spans.len(),
            views == span_views(spans@),
            crate::json::fields_content(fields) == folded(views.take(i as int)),
            forall|j: int| 0 <= j < i ==> !(#[trigger] views[j]).contains_key("message"@),
        decreases spans.len() - i,
    {
        let span = spans[i].copied();
        extend_fields(&mut fields, span.fields);
        proof {
            assert(views.take(i + 1).drop_last() =~= views.take(i as int));
            assert(views.take(i + 1).last() == spans@[i as int]@);
        }
        i = i + 1;
    }
    proof {
        assert(views.take(spans.len() as int) =~= views);
        if !crate::json::fields_content(event).contains_key("message"@) {
            law_message_is_never_metadata(
                views,
                crate::json::fields_content(event),
                target@,
                dropped,
            );
        }
    }
    extend_fields(&mut fields, event);
    insert_field(&mut fields, "target".to_owned(), text_value(target.to_owned()));
    if dropped > 0 {
        insert_field(
            &mut fields,
            "hatchet_dropped_log_lines".to_owned(),
            u64_value(dropped),
        );
    }
    fields
}

/// A field of an event wins over fields of the same name on the enclosing spans, unless it bears
/// a name that the line itself adds.
pub proof fn law_event_fields_win_over_span_fields(
    spans: Seq<Map<Seq<char>, Json>>,
    event: Map<Seq<char>, Json>,
    target: Seq<char>,
    dropped: u64,
    name: Seq<char>,
)
    requires
        event.contains_key(name),
        name != "target"@,
        name != "hatchet_dropped_log_lines"@ || dropped == 0,
    ensures
        line_metadata(spans, event, target, dropped).contains_key(name),
        line_metadata(spans, event, target, dropped)[name] == event[name],
{
}

/// Of nested spans that bear the same name, the innermost wins: a field that neither the
/// event nor any span further in has keeps the value that its span gave it.
pub proof fn law_inner_span_fields_win_over_outer_ones(
    spans: Seq<Map<Seq<char>, Json>>,
    event: Map<Seq<char>, Json>,
    target: Seq<char>,
    dropped: u64,
    depth: int,
    name: Seq<char>,
)
    requires
        0 <= depth < spans.len(),
        spans[depth].contains_key(name),
        forall|inner: int| depth < inner < spans.len() ==> !(#[trigger] spans[inner]).contains_key(
            name,
        ),
        !event.contains_key(name),
        name != "target"@,
        name != "hatchet_dropped_log_lines"@ || dropped == 0,
    ensures
        line_metadata(spans, event, target, dropped).contains_key(name),
        line_metadata(spans, event, target, dropped)[name] == spans[depth][name],
{
    lemma_folded_value(spans, depth, name);
}

/// The value that a name has among folded spans.
proof fn lemma_folded_value(spans: Seq<Map<Seq<char>, Json>>, depth: int, name: Seq<char>)
    requires
        0 <= depth < spans.len(),
        spans[depth].contains_key(name),
        forall|inner: int| depth < inner < spans.len() ==> !(#[trigger] spans[inner]).contains_key(
            name,
        ),
    ensures
        folded(spans).contains_key(name),
        folded(spans)[name] == spans[depth][name],
    decreases spans.len(),
{
    if depth < spans.len() - 1 {
        let outer = spans.drop_last();
        assert forall|inner: int| depth < inner < outer.len() implies !(
        #[trigger] outer[inner]).contains_key(name) by {
            assert(outer[inner] == spans[inner]);
        }
        lemma_folded_value(outer, depth, name);
        assert(!spans[spans.len() - 1].contains_key(name));
    }
}

/// The target of an event is always what its line says the target is, and a line says that
/// lines were dropped exactly if some were, unless a field of the code's own bears that name.
pub proof fn law_line_names_its_target_and_the_dropped_lines(
    spans: Seq<Map<Seq<char>, Json>>,
    event: Map<Seq<char>, Json>,
    target: Seq<char>,
    dropped: u64,
)
    ensures
        line_metadata(spans, event, target, dropped).contains_key("target"@),
        line_metadata(spans, event, target, dropped)["target"@] == Json::Text(target),
        dropped > 0 ==> line_metadata(spans, event, target, dropped).contains_key(
            "hatchet_dropped_log_lines"@,
        ) && line_metadata(spans, event, target, dropped)["hatchet_dropped_log_lines"@]
            == Json::Integer(dropped as int),
        dropped == 0 && !folded(spans).contains_key("hatchet_dropped_log_lines"@)
            && !event.contains_key("hatchet_dropped_log_lines"@) ==> !line_metadata(
            spans,
            event,
            target,
            dropped,
        ).contains_key("hatchet_dropped_log_lines"@),
{
    lemma_added_names();
}

/// The names that a line itself adds differ from each other, and neither is `message`.
proof fn lemma_added_names()
    ensures
        "target"@ != "hatchet_dropped_log_lines"@,
        "target"@ != "message"@,
        "hatchet_dropped_log_lines"@ != "message"@,
{
    reveal_strlit("target");
    reveal_strlit("hatchet_dropped_log_lines");
    reveal_strlit("message");
    assert("target"@[0] == 't' && "hatchet_dropped_log_lines"@[0] == 'h' && "message"@[0] == 'm');
}

/// The message is the line itself: no line has metadata of the name `message`.
pub proof fn law_message_is_never_metadata(
    spans: Seq<Map<Seq<char>, Json>>,
    event: Map<Seq<char>, Json>,
    target: Seq<char>,
    dropped: u64,
)
    requires
        forall|i: int| 0 <= i < spans.len() ==> !(#[trigger] spans[i]).contains_key("message"@),
        !event.contains_key("message"@),
    ensures
        !line_metadata(spans, event, target, dropped).contains_key("message"@),
    decreases spans.len(),
{
    lemma_added_names();
    if spans.len() > 0 {
        let outer = spans.drop_last();
        assert forall|i: int| 0 <= i < outer.len() implies !(#[trigger] outer[i]).contains_key(
            "message"@,
        ) by {
            assert(outer[i] == spans[i]);
        }
        law_message_is_never_metadata(outer, event, target, dropped);
        assert(!spans[spans.len() - 1].contains_key("message"@));
    }
}

/// A single log line on its way to the engine.
#[derive(Debug)]
pub struct LogLine {
    pub task_run_external_id: String,
    pub message: String,
    pub level: &'static str,
    pub metadata: String,
    pub retry_count: i32,
}

/// The targets whose events are dropped unless another list is given: this library's own,
/// and those of the networking crates that carry the log lines.
pub open spec fn default_ignored_targets() -> Seq<Seq<char>> {
    seq![
        "hatchet_sdk"@,
        "h2"@,
        "hyper"@,
        "hyper_util"@,
        "tonic"@,
        "tower"@,
        "rustls"@,
        "reqwest"@,
    ]
}

/// The model of a [`HatchetLayer`].
#[verifier::ext_equal]
pub struct LayerView {
    pub max_level: Level,
    pub ignored_targets: Seq<Seq<char>>,
}

impl LayerView {
    /// The target begins with one of those that are ignored.
    pub open spec fn ignores(self, target: Seq<char>) -> bool {
        exists|i: int|
            0 <= i < self.ignored_targets.len() && (#[trigger] self.ignored_targets[i]).is_prefix_of(
                target,
            )
    }

    /// An event of the level and target may reach the dashboard.
    pub open spec fn admits(self, level: Level, target: Seq<char>) -> bool {
        level.verbosity() <= self.max_level.verbosity() && !self.ignores(target)
    }
}

/// Decides which events reach the dashboard, and as what.
#[derive(Debug)]
pub struct HatchetLayer {
    max_level: Level,
    ignored_targets: Vec<String>,
}

impl View for HatchetLayer {
    type V = LayerView;

    closed spec fn view(&self) -> LayerView {
        LayerView {
            max_level: self.max_level,
            ignored_targets: self.ignored_targets@.map_values(|target: String| target@),
        }
    }
}

/// An event, as far as the layer reads it.
pub struct EventRecord {
    pub level: Level,
    pub target: String,
    pub fields: FieldCollector,
}

/// The log line that stands for an event.
pub open spec fn is_line_of(
    line: LogLine,
    event: EventRecord,
    execution: ExecutionContext,
    spans: Seq<SpanFields>,
    dropped: u64,
) -> bool {
    &&& line.task_run_external_id@ == execution.task_run_external_id@
    &&& line.retry_count == execution.retry_count
    &&& line.level@ == server_level(event.level)
    &&& line.message@ == (match event.fields@.message {
        Some(text) => text,
        None => Seq::empty(),
    })
    &&& line.metadata@ == crate::json::json_text(
        Json::Object(
            line_metadata(span_views(spans), event.fields@.fields, event.target@, dropped),
        ),
    )
}

impl HatchetLayer {
    /// A layer that forwards events at `INFO` and above and ignores the default targets.
    pub fn new() -> (layer: HatchetLayer)
        ensures
            layer@ == (LayerView {
                max_level: Level::INFO,
                ignored_targets: default_ignored_targets(),
            }),
    {
        let mut ignored_targets: Vec<String> = Vec::new();
        ignored_targets.push("hatchet_sdk".to_owned());
        ignored_targets.push("h2".to_owned());
        ignored_targets.push("hyper".to_owned());
        ignored_targets.push("hyper_util".to_owned());
        ignored_targets.push("tonic".to_owned());
        ignored_targets.push("tower".to_owned());
        ignored_targets.push("rustls".to_owned());
        ignored_targets.push("reqwest".to_owned());
        let layer = HatchetLayer { max_level: Level::INFO, ignored_targets };
        assert(layer@.ignored_targets =~= default_ignored_targets());
        layer
    }

    /// Forward only events at or above `level`. Defaults to `INFO`.
    pub fn with_max_level(self, level: Level) -> (layer: HatchetLayer)
        ensures
            layer@ == (LayerView { max_level: level, ..self@ }),
    {
        HatchetLayer { max_level: level, ignored_targets: self.ignored_targets }
    }

    /// Drop events whose target starts with any of `targets`, replacing the default list. An
    /// empty list forwards every target.
    pub fn with_ignored_targets(self, targets: Vec<String>) -> (layer: HatchetLayer)
        ensures
            layer@ == (LayerView {
                ignored_targets: targets@.map_values(|target: String| target@),
                ..self@
            }),
    {
        HatchetLayer { max_level: self.max_level, ignored_targets: targets }
    }

    /// Tells whether events of the target are dropped.
    pub fn is_ignored(&self, target: &str) -> (ignored: bool)
        ensures
            ignored == self@.ignores(target@),
    {
        let mut i: usize = 0;
        while i < self.ignored_targets.len()
            invariant
                i <= self.ignored_targets.len(),
                forall|j: int|
                    0 <= j < i ==> !(#[trigger] self@.ignored_targets[j]).is_prefix_of(target@),
            decreases self.ignored_targets.len() - i,
        {
            assert(self@.ignored_targets[i as int] == self.ignored_targets@[i as int]@);
            if starts_with(target, self.ignored_targets[i].as_str()) {
                return true;
            }
            i = i + 1;
        }
        false
    }

    /// Tells whether an event of the level and target may reach the dashboard.
    pub fn admits(&self, level: Level, target: &str) -> (admitted: bool)
        ensures
            admitted == self@.admits(level, target@),
            admitted ==> level.verbosity() <= self@.max_level.verbosity(),
            admitted ==> !self@.ignores(target@),
    {
        level.rank() <= self.max_level.rank() && !self.is_ignored(target)
    }

    /// The log line that an event becomes, or `None` where it is dropped: because of its level
    /// or target, because it was emitted outside a task run, or because nothing has been set up
    /// to carry lines.
    pub fn forward(
        &self,
        event: EventRecord,
        execution: Option<&ExecutionContext>,
        sink_open: bool,
        spans: &Vec<SpanFields>,
        dropped: u64,
    ) -> (line: Option<LogLine>)
        ensures
            line is Some <==> self@.admits(event.level, event.target@) && execution is Some
                && sink_open,
            line matches Some(line) ==> is_line_of(line, event, *execution->0, spans@, dropped),
            line is Some ==> !line_metadata(
                span_views(spans@),
                event.fields@.fields,
                event.target@,
                dropped,
            ).contains_key("message"@),
    {
        if !self.admits(event.level, event.target.as_str()) {
            return None;
        }
        let execution = match execution {
            Some(execution) => execution,
            None => {
                return None;
            },
        };
        if !sink_open {
            return None;
        }
        let level = level_name(&event.level);
        let (message, own) = event.fields.into_parts();
        let fields = event_fields(spans, own, event.target.as_str(), dropped);
        let metadata = value_text(&object_value(fields));
        Some(
            LogLine {
                task_run_external_id: execution.task_run_external_id.clone(),
                message: match message {
                    Some(text) => text,
                    None => String::new(),
                },
                level,
                metadata,
                retry_count: execution.retry_count,
            },
        )
    }
}

/// Raising the level that a layer forwards up to drops nothing that it forwarded before.
pub proof fn law_raising_the_level_drops_nothing(
    layer: LayerView,
    raised: Level,
    level: Level,
    target: Seq<char>,
)
    requires
        layer.max_level.verbosity() <= raised.verbosity(),
        layer.admits(level, target),
    ensures
        (LayerView { max_level: raised, ..layer }).admits(level, target),
{
}

/// A layer that ignores no target and forwards up to `TRACE` forwards every event.
pub proof fn law_an_unfiltered_layer_forwards_everything(level: Level, target: Seq<char>)
    ensures
        (LayerView { max_level: Level::TRACE, ignored_targets: Seq::empty() }).admits(
            level,
            target,
        ),
{
}

/// The default layer forwards exactly the events at `INFO` and above whose target begins with
/// none of the default ignored targets.
pub proof fn law_default_layer(level: Level, target: Seq<char>)
    ensures
        (LayerView {
            max_level: Level::INFO,
            ignored_targets: default_ignored_targets(),
        }).admits(level, target) <==> {
            &&& level == Level::ERROR || level == Level::WARN || level == Level::INFO
            &&& !"hatchet_sdk"@.is_prefix_of(target)
            &&& !"h2"@.is_prefix_of(target)
            &&& !"hyper"@.is_prefix_of(target)
            &&& !"tonic"@.is_prefix_of(target)
            &&& !"tower"@.is_prefix_of(target)
            &&& !"rustls"@.is_prefix_of(target)
            &&& !"reqwest"@.is_prefix_of(target)
        },
{
    let ignored = default_ignored_targets();
    let layer = LayerView { max_level: Level::INFO, ignored_targets: ignored };
    assert(ignored[0] == "hatchet_sdk"@ && ignored[1] == "h2"@ && ignored[2] == "hyper"@
        && ignored[3] == "hyper_util"@ && ignored[4] == "tonic"@ && ignored[5] == "tower"@
        && ignored[6] == "rustls"@ && ignored[7] == "reqwest"@);
    assert("hyper_util"@.is_prefix_of(target) ==> "hyper"@.is_prefix_of(target)) by {
        reveal_strlit("hyper_util");
        reveal_strlit("hyper");
        assert("hyper"@ =~= "hyper_util"@.take(5));
        if "hyper_util"@.is_prefix_of(target) {
            assert("hyper"@ =~= target.take(5));
        }
    }
    if layer.ignores(target) {
        let i = choose|i: int|
            0 <= i < ignored.len() && (#[trigger] ignored[i]).is_prefix_of(target);
        assert(0 <= i < 8);
    }
    assert forall|i: int| 0 <= i < ignored.len() && (#[trigger] ignored[i]).is_prefix_of(
        target,
    ) implies layer.ignores(target) by {
        assert(layer.ignored_targets[i].is_prefix_of(target));
    }
}

/// The count of dropped lines once a line that reported `reported` of them was offered to the
/// queue. A refused line is one more that was dropped; an accepted one takes what it reported
/// off the count, and leaves what was dropped meanwhile. The count wraps around.
pub open spec fn dropped_after_offer(current: u64, reported: u64, accepted: bool) -> int {
    if accepted {
        if current >= reported {
            current - reported
        } else {
            current - reported + 0x1_0000_0000_0000_0000
        }
    } else {
        if current < u64::MAX {
            current + 1
        } else {
            0
        }
    }
}

/// Updates the count of dropped lines once a line was offered to the queue.
pub fn settle_dropped(current: u64, reported: u64, accepted: bool) -> (dropped: u64)
    ensures
        dropped == dropped_after_offer(current, reported, accepted),
{
    if accepted {
        current.wrapping_sub(reported)
    } else {
        current.wrapping_add(1)
    }
}

/// The count of dropped lines after a series of offers, one after another, each reporting the
/// whole count; `true` stands for an accepted line.
pub open spec fn unreported(offers: Seq<bool>) -> u64
    decreases offers.len(),
{
    if offers.len() == 0 {
        0
    } else {
        let before = unreported(offers.drop_last());
        dropped_after_offer(before, before, offers.last()) as u64
    }
}

/// How many dropped lines the accepted lines of a series reported in all.
pub open spec fn reported(offers: Seq<bool>) -> nat
    decreases offers.len(),
{
    if offers.len() == 0 {
        0
    } else {
        reported(offers.drop_last()) + if offers.last() {
            unreported(offers.drop_last()) as nat
        } else {
            0
        }
    }
}

/// How many lines of a series were refused.
pub open spec fn refused(offers: Seq<bool>) -> nat
    decreases offers.len(),
{
    if offers.len() == 0 {
        0
    } else {
        refused(offers.drop_last()) + if offers.last() {
            0nat
        } else {
            1nat
        }
    }
}

/// Every refused line is either reported by a later line or still in the count, once: the
/// count is only cleared when a line that carries it has been accepted.
pub proof fn law_every_dropped_line_is_accounted_for(offers: Seq<bool>)
    requires
        offers.len() <= u64::MAX,
    ensures
        refused(offers) == reported(offers) + unreported(offers),
        refused(offers) <= offers.len(),
    decreases offers.len(),
{
    if offers.len() > 0 {
        law_every_dropped_line_is_accounted_for(offers.drop_last());
    }
}

/// The count of dropped lines after a series of offers that need not follow one another: each
/// reports a count that was read at some time before, and is accepted or refused.
pub open spec fn count_after(offers: Seq<(u64, bool)>) -> u64
    decreases offers.len(),
{
    if offers.len() == 0 {
        0
    } else {
        let (reported, accepted) = offers.last();
        dropped_after_offer(count_after(offers.drop_last()), reported, accepted) as u64
    }
}

/// How many lines of such a series were refused, less what the accepted ones reported.
pub open spec fn refused_less_reported(offers: Seq<(u64, bool)>) -> int
    decreases offers.len(),
{
    if offers.len() == 0 {
        0
    } else {
        let (reported, accepted) = offers.last();
        refused_less_reported(offers.drop_last()) + if accepted {
            -(reported as int)
        } else {
            1
        }
    }
}

/// However offers from several threads interleave, the count is the lines that were refused
/// less those that were reported, up to a wrap around. So where no more lines were reported
/// than were refused, it is exact.
pub proof fn law_the_count_balances_however_offers_interleave(offers: Seq<(u64, bool)>)
    ensures
        (refused_less_reported(offers) - count_after(offers)) % 0x1_0000_0000_0000_0000 == 0,
        0 <= refused_less_reported(offers) <= u64::MAX ==> count_after(offers)
            == refused_less_reported(offers),
    decreases offers.len(),
{
    if offers.len() > 0 {
        law_the_count_balances_however_offers_interleave(offers.drop_last());
    }
}

/// What the queue carries: lines, and requests to be told once everything ahead is delivered.
pub enum SinkMessage<R> {
    Line(Box<LogLine>),
    /// Answered through the responder.
    Flush(R),
}

/// What is to be done with a message of the queue.
pub enum PumpAction<R> {
    PutLog(LogEntry),
    Respond(R),
}

/// The entry says what the line says, with its level and attempt.
pub open spec fn is_entry_of(entry: LogEntry, line: LogLine) -> bool {
    &&& entry.task_run_external_id@ == line.task_run_external_id@
    &&& entry.message@ == line.message@
    &&& entry.level matches Some(level) && level@ == line.level@
    &&& entry.metadata@ == line.metadata@
    &&& entry.task_retry_count == Some(line.retry_count)
}

/// The action does what the message asks for.
pub open spec fn serves<R>(action: PumpAction<R>, message: SinkMessage<R>) -> bool {
    match message {
        SinkMessage::Line(line) => action matches PumpAction::PutLog(entry) && is_entry_of(
            entry,
            *line,
        ),
        SinkMessage::Flush(responder) => action == PumpAction::Respond(responder),
    }
}

/// Decides what is to be done with a message of the queue.
pub fn pump<R>(message: SinkMessage<R>) -> (action: PumpAction<R>)
    ensures
        serves(action, message),
{
    match message {
        SinkMessage::Line(line) => {
            let line: LogLine = *line;
            PumpAction::PutLog(
                LogEntry {
                    task_run_external_id: line.task_run_external_id,
                    message: line.message,
                    level: Some(line.level.to_owned()),
                    metadata: line.metadata,
                    task_retry_count: Some(line.retry_count),
                },
            )
        },
        SinkMessage::Flush(responder) => PumpAction::Respond(responder),
    }
}

/// What happens to the one that serves the queue.
pub enum PumpStep<R> {
    /// The next message came out of the queue.
    Received(SinkMessage<R>),
    /// A line was sent, or could not be.
    Sent(Result<(), HatchetError>),
}

/// The step is one that can come: while a line is being sent, only the end of that; and else
/// only the next message.
pub open spec fn pump_awaits<R>(sending: bool, step: PumpStep<R>) -> bool {
    match step {
        PumpStep::Received(_) => !sending,
        PumpStep::Sent(_) => sending,
    }
}

/// Whether a line is being sent after the step: exactly if it brought one. However the sending
/// of a line ends, it is over then.
pub open spec fn sending_after_step<R>(step: PumpStep<R>) -> bool {
    step matches PumpStep::Received(SinkMessage::Line(_))
}

/// Serves the queue: one message at a time, in the order in which they come.
///
/// Its view is whether a line is being sent.
pub struct Pump {
    sending: bool,
}

impl View for Pump {
    type V = bool;

    closed spec fn view(&self) -> bool {
        self.sending
    }
}

impl Pump {
    /// A pump that has nothing to do.
    pub fn new() -> (pump: Pump)
        ensures
            !pump@,
    {
        Pump { sending: false }
    }

    /// Takes the next message and gives what is to be done with it. No message may be taken
    /// while a line is being sent.
    pub fn receive<R>(&mut self, message: SinkMessage<R>) -> (action: PumpAction<R>)
        requires
            pump_awaits(old(self)@, PumpStep::Received(message)),
        ensures
            serves(action, message),
            final(self)@ == sending_after_step(PumpStep::Received(message)),
    {
        let action = pump(message);
        self.sending = match &action {
            PumpAction::PutLog(_) => true,
            PumpAction::Respond(_) => false,
        };
        action
    }

    /// Takes note that a line was sent, or could not be, and gives the error to warn of in that
    /// case. Either way the next message can be taken.
    pub fn sent(&mut self, outcome: Result<(), HatchetError>) -> (failure: Option<HatchetError>)
        requires
            pump_awaits(old(self)@, PumpStep::<()>::Sent(outcome)),
        ensures
            final(self)@ == sending_after_step(PumpStep::<()>::Sent(outcome)),
            match outcome {
                Ok(()) => failure is None,
                Err(e) => failure == Some(e),
            },
    {
        self.sending = false;
        match outcome {
            Ok(()) => None,
            Err(e) => Some(e),
        }
    }
}

/// Whether a line is being sent after a series of steps.
pub open spec fn sending_after<R>(steps: Seq<PumpStep<R>>) -> bool {
    steps.len() > 0 && sending_after_step(steps.last())
}

/// Each step of the series could come where it came.
pub open spec fn orderly<R>(steps: Seq<PumpStep<R>>) -> bool
    decreases steps.len(),
{
    steps.len() == 0 || {
        &&& orderly(steps.drop_last())
        &&& pump_awaits(sending_after(steps.drop_last()), steps.last())
    }
}

/// The messages that a series of steps brought, in their order.
pub open spec fn messages_of<R>(steps: Seq<PumpStep<R>>) -> Seq<SinkMessage<R>>
    decreases steps.len(),
{
    if steps.len() == 0 {
        Seq::empty()
    } else {
        match steps.last() {
            PumpStep::Received(message) => messages_of(steps.drop_last()).push(message),
            PumpStep::Sent(_) => messages_of(steps.drop_last()),
        }
    }
}

/// How many of the messages are lines.
pub open spec fn lines_in<R>(messages: Seq<SinkMessage<R>>) -> nat
    decreases messages.len(),
{
    if messages.len() == 0 {
        0
    } else {
        lines_in(messages.drop_last()) + if messages.last() is Line {
            1nat
        } else {
            0nat
        }
    }
}

/// How many lines were tried: sent, or found not to be.
pub open spec fn lines_tried<R>(steps: Seq<PumpStep<R>>) -> nat
    decreases steps.len(),
{
    if steps.len() == 0 {
        0
    } else {
        lines_tried(steps.drop_last()) + if steps.last() is Sent {
            1nat
        } else {
            0nat
        }
    }
}

/// Lines are sent one at a time: of those that came out of the queue, all were tried but the one
/// that is being sent, where one is.
pub proof fn law_lines_are_sent_one_at_a_time<R>(steps: Seq<PumpStep<R>>)
    requires
        orderly(steps),
    ensures
        lines_in(messages_of(steps)) == lines_tried(steps) + if sending_after(steps) {
            1nat
        } else {
            0nat
        },
    decreases steps.len(),
{
    if steps.len() > 0 {
        law_lines_are_sent_one_at_a_time(steps.drop_last());
        if let PumpStep::Received(message) = steps.last() {
            let earlier = messages_of(steps.drop_last());
            assert(earlier.push(message).drop_last() =~= earlier);
        }
    }
}

/// A request to flush is answered only after every line that was queued before it was tried.
pub proof fn law_flush_is_answered_after_the_lines_ahead<R>(
    steps: Seq<PumpStep<R>>,
    action: PumpAction<R>,
)
    requires
        steps.len() > 0,
        orderly(steps),
        steps.last() matches PumpStep::Received(message) && serves(action, message),
        action is Respond,
    ensures
        lines_tried(steps.drop_last()) == lines_in(messages_of(steps.drop_last())),
{
    law_lines_are_sent_one_at_a_time(steps.drop_last());
}

/// A line that could not be sent does not stop those behind it: however its sending ended, the
/// next message can be taken.
pub proof fn law_a_line_that_fails_does_not_stop_the_next<R>(
    steps: Seq<PumpStep<R>>,
    outcome: Result<(), HatchetError>,
    next: SinkMessage<R>,
)
    requires
        orderly(steps),
        sending_after(steps),
    ensures
        orderly(steps.push(PumpStep::Sent(outcome)).push(PumpStep::Received(next))),
{
    let sent = steps.push(PumpStep::Sent(outcome));
    let received = sent.push(PumpStep::Received(next));
    assert(sent.drop_last() =~= steps);
    assert(orderly(sent));
    assert(received.drop_last() =~= sent);
}

/// How a queue is served where the sending of the `i`-th message, if it is a line, ends with the
/// `i`-th outcome.
pub open spec fn course_of<R>(
    queue: Seq<SinkMessage<R>>,
    outcomes: Seq<Result<(), HatchetError>>,
) -> Seq<PumpStep<R>>
    decreases queue.len(),
{
    if queue.len() == 0 {
        Seq::empty()
    } else {
        let received = course_of(queue.drop_last(), outcomes).push(
            PumpStep::Received(queue.last()),
        );
        if queue.last() is Line {
            received.push(PumpStep::Sent(outcomes[queue.len() - 1]))
        } else {
            received
        }
    }
}

/// Whatever becomes of each line, a queue is served to its end: every message is taken once, in
/// the order of the queue, and every line is tried.
pub proof fn law_a_queue_is_served_in_order<R>(
    queue: Seq<SinkMessage<R>>,
    outcomes: Seq<Result<(), HatchetError>>,
)
    requires
        queue.len() <= outcomes.len(),
    ensures
        orderly(course_of(queue, outcomes)),
        !sending_after(course_of(queue, outcomes)),
        messages_of(course_of(queue, outcomes)) == queue,
        lines_tried(course_of(queue, outcomes)) == lines_in(queue),
    decreases queue.len(),
{
    if queue.len() > 0 {
        let earlier = course_of(queue.drop_last(), outcomes);
        law_a_queue_is_served_in_order(queue.drop_last(), outcomes);
        let received = earlier.push(PumpStep::Received(queue.last()));
        assert(received.drop_last() =~= earlier);
        assert(orderly(received));
        assert(messages_of(received) =~= queue);
        if queue.last() is Line {
            let sent = received.push(PumpStep::Sent(outcomes[queue.len() - 1]));
            assert(sent.drop_last() =~= received);
            assert(sending_after(received));
            assert(orderly(sent));
        }
    }
    law_lines_are_sent_one_at_a_time(course_of(queue, outcomes));
}

/// Binds the queue to the client that carries its lines, and tells whether the queue is to be
/// set up. Only the first client is bound; for a later one nothing changes.
pub fn init_sink<C>(bound: &mut Option<C>, client: C) -> (start: bool)
    ensures
        start <==> *old(bound) is None,
        *final(bound) == bound_after(*old(bound), client),
{
    if bound.is_none() {
        *bound = Some(client);
        true
    } else {
        false
    }
}

/// The client that is bound once another one was offered.
pub open spec fn bound_after<C>(bound: Option<C>, client: C) -> Option<C> {
    match bound {
        Some(first) => Some(first),
        None => Some(client),
    }
}

/// The client that is bound once several were offered.
pub open spec fn bound_after_all<C>(clients: Seq<C>) -> Option<C>
    decreases clients.len(),
{
    if clients.len() == 0 {
        None
    } else {
        bound_after(bound_after_all(clients.drop_last()), clients.last())
    }
}

/// However many clients are offered, the queue stays with the first. So it is set up once.
pub proof fn law_the_queue_stays_with_the_first_client<C>(clients: Seq<C>)
    requires
        clients.len() > 0,
    ensures
        bound_after_all(clients) == Some(clients[0]),
    decreases clients.len(),
{
    if clients.len() > 1 {
        law_the_queue_stays_with_the_first_client(clients.drop_last());
    } else {
        assert(bound_after_all(clients.drop_last()) is None);
    }
}

/// What happens on a thread.
pub enum ThreadStep {
    /// An event is emitted.
    Emitted,
    /// The handling of an event is over, whether or not it went well.
    Handled,
}

/// Whether a thread is marked after the step.
pub open spec fn marked_after_step(step: ThreadStep) -> bool {
    step is Emitted
}

/// An event that the step emits on a thread is forwarded: the thread is not marked.
pub open spec fn forwards(marked: bool, step: ThreadStep) -> bool {
    step is Emitted && !marked
}

/// Marks a thread as being inside the handling of an event.
///
/// Handling an event may emit another one; without the mark that would go on until the stack
/// ran out.
pub struct ReentrancyGuard {
    _mark: (),
}

impl ReentrancyGuard {
    /// Marks a thread on which an event is emitted. Gives `None` where it is marked already: the
    /// event is then to be discarded.
    pub fn acquire(inside: &mut bool) -> (guard: Option<ReentrancyGuard>)
        ensures
            *final(inside) == marked_after_step(ThreadStep::Emitted),
            guard is Some <==> forwards(*old(inside), ThreadStep::Emitted),
    {
        if *inside {
            None
        } else {
            *inside = true;
            Some(ReentrancyGuard { _mark: () })
        }
    }

    /// Takes the mark away that the guard stands for.
    pub fn release(self, inside: &mut bool)
        ensures
            *final(inside) == marked_after_step(ThreadStep::Handled),
    {
        *inside = false;
    }
}

/// Whether a thread is marked after a series of steps.
pub open spec fn marked_after(marked: bool, steps: Seq<ThreadStep>) -> bool {
    if steps.len() == 0 {
        marked
    } else {
        marked_after_step(steps.last())
    }
}

/// How many events are forwarded in a series of steps on a thread.
pub open spec fn forwarded_in(marked: bool, steps: Seq<ThreadStep>) -> nat
    decreases steps.len(),
{
    if steps.len() == 0 {
        0
    } else {
        forwarded_in(marked, steps.drop_last()) + if forwards(
            marked_after(marked, steps.drop_last()),
            steps.last(),
        ) {
            1nat
        } else {
            0nat
        }
    }
}

/// Events that are emitted while a thread handles another are discarded, however many there are,
/// and leave its mark in place.
pub proof fn law_nested_events_are_discarded(steps: Seq<ThreadStep>)
    requires
        forall|i: int| 0 <= i < steps.len() ==> (#[trigger] steps[i]) is Emitted,
    ensures
        forwarded_in(true, steps) == 0,
        marked_after(true, steps),
    decreases steps.len(),
{
    if steps.len() > 0 {
        let earlier = steps.drop_last();
        assert forall|i: int| 0 <= i < earlier.len() implies (#[trigger] earlier[i]) is Emitted by {
            assert(earlier[i] == steps[i]);
        }
        law_nested_events_are_discarded(earlier);
        assert(steps[steps.len() - 1] is Emitted);
    }
}

/// What was done before a series of steps adds up with what they do.
proof fn lemma_forwarded_in_parts(marked: bool, first: Seq<ThreadStep>, then_steps: Seq<ThreadStep>)
    ensures
        marked_after(marked, first + then_steps) == marked_after(
            marked_after(marked, first),
            then_steps,
        ),
        forwarded_in(marked, first + then_steps) == forwarded_in(marked, first) + forwarded_in(
            marked_after(marked, first),
            then_steps,
        ),
    decreases then_steps.len(),
{
    if then_steps.len() == 0 {
        assert(first + then_steps =~= first);
    } else {
        lemma_forwarded_in_parts(marked, first, then_steps.drop_last());
        assert((first + then_steps).drop_last() =~= first + then_steps.drop_last());
    }
}

/// An event that is emitted on a thread which handles no other is forwarded exactly once, all
/// events that its handling emits are discarded, and the thread is unmarked again afterwards, so
/// that the next event is forwarded.
pub proof fn law_an_event_is_forwarded_once(nested: Seq<ThreadStep>)
    requires
        forall|i: int| 0 <= i < nested.len() ==> (#[trigger] nested[i]) is Emitted,
    ensures
        ({
            let steps = seq![ThreadStep::Emitted] + nested + seq![ThreadStep::Handled];
            &&& forwarded_in(false, steps) == 1
            &&& !marked_after(false, steps)
            &&& forwards(marked_after(false, steps), ThreadStep::Emitted)
        }),
{
    let outer = seq![ThreadStep::Emitted];
    let over = seq![ThreadStep::Handled];
    law_nested_events_are_discarded(nested);
    lemma_forwarded_in_parts(false, outer, nested);
    lemma_forwarded_in_parts(false, outer + nested, over);
    assert(outer.last() is Emitted && over.last() is Handled);
    assert(forwarded_in(false, outer.drop_last()) == 0);
    assert(forwarded_in(true, over.drop_last()) == 0);
}

/// The levels go from errors over warnings, notes and details to traces, each more talkative
/// than the one before it.
pub proof fn law_levels_are_ordered_by_how_talkative_they_are()
    ensures
        Level::ERROR.verbosity() < Level::WARN.verbosity(),
        Level::WARN.verbosity() < Level::INFO.verbosity(),
        Level::INFO.verbosity() < Level::DEBUG.verbosity(),
        Level::DEBUG.verbosity() < Level::TRACE.verbosity(),
{
}

/// Each level that the server knows has its own name there, and a trace goes by that of a
/// detail.
pub proof fn law_levels_have_the_names_of_the_server(level: Level)
    ensures
        level == Level::ERROR <==> server_level(level) == "ERROR"@,
        level == Level::WARN <==> server_level(level) == "WARN"@,
        level == Level::INFO <==> server_level(level) == "INFO"@,
        level == Level::DEBUG || level == Level::TRACE <==> server_level(level) == "DEBUG"@,
{
    reveal_strlit("ERROR");
    reveal_strlit("WARN");
    reveal_strlit("INFO");
    reveal_strlit("DEBUG");
    assert("ERROR"@[0] == 'E' && "WARN"@[0] == 'W' && "INFO"@[0] == 'I' && "DEBUG"@[0] == 'D');
}

/// Whatever level a layer forwards up to: an event that is more talkative is not forwarded, one
/// that is not is, unless its target is ignored; and one of an ignored target never is.
pub proof fn law_a_layer_forwards_up_to_its_level(layer: LayerView, level: Level, target: Seq<char>)
    ensures
        layer.admits(level, target) ==> level.verbosity() <= layer.max_level.verbosity(),
        layer.admits(level, target) ==> !layer.ignores(target),
        level.verbosity() <= layer.max_level.verbosity() && !layer.ignores(target)
            ==> layer.admits(level, target),
        layer.max_level == Level::ERROR && layer.admits(level, target) ==> level == Level::ERROR,
        layer.max_level == Level::WARN && layer.admits(level, target) ==> level == Level::ERROR
            || level == Level::WARN,
        layer.max_level == Level::INFO && layer.admits(level, target) ==> level != Level::DEBUG
            && level != Level::TRACE,
        layer.max_level == Level::DEBUG && layer.admits(level, target) ==> level != Level::TRACE,
{
}

/// A target is ignored exactly if it begins with one of those that are listed: adding one to the
/// list ignores just the targets that begin with it besides, and an empty list ignores none.
pub proof fn law_what_a_layer_ignores(layer: LayerView, more: Seq<char>, target: Seq<char>)
    ensures
        (LayerView { ignored_targets: Seq::empty(), ..layer }).ignores(target) == false,
        (LayerView { ignored_targets: layer.ignored_targets.push(more), ..layer }).ignores(target)
            <==> layer.ignores(target) || (more.len() <= target.len() && target.take(
            more.len() as int,
        ) == more),
{
    let longer = LayerView { ignored_targets: layer.ignored_targets.push(more), ..layer };
    let count = layer.ignored_targets.len() as int;
    assert(longer.ignored_targets[count] == more);
    assert(more.is_prefix_of(target) <==> more.len() <= target.len() && target.take(
        more.len() as int,
    ) == more) by {
        if more.is_prefix_of(target) {
            assert(target.take(more.len() as int) =~= more);
        }
        if more.len() <= target.len() && target.take(more.len() as int) == more {
            assert(more =~= target.subrange(0, more.len() as int));
        }
    }
    if layer.ignores(target) {
        let i = choose|i: int|
            0 <= i < layer.ignored_targets.len() && (
            #[trigger] layer.ignored_targets[i]).is_prefix_of(target);
        assert(longer.ignored_targets[i] == layer.ignored_targets[i]);
    }
    if longer.ignores(target) {
        let i = choose|i: int|
            0 <= i < longer.ignored_targets.len() && (
            #[trigger] longer.ignored_targets[i]).is_prefix_of(target);
        if i < count {
            assert(longer.ignored_targets[i] == layer.ignored_targets[i]);
        }
    }
}

/// A field of the name `message` becomes the message, a text as it is and anything else as its
/// JSON text, and touches no other field. Any other field is kept as it was recorded, in place
/// of an earlier one of its name, and touches neither the message nor fields of other names.
pub proof fn law_what_recording_a_field_changes(
    collected: CollectedFields,
    name: Seq<char>,
    value: Json,
    other: Seq<char>,
    text: Seq<char>,
)
    ensures
        with_field(collected, "message"@, Json::Text(text)).message == Some(text),
        value !is Text ==> with_field(collected, "message"@, value).message == Some(
            crate::json::json_text(value),
        ),
        with_field(collected, "message"@, value).fields == collected.fields,
        name != "message"@ ==> {
            let after = with_field(collected, name, value);
            &&& after.message == collected.message
            &&& after.fields.contains_key(name)
            &&& after.fields[name] == value
            &&& other != name ==> {
                &&& after.fields.contains_key(other) <==> collected.fields.contains_key(other)
                &&& collected.fields.contains_key(other) ==> after.fields[other]
                    == collected.fields[other]
            }
        },
{
}

/// A line has exactly the fields of its event and of the enclosing spans, the target, and the
/// count of dropped lines where there are any: none is lost, and none is made up.
pub proof fn law_which_fields_a_line_has(
    spans: Seq<Map<Seq<char>, Json>>,
    event: Map<Seq<char>, Json>,
    target: Seq<char>,
    dropped: u64,
    name: Seq<char>,
)
    ensures
        line_metadata(spans, event, target, dropped).contains_key(name) <==> {
            ||| name == "target"@
            ||| dropped > 0 && name == "hatchet_dropped_log_lines"@
            ||| event.contains_key(name)
            ||| exists|i: int| 0 <= i < spans.len() && (#[trigger] spans[i]).contains_key(name)
        },
{
    lemma_folded_names(spans, name);
}

/// Folded spans have exactly the names that one of them has.
proof fn lemma_folded_names(spans: Seq<Map<Seq<char>, Json>>, name: Seq<char>)
    ensures
        folded(spans).contains_key(name) <==> exists|i: int|
            0 <= i < spans.len() && (#[trigger] spans[i]).contains_key(name),
    decreases spans.len(),
{
    if spans.len() > 0 {
        let outer = spans.drop_last();
        lemma_folded_names(outer, name);
        assert(spans[spans.len() - 1] == spans.last());
        if folded(outer).contains_key(name) {
            let i = choose|i: int| 0 <= i < outer.len() && (#[trigger] outer[i]).contains_key(name);
            assert(spans[i].contains_key(name));
        }
        if exists|i: int| 0 <= i < spans.len() && (#[trigger] spans[i]).contains_key(name) {
            let i = choose|i: int| 0 <= i < spans.len() && (#[trigger] spans[i]).contains_key(name);
            if i < outer.len() {
                assert(outer[i].contains_key(name));
            }
        }
    }
}

/// What spans hold is read off span by span, none left out.
pub proof fn law_every_span_counts(spans: Seq<SpanFields>)
    ensures
        span_views(spans).len() == spans.len(),
        forall|i: int| 0 <= i < spans.len() ==> (#[trigger] span_views(spans)[i]) == spans[i]@,
{
}

/// The log line of an event belongs to the task run, and the attempt, in which the event was
/// emitted, has the server's name for the event's level, says the event's message or nothing
/// where it has none, and carries its metadata as the text of a JSON object.
pub proof fn law_a_line_says_what_its_event_says(
    line: LogLine,
    event: EventRecord,
    execution: ExecutionContext,
    spans: Seq<SpanFields>,
    dropped: u64,
)
    requires
        is_line_of(line, event, execution, spans, dropped),
    ensures
        line.task_run_external_id@ == execution.task_run_external_id@,
        line.retry_count == execution.retry_count,
        line.level@ == server_level(event.level),
        event.fields@.message matches Some(text) ==> line.message@ == text,
        event.fields@.message is None ==> line.message@.len() == 0,
        line.metadata@ == crate::json::json_text(
            Json::Object(
                line_metadata(span_views(spans), event.fields@.fields, event.target@, dropped),
            ),
        ),
{
}

/// A refused line makes the count of dropped lines one more, and an accepted one takes what it
/// reported off it, both up to a wrap around.
pub proof fn law_how_an_offer_changes_the_count(current: u64, reported: u64)
    ensures
        0 <= dropped_after_offer(current, reported, true) <= u64::MAX,
        0 <= dropped_after_offer(current, reported, false) <= u64::MAX,
        (dropped_after_offer(current, reported, false) - current - 1) % 0x1_0000_0000_0000_0000
            == 0,
        (dropped_after_offer(current, reported, true) + reported - current)
            % 0x1_0000_0000_0000_0000 == 0,
{
}

/// A line of the queue is sent as it is, with its level and attempt, and a request to flush is
/// answered through its own responder; nothing else is done with either.
pub proof fn law_what_is_done_with_a_message<R>(
    action: PumpAction<R>,
    line: Box<LogLine>,
    responder: R,
)
    ensures
        serves(action, SinkMessage::Line(line)) ==> {
            &&& action matches PumpAction::PutLog(entry) && entry.task_run_external_id@
                == line.task_run_external_id@ && entry.message@ == line.message@ && entry.metadata@
                == line.metadata@ && entry.task_retry_count == Some(line.retry_count)
                && entry.level is Some && entry.level->0@ == line.level@
        },
        serves(action, SinkMessage::Flush(responder)) <==> action == PumpAction::Respond(responder),
{
}

/// A line that comes out of the queue is being sent until its sending is over; only then comes
/// the next message. A request to flush keeps nothing waiting.
pub proof fn law_when_the_next_message_comes<R>(
    line: Box<LogLine>,
    responder: R,
    message: SinkMessage<R>,
    outcome: Result<(), HatchetError>,
    sending: bool,
)
    ensures
        sending_after_step(PumpStep::<R>::Received(SinkMessage::Line(line))),
        !sending_after_step(PumpStep::Received(SinkMessage::Flush(responder))),
        !sending_after_step(PumpStep::<R>::Sent(outcome)),
        pump_awaits(sending, PumpStep::Received(message)) <==> !sending,
        pump_awaits(sending, PumpStep::<R>::Sent(outcome)) <==> sending,
{
}

/// A client that is bound stays bound; the first that is offered is bound.
pub proof fn law_the_first_client_is_bound<C>(first: C, later: C)
    ensures
        bound_after(None, first) == Some(first),
        bound_after(Some(first), later) == Some(first),
{
}

/// A thread is marked from when an event is emitted on it until the handling is over, and only
/// an event that is emitted while it is not marked is forwarded.
pub proof fn law_when_a_thread_is_marked(marked: bool)
    ensures
        marked_after_step(ThreadStep::Emitted),
        !marked_after_step(ThreadStep::Handled),
        forwards(marked, ThreadStep::Emitted) <==> !marked,
        !forwards(marked, ThreadStep::Handled),
{
}

/// A thousand lines may wait to be delivered.
pub proof fn law_how_many_lines_may_wait()
    ensures
        SINK_CAPACITY == 1000,
{
}

/// Whatever level and targets a layer is set to: it admits an event exactly if the event is no
/// more talkative than that level and its target begins with none of those targets.
pub proof fn law_a_layer_goes_by_what_it_was_set_to(
    layer: HatchetLayer,
    max_level: Level,
    targets: Vec<String>,
    levelled: HatchetLayer,
    set: HatchetLayer,
    level: Level,
    target: &str,
    admitted: bool,
    ignored: bool,
)
    requires
        call_ensures(HatchetLayer::with_max_level, (layer, max_level), levelled),
        call_ensures(HatchetLayer::with_ignored_targets, (levelled, targets), set),
        call_ensures(HatchetLayer::admits, (&set, level, target), admitted),
        call_ensures(HatchetLayer::is_ignored, (&set, target), ignored),
    ensures
        ignored <==> exists|i: int|
            0 <= i < targets@.len() && (#[trigger] targets@[i])@.is_prefix_of(target@),
        admitted <==> level.verbosity() <= max_level.verbosity() && !ignored,
{
    let listed = set@.ignored_targets;
    assert forall|i: int| 0 <= i < targets@.len() implies listed[i] == (
    #[trigger] targets@[i])@ by {}
    if ignored {
        let i = choose|i: int|
            0 <= i < listed.len() && (#[trigger] listed[i]).is_prefix_of(target@);
        assert(targets@[i]@.is_prefix_of(target@));
    }
    if exists|i: int| 0 <= i < targets@.len() && (#[trigger] targets@[i])@.is_prefix_of(target@) {
        let i = choose|i: int|
            0 <= i < targets@.len() && (#[trigger] targets@[i])@.is_prefix_of(target@);
        assert(listed[i].is_prefix_of(target@));
    }
}

/// An event is forwarded exactly if its layer admits it, it was emitted inside a task run, and
/// something carries lines; its line belongs to that run and that attempt, at the level of the
/// event, and says its message.
pub proof fn law_what_is_forwarded(
    layer: HatchetLayer,
    event: EventRecord,
    execution: ExecutionContext,
    sink_open: bool,
    spans: &Vec<SpanFields>,
    dropped: u64,
    inside: Option<LogLine>,
    outside: Option<LogLine>,
)
    requires
        call_ensures(
            HatchetLayer::forward,
            (&layer, event, Some(&execution), sink_open, spans, dropped),
            inside,
        ),
        call_ensures(
            HatchetLayer::forward,
            (&layer, event, None, sink_open, spans, dropped),
            outside,
        ),
    ensures
        outside is None,
        inside is Some <==> sink_open && event.level.verbosity() <= layer@.max_level.verbosity()
            && !layer@.ignores(event.target@),
        inside matches Some(line) ==> {
            &&& line.task_run_external_id@ == execution.task_run_external_id@
            &&& line.retry_count == execution.retry_count
            &&& line.level@ == server_level(event.level)
            &&& event.fields@.message matches Some(text) ==> line.message@ == text
            &&& event.fields@.message is None ==> line.message@.len() == 0
        },
{
}

/// The level that a line is sent with, what the count of dropped lines becomes, and what is sent
/// for a line of the queue.
pub proof fn law_levels_counts_and_entries(
    level: Level,
    name: &'static str,
    current: u64,
    reported: u64,
    accepted: u64,
    refused: u64,
    line: Box<LogLine>,
    action: PumpAction<()>,
)
    requires
        call_ensures(level_name, (&level,), name),
        call_ensures(settle_dropped, (current, reported, true), accepted),
        call_ensures(settle_dropped, (current, reported, false), refused),
        call_ensures(pump::<()>, (SinkMessage::Line(line),), action),
    ensures
        name@ == "ERROR"@ <==> level == Level::ERROR,
        name@ == "WARN"@ <==> level == Level::WARN,
        name@ == "INFO"@ <==> level == Level::INFO,
        current >= reported ==> accepted == current - reported,
        current < u64::MAX ==> refused == current + 1,
        action matches PumpAction::PutLog(entry) && entry.task_run_external_id@
            == line.task_run_external_id@ && entry.message@ == line.message@ && entry.metadata@
            == line.metadata@ && entry.task_retry_count == Some(line.retry_count)
            && entry.level is Some && entry.level->0@ == line.level@,
{
    law_levels_have_the_names_of_the_server(level);
}

/// The message of an event is what was recorded under that name, and every other field is kept
/// as it was recorded, whatever is recorded before or after it under other names.
pub proof fn law_recorded_fields_are_kept(
    first: &mut FieldCollector,
    second: &mut FieldCollector,
    name: &str,
    value: Value,
    message: &str,
    text: &str,
)
    requires
        name@ != "message"@,
        message@ == "message"@,
        call_ensures(FieldCollector::insert, (first, name, value), ()),
        *final(first) == *old(second),
        call_ensures(FieldCollector::record_str, (second, message, text), ()),
    ensures
        final(second)@.message == Some(text@),
        final(second)@.fields.contains_key(name@),
        final(second)@.fields[name@] == crate::json::json_content(value),
        final(first)@.message == old(first)@.message,
        final(second)@.fields == final(first)@.fields,
{
}

/// A field is recorded as the value that it has: a text as a text, a truth value as one, and a
/// number as that number.
pub proof fn law_fields_are_recorded_as_what_they_are(
    collector: &mut FieldCollector,
    text_collector: &mut FieldCollector,
    flag_collector: &mut FieldCollector,
    signed_collector: &mut FieldCollector,
    unsigned_collector: &mut FieldCollector,
    name: &str,
    rendered: String,
    text: &str,
    flag: bool,
    signed: i64,
    unsigned: u64,
)
    requires
        name@ != "message"@,
        call_ensures(FieldCollector::record_debug, (collector, name, rendered), ()),
        call_ensures(FieldCollector::record_str, (text_collector, name, text), ()),
        call_ensures(FieldCollector::record_bool, (flag_collector, name, flag), ()),
        call_ensures(FieldCollector::record_i64, (signed_collector, name, signed), ()),
        call_ensures(FieldCollector::record_u64, (unsigned_collector, name, unsigned), ()),
    ensures
        final(collector)@.fields[name@] == Json::Text(rendered@),
        final(text_collector)@.fields[name@] == Json::Text(text@),
        final(flag_collector)@.fields[name@] == Json::Bool(flag),
        final(signed_collector)@.fields[name@] == Json::Integer(signed as int),
        final(unsigned_collector)@.fields[name@] == Json::Integer(unsigned as int),
{
}

/// What is recorded on a span later wins over what it was opened with, and all else that it was
/// opened with stays.
pub proof fn law_a_span_keeps_what_is_recorded_on_it(
    opened: FieldCollector,
    later: FieldCollector,
    span: SpanFields,
    recorded: SpanFields,
    copy: SpanFields,
    name: Seq<char>,
)
    requires
        call_ensures(SpanFields::new, (opened,), span),
        call_ensures(SpanFields::recorded, (Some(span), later), recorded),
        call_ensures(SpanFields::copied, (&recorded,), copy),
    ensures
        copy@.contains_key(name) <==> opened@.fields.contains_key(name)
            || later@.fields.contains_key(name),
        later@.fields.contains_key(name) ==> copy@[name] == later@.fields[name],
        opened@.fields.contains_key(name) && !later@.fields.contains_key(name) ==> copy@[name]
            == opened@.fields[name],
{
}

/// A thread that handles an event discards another one and goes on being marked; once the
/// handling is over, it is unmarked.
pub proof fn law_a_guard_is_held_by_one_event_at_a_time(
    outer: &mut bool,
    inner: &mut bool,
    end: &mut bool,
    guard: ReentrancyGuard,
    first: Option<ReentrancyGuard>,
    second: Option<ReentrancyGuard>,
)
    requires
        call_ensures(ReentrancyGuard::acquire, (outer,), first),
        *final(outer) == *old(inner),
        call_ensures(ReentrancyGuard::acquire, (inner,), second),
        *final(inner) == *old(end),
        call_ensures(ReentrancyGuard::release, (guard, end), ()),
    ensures
        first is Some <==> !*old(outer),
        second is None,
        *final(inner),
        !*final(end),
{
}

/// The first client that is offered sets the queue up and stays; a later one does neither.
pub proof fn law_only_the_first_client_sets_the_queue_up<C>(
    bound: &mut Option<C>,
    again: &mut Option<C>,
    first: C,
    later: C,
    started: bool,
    restarted: bool,
)
    requires
        *old(bound) is None,
        call_ensures(init_sink::<C>, (bound, first), started),
        *final(bound) == *old(again),
        call_ensures(init_sink::<C>, (again, later), restarted),
    ensures
        started,
        !restarted,
        *final(again) == Some(first),
{
}

/// A line says the target of its event, and every field of the event that does not give way to
/// that; a field of a span only where neither the event nor a span further in has it.
pub proof fn law_what_stands_beside_a_message(
    spans: &Vec<SpanFields>,
    event: Fields,
    target: &str,
    metadata: Fields,
    name: Seq<char>,
    i: int,
)
    requires
        call_ensures(event_fields, (spans, event, target, 0u64), metadata),
        0 <= i < spans.len(),
    ensures
        ({
            let said = crate::json::fields_content(metadata);
            let own = crate::json::fields_content(event);
            &&& said.contains_key("target"@) && said["target"@] == Json::Text(target@)
            &&& name != "target"@ && own.contains_key(name) ==> said.contains_key(name)
                && said[name] == own[name]
            &&& name != "target"@ && !own.contains_key(name) && spans[i]@.contains_key(name) && (
            forall|j: int| i < j < spans.len() ==> !(#[trigger] spans[j])@.contains_key(name))
                ==> said.contains_key(name) && said[name] == spans[i]@[name]
        }),
{
    let views = span_views(spans@);
    assert(views.len() == spans.len());
    assert forall|j: int| 0 <= j < spans.len() implies views[j] == (#[trigger] spans[j])@ by {}
    if spans[i]@.contains_key(name) && (forall|j: int|
        i < j < spans.len() ==> !(#[trigger] spans[j])@.contains_key(name)) {
        assert(views[i] == spans[i]@);
        assert forall|j: int| i < j < views.len() implies !(#[trigger] views[j]).contains_key(
            name,
        ) by {
            assert(views[j] == spans[j]@);
        }
        lemma_innermost_field_is_kept(views, i, name);
    }
}

/// Of the spans that have a field, the innermost decides it.
proof fn lemma_innermost_field_is_kept(
    spans: Seq<Map<Seq<char>, Json>>,
    i: int,
    name: Seq<char>,
)
    requires
        0 <= i < spans.len(),
        spans[i].contains_key(name),
        forall|j: int| i < j < spans.len() ==> !(#[trigger] spans[j]).contains_key(name),
    ensures
        folded(spans).contains_key(name),
        folded(spans)[name] == spans[i][name],
    decreases spans.len(),
{
    if i < spans.len() - 1 {
        assert(!spans[spans.len() - 1].contains_key(name));
        assert forall|j: int| i < j < spans.drop_last().len() implies !(
        #[trigger] spans.drop_last()[j]).contains_key(name) by {
            assert(spans.drop_last()[j] == spans[j]);
        }
        lemma_innermost_field_is_kept(spans.drop_last(), i, name);
    }
}

/// A line that is received is sent as it is, and while it is being sent no other message is
/// taken; once the sending is over the next one is, and a failure is told as it was.
pub proof fn law_a_line_is_sent_before_the_next_message<R>(
    before: &mut Pump,
    after: &mut Pump,
    line: Box<LogLine>,
    next: SinkMessage<R>,
    action: PumpAction<R>,
    outcome: Result<(), HatchetError>,
    failure: Option<HatchetError>,
)
    requires
        call_ensures(Pump::receive::<R>, (before, SinkMessage::Line(line)), action),
        *final(before) == *old(after),
        call_ensures(Pump::sent, (after, outcome), failure),
    ensures
        action matches PumpAction::PutLog(entry) && entry.task_run_external_id@
            == line.task_run_external_id@ && entry.message@ == line.message@ && entry.metadata@
            == line.metadata@ && entry.level is Some && entry.level->0@ == line.level@
            && entry.task_retry_count == Some(line.retry_count),
        !pump_awaits(final(before)@, PumpStep::Received(next)),
        pump_awaits(final(after)@, PumpStep::Received(next)),
        failure is Some <==> outcome is Err,
        outcome is Err ==> failure->0 == outcome->Err_0,
{
}

/// An error is recorded as the text that it was rendered to.
pub proof fn law_an_error_is_recorded_as_its_text(
    collector: &mut FieldCollector,
    name: &str,
    rendered: String,
)
    requires
        name@ != "message"@,
        call_ensures(FieldCollector::record_error, (collector, name, rendered), ()),
    ensures
        final(collector)@.fields.contains_key(name@),
        final(collector)@.fields[name@] == Json::Text(rendered@),
        final(collector)@.message == old(collector)@.message,
{
}

} // verus!
