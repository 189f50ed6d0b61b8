//! Turning the events that the health collectors emit into an OTLP logs export request:
//! one resource per BMC endpoint, carrying that endpoint's log records.

use vstd::prelude::*;

use crate::keyed::{first_index, lemma_first_index_at, lemma_first_index_found, lemma_first_index_none};
use crate::text::{decimal, push_decimal, push_str, str_eq, to_uppercase, uppercase};

verus! {

// ---------------------------------------------------------------------------
// OTLP messages
// ---------------------------------------------------------------------------

/// The OTLP severity numbers that records are given.
pub const SEVERITY_UNSPECIFIED: i32 = 0;
pub const SEVERITY_TRACE: i32 = 1;
pub const SEVERITY_DEBUG: i32 = 5;
pub const SEVERITY_INFO: i32 = 9;
pub const SEVERITY_WARN: i32 = 13;
pub const SEVERITY_ERROR: i32 = 17;
pub const SEVERITY_FATAL: i32 = 21;

/// A value of an OTLP attribute or body.
#[derive(Debug, Clone)]
pub enum Value {
    StringValue(String),
    IntValue(i64),
}

/// An OTLP value, which may be unset.
#[derive(Debug, Clone)]
pub struct AnyValue {
    pub value: Option<Value>,
}

/// An OTLP attribute.
#[derive(Debug, Clone)]
pub struct KeyValue {
    pub key: String,
    pub value: Option<AnyValue>,
}

/// An OTLP log record.
#[derive(Debug, Clone)]
pub struct OtlpLogRecord {
    pub time_unix_nano: u64,
    pub observed_time_unix_nano: u64,
    pub severity_number: i32,
    pub severity_text: String,
    pub body: Option<AnyValue>,
    pub attributes: Vec<KeyValue>,
    pub dropped_attributes_count: u32,
    pub flags: u32,
    pub trace_id: Vec<u8>,
    pub span_id: Vec<u8>,
}

/// The instrumentation scope of OTLP records.
#[derive(Debug, Clone)]
pub struct InstrumentationScope {
    pub name: String,
    pub version: String,
}

/// The records of one instrumentation scope.
#[derive(Debug, Clone)]
pub struct ScopeLogs {
    pub scope: Option<InstrumentationScope>,
    pub log_records: Vec<OtlpLogRecord>,
    pub schema_url: String,
}

/// The resource that records come from.
#[derive(Debug, Clone)]
pub struct Resource {
    pub attributes: Vec<KeyValue>,
    pub dropped_attributes_count: u32,
}

/// The records of one resource.
#[derive(Debug, Clone)]
pub struct ResourceLogs {
    pub resource: Option<Resource>,
    pub scope_logs: Vec<ScopeLogs>,
    pub schema_url: String,
}

/// An OTLP logs export request.
#[derive(Debug, Clone)]
pub struct ExportLogsServiceRequest {
    pub resource_logs: Vec<ResourceLogs>,
}

// ---------------------------------------------------------------------------
// Collector events
// ---------------------------------------------------------------------------

/// A log entry that a collector read from a BMC.
#[derive(Debug, Clone)]
pub struct LogRecord {
    pub body: String,
    pub severity: String,
    pub attributes: Vec<(String, String)>,
}

/// An alert of a collector's health report.
#[derive(Debug, Clone)]
pub struct ReportAlert {
    pub probe_id: String,
    pub target: Option<String>,
    pub message: String,
}

/// A passed probe of a collector's health report.
#[derive(Debug, Clone)]
pub struct ReportSuccess {
    pub probe_id: String,
    pub target: Option<String>,
}

/// A collector's health report; `source` is the name of the report's source.
#[derive(Debug, Clone)]
pub struct CollectorHealthReport {
    pub source: String,
    pub successes: Vec<ReportSuccess>,
    pub alerts: Vec<ReportAlert>,
}

/// The version of a firmware component.
#[derive(Debug, Clone)]
pub struct FirmwareInfo {
    pub component: String,
    pub version: String,
}

/// What a collector emits.
#[derive(Debug, Clone)]
pub enum CollectorEvent {
    Log(LogRecord),
    HealthReport(CollectorHealthReport),
    Firmware(FirmwareInfo),
    Metric,
    MetricCollectionStart,
    MetricCollectionEnd,
    CollectorRemoved,
}

/// The endpoint an event came from, as the export describes it: its key, its address and
/// collector, and what is known of the machine or switch behind it.
#[derive(Debug, Clone)]
pub struct EventContext {
    pub endpoint_key: String,
    pub ip: String,
    pub collector_type: String,
    pub machine_id: Option<String>,
    pub switch_id: Option<String>,
    pub slot_number: Option<i32>,
    pub tray_index: Option<i32>,
    pub nvlink_domain_uuid: Option<String>,
    pub switch_slot_number: Option<i32>,
    pub switch_tray_index: Option<i32>,
}

// ---------------------------------------------------------------------------
// Mathematical values
// ---------------------------------------------------------------------------

pub enum ValueView {
    Str(Seq<char>),
    Int(i64),
}

pub struct KvView {
    pub key: Seq<char>,
    pub value: Option<Option<ValueView>>,
}

pub struct RecordView {
    pub time_unix_nano: u64,
    pub observed_time_unix_nano: u64,
    pub severity_number: i32,
    pub severity_text: Seq<char>,
    pub body: Option<Option<ValueView>>,
    pub attributes: Seq<KvView>,
    pub dropped_attributes_count: u32,
    pub flags: u32,
    pub trace_id: Seq<u8>,
    pub span_id: Seq<u8>,
}

pub struct ScopeLogsView {
    pub scope: Option<(Seq<char>, Seq<char>)>,
    pub log_records: Seq<RecordView>,
    pub schema_url: Seq<char>,
}

pub struct ResourceLogsView {
    pub resource: Option<(Seq<KvView>, u32)>,
    pub scope_logs: Seq<ScopeLogsView>,
    pub schema_url: Seq<char>,
}

pub enum EventView {
    Log { body: Seq<char>, severity: Seq<char>, attributes: Seq<(Seq<char>, Seq<char>)> },
    Health { source: Seq<char>, alerts: nat, successes: nat },
    Firmware { component: Seq<char>, version: Seq<char> },
    Metric,
    MetricCollectionStart,
    MetricCollectionEnd,
    CollectorRemoved,
}

pub struct ContextView {
    pub endpoint_key: Seq<char>,
    pub ip: Seq<char>,
    pub collector_type: Seq<char>,
    pub machine_id: Option<Seq<char>>,
    pub switch_id: Option<Seq<char>>,
    pub slot_number: Option<i32>,
    pub tray_index: Option<i32>,
    pub nvlink_domain_uuid: Option<Seq<char>>,
    pub switch_slot_number: Option<i32>,
    pub switch_tray_index: Option<i32>,
}

pub open spec fn opt_text(o: Option<String>) -> Option<Seq<char>> {
    match o {
        Some(s) => Some(s@),
        None => None,
    }
}

pub open spec fn value_view(v: Value) -> ValueView {
    match v {
        Value::StringValue(s) => ValueView::Str(s@),
        Value::IntValue(n) => ValueView::Int(n),
    }
}

pub open spec fn any_view(a: Option<AnyValue>) -> Option<Option<ValueView>> {
    match a {
        Some(x) => Some(
            match x.value {
                Some(v) => Some(value_view(v)),
                None => None,
            },
        ),
        None => None,
    }
}

impl View for KeyValue {
    type V = KvView;

    open spec fn view(&self) -> KvView {
        KvView { key: self.key@, value: any_view(self.value) }
    }
}

pub open spec fn kv_views(s: Seq<KeyValue>) -> Seq<KvView> {
    s.map_values(|k: KeyValue| k@)
}

impl View for OtlpLogRecord {
    type V = RecordView;

    open spec fn view(&self) -> RecordView {
        RecordView {
            time_unix_nano: self.time_unix_nano,
            observed_time_unix_nano: self.observed_time_unix_nano,
            severity_number: self.severity_number,
            severity_text: self.severity_text@,
            body: any_view(self.body),
            attributes: kv_views(self.attributes@),
            dropped_attributes_count: self.dropped_attributes_count,
            flags: self.flags,
            trace_id: self.trace_id@,
            span_id: self.span_id@,
        }
    }
}

pub open spec fn record_views(s: Seq<OtlpLogRecord>) -> Seq<RecordView> {
    s.map_values(|r: OtlpLogRecord| r@)
}

impl View for ScopeLogs {
    type V = ScopeLogsView;

    open spec fn view(&self) -> ScopeLogsView {
        ScopeLogsView {
            scope: match self.scope {
                Some(sc) => Some((sc.name@, sc.version@)),
                None => None,
            },
            log_records: record_views(self.log_records@),
            schema_url: self.schema_url@,
        }
    }
}

impl View for ResourceLogs {
    type V = ResourceLogsView;

    open spec fn view(&self) -> ResourceLogsView {
        ResourceLogsView {
            resource: match self.resource {
                Some(r) => Some((kv_views(r.attributes@), r.dropped_attributes_count)),
                None => None,
            },
            scope_logs: self.scope_logs@.map_values(|s: ScopeLogs| s@),
            schema_url: self.schema_url@,
        }
    }
}

impl View for ExportLogsServiceRequest {
    type V = Seq<ResourceLogsView>;

    open spec fn view(&self) -> Seq<ResourceLogsView> {
        self.resource_logs@.map_values(|r: ResourceLogs| r@)
    }
}

impl View for CollectorEvent {
    type V = EventView;

    open spec fn view(&self) -> EventView {
        match self {
            CollectorEvent::Log(l) => EventView::Log {
                body: l.body@,
                severity: l.severity@,
                attributes: l.attributes@.map_values(|p: (String, String)| (p.0@, p.1@)),
            },
            CollectorEvent::HealthReport(r) => EventView::Health {
                source: r.source@,
                alerts: r.alerts@.len(),
                successes: r.successes@.len(),
            },
            CollectorEvent::Firmware(f) => EventView::Firmware { component: f.component@, version: f.version@ },
            CollectorEvent::Metric => EventView::Metric,
            CollectorEvent::MetricCollectionStart => EventView::MetricCollectionStart,
            CollectorEvent::MetricCollectionEnd => EventView::MetricCollectionEnd,
            CollectorEvent::CollectorRemoved => EventView::CollectorRemoved,
        }
    }
}

impl View for EventContext {
    type V = ContextView;

    open spec fn view(&self) -> ContextView {
        ContextView {
            endpoint_key: self.endpoint_key@,
            ip: self.ip@,
            collector_type: self.collector_type@,
            machine_id: opt_text(self.machine_id),
            switch_id: opt_text(self.switch_id),
            slot_number: self.slot_number,
            tray_index: self.tray_index,
            nvlink_domain_uuid: opt_text(self.nvlink_domain_uuid),
            switch_slot_number: self.switch_slot_number,
            switch_tray_index: self.switch_tray_index,
        }
    }
}

// ---------------------------------------------------------------------------
// What the conversion gives
// ---------------------------------------------------------------------------

/// The severity number of an upper-case severity text.
pub open spec fn severity_of(upper: Seq<char>) -> i32 {
    if upper == "TRACE"@ {
        SEVERITY_TRACE
    } else if upper == "DEBUG"@ {
        SEVERITY_DEBUG
    } else if upper == "INFO"@ || upper == "INFORMATIONAL"@ || upper == "OK"@ {
        SEVERITY_INFO
    } else if upper == "WARN"@ || upper == "WARNING"@ {
        SEVERITY_WARN
    } else if upper == "ERROR"@ || upper == "ERR"@ {
        SEVERITY_ERROR
    } else if upper == "FATAL"@ || upper == "CRITICAL"@ {
        SEVERITY_FATAL
    } else {
        SEVERITY_UNSPECIFIED
    }
}

/// The severity number of a severity text, whatever its case.
pub open spec fn severity_number_of(text: Seq<char>) -> i32 {
    severity_of(uppercase(text))
}

/// A string value.
pub open spec fn str_value(s: Seq<char>) -> Option<Option<ValueView>> {
    Some(Some(ValueView::Str(s)))
}

/// A string attribute.
pub open spec fn kv_of(key: Seq<char>, val: Seq<char>) -> KvView {
    KvView { key, value: str_value(val) }
}

/// An integer attribute.
pub open spec fn int_kv_of(key: Seq<char>, n: i64) -> KvView {
    KvView { key, value: Some(Some(ValueView::Int(n))) }
}

/// One attribute where a value is present, none where it is not.
pub open spec fn opt_kv(key: Seq<char>, val: Option<Seq<char>>) -> Seq<KvView> {
    match val {
        Some(v) => seq![kv_of(key, v)],
        None => Seq::empty(),
    }
}

/// One integer attribute where a value is present, none where it is not.
pub open spec fn opt_int_kv(key: Seq<char>, val: Option<i32>) -> Seq<KvView> {
    match val {
        Some(v) => seq![int_kv_of(key, v as i64)],
        None => Seq::empty(),
    }
}

/// The attributes of the resource of an endpoint: its key, address and collector, then
/// what is known of the machine or switch behind it.
pub open spec fn context_attributes(c: ContextView) -> Seq<KvView> {
    seq![kv_of("bmc.endpoint"@, c.endpoint_key), kv_of("bmc.ip"@, c.ip), kv_of("collector.type"@, c.collector_type)]
        + opt_kv("machine.id"@, c.machine_id)
        + opt_kv("switch.id"@, c.switch_id)
        + opt_int_kv("machine.slot_number"@, c.slot_number)
        + opt_int_kv("machine.tray_index"@, c.tray_index)
        + opt_kv("nvlink.domain.uuid"@, c.nvlink_domain_uuid)
        + opt_int_kv("switch.slot_number"@, c.switch_slot_number)
        + opt_int_kv("switch.tray_index"@, c.switch_tray_index)
}

/// A record observed at `nanos`, with everything else left unset.
pub open spec fn record_of(
    severity_number: i32,
    severity_text: Seq<char>,
    body: Seq<char>,
    attributes: Seq<KvView>,
    nanos: u64,
) -> RecordView {
    RecordView {
        time_unix_nano: nanos,
        observed_time_unix_nano: nanos,
        severity_number,
        severity_text,
        body: str_value(body),
        attributes,
        dropped_attributes_count: 0,
        flags: 0,
        trace_id: Seq::empty(),
        span_id: Seq::empty(),
    }
}

/// The attributes of a log entry.
pub open spec fn log_attributes(attrs: Seq<(Seq<char>, Seq<char>)>) -> Seq<KvView> {
    attrs.map_values(|p: (Seq<char>, Seq<char>)| kv_of(p.0, p.1))
}

pub open spec fn health_body(alerts: nat, successes: nat, source: Seq<char>) -> Seq<char> {
    "health report: "@ + decimal(alerts) + " alerts, "@ + decimal(successes) + " ok (source: "@ + source + ")"@
}

/// The record an event becomes, if any: a log entry keeps its severity, body and
/// attributes; a health report is summed up, as a warning where it has alerts; a firmware
/// version is reported; metrics and collector bookkeeping give none.
pub open spec fn event_record(e: EventView, nanos: u64) -> Option<RecordView> {
    match e {
        EventView::Log { body, severity, attributes } => Some(
            record_of(severity_number_of(severity), severity, body, log_attributes(attributes), nanos),
        ),
        EventView::Health { source, alerts, successes } => {
            let severity = if alerts == 0 { "INFO"@ } else { "WARN"@ };
            Some(
                record_of(
                    severity_number_of(severity),
                    severity,
                    health_body(alerts, successes, source),
                    seq![kv_of("event.type"@, "health_report"@)],
                    nanos,
                ),
            )
        },
        EventView::Firmware { component, version } => Some(
            record_of(SEVERITY_INFO, "INFO"@, component + ": "@ + version, seq![kv_of("event.type"@, "firmware"@)], nanos),
        ),
        _ => None,
    }
}

/// A group of records of one endpoint: its key, its resource attributes, and its records.
pub type Group = (Seq<char>, Seq<KvView>, Seq<RecordView>);

pub open spec fn group_keys(gs: Seq<Group>) -> Seq<Seq<char>> {
    gs.map_values(|g: Group| g.0)
}

/// The records of a batch grouped by endpoint, in the order the endpoints first gave a
/// record; each group takes its resource attributes from the first of its events.
pub open spec fn groups_of(batch: Seq<(ContextView, EventView)>, nanos: u64) -> Seq<Group>
    decreases batch.len(),
{
    if batch.len() == 0 {
        Seq::empty()
    } else {
        let gs = groups_of(batch.drop_last(), nanos);
        let (c, e) = batch.last();
        match event_record(e, nanos) {
            None => gs,
            Some(r) => {
                let i = first_index(group_keys(gs), c.endpoint_key);
                if i >= 0 {
                    gs.update(i, (gs[i].0, gs[i].1, gs[i].2.push(r)))
                } else {
                    gs.push((c.endpoint_key, context_attributes(c), seq![r]))
                }
            },
        }
    }
}

/// The resource logs of a group: one scope, with no schema.
pub open spec fn resource_logs_of(g: Group) -> ResourceLogsView {
    ResourceLogsView {
        resource: Some((g.1, 0)),
        scope_logs: seq![ScopeLogsView { scope: None, log_records: g.2, schema_url: Seq::empty() }],
        schema_url: Seq::empty(),
    }
}

/// The export request of a batch observed at `nanos`.
pub open spec fn export_of(batch: Seq<(ContextView, EventView)>, nanos: u64) -> Seq<ResourceLogsView> {
    groups_of(batch, nanos).map_values(|g: Group| resource_logs_of(g))
}

pub open spec fn batch_view(batch: Seq<(EventContext, CollectorEvent)>) -> Seq<(ContextView, EventView)> {
    batch.map_values(|p: (EventContext, CollectorEvent)| (p.0@, p.1@))
}

// ---------------------------------------------------------------------------
// The conversion
// ---------------------------------------------------------------------------

/// The severity number of an upper-case severity text.
pub fn severity_of_upper(upper: &str) -> (r: i32)
    ensures
        r == severity_of(upper@),
{
    if str_eq(upper, "TRACE") {
        SEVERITY_TRACE
    } else if str_eq(upper, "DEBUG") {
        SEVERITY_DEBUG
    } else if str_eq(upper, "INFO") || str_eq(upper, "INFORMATIONAL") || str_eq(upper, "OK") {
        SEVERITY_INFO
    } else if str_eq(upper, "WARN") || str_eq(upper, "WARNING") {
        SEVERITY_WARN
    } else if str_eq(upper, "ERROR") || str_eq(upper, "ERR") {
        SEVERITY_ERROR
    } else if str_eq(upper, "FATAL") || str_eq(upper, "CRITICAL") {
        SEVERITY_FATAL
    } else {
        SEVERITY_UNSPECIFIED
    }
}

/// The severity number of a severity text, whatever its case.
pub fn severity_text_to_number(severity: &str) -> (r: i32)
    ensures
        r == severity_number_of(severity@),
{
    let upper = to_uppercase(severity);
    severity_of_upper(upper.as_str())
}

/// A string value.
pub fn string_value(s: String) -> (r: Option<AnyValue>)
    ensures
        any_view(r) == str_value(s@),
{
    Some(AnyValue { value: Some(Value::StringValue(s)) })
}

/// An integer value.
pub fn int_value(value: i64) -> (r: Option<AnyValue>)
    ensures
        any_view(r) == Some(Some(ValueView::Int(value))),
{
    Some(AnyValue { value: Some(Value::IntValue(value)) })
}

/// A string attribute.
pub fn kv(key: &str, val: String) -> (r: KeyValue)
    ensures
        r@ == kv_of(key@, val@),
{
    KeyValue { key: String::from_str(key), value: string_value(val) }
}

/// An integer attribute.
pub fn int_kv(key: &str, value: i64) -> (r: KeyValue)
    ensures
        r@ == int_kv_of(key@, value),
{
    KeyValue { key: String::from_str(key), value: int_value(value) }
}

fn push_kv(attrs: &mut Vec<KeyValue>, a: KeyValue)
    ensures
        kv_views(final(attrs)@) == kv_views(old(attrs)@).push(a@),
{
    attrs.push(a);
    assert(kv_views(attrs@) =~= kv_views(old(attrs)@).push(a@));
}

fn push_opt_kv(attrs: &mut Vec<KeyValue>, key: &str, val: &Option<String>)
    ensures
        kv_views(final(attrs)@) == kv_views(old(attrs)@) + opt_kv(key@, opt_text(*val)),
{
    match val {
        Some(v) => {
            push_kv(attrs, kv(key, v.clone()));
            assert(kv_views(attrs@) =~= kv_views(old(attrs)@) + opt_kv(key@, opt_text(*val)));
        },
        None => {
            assert(kv_views(attrs@) =~= kv_views(old(attrs)@) + opt_kv(key@, opt_text(*val)));
        },
    }
}

fn push_opt_int_kv(attrs: &mut Vec<KeyValue>, key: &str, val: Option<i32>)
    ensures
        kv_views(final(attrs)@) == kv_views(old(attrs)@) + opt_int_kv(key@, val),
{
    match val {
        Some(v) => {
            push_kv(attrs, int_kv(key, v as i64));
            assert(kv_views(attrs@) =~= kv_views(old(attrs)@) + opt_int_kv(key@, val));
        },
        None => {
            assert(kv_views(attrs@) =~= kv_views(old(attrs)@) + opt_int_kv(key@, val));
        },
    }
}

/// The attributes of the resource of an endpoint.
pub fn resource_attributes(context: &EventContext) -> (r: Vec<KeyValue>)
    ensures
        kv_views(r@) == context_attributes(context@),
{
    let mut attrs: Vec<KeyValue> = Vec::new();
    push_kv(&mut attrs, kv("bmc.endpoint", context.endpoint_key.clone()));
    push_kv(&mut attrs, kv("bmc.ip", context.ip.clone()));
    push_kv(&mut attrs, kv("collector.type", context.collector_type.clone()));
    push_opt_kv(&mut attrs, "machine.id", &context.machine_id);
    push_opt_kv(&mut attrs, "switch.id", &context.switch_id);
    push_opt_int_kv(&mut attrs, "machine.slot_number", context.slot_number);
    push_opt_int_kv(&mut attrs, "machine.tray_index", context.tray_index);
    push_opt_kv(&mut attrs, "nvlink.domain.uuid", &context.nvlink_domain_uuid);
    push_opt_int_kv(&mut attrs, "switch.slot_number", context.switch_slot_number);
    push_opt_int_kv(&mut attrs, "switch.tray_index", context.switch_tray_index);
    assert(kv_views(attrs@) =~= context_attributes(context@));
    attrs
}

/// A record observed at `nanos`, with everything else left unset.
fn make_record(severity_number: i32, severity_text: String, body: String, attributes: Vec<KeyValue>, nanos: u64) -> (r:
    OtlpLogRecord)
    ensures
        r@ == record_of(severity_number, severity_text@, body@, kv_views(attributes@), nanos),
{
    let r = OtlpLogRecord {
        time_unix_nano: nanos,
        observed_time_unix_nano: nanos,
        severity_number,
        severity_text,
        body: string_value(body),
        attributes,
        dropped_attributes_count: 0,
        flags: 0,
        trace_id: Vec::new(),
        span_id: Vec::new(),
    };
    assert(r@.trace_id =~= Seq::<u8>::empty());
    assert(r@.span_id =~= Seq::<u8>::empty());
    r
}

/// The record of a log entry observed at `observed_nanos`.
pub fn convert_log(log: &LogRecord, observed_nanos: u64) -> (r: OtlpLogRecord)
    ensures
        r@ == record_of(
            severity_number_of(log.severity@),
            log.severity@,
            log.body@,
            log_attributes(log.attributes@.map_values(|p: (String, String)| (p.0@, p.1@))),
            observed_nanos,
        ),
{
    let ghost pairs = log.attributes@.map_values(|p: (String, String)| (p.0@, p.1@));
    let mut attributes: Vec<KeyValue> = Vec::new();
    let mut i: usize = 0;
    while i < log.attributes.len()
        invariant
            i <= log.attributes@.len(),
            pairs == log.attributes@.map_values(|p: (String, String)| (p.0@, p.1@)),
            kv_views(attributes@) == log_attributes(pairs.take(i as int)),
        decreases log.attributes@.len() - i,
    {
        let (k, v) = (&log.attributes[i].0, &log.attributes[i].1);
        push_kv(&mut attributes, kv(k.as_str(), v.clone()));
        assert(kv_views(attributes@) =~= log_attributes(pairs.take(i + 1)));
        i = i + 1;
    }
    assert(pairs.take(log.attributes@.len() as int) =~= pairs);
    make_record(
        severity_text_to_number(log.severity.as_str()),
        log.severity.clone(),
        log.body.clone(),
        attributes,
        observed_nanos,
    )
}

/// The record an event becomes, if any, observed at `observed_nanos`.
pub fn convert_event(event: &CollectorEvent, observed_nanos: u64) -> (r: Option<OtlpLogRecord>)
    ensures
        match r {
            Some(rec) => event_record(event@, observed_nanos) == Some(rec@),
            None => event_record(event@, observed_nanos) is None,
        },
{
    match event {
        CollectorEvent::Log(log) => {
            let r = convert_log(log, observed_nanos);
            Some(r)
        },
        CollectorEvent::HealthReport(report) => {
            let mut body = String::from_str("health report: ");
            push_decimal(&mut body, report.alerts.len() as u64);
            push_str(&mut body, " alerts, ");
            push_decimal(&mut body, report.successes.len() as u64);
            push_str(&mut body, " ok (source: ");
            push_str(&mut body, report.source.as_str());
            push_str(&mut body, ")");
            assert(body@ =~= health_body(report.alerts@.len(), report.successes@.len(), report.source@));
            let severity = if report.alerts.len() == 0 {
                "INFO"
            } else {
                "WARN"
            };
            let mut attributes: Vec<KeyValue> = Vec::new();
            push_kv(&mut attributes, kv("event.type", String::from_str("health_report")));
            assert(kv_views(attributes@) =~= seq![kv_of("event.type"@, "health_report"@)]);
            Some(make_record(severity_text_to_number(severity), String::from_str(severity), body, attributes, observed_nanos))
        },
        CollectorEvent::Firmware(info) => {
            let mut body = info.component.clone();
            push_str(&mut body, ": ");
            push_str(&mut body, info.version.as_str());
            let mut attributes: Vec<KeyValue> = Vec::new();
            push_kv(&mut attributes, kv("event.type", String::from_str("firmware")));
            assert(kv_views(attributes@) =~= seq![kv_of("event.type"@, "firmware"@)]);
            Some(make_record(SEVERITY_INFO, String::from_str("INFO"), body, attributes, observed_nanos))
        },
        _ => None,
    }
}

pub open spec fn group_view(g: (String, Vec<KeyValue>, Vec<OtlpLogRecord>)) -> Group {
    (g.0@, kv_views(g.1@), record_views(g.2@))
}

pub open spec fn group_views(gs: Seq<(String, Vec<KeyValue>, Vec<OtlpLogRecord>)>) -> Seq<Group> {
    gs.map_values(|g: (String, Vec<KeyValue>, Vec<OtlpLogRecord>)| group_view(g))
}

/// The position of the group of endpoint `key`.
fn find_group(groups: &Vec<(String, Vec<KeyValue>, Vec<OtlpLogRecord>)>, key: &str) -> (r: Option<usize>)
    ensures
        ({
            let i = first_index(group_keys(group_views(groups@)), key@);
            match r {
                Some(k) => k < groups@.len() && i == k,
                None => i == -1,
            }
        }),
{
    let ghost keys = group_keys(group_views(groups@));
    let mut i: usize = 0;
    while i < groups.len()
        invariant
            i <= groups@.len(),
            keys == group_keys(group_views(groups@)),
            forall|j: int| 0 <= j < i ==> keys[j] != key@,
        decreases groups@.len() - i,
    {
        if str_eq(groups[i].0.as_str(), key) {
            proof {
                lemma_first_index_at(keys, key@, i as int);
            }
            return Some(i);
        }
        i = i + 1;
    }
    proof {
        lemma_first_index_none(keys, key@);
    }
    None
}

/// The export request of a batch of events observed at `observed_nanos`: the records of
/// the events grouped by endpoint.
pub fn build_export_request_at(batch: &Vec<(EventContext, CollectorEvent)>, observed_nanos: u64) -> (r:
    ExportLogsServiceRequest)
    ensures
        r@ == export_of(batch_view(batch@), observed_nanos),
{
    let ghost bv = batch_view(batch@);
    let mut groups: Vec<(String, Vec<KeyValue>, Vec<OtlpLogRecord>)> = Vec::new();
    let mut j: usize = 0;
    while j < batch.len()
        invariant
            j <= batch@.len(),
            bv == batch_view(batch@),
            group_views(groups@) == groups_of(bv.take(j as int), observed_nanos),
        decreases batch@.len() - j,
    {
        assert(bv.take(j + 1).drop_last() =~= bv.take(j as int));
        let context = &batch[j].0;
        let event = &batch[j].1;
        match convert_event(event, observed_nanos) {
            None => {},
            Some(record) => {
                match find_group(&groups, context.endpoint_key.as_str()) {
                    Some(i) => {
                        let ghost before = groups@;
                        let (key, attrs, mut records) = groups.remove(i);
                        records.push(record);
                        groups.insert(i, (key, attrs, records));
                        assert(record_views(records@) =~= record_views(before[i as int].2@).push(record@));
                        assert(group_views(groups@) =~= group_views(before).update(
                            i as int,
                            (
                                group_views(before)[i as int].0,
                                group_views(before)[i as int].1,
                                group_views(before)[i as int].2.push(record@),
                            ),
                        ));
                    },
                    None => {
                        let ghost before = groups@;
                        let mut records: Vec<OtlpLogRecord> = Vec::new();
                        records.push(record);
                        assert(record_views(records@) =~= seq![record@]);
                        groups.push((context.endpoint_key.clone(), resource_attributes(context), records));
                        assert(group_views(groups@) =~= group_views(before).push(
                            (context@.endpoint_key, context_attributes(context@), seq![record@]),
                        ));
                    },
                }
            },
        }
        assert(group_views(groups@) == groups_of(bv.take(j + 1), observed_nanos));
        j = j + 1;
    }
    assert(bv.take(batch@.len() as int) =~= bv);
    let ghost all = group_views(groups@);
    let mut resource_logs: Vec<ResourceLogs> = Vec::new();
    while groups.len() > 0
        invariant
            all.len() == resource_logs@.len() + groups@.len(),
            group_views(groups@) == all.skip(resource_logs@.len() as int),
            resource_logs@.map_values(|r: ResourceLogs| r@) == all.take(resource_logs@.len() as int).map_values(
                |g: Group| resource_logs_of(g),
            ),
        decreases groups@.len(),
    {
        let ghost n: int = resource_logs@.len() as int;
        let ghost before = groups@;
        let (_key, attributes, log_records) = groups.remove(0);
        assert(group_views(before)[0] == group_view(before[0]));
        assert(group_views(before)[0] == all.skip(n)[0]);
        assert(group_view(before[0]) == all[n as int]);
        assert(group_views(groups@) =~= group_views(before).skip(1));
        assert(all.skip(n).skip(1) =~= all.skip(n + 1int));
        let mut scope_logs: Vec<ScopeLogs> = Vec::new();
        scope_logs.push(ScopeLogs { scope: None, log_records, schema_url: String::new() });
        let rl = ResourceLogs {
            resource: Some(Resource { attributes, dropped_attributes_count: 0 }),
            scope_logs,
            schema_url: String::new(),
        };
        assert(rl@.scope_logs =~= seq![
            ScopeLogsView { scope: None, log_records: all[n as int].2, schema_url: Seq::empty() },
        ]);
        assert(rl@ == resource_logs_of(all[n as int]));
        let ghost out_before = resource_logs@;
        resource_logs.push(rl);
        assert(resource_logs@.map_values(|r: ResourceLogs| r@) =~= out_before.map_values(|r: ResourceLogs| r@).push(
            rl@,
        ));
        assert(all.take(n + 1int).map_values(|g: Group| resource_logs_of(g)) =~= all.take(n as int).map_values(
            |g: Group| resource_logs_of(g),
        ).push(resource_logs_of(all[n as int])));
        assert(group_views(groups@) =~= all.skip(n + 1int));
    }
    assert(all.take(resource_logs@.len() as int) =~= all);
    let r = ExportLogsServiceRequest { resource_logs };
    assert(r@ =~= export_of(bv, observed_nanos));
    r
}

/// A point in time on the system clock.
#[verifier::external_type_specification]
#[verifier::external_body]
pub struct ExSystemTime(std::time::SystemTime);

/// `std::time::SystemTime::now`: the system clock's reading. Nothing is stated of it: it is
/// the clock's.
#[verifier::external_body]
fn system_now() -> (r: std::time::SystemTime) {
    std::time::SystemTime::now()
}

/// `std::time::SystemTime::duration_since` from the Unix epoch: the time elapsed since then,
/// or `None` where `t` lies before it. Nothing is stated of the duration: the type is opaque.
#[verifier::external_body]
fn since_unix_epoch(t: &std::time::SystemTime) -> (r: Option<core::time::Duration>) {
    match t.duration_since(std::time::SystemTime::UNIX_EPOCH) {
        Ok(d) => Some(d),
        Err(_) => None,
    }
}

/// `std::time::Duration::as_nanos`: the whole nanoseconds of a duration. Nothing is stated
/// of it: the type is opaque.
#[verifier::external_body]
fn duration_nanos(d: &core::time::Duration) -> (r: u128) {
    d.as_nanos()
}

/// The time now, as nanoseconds since the Unix epoch: zero before the epoch, and the low 64
/// bits of the count.
fn observed_unix_nanos() -> u64 {
    let now = system_now();
    match since_unix_epoch(&now) {
        Some(d) => duration_nanos(&d) as u64,
        None => 0,
    }
}

/// The export request of a batch of events, observed now: the records of the events grouped
/// by endpoint.
pub fn build_export_request(batch: &Vec<(EventContext, CollectorEvent)>) -> (r: ExportLogsServiceRequest)
    ensures
        exists|nanos: u64| r@ == export_of(batch_view(batch@), nanos),
{
    let nanos = observed_unix_nanos();
    build_export_request_at(batch, nanos)
}

// ---------------------------------------------------------------------------
// Laws
// ---------------------------------------------------------------------------

/// How many events of a batch become records.
pub open spec fn recorded_count(batch: Seq<(ContextView, EventView)>, nanos: u64) -> nat
    decreases batch.len(),
{
    if batch.len() == 0 {
        0
    } else {
        recorded_count(batch.drop_last(), nanos) + if event_record(batch.last().1, nanos) is Some {
            1nat
        } else {
            0nat
        }
    }
}

/// How many records the groups hold together.
pub open spec fn records_total(gs: Seq<Group>) -> nat
    decreases gs.len(),
{
    if gs.len() == 0 {
        0
    } else {
        records_total(gs.drop_last()) + gs.last().2.len()
    }
}

proof fn lemma_records_total_update(gs: Seq<Group>, i: int, g: Group)
    requires
        0 <= i < gs.len(),
    ensures
        records_total(gs.update(i, g)) == records_total(gs) - gs[i].2.len() + g.2.len(),
    decreases gs.len(),
{
    if i < gs.len() - 1 {
        lemma_records_total_update(gs.drop_last(), i, g);
        assert(gs.update(i, g).drop_last() =~= gs.drop_last().update(i, g));
    } else {
        assert(gs.update(i, g).drop_last() =~= gs.drop_last());
    }
}

/// Whether no two groups share an endpoint.
pub open spec fn unique_endpoints(gs: Seq<Group>) -> bool {
    forall|a: int, b: int| 0 <= a < b < gs.len() ==> gs[a].0 != gs[b].0
}

/// Grouping neither loses nor invents records, and gives each endpoint one group: the
/// groups hold as many records as the batch has events that become records, and no two
/// groups are of the same endpoint.
pub proof fn lemma_grouping_keeps_records(batch: Seq<(ContextView, EventView)>, nanos: u64)
    ensures
        records_total(groups_of(batch, nanos)) == recorded_count(batch, nanos),
        unique_endpoints(groups_of(batch, nanos)),
    decreases batch.len(),
{
    if batch.len() > 0 {
        lemma_grouping_keeps_records(batch.drop_last(), nanos);
        let gs = groups_of(batch.drop_last(), nanos);
        let (c, e) = batch.last();
        match event_record(e, nanos) {
            None => {},
            Some(r) => {
                lemma_first_index_found(group_keys(gs), c.endpoint_key);
                let i = first_index(group_keys(gs), c.endpoint_key);
                if i >= 0 {
                    lemma_records_total_update(gs, i, (gs[i].0, gs[i].1, gs[i].2.push(r)));
                    let g2 = gs.update(i, (gs[i].0, gs[i].1, gs[i].2.push(r)));
                    assert forall|a: int, b: int| 0 <= a < b < g2.len() implies g2[a].0 != g2[b].0 by {
                        assert(g2[a].0 == gs[a].0);
                        assert(g2[b].0 == gs[b].0);
                    }
                } else {
                    let g2 = gs.push((c.endpoint_key, context_attributes(c), seq![r]));
                    assert(g2.drop_last() =~= gs);
                    assert forall|a: int, b: int| 0 <= a < b < g2.len() implies g2[a].0 != g2[b].0 by {
                        if b == gs.len() {
                            assert(group_keys(gs)[a] == gs[a].0);
                        }
                    }
                }
            },
        }
    }
}

/// A batch of which no event becomes a record, such as one of metrics only, gives an
/// export request with no resources.
pub proof fn lemma_recordless_batch_exports_nothing(batch: Seq<(ContextView, EventView)>, nanos: u64)
    requires
        forall|i: int| 0 <= i < batch.len() ==> event_record(#[trigger] batch[i].1, nanos) is None,
    ensures
        groups_of(batch, nanos).len() == 0,
        export_of(batch, nanos) == Seq::<ResourceLogsView>::empty(),
    decreases batch.len(),
{
    if batch.len() > 0 {
        let p = batch.drop_last();
        assert forall|i: int| 0 <= i < p.len() implies event_record(#[trigger] p[i].1, nanos) is None by {
            assert(p[i] == batch[i]);
        }
        lemma_recordless_batch_exports_nothing(p, nanos);
        assert(batch.last() == batch[batch.len() - 1]);
    }
    assert(export_of(batch, nanos) =~= Seq::<ResourceLogsView>::empty());
}

} // verus!
