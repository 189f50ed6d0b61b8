//! The decisions of the DNS server: which queries it answers, which upstream records make
//! up an answer, which response code a failed lookup gives and whether it is cached; and
//! the mode of the PowerDNS socket.

use vstd::prelude::*;

use crate::text::{decimal, push_str, str_eq};

verus! {

/// The record types that the server answers.
#[derive(Debug, Clone, Copy, PartialEq, Eq, Structural)]
pub enum RecordType {
    A,
    AAAA,
}

/// The response codes the server gives.
#[derive(Debug, Clone, Copy, PartialEq, Eq, Structural)]
pub enum ResponseCode {
    NoError,
    ServFail,
    NXDomain,
    NotImp,
    Refused,
}

/// How an upstream lookup failed.
#[derive(Debug, Clone, Copy, PartialEq, Eq, Structural)]
pub enum UpstreamCode {
    NotFound,
    InvalidArgument,
    Other,
}

/// A record that the API returned for a name.
#[derive(Debug, Clone)]
pub struct LookupRecord {
    pub qtype: String,
    pub content: String,
    pub ttl: u32,
}

/// A failed lookup: how it failed, and why.
#[derive(Debug, Clone)]
pub struct LookupError {
    pub code: UpstreamCode,
    pub message: String,
}

/// The record type that a type name stands for, among the answered ones.
pub open spec fn record_type_of(name: Seq<char>) -> Option<RecordType> {
    if name == "A"@ {
        Some(RecordType::A)
    } else if name == "AAAA"@ {
        Some(RecordType::AAAA)
    } else {
        None
    }
}

pub open spec fn record_type_name(t: RecordType) -> Seq<char> {
    match t {
        RecordType::A => "A"@,
        RecordType::AAAA => "AAAA"@,
    }
}

/// The record type of a query, where the server answers that type; `NotImp` is the answer
/// for every other type.
pub fn supported_query_type(qtype: &str) -> (r: Option<RecordType>)
    ensures
        r == record_type_of(qtype@),
{
    if str_eq(qtype, "A") {
        Some(RecordType::A)
    } else if str_eq(qtype, "AAAA") {
        Some(RecordType::AAAA)
    } else {
        None
    }
}

/// The response code of a failed upstream lookup: an unknown name is `NXDomain`, an invalid
/// query is `Refused`, anything else is `ServFail`.
pub open spec fn failure_code(code: UpstreamCode) -> ResponseCode {
    match code {
        UpstreamCode::NotFound => ResponseCode::NXDomain,
        UpstreamCode::InvalidArgument => ResponseCode::Refused,
        UpstreamCode::Other => ResponseCode::ServFail,
    }
}

/// Whether a response code is a negative answer, which the server may cache.
pub open spec fn is_negative(code: ResponseCode) -> bool {
    code == ResponseCode::NXDomain || code == ResponseCode::Refused
}

/// The response code of a failed upstream lookup.
pub fn response_code_for(code: UpstreamCode) -> (r: ResponseCode)
    ensures
        r == failure_code(code),
{
    match code {
        UpstreamCode::NotFound => ResponseCode::NXDomain,
        UpstreamCode::InvalidArgument => ResponseCode::Refused,
        UpstreamCode::Other => ResponseCode::ServFail,
    }
}

/// Whether a response code is a negative answer, which the server may cache.
pub fn is_negative_response(code: ResponseCode) -> (r: bool)
    ensures
        r == is_negative(code),
{
    match code {
        ResponseCode::NXDomain | ResponseCode::Refused => true,
        _ => false,
    }
}

/// The class of the answer records: the server answers for the Internet class only.
#[derive(Debug, Clone, Copy, PartialEq, Eq, Structural)]
pub enum DnsClass {
    IN,
}

/// The request made to the API for the records of a name.
#[derive(Debug, Clone)]
pub struct LookupRequest {
    pub qtype: String,
    pub qname: String,
    pub zone_id: String,
    pub local: Option<String>,
    pub remote: Option<String>,
    pub real_remote: Option<String>,
}

pub struct LookupRequestView {
    pub qtype: Seq<char>,
    pub qname: Seq<char>,
    pub zone_id: Seq<char>,
    pub local: Option<Seq<char>>,
    pub remote: Option<Seq<char>>,
    pub real_remote: Option<Seq<char>>,
}

pub open spec fn opt_text(o: Option<String>) -> Option<Seq<char>> {
    match o {
        Some(s) => Some(s@),
        None => None,
    }
}

impl View for LookupRequest {
    type V = LookupRequestView;

    open spec fn view(&self) -> LookupRequestView {
        LookupRequestView {
            qtype: self.qtype@,
            qname: self.qname@,
            zone_id: self.zone_id@,
            local: opt_text(self.local),
            remote: opt_text(self.remote),
            real_remote: opt_text(self.real_remote),
        }
    }
}

/// What the server does next with a query: respond at once with a code and no records, or
/// ask the API for the records of the name.
#[derive(Debug, Clone)]
pub enum QueryStep {
    Respond(ResponseCode),
    Lookup(LookupRequest),
}

pub enum QueryStepView {
    Respond(ResponseCode),
    Lookup(LookupRequestView),
}

impl View for QueryStep {
    type V = QueryStepView;

    open spec fn view(&self) -> QueryStepView {
        match self {
            QueryStep::Respond(c) => QueryStepView::Respond(*c),
            QueryStep::Lookup(r) => QueryStepView::Lookup(r@),
        }
    }
}

/// The lookup of the records of type `t` for `qname`, in any zone.
pub open spec fn lookup_request_of(t: RecordType, qname: Seq<char>) -> LookupRequestView {
    LookupRequestView {
        qtype: record_type_name(t),
        qname,
        zone_id: "-1"@,
        local: None,
        remote: None,
        real_remote: None,
    }
}

/// The next step for a query of type `qtype` for `qname`: a type the server does not answer
/// gets `NotImp`; a supported query with a cached negative response gets that code; any
/// other query is looked up.
pub open spec fn query_step_of(qtype: Seq<char>, qname: Seq<char>, cached: Option<ResponseCode>) -> QueryStepView {
    match record_type_of(qtype) {
        None => QueryStepView::Respond(ResponseCode::NotImp),
        Some(t) => match cached {
            Some(code) => QueryStepView::Respond(code),
            None => QueryStepView::Lookup(lookup_request_of(t, qname)),
        },
    }
}

/// The next step for a query, given the negative response cached for it if any; the cached
/// code is only heeded for a type the server answers.
pub fn query_step(qtype: &str, qname: &str, cached: Option<ResponseCode>) -> (r: QueryStep)
    ensures
        r@ == query_step_of(qtype@, qname@, cached),
{
    match supported_query_type(qtype) {
        None => QueryStep::Respond(ResponseCode::NotImp),
        Some(t) => match cached {
            Some(code) => QueryStep::Respond(code),
            None => {
                let name = match t {
                    RecordType::A => String::from_str("A"),
                    RecordType::AAAA => String::from_str("AAAA"),
                };
                QueryStep::Lookup(LookupRequest {
                    qtype: name,
                    qname: String::from_str(qname),
                    zone_id: String::from_str("-1"),
                    local: None,
                    remote: None,
                    real_remote: None,
                })
            },
        },
    }
}

pub struct LookupRecordView {
    pub qtype: Seq<char>,
    pub content: Seq<char>,
    pub ttl: u32,
}

impl View for LookupRecord {
    type V = LookupRecordView;

    open spec fn view(&self) -> LookupRecordView {
        LookupRecordView { qtype: self.qtype@, content: self.content@, ttl: self.ttl }
    }
}

/// A record of a response: its name, time to live, type and class, and the address it
/// gives, as text.
#[derive(Debug, Clone)]
pub struct AnswerRecord {
    pub name: String,
    pub ttl: u32,
    pub record_type: RecordType,
    pub class: DnsClass,
    pub content: String,
}

pub struct AnswerRecordView {
    pub name: Seq<char>,
    pub ttl: u32,
    pub record_type: RecordType,
    pub class: DnsClass,
    pub content: Seq<char>,
}

impl View for AnswerRecord {
    type V = AnswerRecordView;

    open spec fn view(&self) -> AnswerRecordView {
        AnswerRecordView {
            name: self.name@,
            ttl: self.ttl,
            record_type: self.record_type,
            class: self.class,
            content: self.content@,
        }
    }
}

/// The answer record made of a looked-up record for a query of type `t` whose name is
/// `name`: the record's time to live and content, the query's type and name, class `IN`.
pub open spec fn answer_record_of(t: RecordType, name: Seq<char>, r: LookupRecordView) -> AnswerRecordView {
    AnswerRecordView { name, ttl: r.ttl, record_type: t, class: DnsClass::IN, content: r.content }
}

/// What the server answers a looked-up query: the response code, the answer records, and
/// whether the response is a negative one to cache.
#[derive(Debug, Clone)]
pub struct Answer {
    pub code: ResponseCode,
    pub records: Vec<AnswerRecord>,
    pub cache_negative: bool,
}

pub open spec fn lookup_views(v: Seq<LookupRecord>) -> Seq<LookupRecordView> {
    v.map_values(|x: LookupRecord| x@)
}

pub open spec fn answer_views(v: Seq<AnswerRecord>) -> Seq<AnswerRecordView> {
    v.map_values(|x: AnswerRecord| x@)
}

/// The answer to a query of type `t` for `qname`, named `name` in the response, given what
/// the lookup gave and, for each record it gave, whether its content reads as an address of
/// type `t`. The records of that type that read as addresses answer it, in order; where
/// there are none the name is not found, which is a negative response to cache; a failed
/// lookup gives the code of its failure, cached where negative.
pub open spec fn answer_of(
    t: RecordType,
    name: Seq<char>,
    lookup: Result<Seq<LookupRecordView>, UpstreamCode>,
    readable: Seq<bool>,
) -> (ResponseCode, Seq<AnswerRecordView>, bool) {
    match lookup {
        Ok(recs) => {
            let pos = answer_positions(t, recs.map_values(|x: LookupRecordView| x.qtype), readable);
            if pos.len() > 0 {
                (ResponseCode::NoError, pos.map_values(|i: usize| answer_record_of(t, name, recs[i as int])), false)
            } else {
                (failure_code(UpstreamCode::NotFound), Seq::empty(), is_negative(failure_code(UpstreamCode::NotFound)))
            }
        },
        Err(code) => (failure_code(code), Seq::empty(), is_negative(failure_code(code))),
    }
}

/// The answer to a looked-up query of type `qtype` for `qname`, whose name in the response
/// is `record_name`.
pub fn answer_lookup(
    qtype: RecordType,
    qname: &str,
    record_name: &str,
    lookup: Result<Vec<LookupRecord>, UpstreamCode>,
    readable: &Vec<bool>,
) -> (r: Answer)
    requires
        lookup matches Ok(v) ==> readable@.len() == v@.len(),
    ensures
        (r.code, answer_views(r.records@), r.cache_negative) == answer_of(
            qtype,
            record_name@,
            match lookup {
                Ok(v) => Ok(lookup_views(v@)),
                Err(c) => Err(c),
            },
            readable@,
        ),
{
    match lookup {
        Err(c) => {
            let code = response_code_for(c);
            Answer { code, records: Vec::new(), cache_negative: is_negative_response(code) }
        },
        Ok(recs) => {
            let ghost rv = lookup_views(recs@);
            assert(rv.map_values(|x: LookupRecordView| x.qtype) =~= recs@.map_values(|x: LookupRecord| x.qtype@));
            match select_answers(qtype, qname, &recs, readable) {
                Err(e) => {
                    let code = response_code_for(e.code);
                    Answer { code, records: Vec::new(), cache_negative: is_negative_response(code) }
                },
                Ok(pos) => {
                    let ghost types = recs@.map_values(|x: LookupRecord| x.qtype@);
                    let n = recs.len();
                    assert(types.len() == n);
                    proof {
                        lemma_answers_match_query(qtype, types, readable@);
                    }
                    let mut out: Vec<AnswerRecord> = Vec::new();
                    let mut k: usize = 0;
                    while k < pos.len()
                        invariant
                            k <= pos@.len(),
                            pos@ == answer_positions(qtype, types, readable@),
                            types == recs@.map_values(|x: LookupRecord| x.qtype@),
                            rv == lookup_views(recs@),
                            forall|j: int| 0 <= j < pos@.len() ==> 0 <= #[trigger] pos@[j] < recs@.len(),
                            answer_views(out@) =~= pos@.take(k as int).map_values(
                                |i: usize| answer_record_of(qtype, record_name@, rv[i as int]),
                            ),
                        decreases pos@.len() - k,
                    {
                        let i = pos[k];
                        assert(0 <= pos@[k as int] < recs@.len());
                        let rec = AnswerRecord {
                            name: String::from_str(record_name),
                            ttl: recs[i].ttl,
                            record_type: qtype,
                            class: DnsClass::IN,
                            content: recs[i].content.clone(),
                        };
                        let ghost before = out@;
                        out.push(rec);
                        assert(answer_views(out@) =~= answer_views(before).push(rec@));
                        assert(pos@.take(k + 1) =~= pos@.take(k as int).push(pos@[k as int]));
                        k = k + 1;
                    }
                    assert(pos@.take(pos@.len() as int) =~= pos@);
                    Answer { code: ResponseCode::NoError, records: out, cache_negative: false }
                },
            }
        },
    }
}

/// The positions of the records that answer a query of type `qtype`: those of that type
/// whose content reads as an address of that type.
pub open spec fn answer_positions(qtype: RecordType, types: Seq<Seq<char>>, readable: Seq<bool>) -> Seq<usize>
    decreases types.len(),
{
    if types.len() == 0 {
        Seq::empty()
    } else {
        let r = answer_positions(qtype, types.drop_last(), readable);
        let i = types.len() - 1;
        if record_type_of(types[i]) == Some(qtype) && readable[i] {
            r.push(i as usize)
        } else {
            r
        }
    }
}

pub open spec fn msg_no_records(qtype: RecordType, qname: Seq<char>) -> Seq<char> {
    "No "@ + record_type_name(qtype) + " records found for "@ + qname
}

/// The records of a lookup that answer a query of type `qtype` for `qname`, given for each
/// record whether its content reads as an address of that type. The lookup returns every
/// type of record for the name, so the others are dropped; where none is left the name is
/// not found.
pub fn select_answers(qtype: RecordType, qname: &str, records: &Vec<LookupRecord>, readable: &Vec<bool>) -> (r:
    Result<Vec<usize>, LookupError>)
    requires
        readable@.len() == records@.len(),
    ensures
        ({
            let kept = answer_positions(qtype, records@.map_values(|x: LookupRecord| x.qtype@), readable@);
            match r {
                Ok(v) => kept.len() > 0 && v@ == kept,
                Err(e) => kept.len() == 0 && e.code == UpstreamCode::NotFound && e.message@ == msg_no_records(
                    qtype,
                    qname@,
                ),
            }
        }),
{
    let ghost types = records@.map_values(|x: LookupRecord| x.qtype@);
    let mut kept: Vec<usize> = Vec::new();
    let mut i: usize = 0;
    while i < records.len()
        invariant
            i <= records@.len(),
            readable@.len() == records@.len(),
            types == records@.map_values(|x: LookupRecord| x.qtype@),
            kept@ == answer_positions(qtype, types.take(i as int), readable@),
        decreases records@.len() - i,
    {
        assert(types.take(i + 1).drop_last() =~= types.take(i as int));
        assert(types.take(i + 1)[i as int] == records@[i as int].qtype@);
        let t = supported_query_type(records[i].qtype.as_str());
        if t == Some(qtype) && readable[i] {
            kept.push(i);
        }
        assert(kept@ =~= answer_positions(qtype, types.take(i + 1), readable@));
        i = i + 1;
    }
    assert(types.take(records@.len() as int) =~= types);
    if kept.len() == 0 {
        let mut message = String::from_str("No ");
        match qtype {
            RecordType::A => push_str(&mut message, "A"),
            RecordType::AAAA => push_str(&mut message, "AAAA"),
        }
        push_str(&mut message, " records found for ");
        push_str(&mut message, qname);
        assert(message@ =~= msg_no_records(qtype, qname@));
        return Err(LookupError { code: UpstreamCode::NotFound, message });
    }
    Ok(kept)
}

/// Every answer record is a record of the queried type that reads as an address, and each
/// is given once, in the order of the lookup.
pub proof fn lemma_answers_match_query(qtype: RecordType, types: Seq<Seq<char>>, readable: Seq<bool>)
    requires
        readable.len() == types.len(),
        types.len() <= usize::MAX,
    ensures
        forall|k: int|
            0 <= k < answer_positions(qtype, types, readable).len() ==> {
                let i = #[trigger] answer_positions(qtype, types, readable)[k] as int;
                0 <= i < types.len() && record_type_of(types[i]) == Some(qtype) && readable[i]
            },
        forall|k: int, l: int|
            0 <= k < l < answer_positions(qtype, types, readable).len() ==> answer_positions(qtype, types, readable)[k]
                < answer_positions(qtype, types, readable)[l],
    decreases types.len(),
{
    if types.len() > 0 {
        let p = types.drop_last();
        lemma_answers_match_query(qtype, p, readable.drop_last());
        lemma_positions_prefix(qtype, p, readable.drop_last(), readable);
        let prev = answer_positions(qtype, p, readable);
        let all = answer_positions(qtype, types, readable);
        let last = types.len() - 1;
        assert(p =~= types.take(last));
        assert forall|k: int| 0 <= k < prev.len() implies prev[k] < last && 0 <= #[trigger] prev[k] as int && p[prev[k] as int] == types[prev[k] as int] by {
            let i = prev[k] as int;
            assert(0 <= i < p.len());
        }
        if all.len() > prev.len() {
            assert(all =~= prev.push(last as usize));
        } else {
            assert(all =~= prev);
        }
    }
}

proof fn lemma_positions_prefix(qtype: RecordType, types: Seq<Seq<char>>, r1: Seq<bool>, r2: Seq<bool>)
    requires
        types.len() <= r1.len(),
        types.len() <= r2.len(),
        forall|i: int| 0 <= i < types.len() ==> r1[i] == r2[i],
    ensures
        answer_positions(qtype, types, r1) == answer_positions(qtype, types, r2),
    decreases types.len(),
{
    if types.len() > 0 {
        lemma_positions_prefix(qtype, types.drop_last(), r1, r2);
    }
}

/// A query of a type the server does not answer gets `NotImp` and no lookup is made; a
/// supported query with a cached negative response gets that code and no lookup is made;
/// only a supported query with nothing cached is looked up.
pub proof fn lemma_query_steps(qtype: Seq<char>, qname: Seq<char>, cached: Option<ResponseCode>)
    ensures
        record_type_of(qtype) is None ==> query_step_of(qtype, qname, cached) == QueryStepView::Respond(ResponseCode::NotImp),
        record_type_of(qtype) is Some && cached is Some ==> query_step_of(qtype, qname, cached) == QueryStepView::Respond(cached->0),
        (query_step_of(qtype, qname, cached) is Lookup) == (record_type_of(qtype) is Some && cached is None),
{
}

/// Only negative response codes are cached; the answer is `NoError` exactly when the lookup
/// succeeded and gave a record that answers the query, and only then does it carry records.
pub proof fn lemma_answer_caching(
    t: RecordType,
    name: Seq<char>,
    lookup: Result<Seq<LookupRecordView>, UpstreamCode>,
    readable: Seq<bool>,
)
    ensures
        answer_of(t, name, lookup, readable).2 ==> is_negative(answer_of(t, name, lookup, readable).0),
        (answer_of(t, name, lookup, readable).0 == ResponseCode::NoError) == (lookup matches Ok(recs)
            && answer_positions(t, recs.map_values(|x: LookupRecordView| x.qtype), readable).len() > 0),
        answer_of(t, name, lookup, readable).0 != ResponseCode::NoError ==> answer_of(t, name, lookup, readable).1.len() == 0,
{
}

// ---------------------------------------------------------------------------
// The PowerDNS socket
// ---------------------------------------------------------------------------

/// The number that the decimal digits of `n` stand for when read as octal digits, where
/// each of them is an octal digit.
pub open spec fn octal_reading(n: nat) -> Option<nat>
    decreases n,
{
    if n == 0 {
        Some(0)
    } else if n % 10 >= 8 {
        None
    } else {
        match octal_reading(n / 10) {
            Some(v) => Some(v * 8 + n % 10),
            None => None,
        }
    }
}

fn octal_of(n: u32) -> (r: Option<u32>)
    ensures
        match r {
            Some(v) => octal_reading(n as nat) == Some(v as nat) && v <= n,
            None => octal_reading(n as nat) is None,
        },
    decreases n,
{
    if n == 0 {
        return Some(0);
    }
    let d = n % 10;
    if d >= 8 {
        return None;
    }
    match octal_of(n / 10) {
        Some(v) => {
            assert(v * 8 + d <= n) by (nonlinear_arith)
                requires
                    v <= n / 10,
                    d == n % 10,
            ;
            Some(v * 8 + d)
        },
        None => None,
    }
}

pub open spec fn msg_bad_permissions() -> Seq<char> {
    "Failed to parse socket permissions: invalid digit found in string"@
}

/// The file mode of the socket: the configured permissions are written as an octal number
/// in decimal digits, such as `660`; a digit 8 or 9 is refused.
pub fn socket_permissions_mode(socket_permissions: u32) -> (r: Result<u32, String>)
    ensures
        match r {
            Ok(mode) => octal_reading(socket_permissions as nat) == Some(mode as nat),
            Err(e) => octal_reading(socket_permissions as nat) is None && e@ == msg_bad_permissions(),
        },
{
    match octal_of(socket_permissions) {
        Some(mode) => Ok(mode),
        None => Err(String::from_str("Failed to parse socket permissions: invalid digit found in string")),
    }
}

} // verus!
