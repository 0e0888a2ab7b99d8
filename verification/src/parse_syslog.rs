//! Reading a syslog message into an object.

use vstd::prelude::*;
use chrono::FixedOffset;
use syslog_loose::ProcId::{Name, PID};
use syslog_loose::Protocol::{RFC3164, RFC5424};
use syslog_loose::Variant::Either;
use syslog_loose::{
    parse_message_with_year_exact_tz, parse_message_with_year_tz, IncompleteDate, Message,
    StructuredElement, SyslogFacility, SyslogSeverity,
};
use crate::expr::Expr;
use crate::function_argument::{is_required, required, FunctionArgument, Parameter, BYTES};
use crate::kind::{fields_view, lemma_fields_push, Field, Fields, Kind, KindView};
use crate::value::{lemma_members_push, members_view, Member, Value, ValueView};

verus! {

/// The time that messages are read at: the year and the month, and the
/// offset from universal time, in seconds to the east, that a message is
/// taken to be written in where it names none.
#[derive(Clone, Copy, Debug, PartialEq, Eq, Structural)]
pub struct Clock {
    pub year: i32,
    pub month: u32,
    pub offset_seconds: i32,
}

impl Clock {
    /// The offset that is read with: the one given where it is less than a
    /// day, and else none.
    pub open spec fn offset(self) -> int {
        if -86_400 < self.offset_seconds < 86_400 {
            self.offset_seconds as int
        } else {
            0
        }
    }
}

/// The year of a message that gives none: last year for a message of
/// December read in January, and else this year.
pub open spec fn year_of(year_now: int, month_now: int, month: int) -> int {
    if month_now == 1 && month == 12 && year_now > i32::MIN {
        year_now - 1
    } else {
        year_now
    }
}

/// The year of a message that gives none.
pub fn resolve_year(year_now: i32, month_now: u32, month: u32) -> (year: i32)
    ensures
        year == year_of(year_now as int, month_now as int, month as int),
{
    if month_now == 1 && month == 12 && year_now > i32::MIN {
        year_now - 1
    } else {
        year_now
    }
}

/// What a message says of the process that sent it.
#[derive(Clone, Debug, PartialEq, Eq)]
pub enum ProcessId {
    Pid(i32),
    Name(String),
}

/// The mathematical model of a [`ProcessId`].
pub ghost enum ProcessIdView {
    Pid(int),
    Name(Seq<char>),
}

impl View for ProcessId {
    type V = ProcessIdView;

    open spec fn view(&self) -> ProcessIdView {
        match self {
            ProcessId::Pid(pid) => ProcessIdView::Pid(*pid as int),
            ProcessId::Name(name) => ProcessIdView::Name(name@),
        }
    }
}

/// The model of a text that may be missing.
pub open spec fn text_view(text: Option<String>) -> Option<Seq<char>> {
    match text {
        Some(text) => Some(text@),
        None => None,
    }
}

/// The model of a fixed text that may be missing.
pub open spec fn name_view(name: Option<&'static str>) -> Option<Seq<char>> {
    match name {
        Some(name) => Some(name@),
        None => None,
    }
}

/// The parts of a syslog message before its structured data, and its text.
#[derive(Clone, Debug, PartialEq, Eq)]
pub struct Header {
    /// The version of the protocol, where the message is of the newer form.
    pub version: Option<u32>,
    pub facility: Option<&'static str>,
    pub severity: Option<&'static str>,
    /// Whole seconds since the epoch and the nanoseconds after them.
    pub timestamp: Option<(i64, u32)>,
    pub hostname: Option<String>,
    pub appname: Option<String>,
    pub procid: Option<ProcessId>,
    pub msgid: Option<String>,
    pub msg: String,
}

/// The mathematical model of a [`Header`].
pub ghost struct HeaderView {
    pub version: Option<u32>,
    pub facility: Option<Seq<char>>,
    pub severity: Option<Seq<char>>,
    pub timestamp: Option<(i64, u32)>,
    pub hostname: Option<Seq<char>>,
    pub appname: Option<Seq<char>>,
    pub procid: Option<ProcessIdView>,
    pub msgid: Option<Seq<char>>,
    pub msg: Seq<char>,
}

impl View for Header {
    type V = HeaderView;

    open spec fn view(&self) -> HeaderView {
        HeaderView {
            version: self.version,
            facility: name_view(self.facility),
            severity: name_view(self.severity),
            timestamp: self.timestamp,
            hostname: text_view(self.hostname),
            appname: text_view(self.appname),
            procid: match self.procid {
                Some(procid) => Some(procid@),
                None => None,
            },
            msgid: text_view(self.msgid),
            msg: self.msg@,
        }
    }
}

/// One element of the structured data of a message.
#[derive(Clone, Debug, PartialEq, Eq)]
pub struct Element {
    pub id: String,
    /// The parameters, each a name and a value with its escapes resolved.
    pub params: Vec<(String, String)>,
}

/// The mathematical model of an [`Element`].
pub ghost struct ElementView {
    pub id: Seq<char>,
    pub params: Seq<(Seq<char>, Seq<char>)>,
}

/// The models of a sequence of parameters.
pub open spec fn params_view(params: Seq<(String, String)>) -> Seq<(Seq<char>, Seq<char>)> {
    params.map_values(|param: (String, String)| (param.0@, param.1@))
}

impl View for Element {
    type V = ElementView;

    open spec fn view(&self) -> ElementView {
        ElementView { id: self.id@, params: params_view(self.params@) }
    }
}

/// The models of a sequence of elements.
pub open spec fn elements_view(elements: Seq<Element>) -> Seq<ElementView> {
    elements.map_values(|element: Element| element@)
}

/// A syslog message.
#[derive(Clone, Debug, PartialEq, Eq)]
pub struct SyslogMessage {
    pub header: Header,
    pub structured_data: Vec<Element>,
}

/// The mathematical model of a [`SyslogMessage`].
pub ghost struct SyslogMessageView {
    pub header: HeaderView,
    pub structured_data: Seq<ElementView>,
}

impl View for SyslogMessage {
    type V = SyslogMessageView;

    open spec fn view(&self) -> SyslogMessageView {
        SyslogMessageView {
            header: self.header@,
            structured_data: elements_view(self.structured_data@),
        }
    }
}

/// What `syslog_loose` reads as the header and the text of the message
/// `input`, at the given year and month and with the given offset for a
/// message that names none; nothing where `input` is no syslog message.
pub uninterp spec fn syslog_header(
    input: Seq<char>,
    year_now: int,
    month_now: int,
    offset: int,
) -> Option<HeaderView>;

/// What `syslog_loose` reads as the structured data of the message `input`.
pub uninterp spec fn syslog_structured_data(
    input: Seq<char>,
    year_now: int,
    month_now: int,
    offset: int,
) -> Seq<ElementView>;

/// The text that `String::from_utf8_lossy` makes of bytes: the text that
/// the bytes encode, with a replacement character for each stretch of bytes
/// that encodes none.
pub uninterp spec fn lossy_text(bytes: Seq<u8>) -> Seq<char>;

/// The header and the text of a message.
///
/// Calls `syslog_loose::parse_message_with_year_exact_tz`, for either form
/// of message. Assumed of it, and not proved: what comes back depends on the
/// text, the year and month that the year of a message is worked out from,
/// and the offset alone, as with an offset given it does not ask the machine
/// for its time zone; and where the text is no message, the error is the
/// one text stated here.
#[verifier::external_body]
fn read_header(input: &str, year_now: i32, month_now: u32, offset: i32) -> (res: Result<
    Header,
    String,
>)
    requires
        -86_400 < offset < 86_400,
    ensures
        match res {
            Ok(header) => syslog_header(input@, year_now as int, month_now as int, offset as int)
                == Some(header@),
            Err(message) => syslog_header(
                input@,
                year_now as int,
                month_now as int,
                offset as int,
            ) is None && message@ == "unable to parse input as valid syslog message"@,
        },
{
    let year = |d: IncompleteDate| resolve_year(year_now, month_now, d.0);
    let zone = FixedOffset::east_opt(offset);
    let m: Message<String> = parse_message_with_year_exact_tz(input, year, zone, Either)?.into();
    Ok(Header {
        version: match m.protocol { RFC5424(v) => Some(v), RFC3164 => None },
        facility: m.facility.map(SyslogFacility::as_str),
        severity: m.severity.map(SyslogSeverity::as_str),
        timestamp: m.timestamp.map(|t| (t.timestamp(), t.timestamp_subsec_nanos())),
        hostname: m.hostname,
        appname: m.appname,
        procid: m.procid.map(|p| match p { PID(n) => ProcessId::Pid(n), Name(s) => ProcessId::Name(s) }),
        msgid: m.msgid,
        msg: m.msg,
    })
}

/// The structured data of a message, with the escapes in the values
/// resolved.
///
/// Calls `syslog_loose::parse_message_with_year_tz`, which reads a message
/// as the exact form does, and `StructuredElement::params` on each element
/// of what it read. Assumed of them, and not proved: what comes back depends
/// on the arguments alone.
#[verifier::external_body]
fn read_structured_data(input: &str, year_now: i32, month_now: u32, offset: i32) -> (res: Vec<
    Element,
>)
    requires
        -86_400 < offset < 86_400,
    ensures
        elements_view(res@) == syslog_structured_data(
            input@,
            year_now as int,
            month_now as int,
            offset as int,
        ),
{
    let year = |d: IncompleteDate| resolve_year(year_now, month_now, d.0);
    let zone = FixedOffset::east_opt(offset);
    let m = parse_message_with_year_tz(input, year, zone, Either);
    let element = |e: &StructuredElement<&str>| Element {
        id: e.id.to_owned(),
        params: e.params().map(|(k, v)| (k.to_string(), v)).collect(),
    };
    m.structured_data.iter().map(element).collect()
}

/// The text of bytes, with a replacement character for what is no text.
///
/// Calls `String::from_utf8_lossy`. Assumed of it, and not proved: what
/// comes back depends on the bytes alone, and is the text itself for bytes
/// that encode one, as its documentation says.
#[verifier::external_body]
fn text_of(bytes: &Vec<u8>) -> (text: String)
    ensures
        text@ == lossy_text(bytes@),
        vstd::utf8::valid_utf8(bytes@) ==> text@ == vstd::utf8::decode_utf8(bytes@),
{
    String::from_utf8_lossy(bytes).into_owned()
}

/// A text as a value: its bytes.
pub open spec fn text_value(text: Seq<char>) -> ValueView {
    ValueView::Bytes(vstd::utf8::encode_utf8(text))
}

/// The members with the text added under `key`, where there is a text.
pub open spec fn with_text(
    members: Map<Seq<char>, ValueView>,
    key: Seq<char>,
    text: Option<Seq<char>>,
) -> Map<Seq<char>, ValueView> {
    match text {
        Some(text) => members.insert(key, text_value(text)),
        None => members,
    }
}

/// The parameters of an element as the members of an object: each value
/// under its name, a later one in place of an earlier one of the same name.
pub open spec fn params_members(params: Seq<(Seq<char>, Seq<char>)>) -> Map<Seq<char>, ValueView>
    decreases params.len(),
{
    if params.len() == 0 {
        Map::empty()
    } else {
        params_members(params.drop_last()).insert(params.last().0, text_value(params.last().1))
    }
}

/// The members with each element added as an object under its id.
pub open spec fn with_elements(
    members: Map<Seq<char>, ValueView>,
    elements: Seq<ElementView>,
) -> Map<Seq<char>, ValueView>
    decreases elements.len(),
{
    if elements.len() == 0 {
        members
    } else {
        with_elements(members, elements.drop_last()).insert(
            elements.last().id,
            ValueView::Object(params_members(elements.last().params)),
        )
    }
}

/// The members of the object that a message is read into: the text under
/// `message`; host name, severity, facility, version, application name,
/// message id, time and process under their names, each where the message
/// has it; and then each element of the structured data under its id.
pub open spec fn message_members(message: SyslogMessageView) -> Map<Seq<char>, ValueView> {
    let header = message.header;
    let members = Map::empty().insert("message"@, text_value(header.msg));
    let members = with_text(members, "hostname"@, header.hostname);
    let members = with_text(members, "severity"@, header.severity);
    let members = with_text(members, "facility"@, header.facility);
    let members = match header.version {
        Some(version) => members.insert("version"@, ValueView::Integer(version as int)),
        None => members,
    };
    let members = with_text(members, "appname"@, header.appname);
    let members = with_text(members, "msgid"@, header.msgid);
    let members = match header.timestamp {
        Some(at) => members.insert("timestamp"@, ValueView::Timestamp(at.0 as int, at.1 as int)),
        None => members,
    };
    let members = match header.procid {
        Some(ProcessIdView::Pid(pid)) => members.insert("procid"@, ValueView::Integer(pid)),
        Some(ProcessIdView::Name(name)) => members.insert("procid"@, text_value(name)),
        None => members,
    };
    with_elements(members, message.structured_data)
}

fn push_member(members: &mut Vec<Member>, key: &str, value: Value)
    ensures
        members_view(final(members)@) == members_view(old(members)@).insert(key@, value@),
{
    let member = Member { name: String::from_str(key), value };
    proof {
        lemma_members_push(members@, member);
    }
    members.push(member);
}

fn push_text(members: &mut Vec<Member>, key: &str, text: Option<&str>)
    ensures
        members_view(final(members)@) == with_text(
            members_view(old(members)@),
            key@,
            match text {
                Some(text) => Some(text@),
                None => None,
            },
        ),
{
    match text {
        Some(text) => {
            push_member(members, key, Value::Bytes(text.as_bytes_vec()));
        },
        None => {},
    }
}

fn as_text(text: &Option<String>) -> (res: Option<&str>)
    ensures
        match res {
            Some(res) => text_view(*text) == Some(res@),
            None => text_view(*text) is None,
        },
{
    match text {
        Some(text) => Some(text.as_str()),
        None => None,
    }
}

/// The parameters of an element as an object.
fn params_to_value(params: &Vec<(String, String)>) -> (value: Value)
    ensures
        value@ == ValueView::Object(params_members(params_view(params@))),
{
    let mut members: Vec<Member> = Vec::new();
    let mut i: usize = 0;
    while i < params.len()
        invariant
            i <= params.len(),
            members_view(members@) == params_members(params_view(params@).take(i as int)),
        decreases params.len() - i,
    {
        proof {
            assert(params_view(params@).take(i + 1).drop_last() =~= params_view(params@).take(
                i as int,
            ));
        }
        push_member(
            &mut members,
            params[i].0.as_str(),
            Value::Bytes(params[i].1.as_str().as_bytes_vec()),
        );
        i += 1;
    }
    proof {
        assert(params_view(params@).take(params.len() as int) =~= params_view(params@));
    }
    Value::Object(members)
}

/// The object that a message is read into.
pub fn message_to_value(message: &SyslogMessage) -> (value: Value)
    ensures
        value@ == ValueView::Object(message_members(message@)),
{
    let header = &message.header;
    let mut members: Vec<Member> = Vec::new();
    push_member(&mut members, "message", Value::Bytes(header.msg.as_str().as_bytes_vec()));
    push_text(&mut members, "hostname", as_text(&header.hostname));
    push_text(&mut members, "severity", header.severity);
    push_text(&mut members, "facility", header.facility);
    match header.version {
        Some(version) => {
            push_member(&mut members, "version", Value::Integer(version as i64));
        },
        None => {},
    }
    push_text(&mut members, "appname", as_text(&header.appname));
    push_text(&mut members, "msgid", as_text(&header.msgid));
    match header.timestamp {
        Some(at) => {
            push_member(&mut members, "timestamp", Value::Timestamp(at.0, at.1));
        },
        None => {},
    }
    match &header.procid {
        Some(ProcessId::Pid(pid)) => {
            push_member(&mut members, "procid", Value::Integer(*pid as i64));
        },
        Some(ProcessId::Name(name)) => {
            push_member(&mut members, "procid", Value::Bytes(name.as_str().as_bytes_vec()));
        },
        None => {},
    }
    let ghost elements = elements_view(message.structured_data@);
    let ghost before = members_view(members@);
    let mut i: usize = 0;
    while i < message.structured_data.len()
        invariant
            i <= message.structured_data.len(),
            elements == elements_view(message.structured_data@),
            members_view(members@) == with_elements(before, elements.take(i as int)),
        decreases message.structured_data.len() - i,
    {
        proof {
            assert(elements.take(i + 1).drop_last() =~= elements.take(i as int));
        }
        let element = &message.structured_data[i];
        push_member(&mut members, element.id.as_str(), params_to_value(&element.params));
        i += 1;
    }
    proof {
        assert(elements.take(message.structured_data.len() as int) =~= elements);
    }
    Value::Object(members)
}

/// What is known of the object that a message is read into: the text is
/// there; the version is a number, the time a point in time, the process a
/// number or a text, and each of the others a text, where it is there.
pub open spec fn message_kind() -> KindView {
    let text = KindView { bytes: true, ..KindView::never() };
    let text_or_null = KindView { null: true, ..text };
    KindView::object_of(
        Map::empty().insert("message"@, text).insert("hostname"@, text_or_null).insert(
            "severity"@,
            text_or_null,
        ).insert("facility"@, text_or_null).insert("appname"@, text_or_null).insert(
            "msgid"@,
            text_or_null,
        ).insert(
            "timestamp"@,
            KindView { timestamp: true, null: true, ..KindView::never() },
        ).insert("procid"@, KindView { integer: true, ..text_or_null }).insert(
            "version"@,
            KindView { integer: true, null: true, ..KindView::never() },
        ),
    )
}

fn push_field(fields: &mut Vec<Field>, name: &str, kind: Kind)
    ensures
        fields_view(final(fields)@) == fields_view(old(fields)@).insert(name@, kind@),
{
    let field = Field { name: String::from_str(name), kind };
    proof {
        lemma_fields_push(fields@, field);
    }
    fields.push(field);
}

/// What is known of the object that a message is read into.
pub fn inner_kind() -> (kind: Kind)
    ensures
        kind@ == message_kind(),
{
    let mut fields: Vec<Field> = Vec::new();
    push_field(&mut fields, "message", Kind::bytes());
    push_field(&mut fields, "hostname", Kind::bytes().or_null());
    push_field(&mut fields, "severity", Kind::bytes().or_null());
    push_field(&mut fields, "facility", Kind::bytes().or_null());
    push_field(&mut fields, "appname", Kind::bytes().or_null());
    push_field(&mut fields, "msgid", Kind::bytes().or_null());
    push_field(&mut fields, "timestamp", Kind::timestamp().or_null());
    push_field(&mut fields, "procid", Kind::bytes().or_integer().or_null());
    push_field(&mut fields, "version", Kind::integer().or_null());
    Kind::object(fields)
}

/// What reading `value` as a syslog message gives at the time of `clock`:
/// the object of the message that the text of the bytes holds, or the
/// message of the failure for a value that is no bytes or a text that is no
/// syslog message.
pub open spec fn parsed(value: ValueView, clock: Clock) -> Result<ValueView, Seq<char>> {
    match value {
        ValueView::Bytes(bytes) => {
            let input = lossy_text(bytes);
            match syslog_header(input, clock.year as int, clock.month as int, clock.offset()) {
                Some(header) => Ok(
                    ValueView::Object(
                        message_members(
                            SyslogMessageView {
                                header,
                                structured_data: syslog_structured_data(
                                    input,
                                    clock.year as int,
                                    clock.month as int,
                                    clock.offset(),
                                ),
                            },
                        ),
                    ),
                ),
                None => Err("unable to parse input as valid syslog message"@),
            }
        },
        _ => Err("expected string, got "@ + value.kind().text()),
    }
}

/// Reads the text as a syslog message, of either form, at the time of
/// `clock`.
pub fn parse_message(input: &str, clock: Clock) -> (res: Result<SyslogMessage, String>)
    ensures
        match res {
            Ok(message) => syslog_header(
                input@,
                clock.year as int,
                clock.month as int,
                clock.offset(),
            ) == Some(message@.header) && message@.structured_data == syslog_structured_data(
                input@,
                clock.year as int,
                clock.month as int,
                clock.offset(),
            ),
            Err(message) => syslog_header(
                input@,
                clock.year as int,
                clock.month as int,
                clock.offset(),
            ) is None && message@ == "unable to parse input as valid syslog message"@,
        },
{
    let offset = if -86_400 < clock.offset_seconds && clock.offset_seconds < 86_400 {
        clock.offset_seconds
    } else {
        0
    };
    match read_header(input, clock.year, clock.month, offset) {
        Ok(header) => Ok(
            SyslogMessage {
                header,
                structured_data: read_structured_data(input, clock.year, clock.month, offset),
            },
        ),
        Err(message) => Err(message),
    }
}

/// Reads `value` as a syslog message at the time of `clock`.
pub fn parse_syslog(value: &Value, clock: Clock) -> (res: Result<Value, String>)
    ensures
        match res {
            Ok(object) => parsed(value@, clock) == Ok::<ValueView, Seq<char>>(object@),
            Err(message) => parsed(value@, clock) == Err::<ValueView, Seq<char>>(message@),
        },
{
    match value {
        Value::Bytes(bytes) => {
            let input = text_of(bytes);
            match parse_message(input.as_str(), clock) {
                Ok(message) => Ok(message_to_value(&message)),
                Err(message) => Err(message),
            }
        },
        _ => {
            let mut message = String::from_str("expected string, got ");
            message.append(value.kind().render().as_str());
            Err(message)
        },
    }
}

/// A use of a function, with what it gives.
#[derive(Clone, Copy, Debug, PartialEq, Eq)]
pub struct Example {
    pub title: &'static str,
    pub source: &'static str,
    pub result: &'static str,
}

/// The function that reads a syslog message into an object.
#[derive(Clone, Copy, Debug)]
pub struct ParseSyslog;

impl ParseSyslog {
    /// The name that programs call the function by.
    pub fn identifier(&self) -> (name: &'static str)
        ensures
            name@ == "parse_syslog"@,
    {
        "parse_syslog"
    }

    /// The parameters of the function: the text to read, which a call has
    /// to give.
    pub fn parameters(&self) -> (parameters: Vec<Parameter>)
        ensures
            parameters@.len() == 1,
            parameters@[0].keyword@ == "value"@,
            parameters@[0].kind == BYTES,
            parameters@[0].required,
    {
        let mut parameters: Vec<Parameter> = Vec::new();
        parameters.push(Parameter { keyword: "value", kind: BYTES, required: true });
        parameters
    }

    /// A call of the function and the object that it gives.
    pub fn examples(&self) -> (examples: Vec<Example>)
        ensures
            examples@.len() == 1,
            examples@[0].title@ == "parse syslog"@,
    {
        let mut examples: Vec<Example> = Vec::new();
        examples.push(
            Example {
                title: "parse syslog",
                source: "parse_syslog!(s'<13>1 2020-03-13T20:45:38.119Z dynamicwireless.name non \
                    2426 ID931 [exampleSDID@32473 iut=\"3\" eventSource= \"Application\" \
                    eventID=\"1011\"] Try to override the THX port, maybe it will reboot the \
                    neural interface!')",
                result: "{\"appname\": \"non\", \"exampleSDID@32473\": {\"eventID\": \"1011\", \
                    \"eventSource\": \"Application\", \"iut\": \"3\"}, \"facility\": \"user\", \
                    \"hostname\": \"dynamicwireless.name\", \"message\": \"Try to override the \
                    THX port, maybe it will reboot the neural interface!\", \"msgid\": \"ID931\", \
                    \"procid\": 2426, \"severity\": \"notice\", \
                    \"timestamp\": \"2020-03-13T20:45:38.119Z\", \"version\": 1}",
            },
        );
        examples
    }

    /// The expression of a call with the given arguments: the reading of the
    /// argument that stands for `value`; nothing where the call gives no such
    /// argument.
    pub fn compile(&self, arguments: Vec<FunctionArgument>) -> (expr: Option<Expr>)
        ensures
            match expr {
                Some(expr) => exists|i: int|
                    is_required(arguments@, "value"@, i) && expr == Expr::ParseSyslog(
                        Box::new(arguments@[i].node().node),
                    ),
                None => forall|i: int| !is_required(arguments@, "value"@, i),
            },
    {
        let mut arguments = arguments;
        match required(&arguments, "value") {
            Some(i) => {
                let argument = arguments.remove(i);
                Some(Expr::ParseSyslog(Box::new(argument.into_inner())))
            },
            None => None,
        }
    }
}

} // verus!
