use chrono::TimeZone;
use vrl_assignment::expr::Expr;
use vrl_assignment::kind::Kind;
use vrl_assignment::ast::Node;
use vrl_assignment::function_argument::{required, FunctionArgument, BYTES};
use vrl_assignment::parse_syslog::{
    inner_kind, message_to_value, parse_message, parse_syslog, resolve_year, Clock, Element,
    Header, ParseSyslog, ProcessId, SyslogMessage,
};
use vrl_assignment::span::Span;
use vrl_assignment::path::{Path, Segment};
use vrl_assignment::state::{ExternalEnv, LocalEnv};
use vrl_assignment::value::{Member, Value};

fn clock() -> Clock {
    Clock { year: 2022, month: 7, offset_seconds: 0 }
}

fn text(text: &str) -> Value {
    Value::Bytes(text.as_bytes().to_vec())
}

fn at(year: i32, month: u32, day: u32, hour: u32, minute: u32, second: u32, millis: u32) -> Value {
    let seconds = chrono::Utc.with_ymd_and_hms(year, month, day, hour, minute, second).unwrap().timestamp();
    Value::Timestamp(seconds, millis * 1_000_000)
}

fn member(value: &Value, name: &str) -> Value {
    value.get_by_path(&Path::new(vec![Segment::Field(name.to_string())]))
}

/// Checks that `value` is an object of exactly the given members.
fn assert_members(value: &Value, want: &[(&str, Value)]) {
    match value {
        Value::Object(members) => {
            let mut names: Vec<&str> = members.iter().map(|member| member.name.as_str()).collect();
            names.sort();
            names.dedup();
            let mut wanted: Vec<&str> = want.iter().map(|(name, _)| *name).collect();
            wanted.sort();
            assert_eq!(names, wanted);
        }
        other => panic!("no object: {:?}", other),
    }
    for (name, wanted) in want {
        let got = member(value, name);
        match (&got, wanted) {
            (Value::Object(_), Value::Object(inner)) => {
                let inner: Vec<(&str, Value)> = inner.iter().map(|m| (m.name.as_str(), m.value.clone())).collect();
                assert_members(&got, &inner);
            }
            _ => assert_eq!(&got, wanted, "member {}", name),
        }
    }
}

fn object(members: &[(&str, Value)]) -> Value {
    Value::Object(members.iter().map(|(name, value)| Member { name: name.to_string(), value: value.clone() }).collect())
}

#[test]
fn valid() {
    let input = text(r#"<13>1 2020-03-13T20:45:38.119Z dynamicwireless.name non 2426 ID931 [exampleSDID@32473 iut="3" eventSource= "Application" eventID="1011"] Try to override the THX port, maybe it will reboot the neural interface!"#);
    let value = parse_syslog(&input, clock()).unwrap();
    assert_members(&value, &[
        ("severity", text("notice")),
        ("facility", text("user")),
        ("timestamp", at(2020, 3, 13, 20, 45, 38, 119)),
        ("hostname", text("dynamicwireless.name")),
        ("appname", text("non")),
        ("procid", Value::Integer(2426)),
        ("msgid", text("ID931")),
        ("exampleSDID@32473", object(&[
            ("iut", text("3")),
            ("eventSource", text("Application")),
            ("eventID", text("1011")),
        ])),
        ("message", text("Try to override the THX port, maybe it will reboot the neural interface!")),
        ("version", Value::Integer(1)),
    ]);
}

#[test]
fn invalid() {
    assert_eq!(
        parse_syslog(&text("not much of a syslog message"), clock()),
        Err("unable to parse input as valid syslog message".to_string())
    );
    assert_eq!(
        parse_message("not much of a syslog message", clock()),
        Err("unable to parse input as valid syslog message".to_string())
    );
}

#[test]
fn no_text_is_refused() {
    assert_eq!(parse_syslog(&Value::Integer(3), clock()), Err("expected string, got integer".to_string()));
    assert_eq!(parse_syslog(&Value::Null, clock()), Err("expected string, got null".to_string()));
    assert_eq!(parse_syslog(&Value::Array(vec![]), clock()), Err("expected string, got array".to_string()));
}

#[test]
fn haproxy() {
    let input = text(r#"<133>Jun 13 16:33:35 haproxy[73411]: Proxy sticky-servers started."#);
    let value = parse_syslog(&input, clock()).unwrap();
    assert_members(&value, &[
        ("facility", text("local0")),
        ("severity", text("notice")),
        ("message", text("Proxy sticky-servers started.")),
        ("timestamp", at(2022, 6, 13, 16, 33, 35, 0)),
        ("appname", text("haproxy")),
        ("procid", Value::Integer(73411)),
    ]);
}

#[test]
fn missing_pri() {
    let input = text(r#"Jun 13 16:33:35 haproxy[73411]: I am missing a pri."#);
    let value = parse_syslog(&input, clock()).unwrap();
    assert_members(&value, &[
        ("message", text("I am missing a pri.")),
        ("timestamp", at(2022, 6, 13, 16, 33, 35, 0)),
        ("appname", text("haproxy")),
        ("procid", Value::Integer(73411)),
    ]);
}

#[test]
fn december_read_in_january_is_of_last_year() {
    let input = text(r#"<133>Dec 31 23:59:59 haproxy[73411]: late"#);
    let january = Clock { year: 2022, month: 1, offset_seconds: 0 };
    let value = parse_syslog(&input, january).unwrap();
    assert_eq!(member(&value, "timestamp"), at(2021, 12, 31, 23, 59, 59, 0));
    let value = parse_syslog(&input, clock()).unwrap();
    assert_eq!(member(&value, "timestamp"), at(2022, 12, 31, 23, 59, 59, 0));
    assert_eq!(resolve_year(2022, 1, 12), 2021);
    assert_eq!(resolve_year(2022, 1, 11), 2022);
    assert_eq!(resolve_year(2022, 2, 12), 2022);
    assert_eq!(resolve_year(i32::MIN, 1, 12), i32::MIN);
}

#[test]
fn offset_applies_to_a_time_without_one() {
    let input = text(r#"<133>Jun 13 16:33:35 haproxy[73411]: east"#);
    let east = Clock { year: 2022, month: 7, offset_seconds: 7200 };
    let value = parse_syslog(&input, east).unwrap();
    assert_eq!(member(&value, "timestamp"), at(2022, 6, 13, 14, 33, 35, 0));
    // An offset of a day or more is not used.
    let far = Clock { year: 2022, month: 7, offset_seconds: 86_400 };
    let value = parse_syslog(&input, far).unwrap();
    assert_eq!(member(&value, "timestamp"), at(2022, 6, 13, 16, 33, 35, 0));
}

#[test]
fn empty_sd_element() {
    let input = text(r#"<13>1 2019-02-13T19:48:34+00:00 74794bfb6795 root 8449 - [empty] qwerty"#);
    let value = parse_syslog(&input, clock()).unwrap();
    assert_members(&value, &[
        ("message", text("qwerty")),
        ("appname", text("root")),
        ("facility", text("user")),
        ("hostname", text("74794bfb6795")),
        ("procid", Value::Integer(8449)),
        ("severity", text("notice")),
        ("timestamp", at(2019, 2, 13, 19, 48, 34, 0)),
        ("version", Value::Integer(1)),
        ("empty", object(&[])),
    ]);
}

#[test]
fn non_empty_sd_element() {
    let input = text(r#"<13>1 2019-02-13T19:48:34+00:00 74794bfb6795 root 8449 - [non_empty x="1"][empty] qwerty"#);
    let value = parse_syslog(&input, clock()).unwrap();
    assert_members(&value, &[
        ("message", text("qwerty")),
        ("appname", text("root")),
        ("facility", text("user")),
        ("hostname", text("74794bfb6795")),
        ("procid", Value::Integer(8449)),
        ("severity", text("notice")),
        ("timestamp", at(2019, 2, 13, 19, 48, 34, 0)),
        ("version", Value::Integer(1)),
        ("non_empty", object(&[("x", text("1"))])),
        ("empty", object(&[])),
    ]);
}

#[test]
fn empty_sd_value() {
    let input = text(r#"<13>1 2019-02-13T19:48:34+00:00 74794bfb6795 root 8449 - [non_empty x=""][empty] qwerty"#);
    let value = parse_syslog(&input, clock()).unwrap();
    assert_eq!(member(&value, "empty"), object(&[]));
    assert_eq!(member(&value, "non_empty"), object(&[("x", text(""))]));
    assert_eq!(member(&value, "message"), text("qwerty"));
}

#[test]
fn non_structured_data_in_message() {
    let input = text("<131>Jun 8 11:54:08 master apache_error [Tue Jun 08 11:54:08.929301 2021] [php7:emerg] [pid 1374899] [client 95.223.77.60:41888] rest of message");
    let value = parse_syslog(&input, clock()).unwrap();
    assert_members(&value, &[
        ("appname", text("apache_error")),
        ("facility", text("local0")),
        ("hostname", text("master")),
        ("severity", text("err")),
        ("timestamp", at(2022, 6, 8, 11, 54, 8, 0)),
        ("message", text("[Tue Jun 08 11:54:08.929301 2021] [php7:emerg] [pid 1374899] [client 95.223.77.60:41888] rest of message")),
    ]);
}

#[test]
fn escapes_in_structured_data_quote() {
    let input = text(r#"<165>1 2003-10-11T22:14:15.003Z mymachine.example.com evntslog - ID47 [exampleSDID@32473 key="hello \"test\""] An application event log entry..."#);
    let value = parse_syslog(&input, clock()).unwrap();
    assert_members(&value, &[
        ("appname", text("evntslog")),
        ("exampleSDID@32473", object(&[("key", text(r#"hello "test""#))])),
        ("facility", text("local4")),
        ("hostname", text("mymachine.example.com")),
        ("message", text("An application event log entry...")),
        ("msgid", text("ID47")),
        ("severity", text("notice")),
        ("timestamp", at(2003, 10, 11, 22, 14, 15, 3)),
        ("version", Value::Integer(1)),
    ]);
}

#[test]
fn escapes_in_structured_data_slash() {
    let input = text(r#"<165>1 2003-10-11T22:14:15.003Z mymachine.example.com evntslog - ID47 [exampleSDID@32473 key="hello a\\b"] An application event log entry..."#);
    let value = parse_syslog(&input, clock()).unwrap();
    assert_eq!(member(&value, "exampleSDID@32473"), object(&[("key", text(r#"hello a\b"#))]));
}

#[test]
fn escapes_in_structured_data_bracket() {
    let input = text(r#"<165>1 2003-10-11T22:14:15.003Z mymachine.example.com evntslog - ID47 [exampleSDID@32473 key="hello [bye\]"] An application event log entry..."#);
    let value = parse_syslog(&input, clock()).unwrap();
    assert_eq!(member(&value, "exampleSDID@32473"), object(&[("key", text("hello [bye]"))]));
}

#[test]
fn bytes_that_are_no_text_are_read_with_replacements() {
    let mut bytes = b"<13>1 2019-02-13T19:48:34+00:00 host root 8449 - - caf".to_vec();
    bytes.push(0xff);
    let value = parse_syslog(&Value::Bytes(bytes), clock()).unwrap();
    assert_eq!(member(&value, "message"), text("caf\u{fffd}"));
}

#[test]
fn message_to_value_takes_each_part_that_is_there() {
    let header = Header {
        version: None,
        facility: None,
        severity: Some("crit"),
        timestamp: Some((12, 34)),
        hostname: None,
        appname: Some("app".to_string()),
        procid: Some(ProcessId::Name("worker".to_string())),
        msgid: None,
        msg: "hello".to_string(),
    };
    let message = SyslogMessage {
        header: header.clone(),
        structured_data: vec![
            Element { id: "a".to_string(), params: vec![("k".to_string(), "1".to_string()), ("k".to_string(), "2".to_string())] },
            Element { id: "message".to_string(), params: vec![] },
        ],
    };
    let value = message_to_value(&message);
    assert_members(&value, &[
        ("severity", text("crit")),
        ("timestamp", Value::Timestamp(12, 34)),
        ("appname", text("app")),
        ("procid", text("worker")),
        ("a", object(&[("k", text("2"))])),
        // An element with the id `message` takes the place of the text.
        ("message", object(&[])),
    ]);
    let plain = message_to_value(&SyslogMessage { header, structured_data: vec![] });
    assert_eq!(member(&plain, "message"), text("hello"));
    assert_eq!(member(&plain, "hostname"), Value::Null);
}

#[test]
fn type_of_the_expression() {
    let kind = inner_kind();
    let field = |name: &str| kind.at_path(&Path::new(vec![Segment::Field(name.to_string())])).render();
    assert_eq!(kind.render(), "object");
    assert_eq!(field("message"), "string");
    assert_eq!(field("hostname"), "string or null");
    assert_eq!(field("severity"), "string or null");
    assert_eq!(field("facility"), "string or null");
    assert_eq!(field("appname"), "string or null");
    assert_eq!(field("msgid"), "string or null");
    assert_eq!(field("timestamp"), "timestamp or null");
    assert_eq!(field("procid"), "string or integer or null");
    assert_eq!(field("version"), "integer or null");
    assert_eq!(field("other"), "any");

    let expr = Expr::ParseSyslog(Box::new(Expr::Literal(text("x"), "\"x\"".to_string())));
    let type_def = expr.type_def(&LocalEnv::new(), &ExternalEnv::new_with_kind(Kind::any()));
    assert!(type_def.fallible);
    assert_eq!(type_def.kind.render(), "object");
    assert_eq!(expr.render(), "parse_syslog(\"x\")");
    assert_eq!(expr.as_value(), None);
}

fn argument(keyword: Option<&str>, source: &str) -> FunctionArgument {
    FunctionArgument::new(
        keyword.map(|keyword| Node::new(Span::new(0, keyword.len()), keyword.to_string())),
        Node::new(Span::new(0, source.len()), Expr::Variable(source.to_string())),
    )
}

#[test]
fn the_function() {
    assert_eq!(ParseSyslog.identifier(), "parse_syslog");
    let parameters = ParseSyslog.parameters();
    assert_eq!(parameters.len(), 1);
    assert_eq!(parameters[0].keyword, "value");
    assert_eq!(parameters[0].kind, BYTES);
    assert!(parameters[0].required);
    let examples = ParseSyslog.examples();
    assert_eq!(examples.len(), 1);
    assert_eq!(examples[0].title, "parse syslog");
    assert!(examples[0].source.starts_with("parse_syslog!(s'<13>1 "));
    assert!(examples[0].result.contains("\"procid\": 2426"));
}

#[test]
fn the_argument_of_a_call() {
    let compiled = ParseSyslog.compile(vec![argument(None, "a")]).unwrap();
    assert_eq!(compiled.render(), "parse_syslog(a)");
    // An argument under the keyword goes before one without.
    let compiled = ParseSyslog.compile(vec![argument(None, "a"), argument(Some("value"), "b")]).unwrap();
    assert_eq!(compiled.render(), "parse_syslog(b)");
    // Of two under the keyword, and of two without, the first.
    let compiled = ParseSyslog.compile(vec![argument(Some("value"), "a"), argument(Some("value"), "b")]).unwrap();
    assert_eq!(compiled.render(), "parse_syslog(a)");
    let compiled = ParseSyslog.compile(vec![argument(Some("other"), "a"), argument(None, "b"), argument(None, "c")]).unwrap();
    assert_eq!(compiled.render(), "parse_syslog(b)");
    assert!(ParseSyslog.compile(vec![]).is_none());
    assert!(ParseSyslog.compile(vec![argument(Some("other"), "a")]).is_none());
    assert_eq!(required(&vec![argument(Some("x"), "a"), argument(Some("y"), "b")], "y"), Some(1));
    assert_eq!(required(&vec![argument(Some("x"), "a"), argument(None, "b")], "y"), Some(1));
    assert_eq!(required(&vec![argument(Some("x"), "a")], "y"), None);
}
