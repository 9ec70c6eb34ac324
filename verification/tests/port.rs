use dap_session::json::Json;
use dap_session::requests::{Command, LaunchRequestArguments, Request};
use dap_session::utils::{extract_port_from_args, parse_port, port_from_flag};

fn text(s: &str) -> Json {
    Json::Text(s.to_string())
}

fn object(entries: Vec<(&str, Json)>) -> Json {
    Json::Object(entries.into_iter().map(|(k, v)| (k.to_string(), v)).collect())
}

fn launch(payload: Option<Json>) -> LaunchRequestArguments {
    LaunchRequestArguments { no_debug: None, restart_data: None, additional_data: payload }
}

fn with_args(items: Vec<Json>) -> LaunchRequestArguments {
    launch(Some(object(vec![("args", Json::Array(items))])))
}

#[test]
fn port_is_read_from_the_flag_and_its_value() {
    assert_eq!(extract_port_from_args(&with_args(vec![text("--port"), text("9229")])), Some(9229));
}

#[test]
fn port_that_is_no_number_is_not_found() {
    assert_eq!(extract_port_from_args(&with_args(vec![text("--port"), text("notanumber")])), None);
}

#[test]
fn empty_payload_has_no_port() {
    assert_eq!(extract_port_from_args(&launch(Some(object(Vec::new())))), None);
}

#[test]
fn flag_without_a_value_has_no_port() {
    assert_eq!(extract_port_from_args(&with_args(vec![text("--port")])), None);
}

#[test]
fn absent_payload_has_no_port() {
    assert_eq!(extract_port_from_args(&launch(None)), None);
}

#[test]
fn payload_that_is_no_object_has_no_port() {
    assert_eq!(extract_port_from_args(&launch(Some(Json::Null))), None);
    assert_eq!(extract_port_from_args(&launch(Some(Json::Bool(true)))), None);
    assert_eq!(extract_port_from_args(&launch(Some(text("--port 9229")))), None);
    assert_eq!(
        extract_port_from_args(&launch(Some(Json::Array(vec![text("--port"), text("9229")])))),
        None
    );
}

#[test]
fn args_that_is_no_array_has_no_port() {
    assert_eq!(extract_port_from_args(&launch(Some(object(vec![("args", text("--port"))])))), None);
    assert_eq!(
        extract_port_from_args(&launch(Some(object(vec![(
            "args",
            object(vec![("--port", text("9229"))])
        )])))),
        None
    );
    assert_eq!(extract_port_from_args(&launch(Some(object(vec![("args", Json::Null)])))), None);
}

#[test]
fn items_that_are_no_strings_have_no_port() {
    assert_eq!(
        extract_port_from_args(&with_args(vec![text("--port"), Json::Number("9229".to_string())])),
        None
    );
    assert_eq!(extract_port_from_args(&with_args(vec![Json::Null, text("9229")])), None);
    assert_eq!(
        extract_port_from_args(&with_args(vec![text("--port"), Json::Array(vec![text("9229")])])),
        None
    );
}

#[test]
fn another_flag_has_no_port() {
    assert_eq!(extract_port_from_args(&with_args(vec![text("--host"), text("9229")])), None);
    assert_eq!(extract_port_from_args(&with_args(vec![text("--Port"), text("9229")])), None);
    assert_eq!(extract_port_from_args(&with_args(vec![text("--port "), text("9229")])), None);
    assert_eq!(extract_port_from_args(&with_args(vec![text("-port"), text("9229")])), None);
    assert_eq!(extract_port_from_args(&with_args(vec![text(""), text("9229")])), None);
}

#[test]
fn only_the_first_two_items_count() {
    assert_eq!(
        extract_port_from_args(&with_args(vec![text("--port"), text("80"), text("--port"), text("81")])),
        Some(80)
    );
    assert_eq!(
        extract_port_from_args(&with_args(vec![text("--verbose"), text("--port"), text("80")])),
        None
    );
}

#[test]
fn member_under_another_key_is_not_read() {
    let payload = object(vec![
        ("arguments", Json::Array(vec![text("--port"), text("1")])),
        ("program", text("a.out")),
    ]);
    assert_eq!(extract_port_from_args(&launch(Some(payload))), None);
    let payload = object(vec![
        ("program", text("a.out")),
        ("args", Json::Array(vec![text("--port"), text("4711")])),
        ("cwd", text("/")),
    ]);
    assert_eq!(extract_port_from_args(&launch(Some(payload))), Some(4711));
}

#[test]
fn restart_data_is_not_read() {
    let args = LaunchRequestArguments {
        no_debug: Some(false),
        restart_data: Some(object(vec![("args", Json::Array(vec![text("--port"), text("1")]))])),
        additional_data: None,
    };
    assert_eq!(extract_port_from_args(&args), None);
}

#[test]
fn extraction_leaves_the_request_as_it_was() {
    let req = Request {
        seq: 1,
        command: Command::Launch(with_args(vec![text("--port"), text("9229")])),
    };
    if let Command::Launch(args) = &req.command {
        assert_eq!(extract_port_from_args(args), Some(9229));
        assert_eq!(extract_port_from_args(args), Some(9229));
    }
    assert_eq!(
        req,
        Request { seq: 1, command: Command::Launch(with_args(vec![text("--port"), text("9229")])) }
    );
}

#[test]
fn port_text_is_decimal_digits_after_an_optional_plus() {
    assert_eq!(parse_port("9229"), Some(9229));
    assert_eq!(parse_port("0"), Some(0));
    assert_eq!(parse_port("1"), Some(1));
    assert_eq!(parse_port("+80"), Some(80));
    assert_eq!(parse_port("0009229"), Some(9229));
    assert_eq!(parse_port("+00000000000000000000000000000000000000000007"), Some(7));
}

#[test]
fn port_text_is_bounded_by_sixteen_bits() {
    assert_eq!(parse_port("65535"), Some(65535));
    assert_eq!(parse_port("65536"), None);
    assert_eq!(parse_port("65540"), None);
    assert_eq!(parse_port("70000"), None);
    assert_eq!(parse_port("99999"), None);
    assert_eq!(parse_port("655350"), None);
    assert_eq!(parse_port("4294967296"), None);
    assert_eq!(parse_port("4294967297"), None);
    assert_eq!(parse_port("18446744073709551616"), None);
    assert_eq!(parse_port("000065535"), Some(65535));
    assert_eq!(parse_port("000065536"), None);
}

#[test]
fn port_text_with_anything_else_is_refused() {
    for bad in [
        "", "+", "-", "-1", "-0", "++1", "+-1", "1+", " 9229", "9229 ", "92 29", "9_229", "0x50",
        "80a", "a80", "8.0", "8e1", "\u{663}", "8\u{660}", "\u{ff11}", "1\n", "\t1", "٣", "é",
        "🙂", "+é1",
    ] {
        assert_eq!(parse_port(bad), None, "{:?}", bad);
    }
}

#[test]
fn port_text_agrees_with_the_standard_parser() {
    let samples = [
        "0", "7", "42", "+42", "0042", "65535", "65536", "065535", "+65535", "+65536", "100000",
        "", "+", "-5", "5-", "۵", "12a", " 12", "1 2", "+ 1", "٠", "655359", "6553", "١٢٣",
    ];
    for s in samples {
        assert_eq!(parse_port(s), s.parse::<u16>().ok(), "{:?}", s);
    }
    for n in 0..=70000u32 {
        let s = n.to_string();
        assert_eq!(parse_port(&s), s.parse::<u16>().ok());
    }
}

#[test]
fn flag_and_value_name_a_port_only_together() {
    assert_eq!(port_from_flag("--port", "9229"), Some(9229));
    assert_eq!(port_from_flag("--port", "+1"), Some(1));
    assert_eq!(port_from_flag("--port", ""), None);
    assert_eq!(port_from_flag("--port", "port"), None);
    assert_eq!(port_from_flag("--por", "9229"), None);
    assert_eq!(port_from_flag("--ports", "9229"), None);
    assert_eq!(port_from_flag("9229", "--port"), None);
}
