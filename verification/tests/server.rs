use token_ring::request::Request;
use token_ring::server::Server;
use token_ring::server::ServerError;
use token_ring::wire::Fault;

fn quotient(dividend: i32, divisor: i32) -> String {
    (dividend as f64 / divisor as f64).to_string()
}

fn serve(payload: &[u8]) -> Result<String, ServerError> {
    let server = Server::new("7000".to_string(), quotient);
    server.run(payload, "127.0.0.1:9000").map(|served| served.reply.payload)
}

#[test]
fn server_listens_on_the_local_host() {
    let server = Server::new("7000".to_string(), quotient);
    assert_eq!(server.address(), "127.0.0.1:7000");
}

#[test]
fn sum_and_division_by_zero_are_answered_in_order() {
    let payload = br#"[{"operation":"add","arg1":2,"arg2":3},{"operation":"div","arg1":5,"arg2":0}]"#;
    assert_eq!(serve(payload).unwrap(), r#"["5","Division by zero"]"#);
}

#[test]
fn division_is_answered_with_the_double_quotient() {
    let payload = br#"[{"operation":"div","arg1":7,"arg2":2}]"#;
    assert_eq!(serve(payload).unwrap(), r#"["3.5"]"#);
}

#[test]
fn whole_quotient_has_no_fraction() {
    let server = Server::new("7000".to_string(), quotient);
    assert_eq!(server.process_request(Request::new("div", 8, 2)), "4");
    assert_eq!(server.process_request(Request::new("div", -1, 4)), "-0.25");
    assert_eq!(server.process_request(Request::new("div", 1, 3)), (1.0f64 / 3.0f64).to_string());
}

#[test]
fn reply_goes_to_the_sender() {
    let server = Server::new("7000".to_string(), quotient);
    let served = server.run(br#"[{"operation":"sub","arg1":2,"arg2":3}]"#, "10.0.0.7:4242").unwrap();
    assert_eq!(served.reply.destination, "10.0.0.7:4242");
    assert_eq!(served.reply.payload, r#"["-1"]"#);
    assert_eq!(served.results, vec!["-1".to_string()]);
    assert_eq!(served.lines, vec!["2 - 3 = -1".to_string()]);
}

#[test]
fn every_request_gets_one_result_at_its_position() {
    let requests = vec![
        Request::new("add", 1, 1),
        Request::new("sub", 10, 4),
        Request::new("mul", 6, 7),
        Request::new("div", 9, 0),
        Request::new("div", 9, 2),
        Request::new("pow", 2, 8),
        Request::new("add", -5, 5),
    ];
    let server = Server::new("7000".to_string(), quotient);
    let results = server.process_batch(&requests);
    assert_eq!(
        results,
        vec!["2", "6", "42", "Division by zero", "4.5", "Invalid operation", "0"]
    );
}

#[test]
fn empty_batch_gets_an_empty_reply() {
    assert_eq!(serve(b"[]").unwrap(), "[]");
    let server = Server::new("7000".to_string(), quotient);
    assert!(server.process_batch(&Vec::new()).is_empty());
}

#[test]
fn integer_results_are_exact_beyond_32_bits() {
    let server = Server::new("7000".to_string(), quotient);
    let max = i32::MAX;
    let min = i32::MIN;
    assert_eq!(server.process_request(Request::new("add", max, max)), "4294967294");
    assert_eq!(server.process_request(Request::new("add", min, min)), "-4294967296");
    assert_eq!(server.process_request(Request::new("sub", min, max)), "-4294967295");
    assert_eq!(server.process_request(Request::new("sub", max, min)), "4294967295");
    assert_eq!(server.process_request(Request::new("mul", min, min)), "4611686018427387904");
    assert_eq!(server.process_request(Request::new("mul", min, max)), "-4611686016279904256");
    assert_eq!(server.process_request(Request::new("mul", max, max)), "4611686014132420609");
    assert_eq!(server.process_request(Request::new("mul", 0, min)), "0");
}

#[test]
fn integer_results_match_wide_arithmetic() {
    let server = Server::new("7000".to_string(), quotient);
    let operands = [i32::MIN, -65536, -7, -1, 0, 1, 9, 10, 99, 100, 65535, i32::MAX];
    for &a in operands.iter() {
        for &b in operands.iter() {
            let (x, y) = (a as i64, b as i64);
            assert_eq!(server.process_request(Request::new("add", a, b)), (x + y).to_string());
            assert_eq!(server.process_request(Request::new("sub", a, b)), (x - y).to_string());
            assert_eq!(server.process_request(Request::new("mul", a, b)), (x * y).to_string());
        }
    }
}

#[test]
fn division_by_zero_is_the_sentinel_whatever_the_dividend() {
    let server = Server::new("7000".to_string(), quotient);
    for &a in [i32::MIN, -1, 0, 1, i32::MAX].iter() {
        assert_eq!(server.process_request(Request::new("div", a, 0)), "Division by zero");
    }
}

#[test]
fn unknown_operation_fails_that_request_only() {
    let payload = br#"[{"operation":"pow","arg1":2,"arg2":3},{"operation":"mul","arg1":2,"arg2":3}]"#;
    assert_eq!(serve(payload).unwrap(), r#"["Invalid operation","6"]"#);
    let server = Server::new("7000".to_string(), quotient);
    assert_eq!(server.process_request(Request::new("", 1, 2)), "Invalid operation");
    assert_eq!(server.process_request(Request::new("ADD", 1, 2)), "Invalid operation");
    assert_eq!(server.process_request(Request::new("add ", 1, 2)), "Invalid operation");
}

#[test]
fn divider_is_asked_only_for_a_division_by_another_number() {
    let server = Server::new("7000".to_string(), |_: i32, _: i32| "asked".to_string());
    assert_eq!(server.process_request(Request::new("add", 4, 2)), "6");
    assert_eq!(server.process_request(Request::new("div", 4, 0)), "Division by zero");
    assert_eq!(server.process_request(Request::new("div", 4, 2)), "asked");
    assert_eq!(server.process_request(Request::new("mod", 4, 2)), "Invalid operation");
}

#[test]
fn datagram_that_is_not_utf8_is_refused() {
    let error = serve(&[0x5b, 0xff, 0x5d]).unwrap_err();
    assert_eq!(error.cause(), Some(Fault::NotUtf8));
    assert!(!error.to_string().is_empty());
}

#[test]
fn datagram_that_is_not_a_batch_is_refused() {
    for payload in [&b"token"[..], b"", b"{}", b"[1]", b"[\"add\"]", b"[[\"add\",1,2]]", b"[{]"] {
        let error = serve(payload).unwrap_err();
        assert_eq!(error.cause(), Some(Fault::Malformed));
        assert!(!error.to_string().is_empty());
    }
}

#[test]
fn request_without_a_member_is_refused() {
    let error = serve(br#"[{"operation":"add","arg1":2}]"#).unwrap_err();
    assert_eq!(error.cause(), Some(Fault::MissingField));
    assert_eq!(error.to_string(), "arg2");
    let error = serve(br#"[{"arg1":2,"arg2":3}]"#).unwrap_err();
    assert_eq!(error.cause(), Some(Fault::MissingField));
    assert_eq!(error.to_string(), "operation");
}

#[test]
fn operand_that_is_no_integer_of_32_bits_is_refused() {
    for payload in [
        &br#"[{"operation":"add","arg1":2.5,"arg2":3}]"#[..],
        br#"[{"operation":"add","arg1":"2","arg2":3}]"#,
        br#"[{"operation":"add","arg1":2,"arg2":2147483648}]"#,
        br#"[{"operation":"add","arg1":-2147483649,"arg2":3}]"#,
        br#"[{"operation":5,"arg1":2,"arg2":3}]"#,
        br#"[{"operation":null,"arg1":2,"arg2":3}]"#,
    ] {
        assert_eq!(serve(payload).unwrap_err().cause(), Some(Fault::Malformed));
    }
}

#[test]
fn first_bad_element_decides_the_fault() {
    let payload = br#"[{"operation":"add","arg1":1,"arg2":1},{"operation":"add","arg1":2},7]"#;
    assert_eq!(serve(payload).unwrap_err().cause(), Some(Fault::MissingField));
    let payload = br#"[7,{"operation":"add","arg1":2}]"#;
    assert_eq!(serve(payload).unwrap_err().cause(), Some(Fault::Malformed));
}

#[test]
fn batch_is_read_whatever_its_layout() {
    let payload = b" [ { \"arg2\" : 3 , \"note\" : [1, {\"a\": null}] , \"operation\" : \"mul\" , \"arg1\" : -4 } ]\n";
    let server = Server::new("7000".to_string(), quotient);
    let requests = server.receive_requests(payload).unwrap();
    assert_eq!(requests.len(), 1);
    assert_eq!(requests[0].operation, "mul");
    assert_eq!(requests[0].arg1, -4);
    assert_eq!(requests[0].arg2, 3);
    assert_eq!(serve(payload).unwrap(), r#"["-12"]"#);
}

#[test]
fn extreme_operands_are_read() {
    let payload = br#"[{"operation":"sub","arg1":-2147483648,"arg2":2147483647}]"#;
    let server = Server::new("7000".to_string(), quotient);
    let requests = server.receive_requests(payload).unwrap();
    assert_eq!(requests[0].arg1, i32::MIN);
    assert_eq!(requests[0].arg2, i32::MAX);
}

#[test]
fn escaped_tag_is_read_as_its_text() {
    let payload = br#"[{"operation":"add","arg1":20,"arg2":22}]"#;
    assert_eq!(serve(payload).unwrap(), r#"["42"]"#);
}

#[test]
fn results_are_escaped_in_the_reply() {
    let server = Server::new("7000".to_string(), |_: i32, _: i32| "a\"b\\c\n".to_string());
    let served = server.run(br#"[{"operation":"div","arg1":1,"arg2":2}]"#, "x").unwrap();
    assert_eq!(served.results, vec!["a\"b\\c\n".to_string()]);
    assert_eq!(served.reply.payload, r#"["a\"b\\c\n"]"#);
}

#[test]
fn server_error_keeps_its_message() {
    let error = ServerError::new("Invalid operation");
    assert_eq!(error.to_string(), "Invalid operation");
    assert_eq!(error.cause(), None);
    let boxed = ServerError::boxed("no socket");
    assert_eq!(boxed.to_string(), "no socket");
    assert_eq!(boxed.cause(), None);
    assert_eq!(ServerError::new("").to_string(), "");
}
