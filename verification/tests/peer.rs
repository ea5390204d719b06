use token_ring::peer::Command;
use token_ring::peer::Peer;
use token_ring::peer::PeerError;
use token_ring::peer::Reaction;
use token_ring::request::Request;
use token_ring::server::Server;
use token_ring::wire::Datagram;
use token_ring::wire::Fault;

fn peer_a() -> Peer {
    Peer::new("4001", "127.0.0.1:4002", "127.0.0.1:7000")
}

fn forwarded(reaction: Reaction) -> Datagram {
    match reaction {
        Reaction::Forward(datagram) => datagram,
        other => panic!("expected the token to be passed on, got {:?}", other),
    }
}

fn submitted(reaction: Reaction) -> Datagram {
    match reaction {
        Reaction::Submit(datagram) => datagram,
        other => panic!("expected a submission, got {:?}", other),
    }
}

fn replied(reaction: Reaction) -> Datagram {
    match reaction {
        Reaction::Reply(datagram) => datagram,
        other => panic!("expected a reply, got {:?}", other),
    }
}

#[test]
fn peer_listens_on_the_local_host() {
    let peer = peer_a();
    assert_eq!(peer.address, "127.0.0.1:4001");
    assert_eq!(peer.next_peer_address, "127.0.0.1:4002");
    assert_eq!(peer.server_address, "127.0.0.1:7000");
}

#[test]
fn token_over_an_empty_queue_is_passed_on_at_once() {
    let peer = peer_a();
    let queue: Vec<Request> = Vec::new();
    let token = forwarded(peer.listen(&queue, b"token").unwrap());
    assert_eq!(token.payload, "token");
    assert_eq!(token.destination, "127.0.0.1:4002");
}

#[test]
fn token_over_one_request_is_passed_on_after_the_round_trip() {
    let peer = peer_a();
    let mut queue = vec![Request::new("mul", 3, 4)];
    let batch = submitted(peer.listen(&queue, b"token").unwrap());
    assert_eq!(batch.destination, "127.0.0.1:7000");
    assert_eq!(batch.payload, r#"[{"operation":"mul","arg1":3,"arg2":4}]"#);
    assert_eq!(queue.len(), 1);
    let handover = Peer::complete_token(&mut queue, br#"["12"]"#, &peer.next_peer_address).unwrap();
    assert_eq!(handover.lines, vec!["3 * 4 = 12"]);
    assert!(queue.is_empty());
    assert_eq!(handover.token.payload, "token");
    assert_eq!(handover.token.destination, "127.0.0.1:4002");
}

#[test]
fn round_trip_through_a_server() {
    let peer = peer_a();
    let server = Server::new("7000".to_string(), |a: i32, b: i32| (a as f64 / b as f64).to_string());
    let mut queue = vec![
        Request::new("add", 2, 3),
        Request::new("div", 5, 0),
        Request::new("div", 7, 2),
        Request::new("sub", 1, 2),
    ];
    let batch = submitted(Peer::handle_token(&queue, "127.0.0.1:4002", "127.0.0.1:7000").unwrap());
    let served = server.run(batch.payload.as_bytes(), &peer.address).unwrap();
    assert_eq!(served.reply.destination, "127.0.0.1:4001");
    let handover = Peer::complete_token(&mut queue, served.reply.payload.as_bytes(), "127.0.0.1:4002").unwrap();
    assert_eq!(
        handover.lines,
        vec!["2 + 3 = 5", "5 / 0 = Division by zero", "7 / 2 = 3.5", "1 - 2 = -1"]
    );
    assert_eq!(handover.lines, served.lines);
    assert!(queue.is_empty());
    assert_eq!(handover.token.destination, "127.0.0.1:4002");
}

#[test]
fn queue_is_empty_whenever_the_token_leaves() {
    for size in [0usize, 1, 2, 17, 200] {
        let mut queue: Vec<Request> = Vec::new();
        for i in 0..size {
            queue.push(Request::new("add", i as i32, 1));
        }
        let token = match Peer::handle_token(&queue, "next", "server").unwrap() {
            Reaction::Forward(token) => token,
            Reaction::Submit(batch) => {
                assert_eq!(batch.destination, "server");
                let mut reply = Vec::new();
                for i in 0..size {
                    reply.push((i + 1).to_string());
                }
                let reply = token_ring::wire::encode_results(&reply).unwrap();
                let handover = Peer::complete_token(&mut queue, reply.as_bytes(), "next").unwrap();
                assert_eq!(handover.lines.len(), size);
                handover.token
            }
            Reaction::Reply(_) => unreachable!(),
        };
        assert_eq!(token.payload, "token");
        assert_eq!(token.destination, "next");
        assert!(queue.is_empty());
    }
}

#[test]
fn unreadable_reply_keeps_the_queue_and_the_token() {
    let mut queue = vec![Request::new("mul", 3, 4), Request::new("add", 1, 1)];
    let error = Peer::complete_token(&mut queue, b"token", "next").unwrap_err();
    assert_eq!(error.cause(), Some(Fault::Malformed));
    assert!(!error.to_string().is_empty());
    assert_eq!(queue.len(), 2);
    assert_eq!(queue[0].operation, "mul");
    assert_eq!(queue[1].operation, "add");
    let error = Peer::complete_token(&mut queue, &[0x5b, 0xff, 0x5d], "next").unwrap_err();
    assert_eq!(error.cause(), Some(Fault::Malformed));
    assert_eq!(queue.len(), 2);
}

#[test]
fn short_reply_pairs_the_first_requests() {
    let mut queue = vec![Request::new("mul", 3, 4), Request::new("add", 1, 1)];
    let handover = Peer::complete_token(&mut queue, br#"["12"]"#, "next").unwrap();
    assert_eq!(handover.lines, vec!["3 * 4 = 12"]);
    assert!(queue.is_empty());
}

#[test]
fn probe_is_answered_with_ok_to_the_successor() {
    let peer = Peer::new("4002", "127.0.0.1:4003", "127.0.0.1:7000");
    let queue = vec![Request::new("add", 1, 2)];
    let answer = replied(peer.listen(&queue, b"check").unwrap());
    assert_eq!(answer.payload, "ok");
    assert_eq!(answer.destination, "127.0.0.1:4003");
    assert_eq!(queue.len(), 1);
    let answer = replied(peer.listen(&Vec::new(), b"check").unwrap());
    assert_eq!(answer.payload, "ok");
}

#[test]
fn probe_of_a_running_peer_reports_alive() {
    let a = peer_a();
    let b = Peer::new("4002", "127.0.0.1:4001", "127.0.0.1:7000");
    let probe = Peer::check_peer(&a.next_peer_address);
    assert_eq!(probe.payload, "check");
    assert_eq!(probe.destination, b.address);
    let answer = replied(b.listen(&Vec::new(), probe.payload.as_bytes()).unwrap());
    assert_eq!(answer.destination, a.address);
    let alive = Peer::is_alive(Some(answer.payload.as_bytes()));
    assert!(alive);
    assert_eq!(Peer::liveness_line(Some(alive)), "Peer is alive");
}

#[test]
fn probe_without_a_reply_reports_dead() {
    assert!(!Peer::is_alive(None));
    assert_eq!(Peer::liveness_line(Some(Peer::is_alive(None))), "Peer is dead");
}

#[test]
fn probe_with_another_reply_reports_dead() {
    for reply in [&b""[..], b"OK", b"ok ", b"okay", b"token", b"check", &[0x6f, 0x6b, 0xff]] {
        assert!(!Peer::is_alive(Some(reply)));
    }
}

#[test]
fn probe_that_could_not_be_sent_is_reported_as_an_error() {
    assert_eq!(Peer::liveness_line(None), "Error checking peer");
    assert_eq!(Peer::liveness_line(Some(false)), "Peer is dead");
    assert_eq!(Peer::liveness_line(Some(true)), "Peer is alive");
}

#[test]
fn other_message_is_a_protocol_violation() {
    let peer = peer_a();
    let queue = vec![Request::new("add", 1, 2)];
    for message in [&b"ok"[..], b"", b"Token", b"token\n", b"[\"5\"]", &[0xff, 0xfe]] {
        let error = peer.listen(&queue, message).unwrap_err();
        assert_eq!(error.to_string(), "Invalid response");
        assert_eq!(error.cause(), None);
    }
    assert_eq!(queue.len(), 1);
}

#[test]
fn start_sends_the_first_token_to_the_successor() {
    let token = peer_a().start();
    assert_eq!(token.payload, "token");
    assert_eq!(token.destination, "127.0.0.1:4002");
}

#[test]
fn messages_are_addressed_as_asked() {
    let datagram = Peer::send_message("ok", "127.0.0.1:5000");
    assert_eq!(datagram.payload, "ok");
    assert_eq!(datagram.destination, "127.0.0.1:5000");
    let token = Peer::send_token("127.0.0.1:5001");
    assert_eq!(token.payload, "token");
    assert_eq!(token.destination, "127.0.0.1:5001");
}

#[test]
fn submission_carries_the_whole_queue() {
    let queue = vec![Request::new("add", 2, 3), Request::new("div", 5, 0)];
    let datagram = Peer::send_request(&queue, "127.0.0.1:7000").unwrap();
    assert_eq!(datagram.destination, "127.0.0.1:7000");
    assert_eq!(
        datagram.payload,
        r#"[{"operation":"add","arg1":2,"arg2":3},{"operation":"div","arg1":5,"arg2":0}]"#
    );
    assert_eq!(Peer::send_request(&Vec::new(), "s").unwrap().payload, "[]");
}

#[test]
fn reply_is_read_into_lines() {
    let queue = vec![Request::new("add", 2, 3), Request::new("div", 5, 0)];
    let lines = Peer::read_results(&queue, br#"["5","Division by zero"]"#).unwrap();
    assert_eq!(lines, vec!["2 + 3 = 5", "5 / 0 = Division by zero"]);
    let error = Peer::read_results(&queue, b"[5]").unwrap_err();
    assert_eq!(error.cause(), Some(Fault::Malformed));
}

#[test]
fn received_bytes_are_read_leniently() {
    assert_eq!(Peer::receive_response(b"token"), "token");
    assert_eq!(Peer::receive_response(&[0x6f, 0x6b, 0x80]), "ok\u{fffd}");
    assert_eq!(Peer::receive_response(b""), "");
}

#[test]
fn generated_request_has_one_of_the_four_operations() {
    let mut seen = [false; 4];
    let mut operands = std::collections::HashSet::new();
    for _ in 0..400 {
        let request = Peer::generate_request();
        let operation = request.kind().expect("a generated tag names an operation");
        let position = ["add", "sub", "mul", "div"]
            .iter()
            .position(|tag| *tag == request.operation)
            .unwrap();
        assert_eq!(operation.tag(), request.operation);
        seen[position] = true;
        operands.insert(request.arg1);
        operands.insert(request.arg2);
    }
    assert_eq!(seen, [true; 4]);
    assert!(operands.len() > 700);
}

#[test]
fn request_is_made_for_an_operation() {
    let request = Peer::request_for(token_ring::request::Operation::Div, -8, 2);
    assert_eq!(request.operation, "div");
    assert_eq!(request.arg1, -8);
    assert_eq!(request.arg2, 2);
}

#[test]
fn shell_commands_are_read_without_the_white_space_around() {
    assert_eq!(Peer::run("listen\n"), Command::Listen);
    assert_eq!(Peer::run("start\r\n"), Command::Start);
    assert_eq!(Peer::run("  check\t"), Command::Check);
    assert_eq!(Peer::run("exit"), Command::Exit);
    assert_eq!(Peer::run("\u{a0}exit\u{2003}"), Command::Exit);
}

#[test]
fn other_input_is_an_invalid_command() {
    for input in ["", "\n", "stop", "Listen", "check peer", "ex it", "token"] {
        assert_eq!(Peer::run(input), Command::Invalid);
    }
}

#[test]
fn peer_error_keeps_its_message() {
    let error = PeerError::new("Invalid response");
    assert_eq!(error.to_string(), "Invalid response");
    assert_eq!(error.cause(), None);
    let boxed = PeerError::boxed("no route");
    assert_eq!(boxed.to_string(), "no route");
    assert_eq!(boxed.cause(), None);
}

#[test]
fn white_space_is_what_unicode_calls_white_space() {
    let spaces = [
        0x09u32, 0x0a, 0x0b, 0x0c, 0x0d, 0x20, 0x85, 0xa0, 0x1680, 0x2000, 0x2001, 0x2002, 0x2003,
        0x2004, 0x2005, 0x2006, 0x2007, 0x2008, 0x2009, 0x200a, 0x2028, 0x2029, 0x202f, 0x205f,
        0x3000,
    ];
    let mut input = String::new();
    for code in 0..=0x10ffffu32 {
        if let Some(character) = char::from_u32(code) {
            input.clear();
            input.push(character);
            input.push_str("exit");
            input.push(character);
            let expected = if spaces.contains(&code) { Command::Exit } else { Command::Invalid };
            assert_eq!(Peer::run(&input), expected);
        }
    }
}

#[test]
fn white_space_inside_a_command_stays() {
    assert_eq!(Peer::run(" \t\r\n "), Command::Invalid);
    assert_eq!(Peer::run("e xit"), Command::Invalid);
    assert_eq!(Peer::run(" \n exit \n\n"), Command::Exit);
    assert_eq!(Peer::run("exit\u{200b}"), Command::Invalid);
}
