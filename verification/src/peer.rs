//! A peer of the ring: it queues requests, and when the token arrives it
//! submits the queue to the server, shows the results, empties the queue and
//! passes the token on.
//!
//! The functions here decide; the program that owns the socket sends what
//! they return and hands back what it receives.

use crate::request::operation_of;
use crate::request::report;
use crate::request::report_lines;
use crate::request::tag_of;
use crate::request::views;
use crate::request::Operation;
use crate::request::Request;
use crate::request::RequestView;
use crate::text::joined;
use crate::text::same_text;
use crate::wire::classify;
use crate::wire::control_of;
use crate::wire::datagram_text;
use crate::wire::decode_results;
use crate::wire::decoded_results;
use crate::wire::encode_batch;
use crate::wire::encoded_batch;
use crate::wire::read_lossy;
use crate::wire::Control;
use crate::wire::Datagram;
use crate::wire::DatagramView;
use crate::wire::Fault;
use crate::wire::WireError;
use crate::wire::CHECK;
use crate::wire::OK;
use crate::wire::TOKEN;
use rand::seq::SliceRandom;
use rand::Rng;
use vstd::prelude::*;

verus! {

/// `rand::rngs::ThreadRng`, the source of the generated requests.
#[verifier::external_type_specification]
#[verifier::external_body]
pub struct ExThreadRng(rand::rngs::ThreadRng);

/// `rand::thread_rng`: the generator of the calling thread, seeded by the
/// system. Nothing is claimed of it.
pub assume_specification[ rand::thread_rng ]() -> (generator: rand::rngs::ThreadRng)
;

/// `SliceRandom::choose` on the choices: one of them, whichever the
/// generator picks, and nothing only when there is none to pick.
#[verifier::external_body]
fn choose_operation(generator: &mut rand::rngs::ThreadRng, choices: &Vec<Operation>) -> (picked:
    Option<Operation>)
    ensures
        match picked {
            Some(operation) => choices@.contains(operation),
            None => choices@.len() == 0,
        },
{
    choices.choose(generator).copied()
}

/// `Rng::gen` at `i32`: any number of 32 bits.
#[verifier::external_body]
fn random_operand(generator: &mut rand::rngs::ThreadRng) -> (operand: i32) {
    generator.gen()
}

/// Whether a character is white space: one of the code points with the
/// Unicode property `White_Space`.
pub open spec fn is_white_space(character: char) -> bool {
    let code = character as u32;
    ||| 0x09 <= code <= 0x0d
    ||| code == 0x20
    ||| code == 0x85
    ||| code == 0xa0
    ||| code == 0x1680
    ||| 0x2000 <= code <= 0x200a
    ||| code == 0x2028
    ||| code == 0x2029
    ||| code == 0x202f
    ||| code == 0x205f
    ||| code == 0x3000
}

/// The number of white space characters that a text starts with.
pub open spec fn leading_space(text: Seq<char>) -> nat
    decreases text.len(),
{
    if text.len() == 0 || !is_white_space(text[0]) {
        0
    } else {
        1 + leading_space(text.drop_first())
    }
}

/// The number of white space characters that a text ends with.
pub open spec fn trailing_space(text: Seq<char>) -> nat
    decreases text.len(),
{
    if text.len() == 0 || !is_white_space(text.last()) {
        0
    } else {
        1 + trailing_space(text.drop_last())
    }
}

/// The text without the white space at its start and at its end.
pub open spec fn trimmed(text: Seq<char>) -> Seq<char> {
    if leading_space(text) == text.len() {
        Seq::empty()
    } else {
        text.subrange(leading_space(text) as int, text.len() - trailing_space(text))
    }
}

/// `str::trim`: the slice between the leading and the trailing white space,
/// white space being what Unicode gives the property `White_Space`.
#[verifier::external_body]
fn trim(text: &str) -> (inner: &str)
    ensures
        inner@ == trimmed(text@),
{
    text.trim()
}

/// A failure of a peer: a message and, where the codec failed, its fault.
#[derive(Debug)]
pub struct PeerError {
    message: String,
    cause: Option<Fault>,
}

impl View for PeerError {
    type V = Seq<char>;

    closed spec fn view(&self) -> Seq<char> {
        self.message@
    }
}

impl PeerError {
    /// The fault of the codec behind this error, if there is one.
    pub closed spec fn spec_cause(&self) -> Option<Fault> {
        self.cause
    }

    /// An error with the given message.
    pub fn new(message: &str) -> (error: PeerError)
        ensures
            error@ == message@,
            error.spec_cause() is None,
    {
        PeerError { message: String::from_str(message), cause: None }
    }

    /// An error with the given message, on the heap.
    pub fn boxed(message: &str) -> (error: Box<PeerError>)
        ensures
            error@ == message@,
            error.spec_cause() is None,
    {
        Box::new(PeerError::new(message))
    }

    /// The error that stands for a failure of the codec.
    pub fn from_wire(error: WireError) -> (peer: PeerError)
        ensures
            peer@ == error.detail@,
            peer.spec_cause() == Some(error.fault),
    {
        PeerError { message: error.detail, cause: Some(error.fault) }
    }

    /// The fault of the codec behind this error, if there is one.
    #[verifier::when_used_as_spec(spec_cause)]
    pub fn cause(&self) -> (cause: Option<Fault>)
        ensures
            cause == self.spec_cause(),
    {
        self.cause
    }

    /// The message of this error.
    pub fn to_string(&self) -> (message: String)
        ensures
            message@ == self@,
    {
        self.message.clone()
    }
}

/// What a peer does about a control message.
#[derive(Debug)]
pub enum Reaction {
    /// The queue holds work: send this batch to the server, wait for its
    /// reply and complete the handover with it.
    Submit(Datagram),
    /// Pass the token on.
    Forward(Datagram),
    /// Answer a probe.
    Reply(Datagram),
}

/// What a reaction is.
pub enum ReactionView {
    Submit(DatagramView),
    Forward(DatagramView),
    Reply(DatagramView),
}

impl View for Reaction {
    type V = ReactionView;

    open spec fn view(&self) -> ReactionView {
        match self {
            Reaction::Submit(datagram) => ReactionView::Submit(datagram@),
            Reaction::Forward(datagram) => ReactionView::Forward(datagram@),
            Reaction::Reply(datagram) => ReactionView::Reply(datagram@),
        }
    }
}

/// What ends the handling of a token once the server has replied: the lines
/// that pair the submitted requests with their results, and the token for the
/// successor.
#[derive(Debug)]
pub struct Handover {
    pub lines: Vec<String>,
    pub token: Datagram,
}

/// A command of the interactive shell.
#[derive(Clone, Copy, Debug, PartialEq, Eq, Structural)]
pub enum Command {
    Listen,
    Start,
    Check,
    Exit,
    Invalid,
}

/// The identity of a peer: where it listens, whom it passes the token to,
/// and where it submits its work.
#[derive(Debug)]
pub struct Peer {
    pub address: String,
    pub next_peer_address: String,
    pub server_address: String,
}

/// What a peer is: its three addresses as text.
pub struct PeerView {
    pub address: Seq<char>,
    pub next_peer_address: Seq<char>,
    pub server_address: Seq<char>,
}

impl View for Peer {
    type V = PeerView;

    open spec fn view(&self) -> PeerView {
        PeerView {
            address: self.address@,
            next_peer_address: self.next_peer_address@,
            server_address: self.server_address@,
        }
    }
}

/// The token on its way to `destination`.
pub open spec fn token_to(destination: Seq<char>) -> DatagramView {
    DatagramView { payload: TOKEN@, destination }
}

/// What the arrival of the token leads to: with an empty queue the token
/// goes on at once; otherwise the whole queue goes to the server, unless it
/// cannot be encoded.
pub open spec fn token_reaction(
    queue: Seq<RequestView>,
    next_peer_address: Seq<char>,
    server_address: Seq<char>,
) -> Result<ReactionView, Fault> {
    if queue.len() == 0 {
        Ok(ReactionView::Forward(token_to(next_peer_address)))
    } else {
        match encoded_batch(queue) {
            Ok(payload) => Ok(
                ReactionView::Submit(DatagramView { payload, destination: server_address }),
            ),
            Err(fault) => Err(fault),
        }
    }
}

/// What a listening peer does about a message: the token is handled, a probe
/// is answered with `ok` to the successor, anything else is an error without
/// a fault of the codec.
pub open spec fn reaction_to(peer: PeerView, queue: Seq<RequestView>, text: Seq<char>) -> Result<
    ReactionView,
    Option<Fault>,
> {
    match control_of(text) {
        Control::Token => match token_reaction(
            queue,
            peer.next_peer_address,
            peer.server_address,
        ) {
            Ok(reaction) => Ok(reaction),
            Err(fault) => Err(Some(fault)),
        },
        Control::Check => Ok(
            ReactionView::Reply(DatagramView { payload: OK@, destination: peer.next_peer_address }),
        ),
        Control::Other => Err(None),
    }
}

/// Whether the outcome of a probe shows a live peer: a reply arrived and it
/// reads `ok`.
pub open spec fn shows_alive(reply: Option<Seq<u8>>) -> bool {
    match reply {
        Some(datagram) => datagram_text(datagram) == OK@,
        None => false,
    }
}

/// The command that a line of input stands for, white space around it aside.
pub open spec fn command_of(input: Seq<char>) -> Command {
    let word = trimmed(input);
    if word == "listen"@ {
        Command::Listen
    } else if word == "start"@ {
        Command::Start
    } else if word == "check"@ {
        Command::Check
    } else if word == "exit"@ {
        Command::Exit
    } else {
        Command::Invalid
    }
}

/// The line that reports a probe: `None` stands for a probe that could not
/// be sent.
pub open spec fn liveness_text(checked: Option<bool>) -> Seq<char> {
    match checked {
        Some(true) => "Peer is alive"@,
        Some(false) => "Peer is dead"@,
        None => "Error checking peer"@,
    }
}

/// Liveness: a listening peer answers a probe with `ok` to its successor,
/// whatever its queue holds; a probe that is answered with `ok` shows a live
/// peer, and one that brings no reply shows a dead one.
pub proof fn lemma_probe(peer: PeerView, queue: Seq<RequestView>)
    ensures
        reaction_to(peer, queue, CHECK@) == Ok::<ReactionView, Option<Fault>>(
            ReactionView::Reply(DatagramView { payload: OK@, destination: peer.next_peer_address }),
        ),
        shows_alive(Some(vstd::utf8::encode_utf8(OK@))),
        !shows_alive(None),
{
    reveal_strlit("token");
    reveal_strlit("check");
    assert(TOKEN@[0] == 't');
    assert(CHECK@[0] == 'c');
    crate::wire::lemma_text_survives(OK@);
}

/// Queue draining: the token leaves a peer only over an empty queue. When it
/// is passed on at once the queue was empty; otherwise the queue is submitted
/// whole, and the handover that follows empties it.
pub proof fn lemma_token_leaves_empty_queue(
    queue: Seq<RequestView>,
    next_peer_address: Seq<char>,
    server_address: Seq<char>,
)
    ensures
        token_reaction(queue, next_peer_address, server_address) matches Ok(
            ReactionView::Forward(token),
        ) ==> queue.len() == 0 && token == token_to(next_peer_address),
        token_reaction(queue, next_peer_address, server_address) matches Ok(
            ReactionView::Submit(batch),
        ) ==> queue.len() > 0 && encoded_batch(queue) == Ok::<Seq<char>, Fault>(batch.payload)
            && batch.destination == server_address,
        !(token_reaction(queue, next_peer_address, server_address) matches Ok(
            ReactionView::Reply(_),
        )),
{
}

impl Peer {
    /// A peer that listens on the given port of the local host.
    pub fn new(port: &str, next_peer_address: &str, server_address: &str) -> (peer: Peer)
        ensures
            peer@ == (PeerView {
                address: "127.0.0.1:"@ + port@,
                next_peer_address: next_peer_address@,
                server_address: server_address@,
            }),
    {
        Peer {
            address: joined("127.0.0.1:", port),
            next_peer_address: String::from_str(next_peer_address),
            server_address: String::from_str(server_address),
        }
    }

    /// The request with the tag of `operation` and the given operands.
    pub fn request_for(operation: Operation, arg1: i32, arg2: i32) -> (request: Request)
        ensures
            request@ == (RequestView {
                operation: tag_of(operation),
                arg1: arg1 as int,
                arg2: arg2 as int,
            }),
            operation_of(request@.operation) == Some(operation),
    {
        proof {
            crate::request::lemma_tags_distinct(operation);
        }
        Request::new(operation.tag(), arg1, arg2)
    }

    /// A request with one of the four operations and two operands, all three
    /// drawn at random.
    pub fn generate_request() -> (request: Request)
        ensures
            operation_of(request@.operation) is Some,
    {
        let mut generator = rand::thread_rng();
        let choices = vec![Operation::Add, Operation::Sub, Operation::Mul, Operation::Div];
        let picked = choose_operation(&mut generator, &choices);
        let arg1 = random_operand(&mut generator);
        let arg2 = random_operand(&mut generator);
        let operation = match picked {
            Some(operation) => operation,
            None => {
                assert(false);
                Operation::Add
            },
        };
        Peer::request_for(operation, arg1, arg2)
    }

    /// The datagram that submits a batch to the server.
    pub fn send_request(request: &Vec<Request>, server_address: &str) -> (outcome: Result<
        Datagram,
        PeerError,
    >)
        ensures
            match outcome {
                Ok(datagram) => encoded_batch(views(request@)) == Ok::<Seq<char>, Fault>(
                    datagram@.payload,
                ) && datagram@.destination == server_address@,
                Err(error) => error.spec_cause() is Some && encoded_batch(views(request@)) == Err::<
                    Seq<char>,
                    Fault,
                >(error.spec_cause().unwrap()),
            },
    {
        match encode_batch(request) {
            Ok(payload) => Ok(Datagram { payload, destination: String::from_str(server_address) }),
            Err(error) => Err(PeerError::from_wire(error)),
        }
    }

    /// Reads the server's reply to a batch: one line for each request with
    /// the result at its position.
    pub fn read_results(request: &Vec<Request>, reply: &[u8]) -> (outcome: Result<
        Vec<String>,
        PeerError,
    >)
        ensures
            match outcome {
                Ok(lines) => decoded_results(datagram_text(reply@)) is Ok && lines.deep_view()
                    == report_lines(
                    views(request@),
                    decoded_results(datagram_text(reply@)).unwrap(),
                ),
                Err(error) => error.spec_cause() is Some && decoded_results(datagram_text(reply@))
                    == Err::<Seq<Seq<char>>, Fault>(error.spec_cause().unwrap()),
            },
    {
        let text = Peer::receive_response(reply);
        match decode_results(text.as_str()) {
            Ok(results) => Ok(report(request, &results)),
            Err(error) => Err(PeerError::from_wire(error)),
        }
    }

    /// The datagram that carries `message` to `peer_address`.
    pub fn send_message(message: &str, peer_address: &str) -> (datagram: Datagram)
        ensures
            datagram@ == (DatagramView { payload: message@, destination: peer_address@ }),
    {
        Datagram::new(message, peer_address)
    }

    /// The text of a datagram that was received.
    pub fn receive_response(datagram: &[u8]) -> (text: String)
        ensures
            text@ == datagram_text(datagram@),
    {
        read_lossy(datagram)
    }

    /// The datagram that passes the token to the successor.
    pub fn send_token(next_peer_address: &str) -> (datagram: Datagram)
        ensures
            datagram@ == token_to(next_peer_address@),
    {
        Datagram::new(TOKEN, next_peer_address)
    }

    /// The datagram that probes the successor.
    pub fn check_peer(next_peer_address: &str) -> (datagram: Datagram)
        ensures
            datagram@ == (DatagramView { payload: CHECK@, destination: next_peer_address@ }),
    {
        Datagram::new(CHECK, next_peer_address)
    }

    /// What a probe has shown: `reply` is the datagram that came back, or
    /// nothing when receiving failed.
    pub fn is_alive(reply: Option<&[u8]>) -> (alive: bool)
        ensures
            alive == shows_alive(
                match reply {
                    Some(datagram) => Some(datagram@),
                    None => None,
                },
            ),
    {
        match reply {
            Some(datagram) => {
                let text = Peer::receive_response(datagram);
                same_text(text.as_str(), OK)
            },
            None => false,
        }
    }

    /// The line that reports a probe.
    pub fn liveness_line(checked: Option<bool>) -> (line: &'static str)
        ensures
            line@ == liveness_text(checked),
    {
        match checked {
            Some(true) => "Peer is alive",
            Some(false) => "Peer is dead",
            None => "Error checking peer",
        }
    }

    /// Handles the arrival of the token, as far as it goes without the
    /// server: the token is passed on when the queue is empty, else the queue
    /// is submitted.
    pub fn handle_token(
        queue: &Vec<Request>,
        next_peer_address: &str,
        server_address: &str,
    ) -> (outcome: Result<Reaction, PeerError>)
        ensures
            match outcome {
                Ok(reaction) => token_reaction(
                    views(queue@),
                    next_peer_address@,
                    server_address@,
                ) == Ok::<ReactionView, Fault>(reaction@),
                Err(error) => error.spec_cause() is Some && token_reaction(
                    views(queue@),
                    next_peer_address@,
                    server_address@,
                ) == Err::<ReactionView, Fault>(error.spec_cause().unwrap()),
            },
            outcome matches Ok(Reaction::Forward(_)) ==> queue@.len() == 0,
    {
        if queue.len() > 0 {
            match Peer::send_request(queue, server_address) {
                Ok(datagram) => Ok(Reaction::Submit(datagram)),
                Err(error) => Err(error),
            }
        } else {
            Ok(Reaction::Forward(Peer::send_token(next_peer_address)))
        }
    }

    /// Completes the handling of the token with the server's reply: the
    /// results are paired with the queue, the queue is emptied and the token
    /// is passed on. A reply that cannot be read leaves the queue as it was
    /// and passes no token.
    pub fn complete_token(
        queue: &mut Vec<Request>,
        reply: &[u8],
        next_peer_address: &str,
    ) -> (outcome: Result<Handover, PeerError>)
        ensures
            match outcome {
                Ok(handover) => {
                    &&& decoded_results(datagram_text(reply@)) is Ok
                    &&& handover.lines.deep_view() == report_lines(
                        views(old(queue)@),
                        decoded_results(datagram_text(reply@)).unwrap(),
                    )
                    &&& handover.token@ == token_to(next_peer_address@)
                    &&& final(queue)@.len() == 0
                },
                Err(error) => {
                    &&& error.spec_cause() is Some
                    &&& decoded_results(datagram_text(reply@)) == Err::<Seq<Seq<char>>, Fault>(
                        error.spec_cause().unwrap(),
                    )
                    &&& final(queue)@ == old(queue)@
                },
            },
    {
        match Peer::read_results(queue, reply) {
            Ok(lines) => {
                queue.clear();
                Ok(Handover { lines, token: Peer::send_token(next_peer_address) })
            },
            Err(error) => Err(error),
        }
    }

    /// Reacts to one datagram that arrived while listening.
    pub fn listen(&self, queue: &Vec<Request>, datagram: &[u8]) -> (outcome: Result<
        Reaction,
        PeerError,
    >)
        ensures
            match outcome {
                Ok(reaction) => reaction_to(self@, views(queue@), datagram_text(datagram@)) == Ok::<
                    ReactionView,
                    Option<Fault>,
                >(reaction@),
                Err(error) => reaction_to(self@, views(queue@), datagram_text(datagram@)) == Err::<
                    ReactionView,
                    Option<Fault>,
                >(error.spec_cause()),
            },
            outcome matches Err(error) ==> (error.spec_cause() is None ==> error@
                == "Invalid response"@),
            outcome matches Ok(Reaction::Forward(_)) ==> queue@.len() == 0,
    {
        let text = Peer::receive_response(datagram);
        match classify(text.as_str()) {
            Control::Token => Peer::handle_token(
                queue,
                self.next_peer_address.as_str(),
                self.server_address.as_str(),
            ),
            Control::Check => Ok(
                Reaction::Reply(Peer::send_message(OK, self.next_peer_address.as_str())),
            ),
            Control::Other => Err(PeerError::new("Invalid response")),
        }
    }

    /// The datagram that brings the token into the ring: the first token,
    /// for the successor.
    pub fn start(&self) -> (datagram: Datagram)
        ensures
            datagram@ == token_to(self@.next_peer_address),
    {
        Peer::send_token(self.next_peer_address.as_str())
    }

    /// Reads one line of the interactive shell.
    pub fn run(input: &str) -> (command: Command)
        ensures
            command == command_of(input@),
    {
        let word = trim(input);
        if same_text(word, "listen") {
            Command::Listen
        } else if same_text(word, "start") {
            Command::Start
        } else if same_text(word, "check") {
            Command::Check
        } else if same_text(word, "exit") {
            Command::Exit
        } else {
            Command::Invalid
        }
    }
}

} // verus!
