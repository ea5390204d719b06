//! The compute server: it reads a batch of requests from a datagram,
//! evaluates each in order and answers with the results in the same order.
//! It keeps nothing between datagrams.

use crate::decimal::decimal_text;
use crate::decimal::decimal_value;
use crate::decimal::lemma_decimal_read_back;
use crate::decimal::render_i64;
use crate::request::lemma_tags_distinct;
use crate::request::operation_of;
use crate::request::report;
use crate::request::report_lines;
use crate::request::tag_of;
use crate::request::views;
use crate::request::Operation;
use crate::request::Request;
use crate::request::RequestView;
use crate::text::joined;
use crate::wire::decode_batch;
use crate::wire::decoded_batch;
use crate::wire::encode_results;
use crate::wire::encoded_results;
use crate::wire::read_strict;
use crate::wire::Datagram;
use crate::wire::Fault;
use crate::wire::WireError;
use vstd::prelude::*;
use vstd::utf8::decode_utf8;
use vstd::utf8::valid_utf8;

verus! {

/// A failure of the server: a message and, where the codec failed, its
/// fault.
#[derive(Debug)]
pub struct ServerError {
    message: String,
    cause: Option<Fault>,
}

impl View for ServerError {
    type V = Seq<char>;

    closed spec fn view(&self) -> Seq<char> {
        self.message@
    }
}

impl ServerError {
    /// The fault of the codec behind this error, if there is one.
    pub closed spec fn spec_cause(&self) -> Option<Fault> {
        self.cause
    }

    /// An error with the given message.
    pub fn new(message: &str) -> (error: ServerError)
        ensures
            error@ == message@,
            error.spec_cause() is None,
    {
        ServerError { message: String::from_str(message), cause: None }
    }

    /// An error with the given message, on the heap.
    pub fn boxed(message: &str) -> (error: Box<ServerError>)
        ensures
            error@ == message@,
            error.spec_cause() is None,
    {
        Box::new(ServerError::new(message))
    }

    /// The error that stands for a failure of the codec.
    pub fn from_wire(error: WireError) -> (server: ServerError)
        ensures
            server@ == error.detail@,
            server.spec_cause() == Some(error.fault),
    {
        ServerError { message: error.detail, cause: Some(error.fault) }
    }

    /// The fault of the codec behind this error, if there is one.
    #[verifier::when_used_as_spec(spec_cause)]
    pub fn cause(&self) -> (cause: Option<Fault>)
        ensures
            cause == self.spec_cause(),
    {
        self.cause
    }

    /// The message of this error.
    pub fn to_string(&self) -> (message: String)
        ensures
            message@ == self@,
    {
        self.message.clone()
    }
}

/// The result that is owed for a request whatever the divider does: the
/// exact sum, difference or product in decimal, a fixed text for a division
/// by zero and for a tag that names no operation. A division by another
/// number is left to the divider.
pub open spec fn settled_result(request: RequestView) -> Option<Seq<char>> {
    match operation_of(request.operation) {
        Some(Operation::Add) => Some(decimal_text(request.arg1 + request.arg2)),
        Some(Operation::Sub) => Some(decimal_text(request.arg1 - request.arg2)),
        Some(Operation::Mul) => Some(decimal_text(request.arg1 * request.arg2)),
        Some(Operation::Div) => if request.arg2 == 0 {
            Some("Division by zero"@)
        } else {
            None
        },
        None => Some("Invalid operation"@),
    }
}

/// Arithmetic: the result owed for a sum, a difference or a product is the
/// decimal text of the exact integer, and that text stands for no other
/// integer; a division by zero is answered with its fixed text, and only a
/// division by another number is left to the divider.
pub proof fn lemma_arithmetic(arg1: int, arg2: int)
    ensures
        settled_result(RequestView { operation: tag_of(Operation::Add), arg1, arg2 }) == Some(
            decimal_text(arg1 + arg2),
        ),
        settled_result(RequestView { operation: tag_of(Operation::Sub), arg1, arg2 }) == Some(
            decimal_text(arg1 - arg2),
        ),
        settled_result(RequestView { operation: tag_of(Operation::Mul), arg1, arg2 }) == Some(
            decimal_text(arg1 * arg2),
        ),
        decimal_value(decimal_text(arg1 + arg2)) == arg1 + arg2,
        decimal_value(decimal_text(arg1 - arg2)) == arg1 - arg2,
        decimal_value(decimal_text(arg1 * arg2)) == arg1 * arg2,
        settled_result(RequestView { operation: tag_of(Operation::Div), arg1, arg2: 0 }) == Some(
            "Division by zero"@,
        ),
        arg2 != 0 ==> settled_result(RequestView { operation: tag_of(Operation::Div), arg1, arg2 })
            is None,
{
    lemma_tags_distinct(Operation::Add);
    lemma_tags_distinct(Operation::Sub);
    lemma_tags_distinct(Operation::Mul);
    lemma_tags_distinct(Operation::Div);
    lemma_decimal_read_back(arg1 + arg2);
    lemma_decimal_read_back(arg1 - arg2);
    lemma_decimal_read_back(arg1 * arg2);
}

/// What serving one datagram yields: the results, a line for each request
/// with its result, and the reply for the sender.
#[derive(Debug)]
pub struct Served {
    pub results: Vec<String>,
    pub lines: Vec<String>,
    pub reply: Datagram,
}

/// The batch that a datagram stands for: UTF-8 text that holds a JSON array
/// of request objects.
pub open spec fn received_batch(datagram: Seq<u8>) -> Result<Seq<RequestView>, Fault> {
    if valid_utf8(datagram) {
        decoded_batch(decode_utf8(datagram))
    } else {
        Err(Fault::NotUtf8)
    }
}

/// Whether a divider accepts every dividend with every divisor but zero.
pub open spec fn divides<D: Fn(i32, i32) -> String>(divide: D) -> bool {
    forall|dividend: i32, divisor: i32| divisor != 0 ==> call_requires(divide, (dividend, divisor))
}

/// A server at an address, with the divider that renders the quotient of a
/// division by a number other than zero.
pub struct Server<D: Fn(i32, i32) -> String> {
    address: String,
    divide: D,
}

impl<D: Fn(i32, i32) -> String> Server<D> {
    #[verifier::type_invariant]
    spec fn ready(self) -> bool {
        divides(self.divide)
    }

    /// The address that the server listens at.
    pub closed spec fn spec_address(&self) -> Seq<char> {
        self.address@
    }

    /// The divider of this server.
    pub closed spec fn divider(&self) -> D {
        self.divide
    }

    /// Whether `text` is a result of this server for `request`: the settled
    /// result where there is one, else something the divider returns for the
    /// two operands.
    pub open spec fn answers(&self, request: RequestView, text: String) -> bool {
        match settled_result(request) {
            Some(settled) => text@ == settled,
            None => call_ensures(
                self.divider(),
                (request.arg1 as i32, request.arg2 as i32),
                text,
            ),
        }
    }

    /// Whether `results` answers `requests` one for one, in order.
    pub open spec fn answers_all(&self, requests: Seq<RequestView>, results: Seq<String>) -> bool {
        &&& results.len() == requests.len()
        &&& forall|i: int|
            0 <= i < requests.len() ==> self.answers(#[trigger] requests[i], results[i])
    }

    /// A server for the given port of the local host.
    pub fn new(port: String, divide: D) -> (server: Server<D>)
        requires
            divides(divide),
        ensures
            server.spec_address() == "127.0.0.1:"@ + port@,
            server.divider() == divide,
    {
        Server { address: joined("127.0.0.1:", port.as_str()), divide }
    }

    /// The address that the server listens at.
    pub fn address(&self) -> (address: &str)
        ensures
            address@ == self.spec_address(),
    {
        self.address.as_str()
    }

    /// Reads a datagram as a batch of requests.
    pub fn receive_requests(&self, datagram: &[u8]) -> (outcome: Result<Vec<Request>, ServerError>)
        ensures
            match outcome {
                Ok(requests) => received_batch(datagram@) == Ok::<Seq<RequestView>, Fault>(
                    views(requests@),
                ),
                Err(error) => error.spec_cause() is Some && received_batch(datagram@) == Err::<
                    Seq<RequestView>,
                    Fault,
                >(error.spec_cause().unwrap()),
            },
    {
        let text = match read_strict(datagram) {
            Ok(text) => text,
            Err(error) => {
                return Err(ServerError::from_wire(error));
            },
        };
        match decode_batch(text.as_str()) {
            Ok(requests) => Ok(requests),
            Err(error) => Err(ServerError::from_wire(error)),
        }
    }

    fn answer(&self, request: &Request) -> (text: String)
        ensures
            self.answers(request@, text),
    {
        proof {
            use_type_invariant(self);
        }
        let left: i64 = request.arg1 as i64;
        let right: i64 = request.arg2 as i64;
        match request.kind() {
            Some(Operation::Add) => render_i64(left + right),
            Some(Operation::Sub) => render_i64(left - right),
            Some(Operation::Mul) => {
                assert(-0x4000_0000_0000_0000 <= left * right <= 0x4000_0000_0000_0000)
                    by (nonlinear_arith)
                    requires
                        -0x8000_0000 <= left <= 0x7fff_ffff,
                        -0x8000_0000 <= right <= 0x7fff_ffff,
                ;
                render_i64(left * right)
            },
            Some(Operation::Div) => {
                if request.arg2 == 0 {
                    String::from_str("Division by zero")
                } else {
                    (self.divide)(request.arg1, request.arg2)
                }
            },
            None => String::from_str("Invalid operation"),
        }
    }

    /// Evaluates one request.
    pub fn process_request(&self, request: Request) -> (text: String)
        ensures
            self.answers(request@, text),
    {
        self.answer(&request)
    }

    /// Evaluates a batch: one result for each request, in the order of the
    /// requests.
    pub fn process_batch(&self, requests: &Vec<Request>) -> (results: Vec<String>)
        ensures
            self.answers_all(views(requests@), results@),
    {
        let mut results: Vec<String> = Vec::new();
        let mut i: usize = 0;
        while i < requests.len()
            invariant
                i <= requests.len(),
                results@.len() == i,
                forall|k: int| 0 <= k < i ==> self.answers(#[trigger] requests@[k]@, results@[k]),
            decreases requests.len() - i,
        {
            let text = self.answer(&requests[i]);
            results.push(text);
            i += 1;
        }
        results
    }

    /// Serves one datagram: reads the batch, evaluates it, and addresses the
    /// encoded results to the sender.
    pub fn run(&self, datagram: &[u8], source: &str) -> (outcome: Result<Served, ServerError>)
        ensures
            received_batch(datagram@) is Err ==> outcome is Err,
            match outcome {
                Ok(served) => {
                    &&& received_batch(datagram@) is Ok
                    &&& self.answers_all(received_batch(datagram@).unwrap(), served.results@)
                    &&& served.lines.deep_view() == report_lines(
                        received_batch(datagram@).unwrap(),
                        served.results.deep_view(),
                    )
                    &&& encoded_results(served.results.deep_view()) == Ok::<Seq<char>, Fault>(
                        served.reply.payload@,
                    )
                    &&& served.reply.destination@ == source@
                },
                Err(error) => {
                    &&& error.spec_cause() is Some
                    &&& received_batch(datagram@) is Err ==> received_batch(datagram@) == Err::<
                        Seq<RequestView>,
                        Fault,
                    >(error.spec_cause().unwrap())
                    &&& received_batch(datagram@) is Ok ==> error.spec_cause() == Some(
                        Fault::Unencodable,
                    ) && exists|results: Vec<String>|
                        self.answers_all(received_batch(datagram@).unwrap(), results@)
                            && #[trigger] encoded_results(results.deep_view()) is Err
                },
            },
    {
        let requests = match self.receive_requests(datagram) {
            Ok(requests) => requests,
            Err(error) => {
                return Err(error);
            },
        };
        let results = self.process_batch(&requests);
        let lines = report(&requests, &results);
        let payload = match encode_results(&results) {
            Ok(payload) => payload,
            Err(error) => {
                return Err(ServerError::from_wire(error));
            },
        };
        let reply = Datagram { payload, destination: String::from_str(source) };
        Ok(Served { results, lines, reply })
    }
}

} // verus!
