//! The wire protocol: control messages, datagrams, and the JSON payloads
//! that carry batches of requests and of results.

use crate::decimal::decimal_text;
use crate::decimal::render_i64;
use crate::json::array_elements;
use crate::json::decode_strings;
use crate::json::describe;
use crate::json::encode_strings;
use crate::json::integer_value;
use crate::json::object_members;
use crate::json::parse_integer;
use crate::json::parse_string;
use crate::json::quote;
use crate::json::quoted_text;
use crate::json::split_array;
use crate::json::split_object;
use crate::json::string_array_text;
use crate::json::string_array_value;
use crate::json::string_value;
use crate::request::views;
use crate::request::Request;
use crate::request::RequestView;
use crate::text::same_text;
use vstd::prelude::*;
use vstd::utf8::decode_utf8;
use vstd::utf8::encode_utf8;
use vstd::utf8::encode_utf8_decode_utf8;
use vstd::utf8::encode_utf8_valid_utf8;
use vstd::utf8::valid_utf8;

verus! {

/// The message that passes ring access to the successor.
pub const TOKEN: &'static str = "token";

/// The message that probes a peer for liveness.
pub const CHECK: &'static str = "check";

/// The message that answers a liveness probe.
pub const OK: &'static str = "ok";

/// The size of the buffer that a node receives a datagram into.
pub const BUFFER_SIZE: usize = 1024;

/// A message on its way out: what to send and where to.
#[derive(Debug)]
pub struct Datagram {
    pub payload: String,
    pub destination: String,
}

/// What a datagram is: its payload and its destination as text.
pub struct DatagramView {
    pub payload: Seq<char>,
    pub destination: Seq<char>,
}

impl View for Datagram {
    type V = DatagramView;

    open spec fn view(&self) -> DatagramView {
        DatagramView { payload: self.payload@, destination: self.destination@ }
    }
}

impl Datagram {
    /// A datagram that carries `payload` to `destination`.
    pub fn new(payload: &str, destination: &str) -> (datagram: Datagram)
        ensures
            datagram@ == (DatagramView { payload: payload@, destination: destination@ }),
    {
        Datagram {
            payload: String::from_str(payload),
            destination: String::from_str(destination),
        }
    }
}

/// Why a payload could not be read or written.
#[derive(Clone, Copy, Debug, PartialEq, Eq, Structural)]
pub enum Fault {
    /// The bytes are not UTF-8.
    NotUtf8,
    /// The text is not the JSON that was expected at that place.
    Malformed,
    /// An element of a batch lacks one of the three members of a request.
    MissingField,
    /// The encoder refused a value.
    Unencodable,
}

/// A failure of the codec: its kind, and a text for a log.
#[derive(Debug)]
pub struct WireError {
    pub fault: Fault,
    pub detail: String,
}

impl WireError {
    /// A failure of the given kind.
    pub fn new(fault: Fault, detail: &str) -> (error: WireError)
        ensures
            error.fault == fault,
            error.detail@ == detail@,
    {
        WireError { fault, detail: String::from_str(detail) }
    }

    fn from_json(fault: Fault, error: &serde_json::Error) -> (wire: WireError)
        ensures
            wire.fault == fault,
    {
        WireError { fault, detail: describe(error) }
    }
}

/// `String::from_utf8`: the text that the bytes encode, when they are valid
/// UTF-8, and nothing otherwise.
#[verifier::external_body]
fn strict_text(bytes: &[u8]) -> (text: Option<String>)
    ensures
        match text {
            Some(content) => valid_utf8(bytes@) && content@ == decode_utf8(bytes@),
            None => !valid_utf8(bytes@),
        },
{
    String::from_utf8(bytes.to_vec()).ok()
}

/// The text that a lenient reading of the bytes gives: every malformed
/// sequence replaced by U+FFFD.
pub uninterp spec fn lossy_text(bytes: Seq<u8>) -> Seq<char>;

/// `String::from_utf8_lossy`: the text is a function of the bytes, and valid
/// UTF-8 is read as it stands.
#[verifier::external_body]
fn lenient_text(bytes: &[u8]) -> (text: String)
    ensures
        text@ == lossy_text(bytes@),
        valid_utf8(bytes@) ==> text@ == decode_utf8(bytes@),
{
    String::from_utf8_lossy(bytes).to_string()
}

/// The text that a node reads from a datagram: the text that the bytes
/// encode when they are UTF-8, else their lenient reading.
pub open spec fn datagram_text(datagram: Seq<u8>) -> Seq<char> {
    if valid_utf8(datagram) {
        decode_utf8(datagram)
    } else {
        lossy_text(datagram)
    }
}

/// Reads a datagram as text, replacing what is not UTF-8.
pub fn read_lossy(datagram: &[u8]) -> (text: String)
    ensures
        text@ == datagram_text(datagram@),
{
    lenient_text(datagram)
}

/// A text that is sent as its UTF-8 bytes is read back as it was.
pub proof fn lemma_text_survives(text: Seq<char>)
    ensures
        datagram_text(encode_utf8(text)) == text,
{
    encode_utf8_valid_utf8(text);
    encode_utf8_decode_utf8(text);
}

/// What an inbound message asks of a listening peer.
#[derive(Clone, Copy, Debug, PartialEq, Eq, Structural)]
pub enum Control {
    /// Ring access is handed over.
    Token,
    /// A neighbour asks whether this peer is alive.
    Check,
    /// Anything else: a violation of the protocol.
    Other,
}

/// The control message that a text is.
pub open spec fn control_of(text: Seq<char>) -> Control {
    if text == TOKEN@ {
        Control::Token
    } else if text == CHECK@ {
        Control::Check
    } else {
        Control::Other
    }
}

/// Tells the control messages apart.
pub fn classify(text: &str) -> (control: Control)
    ensures
        control == control_of(text@),
{
    if same_text(text, TOKEN) {
        Control::Token
    } else if same_text(text, CHECK) {
        Control::Check
    } else {
        Control::Other
    }
}

/// Reads a datagram as text, refusing what is not UTF-8.
pub fn read_strict(datagram: &[u8]) -> (outcome: Result<String, WireError>)
    ensures
        match outcome {
            Ok(text) => valid_utf8(datagram@) && text@ == decode_utf8(datagram@),
            Err(error) => !valid_utf8(datagram@) && error.fault == Fault::NotUtf8 && error.detail@
                == "datagram is not valid UTF-8"@,
        },
{
    match strict_text(datagram) {
        Some(text) => Ok(text),
        None => Err(WireError::new(Fault::NotUtf8, "datagram is not valid UTF-8")),
    }
}

/// The index of the first member at or after `from` whose key is `key`, or
/// the number of members when there is none.
pub open spec fn member_index(
    members: Seq<(Seq<char>, Seq<char>)>,
    key: Seq<char>,
    from: int,
) -> int
    decreases members.len() - from,
{
    if from < 0 || from >= members.len() {
        members.len() as int
    } else if members[from].0 == key {
        from
    } else {
        member_index(members, key, from + 1)
    }
}

/// The raw value of the first member whose key is `key`.
pub open spec fn member_value(members: Seq<(Seq<char>, Seq<char>)>, key: Seq<char>) -> Option<
    Seq<char>,
> {
    let index = member_index(members, key, 0);
    if index < members.len() {
        Some(members[index].1)
    } else {
        None
    }
}

/// The text of a required member that holds a JSON string.
pub open spec fn string_member(members: Seq<(Seq<char>, Seq<char>)>, key: Seq<char>) -> Result<
    Seq<char>,
    Fault,
> {
    match member_value(members, key) {
        None => Err(Fault::MissingField),
        Some(raw) => match string_value(raw) {
            None => Err(Fault::Malformed),
            Some(content) => Ok(content),
        },
    }
}

/// The number of a required member that holds a JSON integer of 32 bits.
pub open spec fn integer_member(members: Seq<(Seq<char>, Seq<char>)>, key: Seq<char>) -> Result<
    int,
    Fault,
> {
    match member_value(members, key) {
        None => Err(Fault::MissingField),
        Some(raw) => match integer_value(raw) {
            None => Err(Fault::Malformed),
            Some(number) => Ok(number),
        },
    }
}

/// The request that one element of a batch stands for: a JSON object with a
/// string member `operation` and integer members `arg1` and `arg2`, read in
/// that order; other members are ignored.
pub open spec fn decoded_request(element: Seq<char>) -> Result<RequestView, Fault> {
    match object_members(element) {
        None => Err(Fault::Malformed),
        Some(members) => match string_member(members, "operation"@) {
            Err(fault) => Err(fault),
            Ok(operation) => match integer_member(members, "arg1"@) {
                Err(fault) => Err(fault),
                Ok(arg1) => match integer_member(members, "arg2"@) {
                    Err(fault) => Err(fault),
                    Ok(arg2) => Ok(RequestView { operation, arg1, arg2 }),
                },
            },
        },
    }
}

/// The requests that a list of elements stands for, in order, or the fault
/// of the first element that stands for none.
pub open spec fn decoded_requests(elements: Seq<Seq<char>>) -> Result<Seq<RequestView>, Fault>
    decreases elements.len(),
{
    if elements.len() == 0 {
        Ok(Seq::empty())
    } else {
        match decoded_requests(elements.drop_last()) {
            Err(fault) => Err(fault),
            Ok(front) => match decoded_request(elements.last()) {
                Err(fault) => Err(fault),
                Ok(request) => Ok(front.push(request)),
            },
        }
    }
}

/// The batch that a payload stands for: a JSON array of request objects.
pub open spec fn decoded_batch(text: Seq<char>) -> Result<Seq<RequestView>, Fault> {
    match array_elements(text) {
        None => Err(Fault::Malformed),
        Some(elements) => decoded_requests(elements),
    }
}

/// The JSON object that stands for a request, members in the order
/// `operation`, `arg1`, `arg2`, without white space.
pub open spec fn encoded_request(request: RequestView) -> Result<Seq<char>, Fault> {
    match quoted_text(request.operation) {
        None => Err(Fault::Unencodable),
        Some(tag) => Ok(
            "{\"operation\":"@ + tag + ",\"arg1\":"@ + decimal_text(request.arg1) + ",\"arg2\":"@
                + decimal_text(request.arg2) + "}"@,
        ),
    }
}

/// The objects of the requests, in order, with a comma between neighbours.
pub open spec fn encoded_items(requests: Seq<RequestView>) -> Result<Seq<char>, Fault>
    decreases requests.len(),
{
    if requests.len() == 0 {
        Ok(Seq::empty())
    } else {
        match encoded_items(requests.drop_last()) {
            Err(fault) => Err(fault),
            Ok(front) => match encoded_request(requests.last()) {
                Err(fault) => Err(fault),
                Ok(item) => Ok(
                    if requests.len() == 1 {
                        item
                    } else {
                        front + ","@ + item
                    },
                ),
            },
        }
    }
}

/// The payload that stands for a batch: a JSON array of request objects.
pub open spec fn encoded_batch(requests: Seq<RequestView>) -> Result<Seq<char>, Fault> {
    match encoded_items(requests) {
        Err(fault) => Err(fault),
        Ok(items) => Ok("["@ + items + "]"@),
    }
}

/// The payload that stands for a list of results.
pub open spec fn encoded_results(results: Seq<Seq<char>>) -> Result<Seq<char>, Fault> {
    match string_array_text(results) {
        None => Err(Fault::Unencodable),
        Some(text) => Ok(text),
    }
}

/// The list of results that a payload stands for.
pub open spec fn decoded_results(text: Seq<char>) -> Result<Seq<Seq<char>>, Fault> {
    match string_array_value(text) {
        None => Err(Fault::Malformed),
        Some(results) => Ok(results),
    }
}

fn member<'a>(members: &'a Vec<(String, String)>, key: &str) -> (found: Option<&'a str>)
    ensures
        match found {
            Some(raw) => member_value(members.deep_view(), key@) == Some(raw@),
            None => member_value(members.deep_view(), key@) is None,
        },
{
    let mut i: usize = 0;
    while i < members.len()
        invariant
            i <= members.len(),
            member_index(members.deep_view(), key@, 0) == member_index(
                members.deep_view(),
                key@,
                i as int,
            ),
        decreases members.len() - i,
    {
        if same_text(members[i].0.as_str(), key) {
            return Some(members[i].1.as_str());
        }
        i += 1;
    }
    None
}

fn string_of(members: &Vec<(String, String)>, key: &str) -> (outcome: Result<String, WireError>)
    ensures
        match outcome {
            Ok(content) => string_member(members.deep_view(), key@) == Ok::<Seq<char>, Fault>(
                content@,
            ),
            Err(error) => string_member(members.deep_view(), key@) == Err::<Seq<char>, Fault>(
                error.fault,
            ),
        },
{
    match member(members, key) {
        None => Err(WireError::new(Fault::MissingField, key)),
        Some(raw) => match parse_string(raw) {
            Ok(content) => Ok(content),
            Err(error) => Err(WireError::from_json(Fault::Malformed, &error)),
        },
    }
}

fn integer_of(members: &Vec<(String, String)>, key: &str) -> (outcome: Result<i32, WireError>)
    ensures
        match outcome {
            Ok(number) => integer_member(members.deep_view(), key@) == Ok::<int, Fault>(
                number as int,
            ),
            Err(error) => integer_member(members.deep_view(), key@) == Err::<int, Fault>(
                error.fault,
            ),
        },
{
    match member(members, key) {
        None => Err(WireError::new(Fault::MissingField, key)),
        Some(raw) => match parse_integer(raw) {
            Ok(number) => Ok(number),
            Err(error) => Err(WireError::from_json(Fault::Malformed, &error)),
        },
    }
}

/// Reads one element of a batch as a request.
pub fn decode_request(element: &str) -> (outcome: Result<Request, WireError>)
    ensures
        match outcome {
            Ok(request) => decoded_request(element@) == Ok::<RequestView, Fault>(request@),
            Err(error) => decoded_request(element@) == Err::<RequestView, Fault>(error.fault),
        },
{
    let members = match split_object(element) {
        Ok(members) => members,
        Err(error) => {
            return Err(WireError::from_json(Fault::Malformed, &error));
        },
    };
    let operation = match string_of(&members, "operation") {
        Ok(operation) => operation,
        Err(error) => {
            return Err(error);
        },
    };
    let arg1 = match integer_of(&members, "arg1") {
        Ok(number) => number,
        Err(error) => {
            return Err(error);
        },
    };
    let arg2 = match integer_of(&members, "arg2") {
        Ok(number) => number,
        Err(error) => {
            return Err(error);
        },
    };
    Ok(Request { operation, arg1, arg2 })
}

/// A fault among the first elements is the fault of the whole list.
proof fn lemma_fault_persists(elements: Seq<Seq<char>>, count: int)
    requires
        0 <= count <= elements.len(),
        decoded_requests(elements.take(count)) is Err,
    ensures
        decoded_requests(elements) == decoded_requests(elements.take(count)),
    decreases elements.len() - count,
{
    if count == elements.len() {
        assert(elements.take(count) =~= elements);
    } else {
        assert(elements.take(count + 1).drop_last() =~= elements.take(count));
        lemma_fault_persists(elements, count + 1);
    }
}

/// Reads a payload as a batch of requests.
pub fn decode_batch(text: &str) -> (outcome: Result<Vec<Request>, WireError>)
    ensures
        match outcome {
            Ok(requests) => decoded_batch(text@) == Ok::<Seq<RequestView>, Fault>(
                views(requests@),
            ),
            Err(error) => decoded_batch(text@) == Err::<Seq<RequestView>, Fault>(error.fault),
        },
{
    let elements = match split_array(text) {
        Ok(elements) => elements,
        Err(error) => {
            return Err(WireError::from_json(Fault::Malformed, &error));
        },
    };
    let ghost raw = elements.deep_view();
    let mut requests: Vec<Request> = Vec::new();
    let mut i: usize = 0;
    assert(raw.take(0) =~= Seq::<Seq<char>>::empty());
    assert(views(requests@) =~= Seq::<RequestView>::empty());
    while i < elements.len()
        invariant
            i <= elements.len(),
            raw == elements.deep_view(),
            array_elements(text@) == Some(raw),
            decoded_requests(raw.take(i as int)) == Ok::<Seq<RequestView>, Fault>(
                views(requests@),
            ),
        decreases elements.len() - i,
    {
        let ghost before = views(requests@);
        proof {
            assert(raw.take(i + 1).drop_last() =~= raw.take(i as int));
            assert(raw.take(i + 1).last() == elements[i as int]@);
        }
        match decode_request(elements[i].as_str()) {
            Ok(request) => {
                requests.push(request);
                assert(views(requests@) =~= before.push(request@));
            },
            Err(error) => {
                proof {
                    lemma_fault_persists(raw, i + 1);
                }
                return Err(error);
            },
        }
        i += 1;
    }
    assert(raw.take(i as int) =~= raw);
    Ok(requests)
}

/// Writes one request as a JSON object.
pub fn encode_request(request: &Request) -> (outcome: Result<String, WireError>)
    ensures
        match outcome {
            Ok(text) => encoded_request(request@) == Ok::<Seq<char>, Fault>(text@),
            Err(error) => encoded_request(request@) == Err::<Seq<char>, Fault>(error.fault),
        },
{
    let tag = match quote(request.operation.as_str()) {
        Ok(tag) => tag,
        Err(error) => {
            return Err(WireError::from_json(Fault::Unencodable, &error));
        },
    };
    let mut text = String::from_str("{\"operation\":");
    text.append(tag.as_str());
    text.append(",\"arg1\":");
    let left = render_i64(request.arg1 as i64);
    text.append(left.as_str());
    text.append(",\"arg2\":");
    let right = render_i64(request.arg2 as i64);
    text.append(right.as_str());
    text.append("}");
    Ok(text)
}

/// A fault among the first requests is the fault of the whole list.
proof fn lemma_unencodable_persists(requests: Seq<RequestView>, count: int)
    requires
        0 <= count <= requests.len(),
        encoded_items(requests.take(count)) is Err,
    ensures
        encoded_items(requests) == encoded_items(requests.take(count)),
    decreases requests.len() - count,
{
    if count == requests.len() {
        assert(requests.take(count) =~= requests);
    } else {
        assert(requests.take(count + 1).drop_last() =~= requests.take(count));
        lemma_unencodable_persists(requests, count + 1);
    }
}

/// Writes a batch of requests as a payload.
pub fn encode_batch(requests: &Vec<Request>) -> (outcome: Result<String, WireError>)
    ensures
        match outcome {
            Ok(text) => encoded_batch(views(requests@)) == Ok::<Seq<char>, Fault>(text@),
            Err(error) => encoded_batch(views(requests@)) == Err::<Seq<char>, Fault>(error.fault),
        },
{
    let ghost all = views(requests@);
    let mut items = String::new();
    let mut i: usize = 0;
    assert(all.take(0) =~= Seq::<RequestView>::empty());
    while i < requests.len()
        invariant
            i <= requests.len(),
            all == views(requests@),
            encoded_items(all.take(i as int)) == Ok::<Seq<char>, Fault>(items@),
        decreases requests.len() - i,
    {
        proof {
            assert(all.take(i + 1).drop_last() =~= all.take(i as int));
            assert(all.take(i + 1).last() == requests[i as int]@);
        }
        match encode_request(&requests[i]) {
            Ok(item) => {
                if i > 0 {
                    items.append(",");
                }
                items.append(item.as_str());
                assert(encoded_items(all.take(i + 1)) == Ok::<Seq<char>, Fault>(items@)) by {
                    assert(all.take(i + 1).len() == i + 1);
                    if i == 0 {
                        assert(items@ =~= item@);
                    }
                }
            },
            Err(error) => {
                proof {
                    lemma_unencodable_persists(all, i + 1);
                }
                return Err(error);
            },
        }
        i += 1;
    }
    assert(all.take(i as int) =~= all);
    let mut text = String::from_str("[");
    text.append(items.as_str());
    text.append("]");
    Ok(text)
}

/// Writes a list of results as a payload.
pub fn encode_results(results: &Vec<String>) -> (outcome: Result<String, WireError>)
    ensures
        match outcome {
            Ok(text) => encoded_results(results.deep_view()) == Ok::<Seq<char>, Fault>(text@),
            Err(error) => encoded_results(results.deep_view()) == Err::<Seq<char>, Fault>(
                error.fault,
            ),
        },
{
    match encode_strings(results) {
        Ok(text) => Ok(text),
        Err(error) => Err(WireError::from_json(Fault::Unencodable, &error)),
    }
}

/// Reads a payload as a list of results.
pub fn decode_results(text: &str) -> (outcome: Result<Vec<String>, WireError>)
    ensures
        match outcome {
            Ok(results) => decoded_results(text@) == Ok::<Seq<Seq<char>>, Fault>(
                results.deep_view(),
            ),
            Err(error) => decoded_results(text@) == Err::<Seq<Seq<char>>, Fault>(error.fault),
        },
{
    match decode_strings(text) {
        Ok(results) => Ok(results),
        Err(error) => Err(WireError::from_json(Fault::Malformed, &error)),
    }
}

} // verus!
