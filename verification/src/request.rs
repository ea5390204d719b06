//! The arithmetic work item that peers queue and the server evaluates.

use crate::decimal::decimal_text;
use crate::decimal::render_i64;
use crate::text::same_text;
use vstd::prelude::*;

verus! {

/// The four operations that the server evaluates.
#[derive(Clone, Copy, Debug, PartialEq, Eq, Structural)]
pub enum Operation {
    Add,
    Sub,
    Mul,
    Div,
}

/// One unit of work: an operation tag and two operands.
#[derive(Debug)]
pub struct Request {
    pub operation: String,
    pub arg1: i32,
    pub arg2: i32,
}

/// What a request is: its tag as text, its operands as integers.
pub struct RequestView {
    pub operation: Seq<char>,
    pub arg1: int,
    pub arg2: int,
}

impl View for Request {
    type V = RequestView;

    open spec fn view(&self) -> RequestView {
        RequestView { operation: self.operation@, arg1: self.arg1 as int, arg2: self.arg2 as int }
    }
}

/// The tag that names an operation on the wire.
pub open spec fn tag_of(operation: Operation) -> Seq<char> {
    match operation {
        Operation::Add => "add"@,
        Operation::Sub => "sub"@,
        Operation::Mul => "mul"@,
        Operation::Div => "div"@,
    }
}

/// The operation that a tag names, if it names one.
pub open spec fn operation_of(tag: Seq<char>) -> Option<Operation> {
    if tag == "add"@ {
        Some(Operation::Add)
    } else if tag == "sub"@ {
        Some(Operation::Sub)
    } else if tag == "mul"@ {
        Some(Operation::Mul)
    } else if tag == "div"@ {
        Some(Operation::Div)
    } else {
        None
    }
}

/// The infix sign of an operation, with a space on either side.
pub open spec fn sign_of(operation: Operation) -> Seq<char> {
    match operation {
        Operation::Add => " + "@,
        Operation::Sub => " - "@,
        Operation::Mul => " * "@,
        Operation::Div => " / "@,
    }
}

/// The line that shows a request: its operands in decimal around the sign of
/// its operation, or a fixed text when the tag names no operation.
pub open spec fn display_text(request: RequestView) -> Seq<char> {
    match operation_of(request.operation) {
        Some(operation) => decimal_text(request.arg1) + sign_of(operation) + decimal_text(
            request.arg2,
        ),
        None => "Invalid operation"@,
    }
}

impl Operation {
    /// The tag of this operation.
    pub fn tag(&self) -> (text: &'static str)
        ensures
            text@ == tag_of(*self),
    {
        match self {
            Operation::Add => "add",
            Operation::Sub => "sub",
            Operation::Mul => "mul",
            Operation::Div => "div",
        }
    }

    /// The operation that `tag` names.
    pub fn parse(tag: &str) -> (found: Option<Operation>)
        ensures
            found == operation_of(tag@),
    {
        if same_text(tag, "add") {
            Some(Operation::Add)
        } else if same_text(tag, "sub") {
            Some(Operation::Sub)
        } else if same_text(tag, "mul") {
            Some(Operation::Mul)
        } else if same_text(tag, "div") {
            Some(Operation::Div)
        } else {
            None
        }
    }

    fn sign(&self) -> (text: &'static str)
        ensures
            text@ == sign_of(*self),
    {
        match self {
            Operation::Add => " + ",
            Operation::Sub => " - ",
            Operation::Mul => " * ",
            Operation::Div => " / ",
        }
    }
}

impl Request {
    /// A request with the given tag and operands.
    pub fn new(operation: &str, arg1: i32, arg2: i32) -> (request: Request)
        ensures
            request@ == (RequestView {
                operation: operation@,
                arg1: arg1 as int,
                arg2: arg2 as int,
            }),
    {
        Request { operation: String::from_str(operation), arg1, arg2 }
    }

    /// The operation that the tag names, if it names one.
    pub fn kind(&self) -> (found: Option<Operation>)
        ensures
            found == operation_of(self@.operation),
    {
        Operation::parse(self.operation.as_str())
    }

    /// The request as a line of text.
    pub fn to_string(&self) -> (line: String)
        ensures
            line@ == display_text(self@),
    {
        match self.kind() {
            Some(operation) => {
                let mut line = render_i64(self.arg1 as i64);
                line.append(operation.sign());
                let right = render_i64(self.arg2 as i64);
                line.append(right.as_str());
                line
            },
            None => String::from_str("Invalid operation"),
        }
    }
}

impl Clone for Request {
    fn clone(&self) -> (copy: Request)
        ensures
            copy == *self,
    {
        Request { operation: self.operation.clone(), arg1: self.arg1, arg2: self.arg2 }
    }
}

/// The line that pairs a request with its result.
pub open spec fn report_line(request: RequestView, result: Seq<char>) -> Seq<char> {
    display_text(request) + " = "@ + result
}

/// The lines that pair each request with the result at the same position,
/// as far as both lists reach.
pub open spec fn report_lines(requests: Seq<RequestView>, results: Seq<Seq<char>>) -> Seq<
    Seq<char>,
> {
    Seq::new(
        if requests.len() <= results.len() {
            requests.len()
        } else {
            results.len()
        },
        |i: int| report_line(requests[i], results[i]),
    )
}

/// The views of a list of requests.
pub open spec fn views(requests: Seq<Request>) -> Seq<RequestView> {
    Seq::new(requests.len(), |i: int| requests[i]@)
}

/// Pairs each request with the result at the same position, as far as both
/// lists reach, one line per pair.
pub fn report(requests: &Vec<Request>, results: &Vec<String>) -> (lines: Vec<String>)
    ensures
        lines.deep_view() == report_lines(views(requests@), results.deep_view()),
{
    let count: usize = if requests.len() <= results.len() {
        requests.len()
    } else {
        results.len()
    };
    let mut lines: Vec<String> = Vec::new();
    let mut i: usize = 0;
    while i < count
        invariant
            i <= count,
            count <= requests@.len(),
            count <= results@.len(),
            lines@.len() == i,
            forall|k: int|
                0 <= k < i ==> (#[trigger] lines@[k])@ == report_line(
                    requests@[k]@,
                    results@[k]@,
                ),
        decreases count - i,
    {
        let mut line = requests[i].to_string();
        line.append(" = ");
        line.append(results[i].as_str());
        lines.push(line);
        i += 1;
    }
    assert(lines.deep_view() =~= report_lines(views(requests@), results.deep_view()));
    lines
}

/// The tags of the four operations are pairwise different, so a tag names at
/// most one operation and every operation is found again from its tag.
pub proof fn lemma_tags_distinct(operation: Operation)
    ensures
        operation_of(tag_of(operation)) == Some(operation),
{
    reveal_strlit("add");
    reveal_strlit("sub");
    reveal_strlit("mul");
    reveal_strlit("div");
    assert("add"@[0] == 'a');
    assert("sub"@[0] == 's');
    assert("mul"@[0] == 'm');
    assert("div"@[0] == 'd');
}

} // verus!
