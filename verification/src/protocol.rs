//! The NATS wire protocol as this client speaks it: the operations that a
//! server sends and that a client sends, and the exact bytes of each client frame.

use crate::bytes_spec::{bytes_as_slice, bytes_len, bytes_view};
use bytes::Bytes;
use vstd::prelude::*;
use vstd::string::StringSliceAdditionalSpecFns;
use vstd::utf8::encode_utf8;

verus! {

/// An operation received from the server.
#[derive(Clone, Debug)]
pub enum ServerOp {
    Ping,
    Pong,
    Message { sid: u64, subject: String, reply_to: Option<String>, payload: Bytes },
}

/// An operation sent to the server.
#[derive(Clone, Debug)]
pub enum ClientOp {
    Publish { subject: String, payload: Bytes },
    Subscribe { sid: u64, subject: String },
    Unsubscribe { sid: u64 },
    Ping,
    Pong,
}

/// The ASCII digit for a value below ten.
pub open spec fn digit_byte(d: nat) -> u8 {
    (d + 48) as u8
}

/// Whether a byte is an ASCII decimal digit.
pub open spec fn is_digit(b: u8) -> bool {
    48 <= b <= 57
}

/// The decimal rendering of `n`: most significant digit first, no leading zero.
pub open spec fn decimal(n: nat) -> Seq<u8>
    decreases n,
{
    if n < 10 {
        seq![digit_byte(n)]
    } else {
        decimal(n / 10).push(digit_byte(n % 10))
    }
}

/// The number that a string of ASCII digits denotes.
pub open spec fn decimal_value(s: Seq<u8>) -> nat
    decreases s.len(),
{
    if s.len() == 0 {
        0
    } else {
        decimal_value(s.drop_last()) * 10 + (s.last() - 48) as nat
    }
}

/// Every rendering is a non-empty string of digits that starts with `0` only for zero.
pub proof fn lemma_decimal_well_formed(n: nat)
    ensures
        decimal(n).len() >= 1,
        forall|i: int| 0 <= i < decimal(n).len() ==> is_digit(#[trigger] decimal(n)[i]),
        decimal(n)[0] == 48 <==> n == 0,
    decreases n,
{
    if n >= 10 {
        lemma_decimal_well_formed(n / 10);
        assert forall|i: int| 0 <= i < decimal(n).len() implies is_digit(#[trigger] decimal(n)[i]) by {
            if i < decimal(n / 10).len() {
                assert(decimal(n)[i] == decimal(n / 10)[i]);
            }
        }
        assert(decimal(n)[0] == decimal(n / 10)[0]);
    }
}

/// Reading a rendering back gives the number that was rendered.
pub proof fn lemma_decimal_roundtrip(n: nat)
    ensures
        decimal_value(decimal(n)) == n,
    decreases n,
{
    let s = decimal(n);
    assert(decimal_value(s) == decimal_value(s.drop_last()) * 10 + (s.last() - 48) as nat);
    assert(s.last() - 48 == n % 10);
    if n < 10 {
        assert(s.drop_last() =~= Seq::<u8>::empty());
        assert(decimal_value(s.drop_last()) == 0);
    } else {
        lemma_decimal_roundtrip(n / 10);
        assert(decimal(n).drop_last() =~= decimal(n / 10));
        assert(decimal(n).last() == digit_byte(n % 10));
        assert((n / 10) * 10 + n % 10 == n);
    }
}

/// Distinct numbers have distinct renderings.
pub proof fn lemma_decimal_injective(m: nat, n: nat)
    ensures
        decimal(m) == decimal(n) ==> m == n,
{
    lemma_decimal_roundtrip(m);
    lemma_decimal_roundtrip(n);
}

/// Renders `n` in decimal ASCII, as `format!("{}", n)` does.
pub fn format_decimal(n: u64) -> (digits: Vec<u8>)
    ensures
        digits@ == decimal(n as nat),
    decreases n,
{
    if n < 10 {
        let d: u8 = n as u8;
        let mut digits: Vec<u8> = Vec::new();
        digits.push(d + 48);
        digits
    } else {
        let mut digits = format_decimal(n / 10);
        let d: u8 = (n % 10) as u8;
        digits.push(d + 48);
        digits
    }
}

/// The line terminator of every frame.
pub open spec fn crlf() -> Seq<u8> {
    seq![13u8, 10u8]
}

/// `PUB `
pub open spec fn pub_keyword() -> Seq<u8> {
    seq![80u8, 85u8, 66u8, 32u8]
}

/// `SUB `
pub open spec fn sub_keyword() -> Seq<u8> {
    seq![83u8, 85u8, 66u8, 32u8]
}

/// `UNSUB `
pub open spec fn unsub_keyword() -> Seq<u8> {
    seq![85u8, 78u8, 83u8, 85u8, 66u8, 32u8]
}

/// `PING`
pub open spec fn ping_keyword() -> Seq<u8> {
    seq![80u8, 73u8, 78u8, 71u8]
}

/// `PONG`
pub open spec fn pong_keyword() -> Seq<u8> {
    seq![80u8, 79u8, 78u8, 71u8]
}

/// A single space.
pub open spec fn space() -> Seq<u8> {
    seq![32u8]
}

/// The bytes of a publish header before the length: `PUB <subject> `.
pub open spec fn publish_header_bytes(subject: Seq<char>) -> Seq<u8> {
    pub_keyword() + encode_utf8(subject) + space()
}

/// The frame that publishes `payload` on `subject`:
/// `PUB <subject> <length>\r\n<payload>\r\n`.
pub open spec fn publish_frame(subject: Seq<char>, payload: Seq<u8>) -> Seq<u8> {
    publish_header_bytes(subject) + decimal(payload.len()) + crlf() + payload + crlf()
}

/// The frame that subscribes `sid` to `subject`: `SUB <subject> <sid>\r\n`.
pub open spec fn subscribe_frame(sid: u64, subject: Seq<char>) -> Seq<u8> {
    sub_keyword() + encode_utf8(subject) + space() + decimal(sid as nat) + crlf()
}

/// The frame that announces `op` to the server.
pub open spec fn client_op_frame(op: ClientOp) -> Seq<u8> {
    match op {
        ClientOp::Publish { subject, payload } => publish_frame(subject@, bytes_view(payload)),
        ClientOp::Subscribe { sid, subject } => subscribe_frame(sid, subject@),
        ClientOp::Unsubscribe { sid } => unsub_keyword() + decimal(sid as nat) + crlf(),
        ClientOp::Ping => ping_keyword() + crlf(),
        ClientOp::Pong => pong_keyword() + crlf(),
    }
}

/// Appends `s` to `out`.
pub fn append(out: &mut Vec<u8>, s: &[u8])
    ensures
        final(out)@ == old(out)@ + s@,
{
    let ghost start = out@;
    let mut i: usize = 0;
    while i < s.len()
        invariant
            i <= s.len(),
            out@ == start + s@.subrange(0, i as int),
        decreases s.len() - i,
    {
        out.push(s[i]);
        i = i + 1;
    }
    assert(s@.subrange(0, s.len() as int) =~= s@);
}

/// Appends the carriage return and line feed that end a line.
fn append_crlf(out: &mut Vec<u8>)
    ensures
        final(out)@ == old(out)@ + crlf(),
{
    out.push(13u8);
    out.push(10u8);
}

/// The bytes that announce `item` to the server, in the order the connection writes them.
pub fn encode_client_op(item: &ClientOp) -> (frame: Vec<u8>)
    ensures
        frame@ == client_op_frame(*item),
{
    let mut out: Vec<u8> = Vec::new();
    match item {
        ClientOp::Publish { subject, payload } => {
            out.push(80u8);
            out.push(85u8);
            out.push(66u8);
            out.push(32u8);
            append(&mut out, subject.as_str().as_bytes());
            out.push(32u8);
            let len: usize = bytes_len(payload);
            let digits = format_decimal(len as u64);
            append(&mut out, digits.as_slice());
            append_crlf(&mut out);
            append(&mut out, bytes_as_slice(payload));
            append_crlf(&mut out);
        },
        ClientOp::Subscribe { sid, subject } => {
            out.push(83u8);
            out.push(85u8);
            out.push(66u8);
            out.push(32u8);
            append(&mut out, subject.as_str().as_bytes());
            out.push(32u8);
            let digits = format_decimal(*sid);
            append(&mut out, digits.as_slice());
            append_crlf(&mut out);
        },
        ClientOp::Unsubscribe { sid } => {
            out.push(85u8);
            out.push(78u8);
            out.push(83u8);
            out.push(85u8);
            out.push(66u8);
            out.push(32u8);
            let digits = format_decimal(*sid);
            append(&mut out, digits.as_slice());
            append_crlf(&mut out);
        },
        ClientOp::Ping => {
            out.push(80u8);
            out.push(73u8);
            out.push(78u8);
            out.push(71u8);
            append_crlf(&mut out);
        },
        ClientOp::Pong => {
            out.push(80u8);
            out.push(79u8);
            out.push(78u8);
            out.push(71u8);
            append_crlf(&mut out);
        },
    }
    out
}

/// The text of the `CONNECT` line that opens a session.
pub open spec fn connect_command_bytes() -> Seq<u8> {
    "CONNECT { \"no_responders\": true, \"headers\": true, \"verbose\": false, \"pedantic\": false }\r\n".spec_bytes()
}

/// The `CONNECT` line that `connect` sends first on a new connection.
pub fn connect_command() -> (line: Vec<u8>)
    ensures
        line@ == connect_command_bytes(),
{
    let text: &str = "CONNECT { \"no_responders\": true, \"headers\": true, \"verbose\": false, \"pedantic\": false }\r\n";
    let mut line: Vec<u8> = Vec::new();
    append(&mut line, text.as_bytes());
    line
}

/// The bytes `PUB <subject> ` that begin a publish of `subject`.
pub fn publish_header(subject: &str) -> (header: Vec<u8>)
    ensures
        header@ == publish_header_bytes(subject@),
{
    let mut header: Vec<u8> = Vec::new();
    header.push(80u8);
    header.push(85u8);
    header.push(66u8);
    header.push(32u8);
    append(&mut header, subject.as_bytes());
    header.push(32u8);
    header
}

/// Every client frame ends with a line terminator.
pub proof fn lemma_frame_ends_with_crlf(op: ClientOp)
    ensures
        client_op_frame(op).len() >= 2,
        client_op_frame(op).subrange(client_op_frame(op).len() - 2, client_op_frame(op).len() as int)
            == crlf(),
{
    let f = client_op_frame(op);
    assert(f.subrange(f.len() - 2, f.len() as int) =~= crlf());
}

/// A publish frame carries the payload's length in decimal after the header, and the
/// payload itself right after that line: a reader that knows the header finds the
/// length, and from it exactly the payload.
pub proof fn lemma_publish_frame_layout(subject: String, payload: Bytes)
    ensures
        ({
            let frame = client_op_frame(ClientOp::Publish { subject, payload });
            let header = publish_header_bytes(subject@);
            let n = bytes_view(payload).len();
            let digits_end: int = header.len() + decimal(n).len() as int;
            let body_start: int = digits_end + 2;
            &&& frame.subrange(0, header.len() as int) == header
            &&& decimal_value(frame.subrange(header.len() as int, digits_end)) == n
            &&& frame.subrange(digits_end, body_start) == crlf()
            &&& frame.subrange(body_start, body_start + n) == bytes_view(payload)
            &&& frame.len() == body_start + n + 2
        }),
{
    let frame = client_op_frame(ClientOp::Publish { subject, payload });
    let header = publish_header_bytes(subject@);
    let n = bytes_view(payload).len();
    let digits_end: int = header.len() + decimal(n).len() as int;
    let body_start: int = digits_end + 2;
    lemma_decimal_roundtrip(n);
    assert(frame.subrange(0, header.len() as int) =~= header);
    assert(frame.subrange(header.len() as int, digits_end) =~= decimal(n));
    assert(frame.subrange(digits_end, body_start) =~= crlf());
    assert(frame.subrange(body_start, body_start + n) =~= bytes_view(payload));
}

/// A subscribe frame carries the subscription id in decimal between the subject and the
/// line terminator, and an unsubscribe frame right after its keyword: both read back as the id.
pub proof fn lemma_sid_frames_layout(sid: u64, subject: String)
    ensures
        ({
            let frame = client_op_frame(ClientOp::Subscribe { sid, subject });
            let start: int = sub_keyword().len() + encode_utf8(subject@).len() + 1int;
            &&& frame.subrange(0, start) == sub_keyword() + encode_utf8(subject@) + space()
            &&& decimal_value(frame.subrange(start, frame.len() - 2)) == sid
        }),
        ({
            let frame = client_op_frame(ClientOp::Unsubscribe { sid });
            &&& frame.subrange(0, 6) == unsub_keyword()
            &&& decimal_value(frame.subrange(6, frame.len() - 2)) == sid
        }),
{
    lemma_decimal_roundtrip(sid as nat);
    let frame = client_op_frame(ClientOp::Subscribe { sid, subject });
    let start: int = sub_keyword().len() + encode_utf8(subject@).len() + 1int;
    assert(frame.subrange(0, start) =~= sub_keyword() + encode_utf8(subject@) + space());
    assert(frame.subrange(start, frame.len() - 2) =~= decimal(sid as nat));
    let unsub = client_op_frame(ClientOp::Unsubscribe { sid });
    assert(unsub.subrange(0, 6) =~= unsub_keyword());
    assert(unsub.subrange(6, unsub.len() - 2) =~= decimal(sid as nat));
}

} // verus!
