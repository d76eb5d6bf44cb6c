//! What the client's frames are, stated field by field over their inputs: the keyword,
//! the subject's UTF-8 bytes, the separating space, a canonical decimal field that
//! reads back as the length or id, the line terminators and the payload. The laws
//! hold of `encode_client_op`, `publish_header`, and the frames that `Client` and
//! `Connection` queue.

use crate::bytes_spec::bytes_view;
use crate::protocol::{
    client_op_frame, decimal, decimal_value, encode_client_op, lemma_decimal_roundtrip,
    lemma_decimal_well_formed, publish_frame, publish_header, subscribe_frame, ClientOp,
};
use vstd::prelude::*;
use vstd::utf8::encode_utf8;

verus! {

/// `d` holds `n` in decimal: one or more ASCII digits `0`..`9`, with no leading zero,
/// reading back as `n`.
pub open spec fn is_decimal_field(d: Seq<u8>, n: nat) -> bool {
    &&& d.len() >= 1
    &&& forall|i: int| 0 <= i < d.len() ==> 48 <= #[trigger] d[i] <= 57
    &&& (d[0] == 48 ==> d.len() == 1)
    &&& decimal_value(d) == n
}

/// `f` is `PUB <s> <n>\r\n<p>\r\n` with `s` the subject's bytes, `p` the payload and
/// `n` its length in decimal.
pub open spec fn is_publish_frame(f: Seq<u8>, s: Seq<u8>, p: Seq<u8>) -> bool {
    let n = p.len();
    let end = f.len() - n - 4;
    &&& f.len() >= s.len() + n + 8
    &&& f.subrange(0, 4) == seq![80u8, 85u8, 66u8, 32u8]
    &&& f.subrange(4, 4 + s.len() as int) == s
    &&& f[4 + s.len() as int] == 32
    &&& is_decimal_field(f.subrange(5 + s.len() as int, end), n)
    &&& f.subrange(end, end + 2) == seq![13u8, 10u8]
    &&& f.subrange(end + 2, end + 2 + n) == p
    &&& f.subrange(f.len() - 2, f.len() as int) == seq![13u8, 10u8]
}

/// `f` is `SUB <s> <sid>\r\n` with `s` the subject's bytes and `sid` in decimal.
pub open spec fn is_subscribe_frame(f: Seq<u8>, s: Seq<u8>, sid: nat) -> bool {
    &&& f.len() >= s.len() + 8
    &&& f.subrange(0, 4) == seq![83u8, 85u8, 66u8, 32u8]
    &&& f.subrange(4, 4 + s.len() as int) == s
    &&& f[4 + s.len() as int] == 32
    &&& is_decimal_field(f.subrange(5 + s.len() as int, f.len() - 2), sid)
    &&& f.subrange(f.len() - 2, f.len() as int) == seq![13u8, 10u8]
}

/// `f` is `UNSUB <sid>\r\n` with `sid` in decimal.
pub open spec fn is_unsubscribe_frame(f: Seq<u8>, sid: nat) -> bool {
    &&& f.len() >= 9
    &&& f.subrange(0, 6) == seq![85u8, 78u8, 83u8, 85u8, 66u8, 32u8]
    &&& is_decimal_field(f.subrange(6, f.len() - 2), sid)
    &&& f.subrange(f.len() - 2, f.len() as int) == seq![13u8, 10u8]
}

/// The decimal rendering of `n` is a decimal field for `n`.
pub proof fn lemma_decimal_is_field(n: nat)
    ensures
        is_decimal_field(decimal(n), n),
{
    lemma_decimal_well_formed(n);
    lemma_decimal_roundtrip(n);
    assert forall|i: int| 0 <= i < decimal(n).len() implies 48 <= #[trigger] decimal(n)[i] <= 57 by {
        assert(crate::protocol::is_digit(decimal(n)[i]));
    }
}

/// A publish frame is the keyword, the subject's bytes, a space, the payload's length
/// in decimal, a line break, the payload and a line break.
pub proof fn lemma_publish_frame_fields(subject: Seq<char>, payload: Seq<u8>)
    ensures
        is_publish_frame(publish_frame(subject, payload), encode_utf8(subject), payload),
{
    let f = publish_frame(subject, payload);
    let s = encode_utf8(subject);
    let n = payload.len();
    let end = f.len() - n - 4;
    lemma_decimal_is_field(n);
    lemma_decimal_well_formed(n);
    assert(f.subrange(0, 4) =~= seq![80u8, 85u8, 66u8, 32u8]);
    assert(f.subrange(4, 4 + s.len() as int) =~= s);
    assert(f.subrange(5 + s.len() as int, end) =~= decimal(n));
    assert(f.subrange(end, end + 2) =~= seq![13u8, 10u8]);
    assert(f.subrange(end + 2, end + 2 + n) =~= payload);
    assert(f.subrange(f.len() - 2, f.len() as int) =~= seq![13u8, 10u8]);
}

/// A subscribe frame is the keyword, the subject's bytes, a space, the id in decimal
/// and a line break.
pub proof fn lemma_subscribe_frame_fields(sid: u64, subject: Seq<char>)
    ensures
        is_subscribe_frame(subscribe_frame(sid, subject), encode_utf8(subject), sid as nat),
{
    let f = subscribe_frame(sid, subject);
    let s = encode_utf8(subject);
    lemma_decimal_is_field(sid as nat);
    lemma_decimal_well_formed(sid as nat);
    assert(f.subrange(0, 4) =~= seq![83u8, 85u8, 66u8, 32u8]);
    assert(f.subrange(4, 4 + s.len() as int) =~= s);
    assert(f.subrange(5 + s.len() as int, f.len() - 2) =~= decimal(sid as nat));
    assert(f.subrange(f.len() - 2, f.len() as int) =~= seq![13u8, 10u8]);
}

/// The frame of every client operation, field by field.
pub proof fn lemma_client_op_frame_fields(op: ClientOp)
    ensures
        match op {
            ClientOp::Publish { subject, payload } => is_publish_frame(
                client_op_frame(op),
                encode_utf8(subject@),
                bytes_view(payload),
            ),
            ClientOp::Subscribe { sid, subject } => is_subscribe_frame(
                client_op_frame(op),
                encode_utf8(subject@),
                sid as nat,
            ),
            ClientOp::Unsubscribe { sid } => is_unsubscribe_frame(client_op_frame(op), sid as nat),
            ClientOp::Ping => client_op_frame(op) == seq![80u8, 73u8, 78u8, 71u8, 13u8, 10u8],
            ClientOp::Pong => client_op_frame(op) == seq![80u8, 79u8, 78u8, 71u8, 13u8, 10u8],
        },
{
    match op {
        ClientOp::Publish { subject, payload } => {
            lemma_publish_frame_fields(subject@, bytes_view(payload));
        },
        ClientOp::Subscribe { sid, subject } => {
            lemma_subscribe_frame_fields(sid, subject@);
        },
        ClientOp::Unsubscribe { sid } => {
            let f = client_op_frame(op);
            lemma_decimal_is_field(sid as nat);
            lemma_decimal_well_formed(sid as nat);
            assert(f.subrange(0, 6) =~= seq![85u8, 78u8, 83u8, 85u8, 66u8, 32u8]);
            assert(f.subrange(6, f.len() - 2) =~= decimal(sid as nat));
            assert(f.subrange(f.len() - 2, f.len() as int) =~= seq![13u8, 10u8]);
        },
        ClientOp::Ping => {
            assert(client_op_frame(op) =~= seq![80u8, 73u8, 78u8, 71u8, 13u8, 10u8]);
        },
        ClientOp::Pong => {
            assert(client_op_frame(op) =~= seq![80u8, 79u8, 78u8, 71u8, 13u8, 10u8]);
        },
    }
}

/// What `encode_client_op` returns for each operation, field by field.
pub proof fn lemma_encode_client_op_fields(op: ClientOp, frame: Vec<u8>)
    requires
        call_ensures(encode_client_op, (&op,), frame),
    ensures
        match op {
            ClientOp::Publish { subject, payload } => is_publish_frame(
                frame@,
                encode_utf8(subject@),
                bytes_view(payload),
            ),
            ClientOp::Subscribe { sid, subject } => is_subscribe_frame(
                frame@,
                encode_utf8(subject@),
                sid as nat,
            ),
            ClientOp::Unsubscribe { sid } => is_unsubscribe_frame(frame@, sid as nat),
            ClientOp::Ping => frame@ == seq![80u8, 73u8, 78u8, 71u8, 13u8, 10u8],
            ClientOp::Pong => frame@ == seq![80u8, 79u8, 78u8, 71u8, 13u8, 10u8],
        },
{
    lemma_client_op_frame_fields(op);
}

/// `publish_header` returns `PUB `, the subject's bytes and a space.
pub proof fn lemma_publish_header_fields(subject: &str, header: Vec<u8>)
    requires
        call_ensures(publish_header, (subject,), header),
    ensures
        header@.len() == encode_utf8(subject@).len() + 5,
        header@.subrange(0, 4) == seq![80u8, 85u8, 66u8, 32u8],
        header@.subrange(4, 4 + encode_utf8(subject@).len() as int) == encode_utf8(subject@),
        header@[4 + encode_utf8(subject@).len() as int] == 32,
{
    let s = encode_utf8(subject@);
    assert(header@.subrange(0, 4) =~= seq![80u8, 85u8, 66u8, 32u8]);
    assert(header@.subrange(4, 4 + s.len() as int) =~= s);
}

} // verus!
