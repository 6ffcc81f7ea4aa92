//! The last-error channel of the C ABI: functions return a status code, and the
//! caller pulls a human-readable message if it is non-zero. The message is kept
//! as the bytes of a C string, NUL-terminated, with no interior NUL.

use vstd::prelude::*;

verus! {

/// Message bytes with every NUL replaced by a space.
pub open spec fn sanitized(msg: Seq<u8>) -> Seq<u8> {
    msg.map_values(|b: u8| if b == 0u8 { 32u8 } else { b })
}

/// The C string stored for a message: sanitized, then NUL-terminated.
pub open spec fn c_string(msg: Seq<u8>) -> Seq<u8> {
    sanitized(msg).push(0u8)
}

/// Bytes that form exactly one C string: NUL-terminated, no interior NUL.
pub open spec fn is_c_string(bytes: Seq<u8>) -> bool {
    &&& bytes.len() > 0
    &&& bytes.last() == 0u8
    &&& forall|i: int| 0 <= i < bytes.len() - 1 ==> #[trigger] bytes[i] != 0u8
}

/// Most recent failure message, if any.
pub struct LastError {
    message: Option<Vec<u8>>,
}

impl LastError {
    /// Whatever the channel holds is one C string.
    #[verifier::type_invariant]
    closed spec fn holds_c_string(&self) -> bool {
        match self.message {
            Some(v) => is_c_string(v@),
            None => true,
        }
    }
}

impl View for LastError {
    type V = Option<Seq<u8>>;

    closed spec fn view(&self) -> Option<Seq<u8>> {
        match self.message {
            Some(v) => Some(v@),
            None => None,
        }
    }
}

impl LastError {
    /// A channel holding no message.
    pub fn new() -> (e: LastError)
        ensures
            e@ == None::<Seq<u8>>,
    {
        LastError { message: None }
    }
}

/// Forget the last message.
pub fn clear(e: &mut LastError)
    ensures
        final(e)@ == None::<Seq<u8>>,
{
    e.message = None;
}

/// Record `msg` as the last message. An interior NUL cannot come from the
/// library's own messages; it is replaced by a space all the same, so the
/// stored bytes always form one C string.
pub fn set(e: &mut LastError, msg: &[u8])
    ensures
        final(e)@ == Some(c_string(msg@)),
{
    let mut bytes: Vec<u8> = Vec::new();
    let mut i: usize = 0;
    while i < msg.len()
        invariant
            i <= msg.len(),
            bytes@ =~= sanitized(msg@.take(i as int)),
        decreases msg.len() - i,
    {
        let b = msg[i];
        if b == 0 {
            bytes.push(32u8);
        } else {
            bytes.push(b);
        }
        i = i + 1;
    }
    assert(msg@.take(msg.len() as int) =~= msg@);
    bytes.push(0u8);
    proof {
        lemma_message_is_c_string(msg@);
    }
    e.message = Some(bytes);
}

/// The last message as C-string bytes, or `None` when there is none.
pub fn last_message(e: &LastError) -> (m: Option<&[u8]>)
    ensures
        match m {
            Some(s) => e@ == Some(s@) && is_c_string(s@),
            None => e@ == None::<Seq<u8>>,
        },
{
    proof {
        use_type_invariant(e);
    }
    match &e.message {
        Some(v) => Some(v.as_slice()),
        None => None,
    }
}

/// A stored message is one C string: it ends in NUL, holds no other NUL, and
/// is one byte longer than the message it was made from.
pub proof fn lemma_message_is_c_string(msg: Seq<u8>)
    ensures
        is_c_string(c_string(msg)),
        c_string(msg).len() == msg.len() + 1,
        c_string(msg).last() == 0u8,
        forall|i: int| 0 <= i < msg.len() ==> #[trigger] c_string(msg)[i] != 0u8,
        forall|i: int| 0 <= i < msg.len() && msg[i] != 0u8 ==> #[trigger] c_string(msg)[i] == msg[i],
{
}

/// Decimal digits of `n`, most significant first, as ASCII bytes.
pub open spec fn decimal_digits(n: nat) -> Seq<u8>
    decreases n,
{
    if n < 10 {
        seq![(48 + n) as u8]
    } else {
        decimal_digits(n / 10).push((48 + n % 10) as u8)
    }
}

/// Decimal text of an integer as `{}` formats it: a leading `-` when negative.
pub open spec fn decimal(v: int) -> Seq<u8> {
    if v < 0 {
        seq![45u8] + decimal_digits((-v) as nat)
    } else {
        decimal_digits(v as nat)
    }
}

/// Append `b` to `buf`.
pub(crate) fn append_bytes(buf: &mut Vec<u8>, b: &[u8])
    ensures
        final(buf)@ == old(buf)@ + b@,
{
    let mut i: usize = 0;
    while i < b.len()
        invariant
            i <= b.len(),
            buf@ == old(buf)@ + b@.take(i as int),
        decreases b.len() - i,
    {
        buf.push(b[i]);
        i = i + 1;
        assert(b@.take(i as int) =~= b@.take(i - 1).push(b@[i - 1]));
    }
    assert(b@.take(b.len() as int) =~= b@);
}

/// Append the decimal digits of `n` to `buf`.
pub(crate) fn append_decimal_digits(buf: &mut Vec<u8>, n: u64)
    ensures
        final(buf)@ == old(buf)@ + decimal_digits(n as nat),
    decreases n,
{
    if n >= 10 {
        append_decimal_digits(buf, n / 10);
    }
    buf.push(48u8 + (n % 10) as u8);
    assert(buf@ =~= old(buf)@ + decimal_digits(n as nat));
}

/// Append the decimal text of `v` to `buf`.
pub(crate) fn append_decimal(buf: &mut Vec<u8>, v: i32)
    ensures
        final(buf)@ == old(buf)@ + decimal(v as int),
{
    if v < 0 {
        buf.push(45u8);
        let magnitude: u64 = (-(v as i64)) as u64;
        append_decimal_digits(buf, magnitude);
        assert(buf@ =~= old(buf)@ + decimal(v as int));
    } else {
        append_decimal_digits(buf, v as u64);
    }
}

} // verus!
