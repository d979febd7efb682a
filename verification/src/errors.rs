//! The boundary's error taxonomy, and the rendering of each error into the
//! owned message text that the result record exports.

use vstd::prelude::*;
use vstd::string::StringSliceAdditionalSpecFns;
use vstd::utf8::{encode_utf8, is_ascii_chars, is_ascii_chars_encode_utf8};

verus! {

/// A failure detected at the call boundary. Each variant carries the context
/// that its rendered message embeds.
#[derive(Debug, PartialEq, Eq)]
pub enum BoundaryError {
    /// The caller passed a null pointer for the named parameter.
    NullPointer { name: Vec<u8> },
    /// The named parameter's bytes are not valid UTF-8.
    InvalidEncoding { name: Vec<u8> },
    /// The operator text is not one of the supported operators.
    UnknownOperator { op: Vec<u8> },
    /// Divide or modulo was asked for with a zero divisor.
    DivisionByZero { op: Vec<u8> },
}

/// The message text for a null parameter pointer.
pub open spec fn null_pointer_text(name: Seq<u8>) -> Seq<u8> {
    "NULL pointer: ".spec_bytes() + name
}

/// The message text for a parameter that is not valid UTF-8.
pub open spec fn invalid_encoding_text(name: Seq<u8>) -> Seq<u8> {
    "Could not parse ".spec_bytes() + name + " pointer as UTF-8 string!".spec_bytes()
}

/// The message text for an unsupported operator; it quotes the offending
/// operator text verbatim.
pub open spec fn unknown_operator_text(op: Seq<u8>) -> Seq<u8> {
    "Bad Operator: '".spec_bytes() + op + "'".spec_bytes()
}

/// The message text for a zero divisor; it quotes the operator that was asked
/// for.
pub open spec fn division_by_zero_text(op: Seq<u8>) -> Seq<u8> {
    "Division by zero: '".spec_bytes() + op + "'".spec_bytes()
}

/// The rendered text of an error, as the exact bytes of the exported message.
pub open spec fn error_text(e: BoundaryError) -> Seq<u8> {
    match e {
        BoundaryError::NullPointer { name } => null_pointer_text(name@),
        BoundaryError::InvalidEncoding { name } => invalid_encoding_text(name@),
        BoundaryError::UnknownOperator { op } => unknown_operator_text(op@),
        BoundaryError::DivisionByZero { op } => division_by_zero_text(op@),
    }
}

/// True when no byte of `bytes` is NUL, so the bytes can be exported as the
/// content of a null-terminated string.
pub open spec fn nul_free(bytes: Seq<u8>) -> bool {
    forall|i: int| 0 <= i < bytes.len() ==> bytes[i] != 0
}

/// The caller-supplied bytes that a given error embeds in its message.
pub open spec fn error_context(e: BoundaryError) -> Seq<u8> {
    match e {
        BoundaryError::NullPointer { name } => name@,
        BoundaryError::InvalidEncoding { name } => name@,
        BoundaryError::UnknownOperator { op } => op@,
        BoundaryError::DivisionByZero { op } => op@,
    }
}

/// The UTF-8 encoding of ASCII text without NUL characters has no NUL byte.
proof fn lemma_ascii_text_nul_free(chars: Seq<char>)
    requires
        is_ascii_chars(chars),
        forall|i: int| 0 <= i < chars.len() ==> chars[i] != '\0',
    ensures
        nul_free(encode_utf8(chars)),
{
    is_ascii_chars_encode_utf8(chars);
    assert forall|i: int| 0 <= i < encode_utf8(chars).len() implies encode_utf8(chars)[i] != 0 by {
        assert(encode_utf8(chars)[i] == chars[i] as u8);
    }
}

/// Each message text is NUL-free whenever the context it embeds is.
pub proof fn lemma_message_texts_nul_free(s: Seq<u8>)
    requires
        nul_free(s),
    ensures
        nul_free(null_pointer_text(s)),
        nul_free(invalid_encoding_text(s)),
        nul_free(unknown_operator_text(s)),
        nul_free(division_by_zero_text(s)),
{
    reveal_strlit("NULL pointer: ");
    reveal_strlit("Could not parse ");
    reveal_strlit(" pointer as UTF-8 string!");
    reveal_strlit("Bad Operator: '");
    reveal_strlit("Division by zero: '");
    reveal_strlit("'");
    lemma_ascii_text_nul_free("NULL pointer: "@);
    lemma_ascii_text_nul_free("Could not parse "@);
    lemma_ascii_text_nul_free(" pointer as UTF-8 string!"@);
    lemma_ascii_text_nul_free("Bad Operator: '"@);
    lemma_ascii_text_nul_free("Division by zero: '"@);
    lemma_ascii_text_nul_free("'"@);
    assert(nul_free("Could not parse ".spec_bytes() + s));
    assert(nul_free("Bad Operator: '".spec_bytes() + s));
    assert(nul_free("Division by zero: '".spec_bytes() + s));
}

/// Law: a rendered message holds no interior NUL byte whenever the
/// caller-supplied bytes it embeds hold none — true of anything read from a
/// null-terminated buffer — so every message can be exported as a
/// null-terminated string and rendering never has to fail.
pub proof fn lemma_error_text_nul_free(e: BoundaryError)
    requires
        nul_free(error_context(e)),
    ensures
        nul_free(error_text(e)),
{
    lemma_message_texts_nul_free(error_context(e));
}

/// Law: the unknown-operator message quotes the offending operator text
/// verbatim — the operator's bytes appear contiguously and unchanged inside
/// the message, right after the fixed prefix.
pub proof fn lemma_unknown_operator_text_quotes_op(op: Seq<u8>)
    ensures
        ({
            let text = unknown_operator_text(op);
            let start = "Bad Operator: '".spec_bytes().len() as int;
            &&& text.len() == start + op.len() + "'".spec_bytes().len()
            &&& text.subrange(start, start + op.len() as int) == op
        }),
{
    let text = unknown_operator_text(op);
    let start = "Bad Operator: '".spec_bytes().len() as int;
    assert(text.subrange(start, start + op.len() as int) =~= op);
}

/// Appends all of `tail` to `out`, in order.
pub fn append_bytes(out: &mut Vec<u8>, tail: &[u8])
    ensures
        final(out)@ == old(out)@ + tail@,
{
    let n = tail.len();
    let mut i: usize = 0;
    while i < n
        invariant
            n == tail@.len(),
            i <= n,
            out@ == old(out)@ + tail@.subrange(0, i as int),
        decreases n - i,
    {
        out.push(tail[i]);
        proof {
            assert(old(out)@ + tail@.subrange(0, i as int + 1) =~= (old(out)@ + tail@.subrange(
                0,
                i as int,
            )).push(tail@[i as int]));
        }
        i = i + 1;
    }
    proof {
        assert(tail@.subrange(0, n as int) =~= tail@);
    }
}

/// Renders an error into the owned message text handed to the caller.
/// Rendering is total: it never fails, whatever the error holds.
pub fn render_error(e: &BoundaryError) -> (msg: Vec<u8>)
    ensures
        msg@ == error_text(*e),
{
    let mut msg: Vec<u8> = Vec::new();
    match e {
        BoundaryError::NullPointer { name } => {
            append_bytes(&mut msg, "NULL pointer: ".as_bytes());
            append_bytes(&mut msg, name.as_slice());
        },
        BoundaryError::InvalidEncoding { name } => {
            append_bytes(&mut msg, "Could not parse ".as_bytes());
            append_bytes(&mut msg, name.as_slice());
            append_bytes(&mut msg, " pointer as UTF-8 string!".as_bytes());
        },
        BoundaryError::UnknownOperator { op } => {
            append_bytes(&mut msg, "Bad Operator: '".as_bytes());
            append_bytes(&mut msg, op.as_slice());
            append_bytes(&mut msg, "'".as_bytes());
        },
        BoundaryError::DivisionByZero { op } => {
            append_bytes(&mut msg, "Division by zero: '".as_bytes());
            append_bytes(&mut msg, op.as_slice());
            append_bytes(&mut msg, "'".as_bytes());
        },
    }
    msg
}

} // verus!
