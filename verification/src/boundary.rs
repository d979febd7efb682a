//! The boundary result encoder: materializes the executor's outcome as an
//! owned result record whose two nullable slots carry either the success
//! payload or the rendered error message, never both.

use crate::errors::{
    division_by_zero_text, error_text, invalid_encoding_text, lemma_message_texts_nul_free,
    nul_free, null_pointer_text, render_error, unknown_operator_text, BoundaryError,
};
use crate::executor::{
    eval_operator, exact_eval, lemma_eval_operator_exact, lemma_operator_text_valid_utf8, operate,
    operator_defined, operator_name, parse_operator, Operator,
};
use vstd::prelude::*;
use vstd::string::StringSliceAdditionalSpecFns;
use vstd::utf8::valid_utf8;

verus! {

/// The boundary result record, the one structured value handed across the
/// boundary. Once construction completes, exactly one of the two slots is
/// populated, and the record together with the populated slot's payload is
/// owned by whoever holds it.
#[derive(Debug)]
pub struct CResult {
    /// The rendered error message, when the call failed.
    pub error_message: Option<Vec<u8>>,
    /// The success payload, when the call succeeded.
    pub success: Option<i32>,
}

impl CResult {
    /// A record is well formed when exactly one slot is populated. Both slots
    /// are empty only transiently, during construction; no caller sees that
    /// state.
    pub open spec fn wf(&self) -> bool {
        self.error_message is Some <==> self.success is None
    }
}

impl Default for CResult {
    /// The record as construction starts: both slots still empty.
    fn default() -> (r: Self)
        ensures
            r.error_message is None,
            r.success is None,
    {
        CResult { error_message: None, success: None }
    }
}

/// Materializes an outcome as an owned, well-formed result record: a success
/// value fills the success slot; an error is rendered into an owned message
/// that fills the error slot. Encoding never fails, whatever the outcome.
pub fn result_to_c(rust_result: Result<i32, BoundaryError>) -> (c: CResult)
    ensures
        c.wf(),
        rust_result matches Ok(v) ==> c.success == Some(v) && c.error_message is None,
        rust_result matches Err(e) ==> c.success is None && (c.error_message matches Some(m) && m@
            == error_text(e)),
{
    let mut c_result = CResult::default();
    match rust_result {
        Ok(item) => {
            c_result.success = Some(item);
        },
        Err(e) => {
            c_result.error_message = Some(render_error(&e));
        },
    }
    c_result
}

/// View of the borrowed operator argument: `None` stands for a null pointer.
pub open spec fn input_view(op: Option<&[u8]>) -> Option<Seq<u8>> {
    match op {
        None => None,
        Some(b) => Some(b@),
    }
}

/// The outcome one boundary call must produce for the given arguments: the
/// computed value, or the exact text of the exported error message.
pub open spec fn compute_outcome(op: Option<Seq<u8>>, x: i32, y: i32) -> Result<i32, Seq<u8>> {
    match op {
        None => Err(null_pointer_text(operator_name())),
        Some(b) => if !valid_utf8(b) {
            Err(invalid_encoding_text(operator_name()))
        } else {
            match parse_operator(b) {
                None => Err(unknown_operator_text(b)),
                Some(oper) => if !operator_defined(oper, y) {
                    Err(division_by_zero_text(b))
                } else {
                    Ok(eval_operator(oper, x, y))
                },
            }
        },
    }
}

/// Law: for any supported operator and any operands on which it is defined,
/// whenever the exact mathematical result fits the host integer width, the
/// call computes a success outcome holding exactly that result.
pub proof fn lemma_compute_exact(b: Seq<u8>, oper: Operator, x: i32, y: i32)
    requires
        parse_operator(b) == Some(oper),
        operator_defined(oper, y),
        i32::MIN <= exact_eval(oper, x, y) <= i32::MAX,
    ensures
        compute_outcome(Some(b), x, y) == Ok::<i32, Seq<u8>>(exact_eval(oper, x, y) as i32),
{
    lemma_operator_text_valid_utf8(b);
    lemma_eval_operator_exact(oper, x, y);
}

/// Law: whenever the caller's operator bytes hold no NUL — always true of a
/// buffer read up to its null terminator — the message of a failed call holds
/// no NUL either, so the error slot's payload can be exported as a
/// null-terminated string.
pub proof fn lemma_outcome_message_nul_free(op: Option<Seq<u8>>, x: i32, y: i32)
    requires
        op matches Some(b) ==> nul_free(b),
    ensures
        compute_outcome(op, x, y) matches Err(m) ==> nul_free(m),
{
    reveal_strlit("operator");
    assert forall|i: int|
        0 <= i < operator_name().len() implies #[trigger] operator_name()[i] != 0 by {
        vstd::utf8::is_ascii_chars_encode_utf8("operator"@);
        assert(operator_name()[i] == "operator"@[i] as u8);
    }
    lemma_message_texts_nul_free(operator_name());
    match op {
        None => {},
        Some(b) => {
            lemma_message_texts_nul_free(b);
        },
    }
}

/// Runs one full boundary call: validates the borrowed operator text, applies
/// the operator, and hands back an owned, well-formed result record holding
/// either the computed value or the rendered error message.
pub fn c_operate(op: Option<&[u8]>, x: i32, y: i32) -> (c: CResult)
    ensures
        c.wf(),
        compute_outcome(input_view(op), x, y) matches Ok(v) ==> c.success == Some(v)
            && c.error_message is None,
        compute_outcome(input_view(op), x, y) matches Err(m) ==> c.success is None
            && (c.error_message matches Some(msg) && msg@ == m),
{
    result_to_c(operate(op, x, y))
}

} // verus!
