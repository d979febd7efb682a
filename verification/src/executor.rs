//! The operation executor: pure integer arithmetic over a validated operator,
//! with the two's-complement wrapping behaviour of the host integer type.

use crate::adapter::accept_str;
use crate::errors::BoundaryError;
use vstd::arithmetic::div_mod::{
    lemma_div_basics, lemma_div_of0, lemma_mod_add_multiples_vanish, lemma_mod_multiples_basic,
    lemma_small_mod,
};
use vstd::prelude::*;
use vstd::slice::slice_to_vec;
use vstd::string::StringSliceAdditionalSpecFns;
use vstd::utf8::{
    decode_first_codepoint, length_of_first_scalar, pop_first_scalar, valid_first_scalar,
    valid_utf8,
};
use vstd::wrapping::i32_specs;

verus! {

/// The operators the boundary supports.
#[derive(Clone, Copy, PartialEq, Eq, Structural, Debug)]
pub enum Operator {
    Add,
    Subtract,
    Multiply,
    Divide,
    Modulo,
    Xor,
}

/// Which operator, if any, the given operator text denotes.
pub open spec fn parse_operator(text: Seq<u8>) -> Option<Operator> {
    if text.len() == 1 {
        if text[0] == '+' as u8 {
            Some(Operator::Add)
        } else if text[0] == '-' as u8 {
            Some(Operator::Subtract)
        } else if text[0] == '*' as u8 {
            Some(Operator::Multiply)
        } else if text[0] == '/' as u8 {
            Some(Operator::Divide)
        } else if text[0] == '%' as u8 {
            Some(Operator::Modulo)
        } else if text[0] == '^' as u8 {
            Some(Operator::Xor)
        } else {
            None
        }
    } else {
        None
    }
}

/// Recognizes the operator text.
pub fn parse_op(text: &[u8]) -> (r: Option<Operator>)
    ensures
        r == parse_operator(text@),
{
    if text.len() == 1 {
        let b = text[0];
        if b == '+' as u8 {
            Some(Operator::Add)
        } else if b == '-' as u8 {
            Some(Operator::Subtract)
        } else if b == '*' as u8 {
            Some(Operator::Multiply)
        } else if b == '/' as u8 {
            Some(Operator::Divide)
        } else if b == '%' as u8 {
            Some(Operator::Modulo)
        } else if b == '^' as u8 {
            Some(Operator::Xor)
        } else {
            None
        }
    } else {
        None
    }
}

/// True when the operator is defined on the operands: divide and modulo need a
/// nonzero divisor; every other operator is total.
pub open spec fn operator_defined(op: Operator, y: i32) -> bool {
    match op {
        Operator::Divide | Operator::Modulo => y != 0,
        _ => true,
    }
}

/// Division as the host computes it, wrapping on overflow: the one overflowing
/// case, `i32::MIN / -1`, wraps back to `i32::MIN`.
pub open spec fn wrapping_div_i32(x: i32, y: i32) -> i32
    recommends
        y != 0,
{
    if x == i32::MIN && y == -1 {
        i32::MIN
    } else {
        match x.checked_div(y) {
            Some(v) => v,
            None => 0,
        }
    }
}

/// Remainder as the host computes it, wrapping on overflow: the one
/// overflowing case, `i32::MIN % -1`, wraps to 0.
pub open spec fn wrapping_rem_i32(x: i32, y: i32) -> i32
    recommends
        y != 0,
{
    if x == i32::MIN && y == -1 {
        0
    } else {
        match x.checked_rem(y) {
            Some(v) => v,
            None => 0,
        }
    }
}

/// What each operator returns on the given operands, with two's-complement
/// wrapping on overflow.
pub open spec fn eval_operator(op: Operator, x: i32, y: i32) -> i32
    recommends
        operator_defined(op, y),
{
    match op {
        Operator::Add => i32_specs::wrapping_add(x, y),
        Operator::Subtract => i32_specs::wrapping_sub(x, y),
        Operator::Multiply => i32_specs::wrapping_mul(x, y),
        Operator::Divide => wrapping_div_i32(x, y),
        Operator::Modulo => wrapping_rem_i32(x, y),
        Operator::Xor => x ^ y,
    }
}

/// Applies an operator that is defined on its operands.
pub fn eval_op(op: Operator, x: i32, y: i32) -> (r: i32)
    requires
        operator_defined(op, y),
    ensures
        r == eval_operator(op, x, y),
{
    match op {
        Operator::Add => x.wrapping_add(y),
        Operator::Subtract => x.wrapping_sub(y),
        Operator::Multiply => x.wrapping_mul(y),
        Operator::Divide => {
            if x == i32::MIN && y == -1 {
                i32::MIN
            } else {
                match x.checked_div(y) {
                    Some(v) => v,
                    None => 0,
                }
            }
        },
        Operator::Modulo => {
            if x == i32::MIN && y == -1 {
                0
            } else {
                match x.checked_rem(y) {
                    Some(v) => v,
                    None => 0,
                }
            }
        },
        Operator::Xor => x ^ y,
    }
}

/// Division rounded toward zero, as the host's `/` computes it on signed
/// integers, written over mathematical integers.
pub open spec fn trunc_div(a: int, b: int) -> int
    recommends
        b != 0,
{
    if a >= 0 && b > 0 {
        a / b
    } else if a < 0 && b < 0 {
        (-a) / (-b)
    } else if a < 0 {
        -((-a) / b)
    } else {
        -(a / (-b))
    }
}

/// The remainder paired with [`trunc_div`]: it takes the dividend's sign.
pub open spec fn trunc_rem(a: int, b: int) -> int
    recommends
        b != 0,
{
    if a >= 0 && b > 0 {
        a % b
    } else if a < 0 && b < 0 {
        -((-a) % (-b))
    } else if a < 0 {
        -((-a) % b)
    } else {
        a % (-b)
    }
}

/// The exact, unbounded evaluation of each operator, over mathematical
/// integers.
pub open spec fn exact_eval(op: Operator, x: i32, y: i32) -> int
    recommends
        operator_defined(op, y),
{
    match op {
        Operator::Add => x + y,
        Operator::Subtract => x - y,
        Operator::Multiply => x * y,
        Operator::Divide => trunc_div(x as int, y as int),
        Operator::Modulo => trunc_rem(x as int, y as int),
        Operator::Xor => (x ^ y) as int,
    }
}

/// The parameter name under which the operator string is validated.
pub open spec fn operator_name() -> Seq<u8> {
    "operator".spec_bytes()
}

/// Any text that parses as an operator is a single ASCII byte, hence valid
/// UTF-8.
pub proof fn lemma_operator_text_valid_utf8(b: Seq<u8>)
    requires
        parse_operator(b) is Some,
    ensures
        valid_utf8(b),
{
    let b0 = b[0];
    assert(b0 & 0x7f == b0) by (bit_vector)
        requires
            b0 < 0x80,
    ;
    assert(decode_first_codepoint(b) == b0 as u32);
    assert(valid_first_scalar(b));
    assert(length_of_first_scalar(b) == 1);
    assert(pop_first_scalar(b) =~= Seq::<u8>::empty());
    assert(valid_utf8(Seq::<u8>::empty()));
}

/// Law: whenever the exact mathematical result of an operator fits the host
/// integer width, the executor returns exactly that result; the wrapping
/// behaviour shows only on overflow.
pub proof fn lemma_eval_operator_exact(op: Operator, x: i32, y: i32)
    requires
        operator_defined(op, y),
        i32::MIN <= exact_eval(op, x, y) <= i32::MAX,
    ensures
        eval_operator(op, x, y) == exact_eval(op, x, y),
{
    let a = x as int;
    let b = y as int;
    match op {
        Operator::Add => {},
        Operator::Subtract => {},
        Operator::Multiply => {
            let prod = a * b;
            let r: int = 0x1_0000_0000;
            if prod >= 0 {
                lemma_small_mod(prod as nat, r as nat);
            } else {
                lemma_mod_add_multiples_vanish(prod, r);
                lemma_small_mod((r + prod) as nat, r as nat);
            }
        },
        Operator::Divide => {
            if x == i32::MIN && y == -1 {
                lemma_div_basics(-a);
                assert(false);
            } else {
                if x == 0 {
                    lemma_div_of0(b);
                    if b < 0 {
                        lemma_div_of0(-b);
                    }
                }
                assert(x.checked_div(y) == Some((trunc_div(a, b)) as i32));
            }
        },
        Operator::Modulo => {
            if x == i32::MIN && y == -1 {
                lemma_mod_multiples_basic(-a, -b);
            } else {
                if x == 0 {
                    if b > 0 {
                        lemma_small_mod(0nat, b as nat);
                    } else {
                        lemma_small_mod(0nat, (-b) as nat);
                    }
                }
                assert(x.checked_rem(y) == Some((trunc_rem(a, b)) as i32));
            }
        },
        Operator::Xor => {},
    }
}

/// Runs one call's computation: validates the borrowed operator text under the
/// parameter name `operator`, then applies the operator to the operands.
/// `op` is `None` when the caller passed a null pointer.
pub fn operate(op: Option<&[u8]>, x: i32, y: i32) -> (r: Result<i32, BoundaryError>)
    ensures
        op is None ==> (r matches Err(e) && e matches BoundaryError::NullPointer { name }
            && name@ == operator_name()),
        op matches Some(b) ==> ({
            if !valid_utf8(b@) {
                r matches Err(e) && e matches BoundaryError::InvalidEncoding { name } && name@
                    == operator_name()
            } else {
                match parse_operator(b@) {
                    None => r matches Err(e) && e matches BoundaryError::UnknownOperator { op: o }
                        && o@ == b@,
                    Some(oper) => if !operator_defined(oper, y) {
                        r matches Err(e) && e matches BoundaryError::DivisionByZero { op: o } && o@
                            == b@
                    } else {
                        r == Ok::<i32, BoundaryError>(eval_operator(oper, x, y))
                    },
                }
            }
        }),
{
    let text = match accept_str("operator".as_bytes(), op) {
        Ok(t) => t,
        Err(e) => {
            return Err(e);
        },
    };
    match parse_op(text) {
        None => Err(BoundaryError::UnknownOperator { op: slice_to_vec(text) }),
        Some(oper) => {
            let needs_nonzero = match oper {
                Operator::Divide | Operator::Modulo => true,
                _ => false,
            };
            if needs_nonzero && y == 0 {
                Err(BoundaryError::DivisionByZero { op: slice_to_vec(text) })
            } else {
                Ok(eval_op(oper, x, y))
            }
        },
    }
}

} // verus!
