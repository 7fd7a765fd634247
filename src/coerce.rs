//! Turning the outcome of a float-to-integer approximation into a
//! range-checked value, or an error that names the field.
use vstd::prelude::*;
use crate::error::IndexError;
use crate::text::{decimal, push_decimal};
use vstd::string::StringExecFns;

verus! {

/// How approximating a number by a bounded integer can fail.
#[derive(Clone, Copy, Debug, PartialEq, Eq, Structural)]
pub enum RangeFault {
    /// The number lies below the target's minimum (for unsigned targets: it is negative).
    NegOverflow,
    /// The number lies above the target's maximum.
    PosOverflow,
    /// The number is not a number.
    NotANumber,
}

/// An unsigned integer type with a known maximum.
pub trait Bounded: Sized {
    spec fn max_nat() -> nat;

    fn max_u64() -> (r: u64)
        ensures
            r as nat == Self::max_nat();
}

impl Bounded for u32 {
    open spec fn max_nat() -> nat {
        u32::MAX as nat
    }

    fn max_u64() -> (r: u64) {
        u32::MAX as u64
    }
}

impl Bounded for usize {
    open spec fn max_nat() -> nat {
        usize::MAX as nat
    }

    fn max_u64() -> (r: u64) {
        usize::MAX as u64
    }
}

/// The constraint that a fault reports, for a target whose maximum is `max`.
pub open spec fn fault_text(fault: RangeFault, max: nat) -> Seq<char> {
    match fault {
        RangeFault::NegOverflow => "must be > 0"@,
        RangeFault::PosOverflow => "must be < "@ + decimal(max),
        RangeFault::NotANumber => "not a valid number"@,
    }
}

/// `e` is the range error for field `name` with constraint text `message`.
pub open spec fn is_range_error(e: IndexError, name: Seq<char>, message: Seq<char>) -> bool {
    match e {
        IndexError::OutOfRange { name: n, message: m } => n@ == name && m@ == message,
        _ => false,
    }
}

/// The error for field `name` when a number could not be approximated by an
/// integer no greater than `max`.
pub fn range_error(fault: RangeFault, name: &str, max: u64) -> (e: IndexError)
    ensures
        is_range_error(e, name@, fault_text(fault, max as nat)),
{
    let mut message = String::new();
    match fault {
        RangeFault::NegOverflow => message.append("must be > 0"),
        RangeFault::PosOverflow => {
            message.append("must be < ");
            push_decimal(&mut message, max);
        },
        RangeFault::NotANumber => message.append("not a valid number"),
    }
    assert(message@ =~= fault_text(fault, max as nat));
    IndexError::OutOfRange { name: name.to_owned(), message }
}

/// The value that approximating a number for field `name` produced, or the
/// range error that names `name` and the constraint that was broken.
pub fn coerce<T: Bounded>(outcome: Result<T, RangeFault>, name: &str) -> (r: Result<T, IndexError>)
    ensures
        outcome is Ok ==> r is Ok && r->Ok_0 == outcome->Ok_0,
        outcome is Err ==> r is Err && is_range_error(
            r->Err_0,
            name@,
            fault_text(outcome->Err_0, T::max_nat()),
        ),
{
    match outcome {
        Ok(v) => Ok(v),
        Err(fault) => Err(range_error(fault, name, T::max_u64())),
    }
}

/// `coerce` for a 32-bit unsigned field.
pub fn coerce_u32(outcome: Result<u32, RangeFault>, name: &str) -> (r: Result<u32, IndexError>)
    ensures
        outcome is Ok ==> r is Ok && r->Ok_0 == outcome->Ok_0,
        outcome is Err ==> r is Err && is_range_error(
            r->Err_0,
            name@,
            fault_text(outcome->Err_0, u32::MAX as nat),
        ),
{
    coerce(outcome, name)
}

/// `coerce` for a pointer-sized unsigned field.
pub fn coerce_usize(outcome: Result<usize, RangeFault>, name: &str) -> (r: Result<usize, IndexError>)
    ensures
        outcome is Ok ==> r is Ok && r->Ok_0 == outcome->Ok_0,
        outcome is Err ==> r is Err && is_range_error(
            r->Err_0,
            name@,
            fault_text(outcome->Err_0, usize::MAX as nat),
        ),
{
    coerce(outcome, name)
}

} // verus!
