//! Changing the protection of a page in the debuggee.
//!
//! The debugger cannot change the protection of the debuggee's memory itself.
//! It has the stopped debuggee make the call on its own behalf, by evaluating
//! an expression in the top frame of the selected thread. This module writes
//! that expression and says when its evaluation means success.

use vstd::prelude::*;
use vstd::string::*;
use crate::address::Address;
use crate::text::{decimal, push_decimal};

verus! {

/// Protection flags of a watched page at rest: readable and executable, not
/// writable.
pub const PROT_READ_ONLY: u8 = 0x1;

/// Protection flags while the faulting instruction is retired: readable,
/// writable and executable.
pub const PROT_READ_WRITE_EXECUTE: u8 = 0x3;

/// What the engine reported of an evaluated expression.
#[derive(Clone, Copy, Debug, PartialEq, Eq, Structural)]
pub struct Evaluation {
    /// Whether the expression could be evaluated at all.
    pub valid: bool,
    /// The signed number that the expression evaluated to.
    pub value: i64,
}

/// Whether an evaluation of the protection call means that the protection was
/// changed: the expression was evaluated and the call returned no negative
/// number.
pub open spec fn protection_applied(evaluation: Evaluation) -> bool {
    evaluation.valid && evaluation.value >= 0
}

impl Evaluation {
    /// Whether the evaluation of a protection call means that the protection
    /// was changed.
    pub fn applied(&self) -> (applied: bool)
        ensures
            applied == protection_applied(*self),
    {
        self.valid && self.value >= 0
    }
}

/// The expression that has the debuggee change the protection of the page at
/// `address`: `(int)mprotect(<address>, 0x1000, <protection>)`, both numbers
/// in decimal.
pub open spec fn mprotect_expression_text(address: Address, protection: u8) -> Seq<char> {
    "(int)mprotect("@ + decimal(address as nat) + ", 0x1000, "@ + decimal(protection as nat)
        + ")"@
}

/// Writes the expression that changes the protection of one page.
pub fn mprotect_expression(address: Address, protection: u8) -> (expression: String)
    ensures
        expression@ == mprotect_expression_text(address, protection),
{
    let mut expression = String::from_str("(int)mprotect(");
    push_decimal(&mut expression, address);
    expression.append(", 0x1000, ");
    push_decimal(&mut expression, protection as u64);
    expression.append(")");
    expression
}

} // verus!
