//! Handles: opaque references to the slots of a socket set.

use vstd::prelude::*;

verus! {

/// A handle, identifying a socket in a socket set.
///
/// A handle wraps the index of the slot that held the socket when the handle
/// was issued.
#[derive(Debug, Clone, Copy, PartialEq, Eq, Structural, PartialOrd, Ord, Hash)]
pub struct SocketHandle(pub usize);

impl SocketHandle {
    /// The slot index that this handle stands for.
    pub open spec fn index(self) -> nat {
        self.0 as nat
    }

    /// Binds a slot index to a handle.
    #[inline]
    pub fn new(handle_id: usize) -> (handle: Self)
        ensures
            handle.index() == handle_id,
            handle == SocketHandle(handle_id),
    {
        SocketHandle(handle_id)
    }

    /// The slot index bound to this handle.
    #[inline]
    pub fn handle_id(&self) -> (id: usize)
        ensures
            id == self.index(),
    {
        self.0
    }
}

/// The character of a decimal digit.
pub open spec fn digit_char(digit: nat) -> char {
    if digit == 0 {
        '0'
    } else if digit == 1 {
        '1'
    } else if digit == 2 {
        '2'
    } else if digit == 3 {
        '3'
    } else if digit == 4 {
        '4'
    } else if digit == 5 {
        '5'
    } else if digit == 6 {
        '6'
    } else if digit == 7 {
        '7'
    } else if digit == 8 {
        '8'
    } else {
        '9'
    }
}

/// A number written in decimal, without leading zeros.
pub open spec fn decimal_text(n: nat) -> Seq<char>
    decreases n,
{
    if n < 10 {
        seq![digit_char(n)]
    } else {
        decimal_text(n / 10).push(digit_char(n % 10))
    }
}

/// The text form of the handle of slot `index`: a number sign and the
/// index in decimal.
pub open spec fn handle_text(index: nat) -> Seq<char> {
    seq!['#'] + decimal_text(index)
}

/// `format!` with `{}` on a `usize`, after a number sign: the number is
/// written in decimal, without sign, padding or leading zeros.
#[verifier::external_body]
fn format_index(index: usize) -> (text: String)
    ensures
        text@ == handle_text(index as nat),
{
    format!("#{}", index)
}

impl SocketHandle {
    /// The text form of the handle: a number sign and the slot index.
    pub fn to_string(&self) -> (text: String)
        ensures
            text@ == handle_text(self.index()),
    {
        format_index(self.0)
    }
}

impl Default for SocketHandle {
    /// The handle of slot zero.
    fn default() -> (handle: Self)
        ensures
            handle == SocketHandle(0),
    {
        SocketHandle(0)
    }
}

impl From<usize> for SocketHandle {
    fn from(handle_id: usize) -> (handle: Self) {
        SocketHandle(handle_id)
    }
}

impl vstd::std_specs::convert::FromSpecImpl<usize> for SocketHandle {
    open spec fn obeys_from_spec() -> bool {
        true
    }

    open spec fn from_spec(handle_id: usize) -> Self {
        SocketHandle(handle_id)
    }
}

} // verus!
