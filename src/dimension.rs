use vstd::prelude::*;
use vstd::string::StringExecFns;

verus! {

/// The one failure a kernel can report: its two operands differ in length.
#[derive(Clone, Copy, Debug, PartialEq, Eq, Structural)]
pub struct DimensionMismatch {
    pub left_len: usize,
    pub right_len: usize,
}

/// The character of a decimal digit.
pub open spec fn digit_char(d: nat) -> char {
    if d == 0 {
        '0'
    } else if d == 1 {
        '1'
    } else if d == 2 {
        '2'
    } else if d == 3 {
        '3'
    } else if d == 4 {
        '4'
    } else if d == 5 {
        '5'
    } else if d == 6 {
        '6'
    } else if d == 7 {
        '7'
    } else if d == 8 {
        '8'
    } else {
        '9'
    }
}

/// The decimal notation of `n`, most significant digit first, with no
/// leading zeros.
pub open spec fn decimal(n: nat) -> Seq<char>
    decreases n,
{
    if n < 10 {
        seq![digit_char(n)]
    } else {
        decimal(n / 10).push(digit_char(n % 10))
    }
}

/// The text reported for a mismatch between lengths `l` and `r`.
pub open spec fn mismatch_text(l: nat, r: nat) -> Seq<char> {
    "wrong dimension: left("@ + decimal(l) + ") != right("@ + decimal(r) + ")"@
}

fn digit_str(d: usize) -> (r: &'static str)
    requires
        d < 10,
    ensures
        r@ == seq![digit_char(d as nat)],
{
    if d == 0 {
        proof { reveal_strlit("0"); }
        "0"
    } else if d == 1 {
        proof { reveal_strlit("1"); }
        "1"
    } else if d == 2 {
        proof { reveal_strlit("2"); }
        "2"
    } else if d == 3 {
        proof { reveal_strlit("3"); }
        "3"
    } else if d == 4 {
        proof { reveal_strlit("4"); }
        "4"
    } else if d == 5 {
        proof { reveal_strlit("5"); }
        "5"
    } else if d == 6 {
        proof { reveal_strlit("6"); }
        "6"
    } else if d == 7 {
        proof { reveal_strlit("7"); }
        "7"
    } else if d == 8 {
        proof { reveal_strlit("8"); }
        "8"
    } else {
        proof { reveal_strlit("9"); }
        "9"
    }
}

/// Appends the decimal notation of `n` to `s`.
fn push_decimal(s: &mut String, n: usize)
    ensures
        final(s)@ == old(s)@ + decimal(n as nat),
    decreases n,
{
    if n >= 10 {
        push_decimal(s, n / 10);
    }
    s.append(digit_str(n % 10));
    proof {
        if n < 10 {
            assert(old(s)@ + decimal(n as nat) =~= old(s)@ + seq![digit_char(n as nat)]);
        } else {
            assert(old(s)@ + decimal(n as nat) =~= (old(s)@ + decimal((n / 10) as nat)) + seq![
                digit_char((n % 10) as nat),
            ]);
        }
    }
}

impl DimensionMismatch {
    /// The diagnostic for this mismatch, naming both operand lengths.
    pub fn message(&self) -> (r: String)
        ensures
            r@ == mismatch_text(self.left_len as nat, self.right_len as nat),
    {
        let mut s = String::from_str("wrong dimension: left(");
        push_decimal(&mut s, self.left_len);
        s.append(") != right(");
        push_decimal(&mut s, self.right_len);
        s.append(")");
        s
    }
}

/// Checks that two vectors can be paired element by element, and returns
/// their shared length.
pub fn check_dimensions<T>(left: &[T], right: &[T]) -> (r: Result<usize, DimensionMismatch>)
    ensures
        left@.len() == right@.len() ==> r == Ok::<usize, DimensionMismatch>(left@.len() as usize),
        left@.len() != right@.len() ==> r == Err::<usize, DimensionMismatch>(
            DimensionMismatch { left_len: left@.len() as usize, right_len: right@.len() as usize },
        ),
{
    let left_len = left.len();
    let right_len = right.len();
    if left_len == right_len {
        Ok(left_len)
    } else {
        Err(DimensionMismatch { left_len, right_len })
    }
}

/// Runs `kernel` on two vectors when, and only when, their lengths agree;
/// otherwise reports the mismatch without running it.
pub fn with_matching_dimensions<T, R, F: Fn(&[T], &[T]) -> R>(
    left: &[T],
    right: &[T],
    kernel: F,
) -> (r: Result<R, DimensionMismatch>)
    requires
        left@.len() == right@.len() ==> kernel.requires((left, right)),
    ensures
        left@.len() == right@.len() ==> (r matches Ok(d) && kernel.ensures((left, right), d)),
        left@.len() != right@.len() ==> r == Err::<R, DimensionMismatch>(
            DimensionMismatch { left_len: left@.len() as usize, right_len: right@.len() as usize },
        ),
{
    match check_dimensions(left, right) {
        Ok(_) => Ok(kernel(left, right)),
        Err(e) => Err(e),
    }
}

} // verus!
