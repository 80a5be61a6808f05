//! An `i64` calculator that refuses to overflow and keeps a history of the
//! operations it was asked to perform.

use vstd::prelude::*;
use vstd::string::*;

verus! {

/// The three arithmetic operations the calculator knows.
#[derive(Clone, Copy, Debug, PartialEq, Eq, Structural)]
pub enum OperationType {
    Addition,
    Subtraction,
    Multiplication,
}

/// The mathematically exact value of `x op y`.
pub open spec fn exact_value(op: OperationType, x: int, y: int) -> int {
    match op {
        OperationType::Addition => x + y,
        OperationType::Subtraction => x - y,
        OperationType::Multiplication => x * y,
    }
}

/// `x op y` when it fits in an `i64`, and `None` when it overflows.
pub open spec fn checked_value(op: OperationType, x: i64, y: i64) -> Option<i64> {
    let v = exact_value(op, x as int, y as int);
    if i64::MIN <= v && v <= i64::MAX {
        Some(v as i64)
    } else {
        None
    }
}

/// The character that stands for an operation in the history.
pub open spec fn sign_char(op: OperationType) -> char {
    match op {
        OperationType::Addition => '+',
        OperationType::Subtraction => '-',
        OperationType::Multiplication => '*',
    }
}

impl OperationType {
    /// The one-character sign of the operation: `+`, `-` or `*`.
    pub fn get_sign(&self) -> (r: &'static str)
        ensures
            r@ == seq![sign_char(*self)],
    {
        proof {
            reveal_strlit("+");
            reveal_strlit("-");
            reveal_strlit("*");
        }
        match self {
            OperationType::Addition => "+",
            OperationType::Subtraction => "-",
            OperationType::Multiplication => "*",
        }
    }

    /// Applies the operation, returning `None` instead of overflowing.
    pub fn perform(&self, x: i64, y: i64) -> (r: Option<i64>)
        ensures
            r == checked_value(*self, x, y),
    {
        match self {
            OperationType::Addition => x.checked_add(y),
            OperationType::Subtraction => x.checked_sub(y),
            OperationType::Multiplication => x.checked_mul(y),
        }
    }
}

/// One operation asked of the calculator, kept in its history.
#[derive(Clone, Copy, Debug)]
pub struct Operation {
    pub first_num: i64,
    pub second_num: i64,
    pub operation_type: OperationType,
}

impl Operation {
    /// The operation `first_num operation_type second_num`.
    pub fn new(first_num: i64, second_num: i64, operation_type: OperationType) -> (r: Operation)
        ensures
            r == (Operation { first_num, second_num, operation_type }),
    {
        Operation { first_num, second_num, operation_type }
    }
}

/// The decimal digit `d`.
pub open spec fn digit_char(d: nat) -> char {
    if d == 0 {
        '0'
    } else if d == 1 {
        '1'
    } else if d == 2 {
        '2'
    } else if d == 3 {
        '3'
    } else if d == 4 {
        '4'
    } else if d == 5 {
        '5'
    } else if d == 6 {
        '6'
    } else if d == 7 {
        '7'
    } else if d == 8 {
        '8'
    } else {
        '9'
    }
}

/// The decimal digits of `n`, without leading zeros.
pub open spec fn digits(n: nat) -> Seq<char>
    decreases n,
{
    if n < 10 {
        seq![digit_char(n)]
    } else {
        digits(n / 10) + seq![digit_char(n % 10)]
    }
}

/// `n` in decimal, with a leading `-` when it is negative.
pub open spec fn decimal(n: int) -> Seq<char> {
    if n < 0 {
        seq!['-'] + digits((-n) as nat)
    } else {
        digits(n as nat)
    }
}

/// The line of the history for the operation at `index`:
/// `index: first sign second = result`, where the result is `Overflow` when
/// it does not fit in an `i64`.
pub open spec fn history_line(index: int, op: Operation) -> Seq<char> {
    decimal(index) + seq![':', ' '] + decimal(op.first_num as int) + seq![' ', sign_char(op.operation_type), ' ']
        + decimal(op.second_num as int) + seq![' ', '=', ' '] + match checked_value(
        op.operation_type,
        op.first_num,
        op.second_num,
    ) {
        Some(v) => decimal(v as int),
        None => seq!['O', 'v', 'e', 'r', 'f', 'l', 'o', 'w'],
    } + seq!['\n']
}

/// The history of `ops` as text: one line for each, in order.
pub open spec fn history_text(ops: Seq<Operation>) -> Seq<char>
    decreases ops.len(),
{
    if ops.len() == 0 {
        Seq::empty()
    } else {
        history_text(ops.drop_last()) + history_line(ops.len() - 1, ops.last())
    }
}

/// The one-character text of the digit `d`.
fn digit_str(d: u64) -> (r: &'static str)
    requires
        d < 10,
    ensures
        r@ == seq![digit_char(d as nat)],
{
    proof {
        reveal_strlit("0");
        reveal_strlit("1");
        reveal_strlit("2");
        reveal_strlit("3");
        reveal_strlit("4");
        reveal_strlit("5");
        reveal_strlit("6");
        reveal_strlit("7");
        reveal_strlit("8");
        reveal_strlit("9");
    }
    if d == 0 {
        "0"
    } else if d == 1 {
        "1"
    } else if d == 2 {
        "2"
    } else if d == 3 {
        "3"
    } else if d == 4 {
        "4"
    } else if d == 5 {
        "5"
    } else if d == 6 {
        "6"
    } else if d == 7 {
        "7"
    } else if d == 8 {
        "8"
    } else {
        "9"
    }
}

/// Appends the decimal digits of `n`.
fn push_digits(s: &mut String, n: u64)
    ensures
        final(s)@ == old(s)@ + digits(n as nat),
    decreases n,
{
    if n >= 10 {
        push_digits(s, n / 10);
    }
    s.append(digit_str(n % 10));
    proof {
        if n >= 10 {
            assert(old(s)@ + digits(n as nat) =~= old(s)@ + digits((n / 10) as nat) + seq![digit_char((n % 10) as nat)]);
        }
    }
}

/// Appends `n` in decimal.
fn push_decimal(s: &mut String, n: i64)
    ensures
        final(s)@ == old(s)@ + decimal(n as int),
{
    if n < 0 {
        proof {
            reveal_strlit("-");
        }
        s.append("-");
        let magnitude: u64 = if n == i64::MIN {
            9223372036854775808u64
        } else {
            (-n) as u64
        };
        push_digits(s, magnitude);
        assert(s@ =~= old(s)@ + decimal(n as int));
    } else {
        push_digits(s, n as u64);
    }
}

/// Appends the line of the history for `op` at `index`.
fn push_history_line(text: &mut String, index: usize, op: Operation)
    ensures
        final(text)@ == old(text)@ + history_line(index as int, op),
{
    proof {
        reveal_strlit(": ");
        reveal_strlit(" ");
        reveal_strlit(" = ");
        reveal_strlit("Overflow");
        reveal_strlit("\n");
    }
    push_digits(text, index as u64);
    text.append(": ");
    push_decimal(text, op.first_num);
    text.append(" ");
    text.append(op.operation_type.get_sign());
    text.append(" ");
    push_decimal(text, op.second_num);
    text.append(" = ");
    match op.operation_type.perform(op.first_num, op.second_num) {
        Some(v) => push_decimal(text, v),
        None => text.append("Overflow"),
    }
    text.append("\n");
    let ghost line = history_line(index as int, op);
    assert(decimal(index as int) == digits(index as nat));
    assert(text@ =~= old(text)@ + line);
}

/// The calculator: every operation asked of it joins the history, whether or
/// not it overflowed.
pub struct Calculator {
    pub history: Vec<Operation>,
}

impl Calculator {
    /// A calculator with an empty history.
    pub fn new() -> (r: Calculator)
        ensures
            r.history@ == Seq::<Operation>::empty(),
    {
        Calculator { history: Vec::new() }
    }

    /// Applies `operation_type` to `x` and `y` and records it.
    fn apply(&mut self, x: i64, y: i64, operation_type: OperationType) -> (r: Option<i64>)
        ensures
            r == checked_value(operation_type, x, y),
            final(self).history@ == old(self).history@.push((Operation { first_num: x, second_num: y, operation_type })),
    {
        let result = operation_type.perform(x, y);
        self.history.push(Operation { first_num: x, second_num: y, operation_type });
        result
    }

    /// `x + y`, or `None` on overflow; the operation joins the history.
    pub fn addition(&mut self, x: i64, y: i64) -> (r: Option<i64>)
        ensures
            r == checked_value(OperationType::Addition, x, y),
            final(self).history@ == old(self).history@.push((Operation { first_num: x, second_num: y, operation_type: OperationType::Addition })),
    {
        self.apply(x, y, OperationType::Addition)
    }

    /// `x - y`, or `None` on overflow; the operation joins the history.
    pub fn subtraction(&mut self, x: i64, y: i64) -> (r: Option<i64>)
        ensures
            r == checked_value(OperationType::Subtraction, x, y),
            final(self).history@ == old(self).history@.push((Operation { first_num: x, second_num: y, operation_type: OperationType::Subtraction })),
    {
        self.apply(x, y, OperationType::Subtraction)
    }

    /// `x * y`, or `None` on overflow; the operation joins the history.
    pub fn multiplication(&mut self, x: i64, y: i64) -> (r: Option<i64>)
        ensures
            r == checked_value(OperationType::Multiplication, x, y),
            final(self).history@ == old(self).history@.push((Operation { first_num: x, second_num: y, operation_type: OperationType::Multiplication })),
    {
        self.apply(x, y, OperationType::Multiplication)
    }

    /// The history as text, one line for each operation:
    /// `index: first sign second = result\n`.
    pub fn show_history(&self) -> (r: String)
        ensures
            r@ == history_text(self.history@),
    {
        let mut text = String::new();
        let mut i: usize = 0;
        while i < self.history.len()
            invariant
                i <= self.history@.len(),
                text@ == history_text(self.history@.subrange(0, i as int)),
            decreases self.history@.len() - i,
        {
            push_history_line(&mut text, i, self.history[i]);
            proof {
                let prefix = self.history@.subrange(0, i + 1);
                assert(prefix.drop_last() =~= self.history@.subrange(0, i as int));
                assert(text@ =~= history_text(prefix));
            }
            i = i + 1;
        }
        assert(self.history@.subrange(0, i as int) =~= self.history@);
        text
    }

    /// Performs again the operation at `operation_index` of the history,
    /// which joins the history once more; `None`, with the history unchanged,
    /// where there is no such operation.
    pub fn repeat(&mut self, operation_index: usize) -> (r: Option<i64>)
        ensures
            operation_index < old(self).history@.len() ==> ({
                let op = old(self).history@[operation_index as int];
                &&& r == checked_value(op.operation_type, op.first_num, op.second_num)
                &&& final(self).history@ == old(self).history@.push(op)
            }),
            operation_index >= old(self).history@.len() ==> r is None && final(self).history@ == old(
                self,
            ).history@,
    {
        if operation_index < self.history.len() {
            let op = self.history[operation_index];
            self.apply(op.first_num, op.second_num, op.operation_type)
        } else {
            None
        }
    }

    /// Empties the history.
    pub fn clear_history(&mut self)
        ensures
            final(self).history@ == Seq::<Operation>::empty(),
    {
        self.history.clear();
    }
}

} // verus!
