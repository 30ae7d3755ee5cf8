//! The evaluation engine: type-erased tokens, the operand stack, and the
//! push-evaluate protocol.
//!
//! A [`Token`] owns one value of the closed vocabulary [`ValueKind`]. The
//! vocabulary is a tagged sum rather than a boxed trait object, so a
//! mis-typed downcast is an ordinary `None`, never a panic. Pushing a token
//! onto a [`Stack`] evaluates it at once: plain operands are stored,
//! operators pop their operands and push their result, and a failing
//! operator leaves behind exactly the pops that already happened.

use vstd::prelude::*;

verus! {

/// The closed set of values a token can carry: one operand kind (a signed
/// 64-bit integer) and the operator kinds.
#[derive(Debug, Clone, Copy, PartialEq, Eq, Structural)]
pub enum ValueKind {
    Integer(i64),
    Addition,
    Substraction,
    Multiplication,
    Division,
    Pop,
}

/// What evaluation can report.
///
/// Division by zero and overflowing arithmetic are surfaced as the dedicated
/// recoverable errors `DivisionByZero` and `Overflow`: every operation of
/// this library runs to completion or fails outright, none aborts.
#[derive(Debug)]
pub enum Error {
    /// An operator or an explicit pop found too few values on the stack.
    NotEnoughValues,
    /// An operator popped a token that is not of the kind it expects; the
    /// offending token is carried so the caller can report what was found.
    WrongType { token: Token },
    /// Internal control signal: the token is plain data and must be stored
    /// on the stack unmodified. [`Stack::push`] intercepts it; it never
    /// reaches a caller of `push`.
    NotCallable { token: Token },
    /// A division had zero as its divisor.
    DivisionByZero,
    /// The mathematical result of an operator does not fit in a signed
    /// 64-bit integer.
    Overflow,
}

/// True of the kinds that act on the stack when pushed.
pub open spec fn is_operator(k: ValueKind) -> bool {
    !(k is Integer)
}

/// True of the four binary arithmetic operator kinds.
pub open spec fn is_binop(k: ValueKind) -> bool {
    k is Addition || k is Substraction || k is Multiplication || k is Division
}

/// How many operands a kind consumes when pushed.
pub open spec fn arity(k: ValueKind) -> nat {
    match k {
        ValueKind::Integer(_) => 0,
        ValueKind::Pop => 1,
        _ => 2,
    }
}

/// Truncating integer division, the semantics of `/` on the machine's signed
/// integers: the quotient of the magnitudes, with the sign of the exact
/// quotient.
pub open spec fn trunc_div(x: int, d: int) -> int {
    if x == 0 {
        0
    } else if x > 0 && d > 0 {
        x / d
    } else if x < 0 && d < 0 {
        (x * -1) / (d * -1)
    } else if x < 0 {
        ((x * -1) / d) * -1
    } else {
        (x / (d * -1)) * -1
    }
}

/// The unbounded mathematical result of a binary operator on operands `a`
/// and `b`, where `a` was pushed before `b`.
pub open spec fn binop_math(k: ValueKind, a: int, b: int) -> int {
    match k {
        ValueKind::Addition => a + b,
        ValueKind::Substraction => a - b,
        ValueKind::Multiplication => a * b,
        _ => trunc_div(a, b),
    }
}

/// Whether a binary operator succeeds on operands `a` and `b`: the divisor
/// must not be zero and the result must fit in a signed 64-bit integer.
pub open spec fn binop_defined(k: ValueKind, a: int, b: int) -> bool {
    (k is Division ==> b != 0) && i64::MIN <= binop_math(k, a, b) <= i64::MAX
}

/// The stack contents after a token of kind `k` is pushed onto a stack
/// holding the operands `s` (bottom first). There is no rollback: a binary
/// operator that fails after popping keeps those pops.
pub open spec fn step_stack(s: Seq<i64>, k: ValueKind) -> Seq<i64> {
    match k {
        ValueKind::Integer(n) => s.push(n),
        ValueKind::Pop => if s.len() >= 1 {
            s.drop_last()
        } else {
            s
        },
        _ => {
            if s.len() == 0 {
                s
            } else if s.len() == 1 {
                s.drop_last()
            } else {
                let a = s[s.len() - 2] as int;
                let b = s[s.len() - 1] as int;
                let rest = s.take(s.len() - 2);
                if binop_defined(k, a, b) {
                    rest.push(binop_math(k, a, b) as i64)
                } else {
                    rest
                }
            }
        },
    }
}

/// What pushing a token of kind `k` onto a stack holding `s` reports.
pub open spec fn step_result(s: Seq<i64>, k: ValueKind) -> Result<(), Error> {
    match k {
        ValueKind::Integer(_) => Ok(()),
        ValueKind::Pop => if s.len() >= 1 {
            Ok(())
        } else {
            Err(Error::NotEnoughValues)
        },
        _ => {
            if s.len() < 2 {
                Err(Error::NotEnoughValues)
            } else {
                let a = s[s.len() - 2] as int;
                let b = s[s.len() - 1] as int;
                if k is Division && b == 0 {
                    Err(Error::DivisionByZero)
                } else if !binop_defined(k, a, b) {
                    Err(Error::Overflow)
                } else {
                    Ok(())
                }
            }
        },
    }
}

/// The stack contents after a value of kind `k` acts on a stack holding
/// `pre`: as [`step_stack`], except that a plain operand does not store
/// itself — it signals [`Error::NotCallable`] and lets the stack do it.
pub open spec fn apply_stack(pre: Seq<i64>, k: ValueKind) -> Seq<i64> {
    if k is Integer {
        pre
    } else {
        step_stack(pre, k)
    }
}

/// What a value of kind `k` acting on a stack holding `pre` reports: a
/// plain operand signals [`Error::NotCallable`] carrying a token of its own
/// kind, an operator reports as [`step_result`].
pub open spec fn apply_res(pre: Seq<i64>, k: ValueKind, r: Result<(), Error>) -> bool {
    if k is Integer {
        r matches Err(e) && e matches Error::NotCallable { token } && token@ == k
    } else {
        r == step_result(pre, k)
    }
}

/// Orders the kinds for termination of the push-evaluate protocol: an
/// operator may push its (operand) result, which evaluates without any
/// further push.
pub open spec fn rank(k: ValueKind) -> int {
    if k is Integer {
        0
    } else {
        1
    }
}

/// A value that can be turned into a [`Token`]: anything that erases into
/// the closed vocabulary and can be recovered from it.
pub trait Value: Sized {
    /// The type-erased form of this value.
    spec fn erased(&self) -> ValueKind;

    /// Erases this value into the closed vocabulary.
    fn erase(self) -> (k: ValueKind)
        ensures
            k == self.erased(),
    ;

    /// Checked conversion back from the erased form: the unique value of
    /// this type with the given erased form, if the form belongs to this
    /// type.
    fn recover(k: ValueKind) -> (r: Option<Self>)
        ensures
            (r matches Some(v) ==> v.erased() == k && (forall|u: Self| u.erased() == k
                ==> u == v)),
            (r is None ==> forall|u: Self| u.erased() != k),
    ;

    /// Gives the value the opportunity to modify the stack to its liking.
    /// A plain operand performs no modification and signals
    /// [`Error::NotCallable`]; it must not push itself, as [`Stack::push`]
    /// stores it on receiving the signal.
    fn apply(&self, stack: &mut Stack) -> (r: Result<(), Error>)
        requires
            old(stack).wf(),
        ensures
            final(stack).wf(),
            final(stack)@ == apply_stack(old(stack)@, self.erased()),
            apply_res(old(stack)@, self.erased(), r),
    ;
}

/// A token, as it is found on the stack: an owning, type-erased container
/// holding exactly one value.
#[derive(Debug)]
pub struct Token {
    value: ValueKind,
}

impl View for Token {
    type V = ValueKind;

    closed spec fn view(&self) -> ValueKind {
        self.value
    }
}

impl Token {
    /// Creates a token directly from an erased kind.
    pub(crate) fn from_kind(k: ValueKind) -> (t: Token)
        ensures
            t@ == k,
    {
        Token { value: k }
    }

    /// Creates a new token from a value that implements [`Value`].
    pub fn new<T: Value>(value: T) -> (t: Token)
        ensures
            t@ == value.erased(),
    {
        Token { value: value.erase() }
    }

    /// Lets the carried value act on the stack, consuming the token; a
    /// plain operand signals [`Error::NotCallable`] carrying the token
    /// back.
    pub fn apply(self, stack: &mut Stack) -> (r: Result<(), Error>)
        requires
            old(stack).wf(),
        ensures
            final(stack).wf(),
            final(stack)@ == apply_stack(old(stack)@, self@),
            apply_res(old(stack)@, self@, r),
        decreases rank(self@), 1int,
    {
        match self.value {
            ValueKind::Integer(_) => Err(Error::NotCallable { token: self }),
            ValueKind::Pop => apply_pop(stack),
            op => apply_binary(op, stack),
        }
    }

    /// The textual form of the carried value: the decimal form of an
    /// integer, an operator's symbol, nothing for the pop keyword's kind.
    pub fn render(&self) -> (r: String)
        ensures
            r@ == kind_text(self@),
    {
        let mut out = String::new();
        match self.value {
            ValueKind::Integer(n) => {
                append_int(&mut out, n);
                proof {
                    assert(out@ =~= kind_text(self@));
                }
            },
            ValueKind::Addition => {
                out.append("+");
                proof {
                    reveal_strlit("+");
                    assert(out@ =~= kind_text(self@));
                }
            },
            ValueKind::Substraction => {
                out.append("-");
                proof {
                    reveal_strlit("-");
                    assert(out@ =~= kind_text(self@));
                }
            },
            ValueKind::Multiplication => {
                out.append("*");
                proof {
                    reveal_strlit("*");
                    assert(out@ =~= kind_text(self@));
                }
            },
            ValueKind::Division => {
                out.append("/");
                proof {
                    reveal_strlit("/");
                    assert(out@ =~= kind_text(self@));
                }
            },
            ValueKind::Pop => {
                proof {
                    assert(out@ =~= kind_text(self@));
                }
            },
        }
        out
    }

    /// Tries to get the carried value at the desired type, consuming the
    /// token; fails exactly when the token was not built from a value of
    /// that type's kind, and never panics.
    pub fn downcast<T: Value>(self) -> (r: Option<Box<T>>)
        ensures
            (r matches Some(v) ==> v.erased() == self@ && (forall|u: T| u.erased() == self@
                ==> u == *v)),
            (r is None ==> forall|u: T| u.erased() != self@),
    {
        match T::recover(self.value) {
            Some(v) => Some(Box::new(v)),
            None => None,
        }
    }

    /// Tries to get the carried value at the desired type without
    /// consuming the token; fails exactly when the token was not built
    /// from a value of that type's kind, and never panics.
    pub fn downcast_ref<T: Value>(&self) -> (r: Option<T>)
        ensures
            (r matches Some(v) ==> v.erased() == self@ && (forall|u: T| u.erased() == self@
                ==> u == v)),
            (r is None ==> forall|u: T| u.erased() != self@),
    {
        T::recover(self.value)
    }
}

/// Pops and discards the top of the stack: the effect of the `Pop`
/// operator kind.
pub(crate) fn apply_pop(stack: &mut Stack) -> (r: Result<(), Error>)
    requires
        old(stack).wf(),
    ensures
        final(stack).wf(),
        final(stack)@ == step_stack(old(stack)@, ValueKind::Pop),
        r == step_result(old(stack)@, ValueKind::Pop),
{
    match stack.pop() {
        Ok(_) => Ok(()),
        Err(e) => Err(e),
    }
}

/// Pops two operands and pushes the operator's result: the effect of the
/// four arithmetic operator kinds. The operand pushed last, `b`, is popped
/// first, so the result is `a ∘ b` with `a` the earlier operand.
pub(crate) fn apply_binary(op: ValueKind, stack: &mut Stack) -> (r: Result<(), Error>)
    requires
        old(stack).wf(),
        is_binop(op),
    ensures
        final(stack).wf(),
        final(stack)@ == step_stack(old(stack)@, op),
        r == step_result(old(stack)@, op),
    decreases rank(op), 0int,
{
    let bt = match stack.pop() {
        Ok(t) => t,
        Err(e) => { return Err(e); },
    };
    let at = match stack.pop() {
        Ok(t) => t,
        Err(e) => { return Err(e); },
    };
    let a = match at.value {
        ValueKind::Integer(n) => n,
        _ => { return Err(Error::WrongType { token: at }); },
    };
    let b = match bt.value {
        ValueKind::Integer(n) => n,
        _ => { return Err(Error::WrongType { token: bt }); },
    };
    proof {
        assert(stack@ =~= old(stack)@.take(old(stack)@.len() - 2));
    }
    let res: Option<i64> = match op {
        ValueKind::Addition => a.checked_add(b),
        ValueKind::Substraction => a.checked_sub(b),
        ValueKind::Multiplication => a.checked_mul(b),
        _ => {
            if b == 0 {
                return Err(Error::DivisionByZero);
            }
            a.checked_div(b)
        },
    };
    match res {
        Some(v) => stack.push(Token { value: ValueKind::Integer(v) }),
        None => Err(Error::Overflow),
    }
}

/// A stack on which [`Token`]s can be pushed.
///
/// Between operations every resident token is a plain operand: operator
/// kinds never remain resident, because pushing one triggers immediate
/// evaluation. [`Stack::wf`] states that invariant; every operation
/// preserves it, so a stack is abstractly a sequence of integers, its view.
#[derive(Debug)]
pub struct Stack {
    tokens: Vec<Token>,
}

impl View for Stack {
    type V = Seq<i64>;

    closed spec fn view(&self) -> Seq<i64> {
        Seq::new(self.tokens@.len(), |i: int| self.tokens@[i]@->Integer_0)
    }
}

impl Stack {
    /// The stack invariant: every resident token is a plain operand.
    pub closed spec fn wf(&self) -> bool {
        forall|i: int| 0 <= i < self.tokens@.len() ==> (#[trigger] self.tokens@[i]@) is Integer
    }

    /// Creates a new empty stack.
    pub fn new() -> (s: Stack)
        ensures
            s.wf(),
            s@ == Seq::<i64>::empty(),
    {
        let s = Stack { tokens: Vec::new() };
        proof {
            assert(s@ =~= Seq::<i64>::empty());
        }
        s
    }

    /// Pushes a token onto the stack and evaluates it at once: a plain
    /// operand is stored, an operator acts on the stack. The stack moves
    /// to [`step_stack`] of its old contents and the token's kind, and the
    /// call reports [`step_result`] of the same — in particular
    /// [`Error::NotCallable`] never escapes, and a failing operator keeps
    /// whatever pops already happened.
    pub fn push(&mut self, t: Token) -> (r: Result<(), Error>)
        requires
            old(self).wf(),
        ensures
            final(self).wf(),
            final(self)@ == step_stack(old(self)@, t@),
            r == step_result(old(self)@, t@),
        decreases rank(t@), 2int,
    {
        match t.apply(self) {
            Err(Error::NotCallable { token }) => {
                self.tokens.push(token);
                proof {
                    assert(self@ =~= step_stack(old(self)@, t@));
                }
                Ok(())
            },
            n => n,
        }
    }

    /// Renders the stack contents: the textual form of each resident
    /// operand, bottom first, each followed by one space.
    pub fn render(&self) -> (r: String)
        requires
            self.wf(),
        ensures
            r@ == stack_text(self@),
    {
        let mut out = String::new();
        let mut i: usize = 0;
        proof {
            assert(self@.take(0) =~= Seq::<i64>::empty());
            assert(out@ =~= stack_text(self@.take(0)));
        }
        while i < self.tokens.len()
            invariant
                self.wf(),
                i <= self.tokens@.len(),
                self@.len() == self.tokens@.len(),
                out@ == stack_text(self@.take(i as int)),
            decreases self.tokens@.len() - i,
        {
            let text = self.tokens[i].render();
            out.append(text.as_str());
            out.append(" ");
            proof {
                reveal_strlit(" ");
                assert(self@.take(i + 1).drop_last() =~= self@.take(i as int));
                assert(self@.take(i + 1).last() == self@[i as int]);
                assert(out@ =~= stack_text(self@.take(i + 1)));
            }
            i = i + 1;
        }
        proof {
            assert(self@.take(self.tokens@.len() as int) =~= self@);
        }
        out
    }

    /// Removes and returns the most recently stored token; fails with
    /// [`Error::NotEnoughValues`] if and only if the stack is empty.
    pub fn pop(&mut self) -> (r: Result<Token, Error>)
        requires
            old(self).wf(),
        ensures
            final(self).wf(),
            old(self)@.len() == 0 ==> final(self)@ == old(self)@ && (r matches Err(e) && e
                matches Error::NotEnoughValues),
            old(self)@.len() > 0 ==> final(self)@ == old(self)@.drop_last() && (r matches Ok(t)
                && t@ == ValueKind::Integer(old(self)@.last())),
    {
        match self.tokens.pop() {
            Some(t) => {
                proof {
                    assert(self@ =~= old(self)@.drop_last());
                }
                Ok(t)
            },
            None => Err(Error::NotEnoughValues),
        }
    }
}

/// The character for the decimal digit `d`.
pub open spec fn digit_char(d: int) -> char {
    if d == 0 {
        '0'
    } else if d == 1 {
        '1'
    } else if d == 2 {
        '2'
    } else if d == 3 {
        '3'
    } else if d == 4 {
        '4'
    } else if d == 5 {
        '5'
    } else if d == 6 {
        '6'
    } else if d == 7 {
        '7'
    } else {
        if d == 8 {
            '8'
        } else {
            '9'
        }
    }
}

/// The decimal digits of the nonnegative number `n`, most significant
/// first, without leading zeros (a single `0` for zero).
pub open spec fn dec_digits(n: nat) -> Seq<char>
    decreases n,
{
    if n < 10 {
        seq![digit_char(n as int)]
    } else {
        dec_digits(n / 10).push(digit_char((n % 10) as int))
    }
}

/// The textual form of a signed integer: an optional minus sign followed
/// by the decimal digits of the magnitude.
pub open spec fn int_text(n: int) -> Seq<char> {
    if n < 0 {
        seq!['-'] + dec_digits((-n) as nat)
    } else {
        dec_digits(n as nat)
    }
}

/// The textual form of each kind: the decimal form of an integer, an
/// operator's symbol, nothing for the pop keyword's kind.
pub open spec fn kind_text(k: ValueKind) -> Seq<char> {
    match k {
        ValueKind::Integer(n) => int_text(n as int),
        ValueKind::Addition => seq!['+'],
        ValueKind::Substraction => seq!['-'],
        ValueKind::Multiplication => seq!['*'],
        ValueKind::Division => seq!['/'],
        ValueKind::Pop => Seq::<char>::empty(),
    }
}

/// The textual form of a stack's contents: the form of each resident
/// operand, bottom first, each followed by one space.
pub open spec fn stack_text(s: Seq<i64>) -> Seq<char>
    decreases s.len(),
{
    if s.len() == 0 {
        Seq::<char>::empty()
    } else {
        stack_text(s.drop_last()) + int_text(s.last() as int) + seq![' ']
    }
}

/// Appends the decimal digits of `m` to `out`.
fn append_dec(out: &mut String, m: u64)
    ensures
        final(out)@ == old(out)@ + dec_digits(m as nat),
    decreases m,
{
    if m >= 10 {
        append_dec(out, m / 10);
    }
    let ghost mid = out@;
    let d: u64 = m % 10;
    if d == 0 {
        out.append("0");
    } else if d == 1 {
        out.append("1");
    } else if d == 2 {
        out.append("2");
    } else if d == 3 {
        out.append("3");
    } else if d == 4 {
        out.append("4");
    } else if d == 5 {
        out.append("5");
    } else if d == 6 {
        out.append("6");
    } else if d == 7 {
        out.append("7");
    } else if d == 8 {
        out.append("8");
    } else {
        out.append("9");
    }
    proof {
        reveal_strlit("0");
        reveal_strlit("1");
        reveal_strlit("2");
        reveal_strlit("3");
        reveal_strlit("4");
        reveal_strlit("5");
        reveal_strlit("6");
        reveal_strlit("7");
        reveal_strlit("8");
        reveal_strlit("9");
        assert(out@ =~= mid + seq![digit_char(d as int)]);
        if m < 10 {
            assert(out@ =~= old(out)@ + dec_digits(m as nat));
        } else {
            assert(dec_digits(m as nat) == dec_digits((m / 10) as nat).push(
                digit_char((m % 10) as int)));
            assert(out@ =~= old(out)@ + dec_digits(m as nat));
        }
    }
}

/// Appends the textual form of the signed integer `n` to `out`.
fn append_int(out: &mut String, n: i64)
    ensures
        final(out)@ == old(out)@ + int_text(n as int),
{
    if n >= 0 {
        append_dec(out, n as u64);
    } else {
        out.append("-");
        proof {
            reveal_strlit("-");
            assert(out@ =~= old(out)@ + seq!['-']);
        }
        let m: u64 = (-(n as i128)) as u64;
        append_dec(out, m);
        proof {
            assert(out@ =~= old(out)@ + int_text(n as int));
        }
    }
}

/// Law: pushing `Integer(a)`, then `Integer(b)`, then a binary operator
/// succeeds whenever the operator is defined on `a` and `b`, and replaces
/// the two operands by the single result, so the top of the stack becomes
/// `a + b`, `a - b`, `a * b` or the truncating `a / b`.
pub proof fn lemma_binop_eval(s: Seq<i64>, a: i64, b: i64, k: ValueKind)
    requires
        is_binop(k),
        binop_defined(k, a as int, b as int),
    ensures
        step_result(s, ValueKind::Integer(a)) == Result::<(), Error>::Ok(()),
        step_result(s.push(a), ValueKind::Integer(b)) == Result::<(), Error>::Ok(()),
        step_result(s.push(a).push(b), k) == Result::<(), Error>::Ok(()),
        step_stack(step_stack(step_stack(s, ValueKind::Integer(a)), ValueKind::Integer(b)), k)
            == s.push(binop_math(k, a as int, b as int) as i64),
        step_stack(step_stack(step_stack(s, ValueKind::Integer(a)), ValueKind::Integer(b)), k)
            .last() == binop_math(k, a as int, b as int) as i64,
{
    let s2 = s.push(a).push(b);
    assert(s2[s2.len() - 2] == a);
    assert(s2[s2.len() - 1] == b);
    assert(s2.take(s2.len() - 2) =~= s);
}

/// Law: an operator pushed onto a stack holding fewer operands than it
/// consumes fails with `NotEnoughValues`, and the stack keeps no
/// half-applied state beyond the pops that happened before the shortfall
/// was found: a binary operator that found one operand has popped it.
pub proof fn lemma_operator_underflow(s: Seq<i64>, k: ValueKind)
    requires
        is_operator(k),
        s.len() < arity(k),
    ensures
        step_result(s, k) == Result::<(), Error>::Err(Error::NotEnoughValues),
        s.len() == 0 ==> step_stack(s, k) == s,
        s.len() >= 1 ==> step_stack(s, k) == s.drop_last(),
{
}

/// Law: the `NotCallable` signal never escapes [`Stack::push`], and no
/// push on a well-formed stack ever reports a mis-typed operand — pushing
/// reports success, `NotEnoughValues`, `DivisionByZero` or `Overflow`.
pub proof fn lemma_push_result_kinds(s: Seq<i64>, k: ValueKind)
    ensures
        step_result(s, k) matches Err(e) ==> !(e is NotCallable) && !(e is WrongType),
{
}

} // verus!
