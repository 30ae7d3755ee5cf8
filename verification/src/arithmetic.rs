//! The built-in vocabulary for simple integer arithmetic: the integer
//! operand, the operators for addition, substraction, multiplication,
//! division and popping, and the recognizers that turn words of text into
//! tokens of these kinds.

use vstd::prelude::*;

use crate::machine::apply_binary;
use crate::machine::apply_pop;
use crate::machine::Error;
use crate::machine::Stack;
use crate::machine::Token;
use crate::machine::Value;
use crate::machine::ValueKind;

verus! {

/// The integer operand: carries a signed 64-bit payload and is inert on the
/// stack.
#[derive(Debug, Clone, Copy, PartialEq, Eq, Structural)]
pub struct Integer(pub i64);

impl Value for Integer {
    open spec fn erased(&self) -> ValueKind {
        ValueKind::Integer(self.0)
    }

    fn erase(self) -> (k: ValueKind) {
        ValueKind::Integer(self.0)
    }

    fn recover(k: ValueKind) -> (r: Option<Self>) {
        match k {
            ValueKind::Integer(n) => Some(Integer(n)),
            _ => None,
        }
    }

    fn apply(&self, stack: &mut Stack) -> (r: Result<(), Error>) {
        Err(Error::NotCallable { token: Token::from_kind(ValueKind::Integer(self.0)) })
    }
}

/// The operator that removes and discards the top of the stack.
#[derive(Debug, Clone, Copy, PartialEq, Eq, Structural)]
pub struct Pop;

impl Value for Pop {
    open spec fn erased(&self) -> ValueKind {
        ValueKind::Pop
    }

    fn erase(self) -> (k: ValueKind) {
        ValueKind::Pop
    }

    fn recover(k: ValueKind) -> (r: Option<Self>) {
        match k {
            ValueKind::Pop => Some(Pop),
            _ => None,
        }
    }

    fn apply(&self, stack: &mut Stack) -> (r: Result<(), Error>) {
        apply_pop(stack)
    }
}

/// The operator that adds its two operands.
#[derive(Debug, Clone, Copy, PartialEq, Eq, Structural)]
pub struct Addition;

impl Value for Addition {
    open spec fn erased(&self) -> ValueKind {
        ValueKind::Addition
    }

    fn erase(self) -> (k: ValueKind) {
        ValueKind::Addition
    }

    fn recover(k: ValueKind) -> (r: Option<Self>) {
        match k {
            ValueKind::Addition => Some(Addition),
            _ => None,
        }
    }

    fn apply(&self, stack: &mut Stack) -> (r: Result<(), Error>) {
        apply_binary(ValueKind::Addition, stack)
    }
}

/// The operator that substracts its later operand from its earlier one.
#[derive(Debug, Clone, Copy, PartialEq, Eq, Structural)]
pub struct Substraction;

impl Value for Substraction {
    open spec fn erased(&self) -> ValueKind {
        ValueKind::Substraction
    }

    fn erase(self) -> (k: ValueKind) {
        ValueKind::Substraction
    }

    fn recover(k: ValueKind) -> (r: Option<Self>) {
        match k {
            ValueKind::Substraction => Some(Substraction),
            _ => None,
        }
    }

    fn apply(&self, stack: &mut Stack) -> (r: Result<(), Error>) {
        apply_binary(ValueKind::Substraction, stack)
    }
}

/// The operator that multiplies its two operands.
#[derive(Debug, Clone, Copy, PartialEq, Eq, Structural)]
pub struct Multiplication;

impl Value for Multiplication {
    open spec fn erased(&self) -> ValueKind {
        ValueKind::Multiplication
    }

    fn erase(self) -> (k: ValueKind) {
        ValueKind::Multiplication
    }

    fn recover(k: ValueKind) -> (r: Option<Self>) {
        match k {
            ValueKind::Multiplication => Some(Multiplication),
            _ => None,
        }
    }

    fn apply(&self, stack: &mut Stack) -> (r: Result<(), Error>) {
        apply_binary(ValueKind::Multiplication, stack)
    }
}

/// The operator that divides its earlier operand by its later one,
/// truncating.
#[derive(Debug, Clone, Copy, PartialEq, Eq, Structural)]
pub struct Division;

impl Value for Division {
    open spec fn erased(&self) -> ValueKind {
        ValueKind::Division
    }

    fn erase(self) -> (k: ValueKind) {
        ValueKind::Division
    }

    fn recover(k: ValueKind) -> (r: Option<Self>) {
        match k {
            ValueKind::Division => Some(Division),
            _ => None,
        }
    }

    fn apply(&self, stack: &mut Stack) -> (r: Result<(), Error>) {
        apply_binary(ValueKind::Division, stack)
    }
}

/// Law: each built-in value type erases to its own kind, and the kinds of
/// distinct built-in types are distinct — so a token built from a value of
/// one built-in type downcasts successfully to that type alone, and to the
/// value it was built from.
pub proof fn lemma_builtin_kinds()
    ensures
        forall|v: Integer| (#[trigger] v.erased()) == ValueKind::Integer(v.0),
        forall|v: Pop| (#[trigger] v.erased()) == ValueKind::Pop,
        forall|v: Addition| (#[trigger] v.erased()) == ValueKind::Addition,
        forall|v: Substraction| (#[trigger] v.erased()) == ValueKind::Substraction,
        forall|v: Multiplication| (#[trigger] v.erased()) == ValueKind::Multiplication,
        forall|v: Division| (#[trigger] v.erased()) == ValueKind::Division,
{
}

/// True of the ten decimal digit characters.
pub open spec fn is_digit(c: char) -> bool {
    '0' as u32 <= c as u32 <= '9' as u32
}

/// The numeric value of a decimal digit character.
pub open spec fn digit_val(c: char) -> int {
    c as u32 - '0' as u32
}

/// True of the words of the integer literal grammar: one or more decimal
/// digits. A sign is not part of the grammar.
pub open spec fn is_digit_word(s: Seq<char>) -> bool {
    s.len() > 0 && forall|i: int| 0 <= i < s.len() ==> is_digit(#[trigger] s[i])
}

/// The numeric value of a sequence of decimal digits, most significant
/// first.
pub open spec fn digits_val(s: Seq<char>) -> int
    decreases s.len(),
{
    if s.len() == 0 {
        0
    } else {
        digits_val(s.drop_last()) * 10 + digit_val(s.last())
    }
}

/// The value of a sequence of digits is not negative.
proof fn lemma_digits_val_nonneg(s: Seq<char>)
    requires
        forall|i: int| 0 <= i < s.len() ==> is_digit(#[trigger] s[i]),
    ensures
        digits_val(s) >= 0,
    decreases s.len(),
{
    if s.len() > 0 {
        lemma_digits_val_nonneg(s.drop_last());
    }
}

/// The value of a sequence of digits bounds the value of each of its
/// prefixes: appending digits never decreases the value.
proof fn lemma_digits_val_prefix(s: Seq<char>, m: int)
    requires
        forall|i: int| 0 <= i < s.len() ==> is_digit(#[trigger] s[i]),
        0 <= m <= s.len(),
    ensures
        digits_val(s.take(m)) <= digits_val(s),
    decreases s.len() - m,
{
    if m == s.len() {
        assert(s.take(m) =~= s);
    } else {
        assert(s.take(m + 1).drop_last() =~= s.take(m));
        assert(s.take(m + 1).last() == s[m]);
        lemma_digits_val_nonneg(s.take(m));
        lemma_digits_val_prefix(s, m + 1);
    }
}

/// Recognizes an integer literal: returns a token carrying the value of
/// the word's digits if the word is one or more decimal digits and the
/// value fits in a signed 64-bit integer, and nothing otherwise.
fn parse_integer(input: &str) -> (r: Option<Token>)
    ensures
        (is_digit_word(input@) && digits_val(input@) <= i64::MAX ==> (r matches Some(t) && t@
            == ValueKind::Integer(digits_val(input@) as i64))),
        (!(is_digit_word(input@) && digits_val(input@) <= i64::MAX) ==> r is None),
{
    let n = input.unicode_len();
    if n == 0 {
        return None;
    }
    let mut acc: u64 = 0;
    let mut i: usize = 0;
    while i < n
        invariant
            0 < n == input@.len(),
            0 <= i <= n,
            forall|j: int| 0 <= j < i ==> is_digit(#[trigger] input@[j]),
            acc == digits_val(input@.take(i as int)),
            acc <= i64::MAX,
        decreases n - i,
    {
        let c = input.get_char(i);
        let u = c as u32;
        if u < '0' as u32 || u > '9' as u32 {
            return None;
        }
        let d: u64 = (u - '0' as u32) as u64;
        proof {
            assert(input@.take(i + 1).drop_last() =~= input@.take(i as int));
            assert(input@.take(i + 1).last() == input@[i as int]);
            vstd::arithmetic::div_mod::lemma_fundamental_div_mod(i64::MAX - d, 10);
            vstd::arithmetic::div_mod::lemma_mod_pos_bound(i64::MAX - d, 10);
        }
        if acc > (i64::MAX as u64 - d) / 10 {
            proof {
                if is_digit_word(input@) {
                    lemma_digits_val_prefix(input@, i + 1);
                }
            }
            return None;
        }
        acc = acc * 10 + d;
        i = i + 1;
    }
    proof {
        assert(input@.take(n as int) =~= input@);
    }
    Some(Token::from_kind(ValueKind::Integer(acc as i64)))
}

/// Recognizes a word that is exactly the single character `c`: returns a
/// token of kind `k` for that word and nothing for any other.
fn parse_single(input: &str, c: char, k: ValueKind) -> (r: Option<Token>)
    ensures
        (input@ == seq![c] ==> (r matches Some(t) && t@ == k)),
        (input@ != seq![c] ==> r is None),
{
    if input.unicode_len() == 1 {
        let d = input.get_char(0);
        if d == c {
            proof {
                assert(input@ =~= seq![c]);
            }
            return Some(Token::from_kind(k));
        }
    }
    None
}

/// Recognizes the keyword `pop`: returns a token of the pop kind for that
/// word and nothing for any other.
fn parse_pop_word(input: &str) -> (r: Option<Token>)
    ensures
        (input@ == seq!['p', 'o', 'p'] ==> (r matches Some(t) && t@ == ValueKind::Pop)),
        (input@ != seq!['p', 'o', 'p'] ==> r is None),
{
    if input.unicode_len() == 3 {
        let c0 = input.get_char(0);
        let c1 = input.get_char(1);
        let c2 = input.get_char(2);
        if c0 == 'p' && c1 == 'o' && c2 == 'p' {
            proof {
                assert(input@ =~= seq!['p', 'o', 'p']);
            }
            return Some(Token::from_kind(ValueKind::Pop));
        }
    }
    None
}

/// The primitive recognizers of the built-in vocabulary, in erased form:
/// the form in which a registry stores whatever recognizers are pushed
/// into it.
#[derive(Debug, Clone, Copy, PartialEq, Eq, Structural)]
pub enum Recognizer {
    Integer,
    Addition,
    Substraction,
    Multiplication,
    Division,
    Pop,
}

/// The kind recognizer `r` assigns to a word, if any: its grammar.
pub open spec fn recognizes(r: Recognizer, word: Seq<char>) -> Option<ValueKind> {
    match r {
        Recognizer::Integer => if is_digit_word(word) && digits_val(word) <= i64::MAX {
            Some(ValueKind::Integer(digits_val(word) as i64))
        } else {
            None
        },
        Recognizer::Addition => if word == seq!['+'] {
            Some(ValueKind::Addition)
        } else {
            None
        },
        Recognizer::Substraction => if word == seq!['-'] {
            Some(ValueKind::Substraction)
        } else {
            None
        },
        Recognizer::Multiplication => if word == seq!['*'] {
            Some(ValueKind::Multiplication)
        } else {
            None
        },
        Recognizer::Division => if word == seq!['/'] {
            Some(ValueKind::Division)
        } else {
            None
        },
        Recognizer::Pop => if word == seq!['p', 'o', 'p'] {
            Some(ValueKind::Pop)
        } else {
            None
        },
    }
}

impl Recognizer {
    /// Recognizes a word: returns the token whose kind this recognizer's
    /// grammar assigns to the word, or nothing when the word does not
    /// match the grammar.
    pub fn parse(&self, input: &str) -> (r: Option<Token>)
        ensures
            (recognizes(*self, input@) matches Some(k) ==> r matches Some(t) && t@ == k),
            (recognizes(*self, input@) is None ==> r is None),
    {
        match self {
            Recognizer::Integer => parse_integer(input),
            Recognizer::Addition => parse_single(input, '+', ValueKind::Addition),
            Recognizer::Substraction => parse_single(input, '-', ValueKind::Substraction),
            Recognizer::Multiplication => parse_single(input, '*', ValueKind::Multiplication),
            Recognizer::Division => parse_single(input, '/', ValueKind::Division),
            Recognizer::Pop => parse_pop_word(input),
        }
    }
}

/// What an ordered sequence of recognizers assigns to a word: the
/// recognizers are tried in reverse registration order — the most recently
/// added one that accepts the word wins.
pub open spec fn scan(rs: Seq<Recognizer>, word: Seq<char>) -> Option<ValueKind>
    decreases rs.len(),
{
    if rs.len() == 0 {
        None
    } else if recognizes(rs.last(), word) is Some {
        recognizes(rs.last(), word)
    } else {
        scan(rs.drop_last(), word)
    }
}

/// A recognizer of words: anything that turns a word of text into a token
/// of one specific kind when the word matches its grammar, and that can be
/// dissolved into the primitive recognizers it is built from — so that
/// recognizers, registries of recognizers included, compose.
pub trait Parser: Sized {
    /// The kind this recognizer assigns to a word, if any.
    spec fn parses_to(&self, word: Seq<char>) -> Option<ValueKind>;

    /// The primitive recognizers this one is built from, in registration
    /// order.
    spec fn units(&self) -> Seq<Recognizer>;

    /// Law: this recognizer assigns to each word exactly what scanning its
    /// primitive recognizers assigns.
    proof fn units_agree(&self, word: Seq<char>)
        ensures
            scan(self.units(), word) == self.parses_to(word),
    ;

    /// Recognizes a word: returns the token whose kind this recognizer
    /// assigns to the word, or nothing when the word is not recognized.
    fn parse(&self, input: &str) -> (r: Option<Token>)
        ensures
            (self.parses_to(input@) matches Some(k) ==> (r matches Some(t) && t@ == k)),
            (self.parses_to(input@) is None ==> r is None),
    ;

    /// Dissolves this recognizer into its primitive recognizers.
    fn into_units(self) -> (v: Vec<Recognizer>)
        ensures
            v@ == self.units(),
    ;
}

/// Law: scanning a registry extended by one recognizer resolves a word to
/// that recognizer whenever its grammar accepts the word — registering
/// overrides — and falls back to the registry as it was otherwise.
pub proof fn lemma_override_order(rs: Seq<Recognizer>, r: Recognizer, word: Seq<char>)
    ensures
        recognizes(r, word) is Some ==> scan(rs.push(r), word) == recognizes(r, word),
        recognizes(r, word) is None ==> scan(rs.push(r), word) == scan(rs, word),
{
    assert(rs.push(r).last() == r);
    assert(rs.push(r).drop_last() =~= rs);
}

/// Law: scanning a layered registry tries the later layer first — where
/// both layers assign a kind to a word, the later layer's assignment is
/// used.
pub proof fn lemma_scan_concat(rs1: Seq<Recognizer>, rs2: Seq<Recognizer>, word: Seq<char>)
    ensures
        scan(rs1 + rs2, word) == (if scan(rs2, word) is Some {
            scan(rs2, word)
        } else {
            scan(rs1, word)
        }),
    decreases rs2.len(),
{
    if rs2.len() == 0 {
        assert(rs1 + rs2 =~= rs1);
    } else {
        assert((rs1 + rs2).last() == rs2.last());
        assert((rs1 + rs2).drop_last() =~= rs1 + rs2.drop_last());
        lemma_scan_concat(rs1, rs2.drop_last(), word);
    }
}

/// Scanning a single recognizer assigns what that recognizer assigns.
proof fn lemma_scan_singleton(r: Recognizer, word: Seq<char>)
    ensures
        scan(seq![r], word) == recognizes(r, word),
{
    assert(seq![r].last() == r);
    assert(seq![r].drop_last() =~= Seq::<Recognizer>::empty());
    assert(scan(Seq::<Recognizer>::empty(), word) is None);
}

/// A registry: an ordered, overridable composition of recognizers, itself
/// usable as a recognizer. The recognizers of each kind of token the
/// registry should produce have to be pushed into it first.
#[derive(Debug)]
pub struct ParserAggregator {
    objects: Vec<Recognizer>,
}

impl View for ParserAggregator {
    type V = Seq<Recognizer>;

    closed spec fn view(&self) -> Seq<Recognizer> {
        self.objects@
    }
}

impl ParserAggregator {
    /// Creates a new empty registry, incapable of recognizing anything.
    pub fn new() -> (p: ParserAggregator)
        ensures
            p@ == Seq::<Recognizer>::empty(),
    {
        let p = ParserAggregator { objects: Vec::new() };
        proof {
            assert(p@ =~= Seq::<Recognizer>::empty());
        }
        p
    }

    /// Adds a recognizer to the registry. Where the grammars of several
    /// registered recognizers overlap, the newest one takes precedence.
    pub fn push<M: Parser>(&mut self, object: M)
        ensures
            final(self)@ == old(self)@ + object.units(),
            forall|word: Seq<char>| scan(final(self)@, word) == (if object.parses_to(word)
                is Some {
                object.parses_to(word)
            } else {
                scan(old(self)@, word)
            }),
    {
        let ghost gobj = object;
        let mut v = object.into_units();
        self.objects.append(&mut v);
        proof {
            assert forall|word: Seq<char>|
                scan(self@, word) == (if gobj.parses_to(word) is Some {
                    gobj.parses_to(word)
                } else {
                    scan(old(self)@, word)
                }) by {
                gobj.units_agree(word);
                lemma_scan_concat(old(self)@, gobj.units(), word);
            }
        }
    }
}

impl Parser for ParserAggregator {
    open spec fn parses_to(&self, word: Seq<char>) -> Option<ValueKind> {
        scan(self@, word)
    }

    open spec fn units(&self) -> Seq<Recognizer> {
        self@
    }

    proof fn units_agree(&self, word: Seq<char>) {
    }

    fn parse(&self, input: &str) -> (r: Option<Token>) {
        let mut i: usize = self.objects.len();
        proof {
            assert(self@.take(self.objects@.len() as int) =~= self@);
        }
        while i > 0
            invariant
                i <= self.objects@.len(),
                scan(self@, input@) == scan(self@.take(i as int), input@),
            decreases i,
        {
            i = i - 1;
            proof {
                assert(self@.take(i + 1).last() == self@[i as int]);
                assert(self@.take(i + 1).drop_last() =~= self@.take(i as int));
            }
            let found = self.objects[i].parse(input);
            if found.is_some() {
                return found;
            }
        }
        None
    }

    fn into_units(self) -> (v: Vec<Recognizer>) {
        self.objects
    }
}

/// A recognizer for integer literals: one or more decimal digits.
#[derive(Debug, Clone, Copy, PartialEq, Eq, Structural)]
pub struct IntegerMeta;

impl Parser for IntegerMeta {
    open spec fn parses_to(&self, word: Seq<char>) -> Option<ValueKind> {
        recognizes(Recognizer::Integer, word)
    }

    open spec fn units(&self) -> Seq<Recognizer> {
        seq![Recognizer::Integer]
    }

    proof fn units_agree(&self, word: Seq<char>) {
        lemma_scan_singleton(Recognizer::Integer, word);
    }

    fn parse(&self, input: &str) -> (r: Option<Token>) {
        (&Recognizer::Integer).parse(input)
    }

    fn into_units(self) -> (v: Vec<Recognizer>) {
        let mut v: Vec<Recognizer> = Vec::new();
        v.push(Recognizer::Integer);
        proof {
            assert(v@ =~= seq![Recognizer::Integer]);
        }
        v
    }
}

/// A recognizer for the addition operator: the word `+`.
#[derive(Debug, Clone, Copy, PartialEq, Eq, Structural)]
pub struct AdditionMeta;

impl Parser for AdditionMeta {
    open spec fn parses_to(&self, word: Seq<char>) -> Option<ValueKind> {
        recognizes(Recognizer::Addition, word)
    }

    open spec fn units(&self) -> Seq<Recognizer> {
        seq![Recognizer::Addition]
    }

    proof fn units_agree(&self, word: Seq<char>) {
        lemma_scan_singleton(Recognizer::Addition, word);
    }

    fn parse(&self, input: &str) -> (r: Option<Token>) {
        (&Recognizer::Addition).parse(input)
    }

    fn into_units(self) -> (v: Vec<Recognizer>) {
        let mut v: Vec<Recognizer> = Vec::new();
        v.push(Recognizer::Addition);
        proof {
            assert(v@ =~= seq![Recognizer::Addition]);
        }
        v
    }
}

/// A recognizer for the substraction operator: the word `-`.
#[derive(Debug, Clone, Copy, PartialEq, Eq, Structural)]
pub struct SubstractionMeta;

impl Parser for SubstractionMeta {
    open spec fn parses_to(&self, word: Seq<char>) -> Option<ValueKind> {
        recognizes(Recognizer::Substraction, word)
    }

    open spec fn units(&self) -> Seq<Recognizer> {
        seq![Recognizer::Substraction]
    }

    proof fn units_agree(&self, word: Seq<char>) {
        lemma_scan_singleton(Recognizer::Substraction, word);
    }

    fn parse(&self, input: &str) -> (r: Option<Token>) {
        (&Recognizer::Substraction).parse(input)
    }

    fn into_units(self) -> (v: Vec<Recognizer>) {
        let mut v: Vec<Recognizer> = Vec::new();
        v.push(Recognizer::Substraction);
        proof {
            assert(v@ =~= seq![Recognizer::Substraction]);
        }
        v
    }
}

/// A recognizer for the multiplication operator: the word `*`.
#[derive(Debug, Clone, Copy, PartialEq, Eq, Structural)]
pub struct MultiplicationMeta;

impl Parser for MultiplicationMeta {
    open spec fn parses_to(&self, word: Seq<char>) -> Option<ValueKind> {
        recognizes(Recognizer::Multiplication, word)
    }

    open spec fn units(&self) -> Seq<Recognizer> {
        seq![Recognizer::Multiplication]
    }

    proof fn units_agree(&self, word: Seq<char>) {
        lemma_scan_singleton(Recognizer::Multiplication, word);
    }

    fn parse(&self, input: &str) -> (r: Option<Token>) {
        (&Recognizer::Multiplication).parse(input)
    }

    fn into_units(self) -> (v: Vec<Recognizer>) {
        let mut v: Vec<Recognizer> = Vec::new();
        v.push(Recognizer::Multiplication);
        proof {
            assert(v@ =~= seq![Recognizer::Multiplication]);
        }
        v
    }
}

/// A recognizer for the division operator: the word `/`.
#[derive(Debug, Clone, Copy, PartialEq, Eq, Structural)]
pub struct DivisionMeta;

impl Parser for DivisionMeta {
    open spec fn parses_to(&self, word: Seq<char>) -> Option<ValueKind> {
        recognizes(Recognizer::Division, word)
    }

    open spec fn units(&self) -> Seq<Recognizer> {
        seq![Recognizer::Division]
    }

    proof fn units_agree(&self, word: Seq<char>) {
        lemma_scan_singleton(Recognizer::Division, word);
    }

    fn parse(&self, input: &str) -> (r: Option<Token>) {
        (&Recognizer::Division).parse(input)
    }

    fn into_units(self) -> (v: Vec<Recognizer>) {
        let mut v: Vec<Recognizer> = Vec::new();
        v.push(Recognizer::Division);
        proof {
            assert(v@ =~= seq![Recognizer::Division]);
        }
        v
    }
}

/// A recognizer for the pop operator: the word `pop`.
#[derive(Debug, Clone, Copy, PartialEq, Eq, Structural)]
pub struct PopMeta;

impl Parser for PopMeta {
    open spec fn parses_to(&self, word: Seq<char>) -> Option<ValueKind> {
        recognizes(Recognizer::Pop, word)
    }

    open spec fn units(&self) -> Seq<Recognizer> {
        seq![Recognizer::Pop]
    }

    proof fn units_agree(&self, word: Seq<char>) {
        lemma_scan_singleton(Recognizer::Pop, word);
    }

    fn parse(&self, input: &str) -> (r: Option<Token>) {
        (&Recognizer::Pop).parse(input)
    }

    fn into_units(self) -> (v: Vec<Recognizer>) {
        let mut v: Vec<Recognizer> = Vec::new();
        v.push(Recognizer::Pop);
        proof {
            assert(v@ =~= seq![Recognizer::Pop]);
        }
        v
    }
}

/// Builds the registry of this vocabulary: the recognizers for the four
/// arithmetic operators, for integer literals, and for the pop keyword.
pub fn arithmetic_module() -> (p: ParserAggregator)
    ensures
        p@ == seq![
            Recognizer::Addition,
            Recognizer::Substraction,
            Recognizer::Multiplication,
            Recognizer::Division,
            Recognizer::Integer,
            Recognizer::Pop,
        ],
{
    let mut parser = ParserAggregator::new();
    parser.push(AdditionMeta);
    parser.push(SubstractionMeta);
    parser.push(MultiplicationMeta);
    parser.push(DivisionMeta);
    parser.push(IntegerMeta);
    parser.push(PopMeta);
    proof {
        assert(parser@ =~= seq![
            Recognizer::Addition,
            Recognizer::Substraction,
            Recognizer::Multiplication,
            Recognizer::Division,
            Recognizer::Integer,
            Recognizer::Pop,
        ]);
    }
    parser
}

} // verus!
