use stack_calculator::arithmetic::{arithmetic_module, Integer, Parser, ParserAggregator, Pop};
use stack_calculator::machine::{Error, Stack, Token};

fn run(words: &[&str]) -> Result<Stack, Error> {
    let parser = arithmetic_module();
    let mut stack = Stack::new();
    for word in words {
        let token = parser.parse(word).expect("every word of the program is recognized");
        stack.push(token)?;
    }
    Ok(stack)
}

#[test]
fn program_addition() {
    let mut s = run(&["4", "5", "+"]).unwrap();
    assert_eq!("9 ", s.render());
    assert_eq!(Integer(9), *s.pop().unwrap().downcast().unwrap());
}

#[test]
fn program_division() {
    let mut s = run(&["20", "5", "/"]).unwrap();
    assert_eq!("4 ", s.render());
    assert_eq!(Integer(4), *s.pop().unwrap().downcast().unwrap());
}

#[test]
fn program_substraction() {
    let mut s = run(&["4", "5", "-"]).unwrap();
    assert_eq!("-1 ", s.render());
    assert_eq!(Integer(-1), *s.pop().unwrap().downcast().unwrap());
}

#[test]
fn program_multiplication() {
    let mut s = run(&["4", "5", "*"]).unwrap();
    assert_eq!("20 ", s.render());
    assert_eq!(Integer(20), *s.pop().unwrap().downcast().unwrap());
}

#[test]
fn program_pop() {
    let mut s = run(&["3", "pop"]).unwrap();
    assert_eq!("", s.render());
    assert!(matches!(s.pop(), Err(Error::NotEnoughValues)));
}

#[test]
fn program_lone_operator_underflows() {
    assert!(matches!(run(&["+"]), Err(Error::NotEnoughValues)));
}

#[test]
fn program_longer_postfix_expression() {
    // (2 + 3) * (10 - 4) = 30
    let s = run(&["2", "3", "+", "10", "4", "-", "*"]).unwrap();
    assert_eq!("30 ", s.render());
}

#[test]
fn integer_words_are_unsigned_digit_sequences() {
    let parser = arithmetic_module();
    assert_eq!(
        Integer(4),
        *parser.parse("4").unwrap().downcast().unwrap()
    );
    assert_eq!(
        Integer(7),
        *parser.parse("007").unwrap().downcast().unwrap()
    );
    assert_eq!(
        Integer(i64::MAX),
        *parser.parse("9223372036854775807").unwrap().downcast().unwrap()
    );
    // one past the payload's maximum is not recognized
    assert!(parser.parse("9223372036854775808").is_none());
    // a sign is not part of the literal grammar
    assert!(parser.parse("-5").is_none());
    assert!(parser.parse("+5").is_none());
    // not digit words
    assert!(parser.parse("").is_none());
    assert!(parser.parse("12a").is_none());
    assert!(parser.parse("1 2").is_none());
    assert!(parser.parse("4.5").is_none());
}

#[test]
fn operator_words_are_exact() {
    let parser = arithmetic_module();
    assert!(parser.parse("+").unwrap().downcast::<stack_calculator::arithmetic::Addition>().is_some());
    assert!(parser.parse("-").unwrap().downcast::<stack_calculator::arithmetic::Substraction>().is_some());
    assert!(parser.parse("*").unwrap().downcast::<stack_calculator::arithmetic::Multiplication>().is_some());
    assert!(parser.parse("/").unwrap().downcast::<stack_calculator::arithmetic::Division>().is_some());
    assert!(parser.parse("pop").unwrap().downcast::<Pop>().is_some());
    // near misses
    assert!(parser.parse("++").is_none());
    assert!(parser.parse("pops").is_none());
    assert!(parser.parse("po").is_none());
    assert!(parser.parse("Pop").is_none());
    assert!(parser.parse("x").is_none());
}

#[test]
fn empty_registry_recognizes_nothing() {
    let parser = ParserAggregator::new();
    assert!(parser.parse("4").is_none());
    assert!(parser.parse("+").is_none());
    assert!(parser.parse("pop").is_none());
}

#[test]
fn registry_composes_as_a_recognizer() {
    // a registry layered into another keeps recognizing its vocabulary
    let inner = arithmetic_module();
    let mut outer = ParserAggregator::new();
    outer.push(inner);
    assert_eq!(
        Integer(12),
        *outer.parse("12").unwrap().downcast().unwrap()
    );
    assert!(outer.parse("pop").unwrap().downcast::<Pop>().is_some());
    assert!(outer.parse("words").is_none());
}
