use stack_calculator::arithmetic::{Addition, Division, Integer, Multiplication, Pop, Substraction};
use stack_calculator::machine::{Error, Stack, Token, Value};

#[test]
fn pop_on_empty_stack_fails() {
    let mut s = Stack::new();
    assert!(matches!(s.pop(), Err(Error::NotEnoughValues)));
    // still empty, still failing
    assert!(matches!(s.pop(), Err(Error::NotEnoughValues)));
}

#[test]
fn pop_returns_last_pushed() {
    let mut s = Stack::new();
    s.push(Token::new(Integer(1))).unwrap();
    s.push(Token::new(Integer(2))).unwrap();
    assert_eq!(Integer(2), *s.pop().unwrap().downcast().unwrap());
    assert_eq!(Integer(1), *s.pop().unwrap().downcast().unwrap());
    assert!(matches!(s.pop(), Err(Error::NotEnoughValues)));
}

#[test]
fn operator_on_empty_stack_underflows() {
    let mut s = Stack::new();
    assert!(matches!(s.push(Token::new(Addition)), Err(Error::NotEnoughValues)));
    // nothing was there to pop, so the stack is still empty
    assert!(matches!(s.pop(), Err(Error::NotEnoughValues)));
}

#[test]
fn operator_on_single_operand_underflows_and_keeps_the_pop() {
    let mut s = Stack::new();
    s.push(Token::new(Integer(7))).unwrap();
    assert!(matches!(s.push(Token::new(Addition)), Err(Error::NotEnoughValues)));
    // the one operand was already popped before the shortfall was found
    assert!(matches!(s.pop(), Err(Error::NotEnoughValues)));
}

#[test]
fn pop_operator_discards_top() {
    let mut s = Stack::new();
    s.push(Token::new(Integer(3))).unwrap();
    s.push(Token::new(Integer(4))).unwrap();
    s.push(Token::new(Pop)).unwrap();
    assert_eq!(Integer(3), *s.pop().unwrap().downcast().unwrap());
}

#[test]
fn pop_operator_on_empty_stack_fails() {
    let mut s = Stack::new();
    assert!(matches!(s.push(Token::new(Pop)), Err(Error::NotEnoughValues)));
}

#[test]
fn downcast_to_wrong_kind_fails() {
    let t = Token::new(Integer(4));
    assert!(t.downcast::<Addition>().is_none());
    let t = Token::new(Addition);
    assert!(t.downcast::<Integer>().is_none());
    let t = Token::new(Multiplication);
    assert!(t.downcast::<Division>().is_none());
    let t = Token::new(Pop);
    assert!(t.downcast::<Substraction>().is_none());
}

#[test]
fn downcast_to_right_kind_returns_equal_value() {
    assert_eq!(Integer(41), *Token::new(Integer(41)).downcast().unwrap());
    assert_eq!(Addition, *Token::new(Addition).downcast().unwrap());
    assert_eq!(Substraction, *Token::new(Substraction).downcast().unwrap());
    assert_eq!(Multiplication, *Token::new(Multiplication).downcast().unwrap());
    assert_eq!(Division, *Token::new(Division).downcast().unwrap());
    assert_eq!(Pop, *Token::new(Pop).downcast().unwrap());
}

#[test]
fn downcast_ref_does_not_consume() {
    let t = Token::new(Integer(11));
    assert!(t.downcast_ref::<Division>().is_none());
    assert_eq!(Some(Integer(11)), t.downcast_ref::<Integer>());
    // the token is still usable afterwards
    assert_eq!(Integer(11), *t.downcast().unwrap());
}

#[test]
fn plain_operand_signals_not_callable() {
    let mut s = Stack::new();
    let r = Integer(5).apply(&mut s);
    match r {
        Err(Error::NotCallable { token }) => {
            assert_eq!(Integer(5), *token.downcast().unwrap());
        }
        _ => panic!("an operand must signal NotCallable"),
    }
    // the signal performed no modification
    assert!(matches!(s.pop(), Err(Error::NotEnoughValues)));
}

#[test]
fn token_apply_hands_the_token_back() {
    let mut s = Stack::new();
    let r = Token::new(Integer(8)).apply(&mut s);
    match r {
        Err(Error::NotCallable { token }) => {
            assert_eq!(Integer(8), *token.downcast().unwrap());
        }
        _ => panic!("an operand token must signal NotCallable"),
    }
}

#[test]
fn division_by_zero_is_reported() {
    let mut s = Stack::new();
    s.push(Token::new(Integer(8))).unwrap();
    s.push(Token::new(Integer(0))).unwrap();
    assert!(matches!(s.push(Token::new(Division)), Err(Error::DivisionByZero)));
    // both operands were consumed, no rollback
    assert!(matches!(s.pop(), Err(Error::NotEnoughValues)));
}

#[test]
fn addition_overflow_is_reported() {
    let mut s = Stack::new();
    s.push(Token::new(Integer(i64::MAX))).unwrap();
    s.push(Token::new(Integer(1))).unwrap();
    assert!(matches!(s.push(Token::new(Addition)), Err(Error::Overflow)));
}

#[test]
fn division_overflow_is_reported() {
    let mut s = Stack::new();
    s.push(Token::new(Integer(i64::MIN))).unwrap();
    s.push(Token::new(Integer(-1))).unwrap();
    assert!(matches!(s.push(Token::new(Division)), Err(Error::Overflow)));
}

#[test]
fn division_truncates_toward_zero() {
    let mut s = Stack::new();
    s.push(Token::new(Integer(-7))).unwrap();
    s.push(Token::new(Integer(2))).unwrap();
    s.push(Token::new(Division)).unwrap();
    assert_eq!(Integer(-3), *s.pop().unwrap().downcast().unwrap());
}

#[test]
fn token_render_forms() {
    assert_eq!("0", Token::new(Integer(0)).render());
    assert_eq!("42", Token::new(Integer(42)).render());
    assert_eq!("-42", Token::new(Integer(-42)).render());
    assert_eq!("9223372036854775807", Token::new(Integer(i64::MAX)).render());
    assert_eq!("-9223372036854775808", Token::new(Integer(i64::MIN)).render());
    assert_eq!("+", Token::new(Addition).render());
    assert_eq!("-", Token::new(Substraction).render());
    assert_eq!("*", Token::new(Multiplication).render());
    assert_eq!("/", Token::new(Division).render());
    assert_eq!("", Token::new(Pop).render());
}

#[test]
fn stack_render_is_bottom_first_with_trailing_spaces() {
    let mut s = Stack::new();
    assert_eq!("", s.render());
    s.push(Token::new(Integer(4))).unwrap();
    s.push(Token::new(Integer(-5))).unwrap();
    s.push(Token::new(Integer(100))).unwrap();
    assert_eq!("4 -5 100 ", s.render());
}
