use stack_calculator::arithmetic::{Addition, Division, Integer, Multiplication, Substraction};
use stack_calculator::machine::{Stack, Token};

#[test]
fn lib_simple_addition() {
    let mut s = Stack::new();
    s.push(Token::new(Integer(4))).unwrap();
    s.push(Token::new(Integer(5))).unwrap();
    s.push(Token::new(Addition)).unwrap();
    assert_eq!(Integer(9), *s.pop().unwrap().downcast().unwrap());
}

#[test]
fn lib_simple_multiplication() {
    let mut s = Stack::new();
    s.push(Token::new(Integer(4))).unwrap();
    s.push(Token::new(Integer(5))).unwrap();
    s.push(Token::new(Multiplication)).unwrap();
    assert_eq!(Integer(20), *s.pop().unwrap().downcast().unwrap());
}

#[test]
fn lib_simple_substraction() {
    let mut s = Stack::new();
    s.push(Token::new(Integer(4))).unwrap();
    s.push(Token::new(Integer(5))).unwrap();
    s.push(Token::new(Substraction)).unwrap();
    assert_eq!(Integer(-1), *s.pop().unwrap().downcast().unwrap());
}

#[test]
fn lib_simple_division() {
    let mut s = Stack::new();
    s.push(Token::new(Integer(20))).unwrap();
    s.push(Token::new(Integer(5))).unwrap();
    s.push(Token::new(Division)).unwrap();
    assert_eq!(Integer(4), *s.pop().unwrap().downcast().unwrap());
}
