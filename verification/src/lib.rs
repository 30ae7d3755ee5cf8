//! A minimal postfix ("stack") expression evaluator.
//!
//! Words of a program are recognized one at a time by a registry of
//! recognizers ([`arithmetic::ParserAggregator`]) and pushed onto a
//! [`machine::Stack`]; pushing evaluates immediately, so feeding the words of
//! a postfix program in order executes it.

pub mod arithmetic;
pub mod machine;
