//! The lexer of the intermediate language.

pub mod lexer;
pub mod patterns;
pub mod regex_support;
pub mod tok;
