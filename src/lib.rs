//! A register-trigger machine: a one-instruction computer whose only
//! instruction moves a value into a register, and whose arithmetic,
//! comparison, selection, memory and console behaviour are side effects
//! bound to particular register indices.

pub mod memory;
pub mod registers;
pub mod machine;
pub mod laws;
