pub mod codes;
pub mod command;
pub mod connection;
pub mod display;
pub mod faces;
pub mod hex;
pub mod kanji;
pub mod keys;
pub mod lower;
pub mod native;
pub mod program;
pub mod ranges;
pub mod session;
pub mod text;
