//! Small applications' core logic, each stated and proved: the keyboard-driven
//! star of an orbital scene, a client list, a shawarma order form, bitwise
//! operations, a word counter, a text hasher and a party roster.

pub mod motion;
pub mod shaurma;
pub mod text;
pub mod client;
pub mod ops;
pub mod wordcount;
pub mod hasher;
pub mod party;
