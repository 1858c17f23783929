//! The outputs of calls that bring back more than one value.

use vstd::prelude::*;

verus! {

/// Two texts.
#[derive(Debug)]
pub struct StringString {
    pub i0: String,
    pub i1: String,
}

/// A text, and a second one that may be absent.
#[derive(Debug)]
pub struct StringOptString {
    pub i0: String,
    pub i1: Option<String>,
}

/// A text and a byte buffer.
#[derive(Debug)]
pub struct StringVecU8 {
    pub i0: String,
    pub i1: Vec<u8>,
}

/// Two texts and a number.
#[derive(Debug)]
pub struct StringStringU64 {
    pub i0: String,
    pub i1: String,
    pub i2: u64,
}

/// Three texts.
#[derive(Debug)]
pub struct StringStringString {
    pub i0: String,
    pub i1: String,
    pub i2: String,
}

/// A text, and two more that may be absent.
#[derive(Debug)]
pub struct StringStringString122 {
    pub i0: String,
    pub i1: Option<String>,
    pub i2: Option<String>,
}

/// The handle of a search and the number of items it found.
#[derive(Debug)]
pub struct SearchHandleAndLength {
    pub i0: i32,
    pub i1: u64,
}

} // verus!
