//! Errors of BEncode decoding.
use vstd::prelude::*;

use crate::text::{ascii_chars, byte_hex_prefixed, decimal, push_byte_hex_prefixed, push_decimal};

verus! {

/// Errors that can occur during BEncode encoding or decoding.
#[derive(Debug, PartialEq, Eq)]
pub enum BencodeError {
    /// Unexpected end of input while parsing.
    UnexpectedEof,
    /// An invalid byte was encountered at the given position.
    InvalidByte { byte: u8, position: usize },
    /// An integer value was malformed.
    InvalidInteger(String),
    /// A string length prefix was malformed or too large.
    InvalidStringLength(String),
    /// Trailing data after the decoded value.
    TrailingData { remaining: usize },
    /// Dictionary keys were not in sorted order.
    UnsortedKeys,
    /// Nesting depth exceeds the maximum allowed limit.
    NestingTooDeep,
}

/// The mathematical model of a [`BencodeError`].
pub enum DecodeFailure {
    UnexpectedEof,
    InvalidByte(u8, int),
    InvalidInteger(Seq<char>),
    InvalidStringLength(Seq<char>),
    TrailingData(int),
    UnsortedKeys,
    NestingTooDeep,
}

impl View for BencodeError {
    type V = DecodeFailure;

    open spec fn view(&self) -> DecodeFailure {
        match self {
            BencodeError::UnexpectedEof => DecodeFailure::UnexpectedEof,
            BencodeError::InvalidByte { byte, position } => DecodeFailure::InvalidByte(
                *byte,
                *position as int,
            ),
            BencodeError::InvalidInteger(m) => DecodeFailure::InvalidInteger(m@),
            BencodeError::InvalidStringLength(m) => DecodeFailure::InvalidStringLength(m@),
            BencodeError::TrailingData { remaining } => DecodeFailure::TrailingData(
                *remaining as int,
            ),
            BencodeError::UnsortedKeys => DecodeFailure::UnsortedKeys,
            BencodeError::NestingTooDeep => DecodeFailure::NestingTooDeep,
        }
    }
}

impl DecodeFailure {
    /// The human-readable description of the failure.
    pub open spec fn message(self) -> Seq<char> {
        match self {
            DecodeFailure::UnexpectedEof => "unexpected end of input"@,
            DecodeFailure::InvalidByte(b, p) => "invalid byte "@ + byte_hex_prefixed(b)
                + " at position "@ + ascii_chars(decimal(p as nat)),
            DecodeFailure::InvalidInteger(m) => "invalid integer: "@ + m,
            DecodeFailure::InvalidStringLength(m) => "invalid string length: "@ + m,
            DecodeFailure::TrailingData(n) => "trailing data: "@ + ascii_chars(decimal(n as nat))
                + " bytes after decoded value"@,
            DecodeFailure::UnsortedKeys => "dictionary keys are not in sorted order"@,
            DecodeFailure::NestingTooDeep => "nesting depth exceeds maximum of 128"@,
        }
    }
}

impl BencodeError {
    /// The human-readable description of the error.
    pub fn message(&self) -> (r: String)
        ensures
            r@ == self@.message(),
    {
        match self {
            BencodeError::UnexpectedEof => String::from_str("unexpected end of input"),
            BencodeError::InvalidByte { byte, position } => {
                let mut s = String::from_str("invalid byte ");
                push_byte_hex_prefixed(&mut s, *byte);
                s.append(" at position ");
                push_decimal(&mut s, *position as u64);
                s
            },
            BencodeError::InvalidInteger(m) => String::from_str("invalid integer: ").concat(
                m.as_str(),
            ),
            BencodeError::InvalidStringLength(m) => String::from_str(
                "invalid string length: ",
            ).concat(m.as_str()),
            BencodeError::TrailingData { remaining } => {
                let mut s = String::from_str("trailing data: ");
                push_decimal(&mut s, *remaining as u64);
                s.append(" bytes after decoded value");
                s
            },
            BencodeError::UnsortedKeys => String::from_str("dictionary keys are not in sorted order"),
            BencodeError::NestingTooDeep => String::from_str("nesting depth exceeds maximum of 128"),
        }
    }
}

} // verus!
