//! Diagnostic logs of the driver, and the errors that carry them.

use crate::shader::ShaderType;
use vstd::prelude::*;
use vstd::utf8::{decode_utf8, valid_utf8};

verus! {

/// Size of the buffer to offer for a log whose length the driver reported as
/// `length`: that length, or nothing where it is negative.
pub open spec fn capacity_for(length: i32) -> i32 {
    if length < 0 {
        0
    } else {
        length
    }
}

/// The text in a log buffer: everything before its last byte, which holds
/// the terminator.
pub open spec fn text_of(buffer: Seq<u8>) -> Seq<u8> {
    if buffer.len() == 0 {
        buffer
    } else {
        buffer.drop_last()
    }
}

/// Computes the size of the buffer to offer for a log of the reported length.
pub fn log_capacity(length: i32) -> (capacity: i32)
    ensures
        capacity == capacity_for(length),
{
    if length < 0 {
        0
    } else {
        length
    }
}

/// Strips the terminator from a log buffer.
pub fn log_text(buffer: Vec<u8>) -> (text: Vec<u8>)
    ensures
        text@ == text_of(buffer@),
{
    let mut text = buffer;
    text.pop();
    text
}

/// `String::from_utf8` of the standard library. Trusted: it accepts exactly
/// the well-formed UTF-8 byte sequences and yields the characters they
/// encode.
#[verifier::external_body]
fn string_from_utf8(bytes: Vec<u8>) -> (text: Option<String>)
    ensures
        text is Some <==> valid_utf8(bytes@),
        text matches Some(s) ==> s@ == decode_utf8(bytes@),
{
    String::from_utf8(bytes).ok()
}

/// How a build ended.
pub enum Verdict {
    /// The driver accepted the work; `handle` names the finished object.
    Built { handle: u32 },
    /// The driver rejected the work, and left this diagnostic.
    Rejected { log: Seq<u8> },
    /// The driver allocated no object to work on.
    Refused,
}

/// Why no object came out of a build.
#[derive(Debug, PartialEq, Eq)]
pub enum BuildError {
    /// The driver rejected the source of a stage; `log` is its diagnostic.
    Compile { stage: ShaderType, log: Vec<u8> },
    /// The driver could not link the stages; `log` is its diagnostic.
    Link { log: Vec<u8> },
    /// The driver did not allocate an object.
    ResourceAcquisition,
}

impl BuildError {
    /// The driver's diagnostic, byte for byte; empty where there is none.
    pub open spec fn log(self) -> Seq<u8> {
        match self {
            BuildError::Compile { log, .. } => log@,
            BuildError::Link { log } => log@,
            BuildError::ResourceAcquisition => Seq::empty(),
        }
    }

    /// The diagnostic as text, where the driver wrote well-formed UTF-8.
    pub fn message(&self) -> (text: Option<String>)
        ensures
            text is Some <==> valid_utf8(self.log()),
            text matches Some(s) ==> s@ == decode_utf8(self.log()),
    {
        match self {
            BuildError::Compile { log, .. } => string_from_utf8(copy_bytes(log)),
            BuildError::Link { log } => string_from_utf8(copy_bytes(log)),
            BuildError::ResourceAcquisition => string_from_utf8(Vec::new()),
        }
    }
}

/// Copies a byte buffer.
fn copy_bytes(bytes: &Vec<u8>) -> (copy: Vec<u8>)
    ensures
        copy@ == bytes@,
{
    let mut copy: Vec<u8> = Vec::new();
    let mut i: usize = 0;
    while i < bytes.len()
        invariant
            i <= bytes.len(),
            copy@ == bytes@.take(i as int),
        decreases bytes.len() - i,
    {
        copy.push(bytes[i]);
        i += 1;
        assert(bytes@.take(i as int) =~= bytes@.take(i - 1).push(bytes@[i - 1]));
    }
    assert(bytes@.take(bytes.len() as int) =~= bytes@);
    copy
}

} // verus!
