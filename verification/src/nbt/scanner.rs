//! Scanner callbacks for streaming traversal of binary tag data.

use super::NbtType;
use vstd::prelude::*;

verus! {

/// What a scanner asks the traversal to do next.
#[derive(Clone, Copy, Debug, PartialEq, Eq, Structural)]
pub enum ScannerResult {
    /// Keep descending into the value.
    Continue,
    /// Stop visiting this value but keep going.
    Break,
    /// Stop and skip the remaining input of this value.
    Halt,
}

/// A callback object that a binary tag traversal feeds values to, one
/// visit per scalar. String payloads are handed over as raw bytes;
/// floating-point payloads as their IEEE 754 bit patterns.
pub trait NbtScanner {
    /// Called before a value of the given type is visited.
    fn start(&mut self, kind: NbtType) -> ScannerResult;

    /// Visit a string payload, as raw bytes.
    fn visit_string(&mut self, value: &[u8]) -> ScannerResult;

    /// Visit a byte.
    fn visit_u8(&mut self, value: u8) -> ScannerResult;

    /// Visit a 16-bit integer.
    fn visit_i16(&mut self, value: i16) -> ScannerResult;

    /// Visit a 32-bit integer.
    fn visit_i32(&mut self, value: i32) -> ScannerResult;

    /// Visit a 64-bit integer.
    fn visit_i64(&mut self, value: i64) -> ScannerResult;

    /// Visit a 32-bit float, as its bit pattern.
    fn visit_f32_bits(&mut self, bits: u32) -> ScannerResult;

    /// Visit a 64-bit float, as its bit pattern.
    fn visit_f64_bits(&mut self, bits: u64) -> ScannerResult;
}

} // verus!
