use vstd::prelude::*;

verus! {

/// The default style: every component drawn with plain ASCII characters.
pub const ASCII_FULL: &'static str = "||--+==+|-+||++++++";

} // verus!
