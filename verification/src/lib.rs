//! Composable text-rendering combinators with verified output contracts.
//!
//! Every renderer writes its text through a [`sink::Sink`], a sequential
//! character sink with a capacity bound; the contracts state exactly which
//! characters reach the sink and when a write is refused.

use vstd::prelude::*;

pub mod adapters;
pub mod adhoc;
pub mod adhoc2;
pub mod color;
pub mod count;
pub mod count_bytes;
pub mod count_chars;
pub mod custom;
pub mod display_padded;
pub mod either;
pub mod hex;
pub mod hexiter;
pub mod hexslice;
pub mod iter;
pub mod map;
pub mod num;
pub mod joined;
pub mod joined2;
pub mod logic;
pub mod pad;
pub mod producer;
pub mod render;
pub mod replace;
pub mod sink;
pub mod slice;
pub mod style;
pub mod text;
pub mod textspec;
pub mod utils;

verus! {

/// Horizontal placement of the fill characters used by the padding
/// renderers: `Left` puts the fill before the content, `Right` after it.
#[derive(Copy, Clone)]
pub enum Align {
    Left,
    Right,
}

} // verus!
