//! Event marshalling layer for a callback-driven market-data feed.
//!
//! The native feed library delivers each event as a numeric tag, a
//! wide-character symbol and a tag-dependent record, all valid only for the
//! duration of one callback. This crate owns the logic of that boundary: a
//! registry mapping tags to event kinds, a converter that turns a typed view
//! of the raw record into a fully owned payload, and an envelope pairing the
//! decoded symbol with the payload. Raw wide-character data arrives as plain
//! UTF-32 code units; fields the native records declare as 64-bit floating
//! point are carried as their IEEE-754 bit patterns so that values pass
//! through unchanged.

pub mod error;
pub mod events;
pub mod kinds;
pub mod records;
pub mod text;

pub use error::Error;
pub use events::Event;
pub use events::EventData;
pub use events::RawEventData;
pub use kinds::EventType;
pub use records::ConfigurationData;
pub use records::OrderEventData;
pub use records::ProfileEventData;
pub use records::SpreadOrderData;
pub use records::TimeAndSaleData;

use vstd::prelude::*;

verus! {

/// Sum of two sizes.
pub fn add(left: usize, right: usize) -> (r: usize)
    requires
        left + right <= usize::MAX,
    ensures
        r == left + right,
{
    left + right
}

} // verus!
