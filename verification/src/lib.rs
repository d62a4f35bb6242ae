//! Compact, sortable 64-bit identifiers ("stamps") that pack a generation
//! tag, a high-resolution monotonic timestamp, and a reserved counter field
//! into one unsigned integer, together with the monotonic time source
//! abstraction that feeds the packer.

pub mod clock;
pub mod layout;

pub use clock::inst_from_clock_result;
pub use clock::inst_from_reading;
pub use clock::AtomicClock;
pub use clock::Error;
pub use clock::MonotonicClock;
pub use clock::TimeSource;
pub use layout::lemma_field_isolation;
pub use layout::lemma_field_widths_fill_stamp;
pub use layout::lemma_layout_constants;
pub use layout::lemma_stamp_deterministic;
pub use layout::lemma_stamp_monotonic;
pub use layout::lemma_tick_granularity;
pub use layout::stamp_time;
pub use layout::Inst;
pub use layout::Stamp;
pub use layout::COUNTER_BITS;
pub use layout::CURRENT_GENERATION;
pub use layout::GENERATION_BITS;
pub use layout::GENERATION_IN_POSITION;
pub use layout::SECOND_EPOCH;
pub use layout::SEC_IN_NANOS;
pub use layout::TIME_BITS;
pub use layout::TIME_MASK;
pub use layout::TIME_SHIFT_BITS;
