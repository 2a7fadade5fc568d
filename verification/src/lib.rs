//! A fixed-capacity single-producer/single-consumer queue.
//!
//! The engine is a ring buffer: contiguous storage of `capacity` slots and a
//! pair of monotonically increasing cursors. The occupied region is the
//! logical window `[read_ptr, write_ptr)`, each logical index mapped to the
//! physical slot at that index modulo the capacity. A push writes one slot
//! and advances the write cursor by exactly one; a pop moves one value out
//! and advances the read cursor by exactly one. A full buffer rejects the
//! push and hands the value back; an empty buffer signals emptiness.
//!
//! Every operation is specified against a mathematical model in which the
//! buffer's contents are a sequence, oldest value first; the FIFO, capacity
//! and emptiness guarantees are stated and proved over that model.

mod handles;
mod laws;
mod model;
mod ring;

pub use handles::new_queue;
pub use handles::Consumer;
pub use handles::Producer;
pub use laws::lemma_capacity_bound;
pub use laws::lemma_empty_stability;
pub use laws::lemma_fifo_order;
pub use model::drain_all;
pub use model::push_all;
pub use model::spec_pop_state;
pub use model::spec_pop_value;
pub use model::spec_push;
pub use model::spec_push_rejected;
pub use ring::Buffer;
