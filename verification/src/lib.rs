//! Guest-side runtime for a single-threaded, RISC-V-style blockchain script VM.
//!
//! The library is organised around the contract between a guest program and
//! the host VM:
//!
//! * [`error`] defines the typed error set and the decoding of raw syscall
//!   return codes;
//! * [`ckb_constants`] holds the wire-level syscall numbers and request tags;
//! * [`syscalls`] defines the marshaling layer: a backend trait plus the
//!   typed wrappers that decode each raw result exactly;
//! * [`high_level`] builds the partial-read loaders on top of the wrappers;
//! * [`scheduler`] is a verified model of the host's cooperative process
//!   scheduler, pipes included, against which the inter-process contract is
//!   proved;
//! * [`since`] implements the packed time-lock values and epoch fractions;
//! * [`dynamic_loading`] checks the preconditions of the dynamic symbol
//!   loader and the chaining of several images into one window;
//! * [`type_id`] validates type-id scripts;
//! * [`mem_host`] is an in-memory backend for tests and simulations;
//! * [`bitmap_alloc`] and [`block_list_alloc`] are fixed-arena allocators;
//! * [`arith`] holds the divisibility groundwork of the epoch arithmetic,
//!   and [`asserts`] the checked unwrappers.

pub mod arith;
pub mod asserts;
pub mod bitmap_alloc;
pub mod block_list_alloc;
pub mod ckb_constants;
pub mod dynamic_loading;
pub mod error;
pub mod high_level;
pub mod mem_host;
pub mod scheduler;
pub mod since;
pub mod syscalls;
pub mod type_id;
