//! Low-level primitives that state their unsafe-looking contracts as
//! verified preconditions: an aliasing guard over addressed memory, a
//! single-owner container whose cell is reached through plain addresses, and
//! assumptions that callers must discharge.

pub mod assumptions;
pub mod pointers;
pub mod shared_box;
