//! A user-space out-of-memory killer core: victim selection over a snapshot
//! of the process table, a signal-escalation protocol, and the error mapping
//! for the raw OS calls that the surrounding daemon makes.

pub mod error;
pub mod kill;
pub mod mem_info;
pub mod mem_lock;
pub mod process;
pub mod scan;
