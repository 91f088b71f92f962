//! A CPS-3 arcade board memory model: address map, big-endian memory
//! accesses, the game description table and the debugger's command logic.

pub mod mem_defs;
pub mod common;
pub mod game_info;
pub mod bus;
pub mod mem;
pub mod words;
pub mod debugger;
pub mod cps3;
