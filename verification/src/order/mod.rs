//! The order lifecycle: types, persisted state, and the Create, Process,
//! Execute and Cancel operations.

pub mod types;

pub mod state;

pub mod create;

pub mod cancel;

pub mod execute;

