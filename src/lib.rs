//! An in-memory file entity: a name, a byte buffer and an open/closed state,
//! with transitions that may fail at random to model an unreliable resource.

mod chance;
mod file;

pub use file::{
    close, close_with_fault, open, open_with_fault, File, FileState, FileView, CLOSE_FAILURE_ODDS,
    OPEN_FAILURE_ODDS,
};
