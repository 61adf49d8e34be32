//! What holds of the runtime as a whole, over all states and whatever happens in between.
pub mod io;
pub mod steps;
pub mod tasks;
