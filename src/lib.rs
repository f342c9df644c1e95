//! Logic of a two-button GPIO light controller: press-and-release detection
//! on pulled-up inputs, write-on-change output lines, round-robin mode
//! selectors and a flash timer. The hardware access itself is left to the
//! program that drives these types.
pub mod button;
pub mod control;
pub mod flash;
pub mod laws;
pub mod led;
pub mod mode;
