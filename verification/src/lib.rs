//! The logic of a set of small windowed and console programs: FizzBuzz, a
//! random-access file session, a CPU-rendered canvas, and the event handling
//! of windows drawn with vello, parley, masonry and xilem.
use vstd::prelude::*;

pub mod button_actions;
pub mod canvas;
pub mod cpu_window;
pub mod events;
pub mod fizzbuzz;
pub mod gpu_window;
pub mod greeting;
pub mod random_access;
pub mod text_window;

verus! {

} // verus!
