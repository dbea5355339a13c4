//! A generalized N-by-N tic-tac-toe engine with a verified core: board state,
//! move legality, win/draw detection, turn sequencing, text rendering of the
//! grid, and the pure computations behind a terminal front-end (screen-region
//! layout, cell/terminal coordinate mapping, and input-event resolution).

pub mod coord;
pub mod numfmt;
pub mod ricracroe;
pub mod settings;
pub mod terminal;
