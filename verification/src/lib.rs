//! Core model of a dual-mode terminal grid editor.
//!
//! The library holds the verified state and rendering logic: the two-state
//! input mode machine, the bounds-clamped cursor grid, the append/delete
//! command buffer, the pure text renderers for the bordered grid and the
//! input line, and the event-dispatch step function. Terminal I/O (raw mode,
//! key reads, size queries, printing) lives outside the library and feeds it
//! plain values.

pub mod buffer;
pub mod engine;
pub mod grid;
pub mod mode;
pub mod render;
pub mod text;

pub use buffer::CommandBuffer;
pub use engine::Action;
pub use engine::Editor;
pub use engine::KeyCode;
pub use engine::KeyInput;
pub use grid::Direction;
pub use grid::Grid;
pub use mode::InputMode;
