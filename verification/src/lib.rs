//! A reversible execution engine for a tape-based, instruction-pointer-driven
//! language. The engine owns a growable byte tape, a tape cursor, a program
//! counter over a fixed instruction sequence, and a history stack that makes
//! every executed step exactly undoable.

pub mod engine;
pub mod instruction;
pub mod laws;
pub mod state;
