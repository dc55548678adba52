//! Decoding of ITA2, the five-bit teleprinter code of the Baudot family.
//!
//! ITA2 packs two banks of thirty-two characters into five bits. Two of the
//! codes print nothing: they select the bank, letters or figures, that the
//! codes after them are read in. [`decode`] walks a buffer of such codes once,
//! from the front, and hands back the text together with the bank that was
//! selected when the buffer ran out, so that the next buffer of the same
//! stream can be decoded from where this one stopped.
//!
//! What `decode` returns is stated over [`decoder::decoding`], a fold of
//! [`decoder::step`] over the buffer. The module [`laws`] proves what follows
//! from that definition: what a single code does, and that a stream may be cut
//! anywhere and decoded piece by piece.

pub mod decoder;
pub mod laws;
pub mod shift;
pub mod table;
pub mod text;

pub use decoder::decode;
pub use shift::ShiftState;
