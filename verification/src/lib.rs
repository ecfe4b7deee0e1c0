//! A small library around a growable, heap-backed text buffer with
//! single-owner semantics: a buffer is created from fixed text, can grow
//! by appending, can be duplicated into an independent copy, and gives
//! its storage back exactly once — either through an explicit release or
//! when the owning binding's scope ends.

pub mod buffer;
pub mod routine;
