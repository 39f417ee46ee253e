//! A verified boundary layer for the BlingFire tokenization engine.
//!
//! The engine itself is a native library that is reached through three C
//! functions: one loads a model, one converts text to token ids, one frees
//! the model. This crate holds everything around those three calls that can
//! be decided without making them: how text becomes the bytes and lengths the
//! engine expects, how large the output buffer is, what counts as a failure,
//! and in which order a model handle may be used. The caller makes the native
//! call itself and hands the answer back.
//!
//! Every operation is split in two. A function named like the operation
//! (`load_model`, `text_to_ids`, `free_model`) prepares a call value that
//! holds the exact arguments for the native function; `complete` on that
//! value turns the engine's answer into the operation's result.
//!
//! A handle can be shared between threads, and any number of conversions may
//! run on it at once. This rests on the engine only reading a loaded model
//! while it converts: an assumption about the engine, which nothing in this
//! crate can prove.

pub mod capacity;
pub mod errors;
pub mod marshal;
pub mod model;
pub mod tokenize;

pub use crate::capacity::{CapacityPolicy, DEFAULT_CEILING};
pub use crate::errors::Error;
pub use crate::marshal::{is_native_text, saturate, to_native_bytes, NATIVE_INT_MAX};
pub use crate::model::{free_model, load_model, FreeCall, LoadCall, Model, ModelWrapper, FREE_SUCCESS};
pub use crate::tokenize::{
    text_to_ids, text_to_ids_with, texts_to_ids, texts_to_ids_with, ConvertCall, Tokenization,
    ALGORITHM_SELECTOR,
};
