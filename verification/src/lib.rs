//! A safety layer over the tagged machine-word value representation of a
//! foreign, garbage-collected, dynamically-typed runtime.
//!
//! Every runtime object is handed around as one machine word. Some bit
//! patterns encode a value directly in the word ("immediate" values:
//! booleans, nil, small integers, reduced-precision floats, static symbols
//! and an internal undefined sentinel); all other words are tagged pointers
//! into collector-managed heap memory. This crate provides
//!
//! * the bit-level tag decoder that classifies a word,
//! * one narrowed wrapper type per immediate kind, each a refinement of the
//!   generic [`value::Value`] handle,
//! * an explicit model of the runtime state ([`runtime::Runtime`]) — heap
//!   objects with class, kind and frozen flag, interned symbols, and
//!   per-class method tables — against which the header-reading and
//!   dispatching operations are specified and verified,
//! * the conversion network that maps handles to host-native numeric and
//!   boolean types, rejecting out-of-range and wrongly-typed values, and
//! * the boundary-crossing primitive that turns a call outcome that may be
//!   a non-local exit into an ordinary success/failure result.

pub mod word;
pub mod error;
pub mod runtime;
pub mod value;
pub mod special;
pub mod fixnum;
pub mod symbol;
pub mod flonum;
pub mod rstring;
pub mod try_convert;
