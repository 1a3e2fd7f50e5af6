//! Ownership-preserving I/O over interchangeable backends: an in-memory
//! file, a type-erased file adapter, and a remote object-store file whose
//! request planning and response interpretation are verified.
pub mod buf;
pub mod dynamic;
pub mod error;
pub mod mem;
pub mod s3;
pub mod wire;
