//! Ownership-checked model of a CoreVideo binding layer.
//!
//! CoreVideo hands out opaque, reference-counted objects under three
//! acquisition conventions (create, get, copy). This crate states that
//! discipline precisely and verifies the decision logic of each binding:
//! how raw foreign replies (pointers, status codes, booleans, filled
//! output slots) are turned into safe values, and how every wrap, clone
//! and drop moves the foreign reference count.

pub mod attributes;
pub mod cv_return;
pub mod foreign;
pub mod metal_texture;
pub mod opengl_buffer;
pub mod opengl_buffer_pool;
