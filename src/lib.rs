//! Streaming note renderer core: packs note records for upload, keeps the
//! per-key position table, alternates between two note buffers and decides,
//! pass by pass, how a frame of an unbounded note stream is drawn into
//! fixed-capacity buffers.
use vstd::prelude::*;

pub mod buffer_set;
pub mod frame_model;
pub mod key_table;
pub mod note_vertex;
pub mod render_pass;

verus! {

} // verus!
