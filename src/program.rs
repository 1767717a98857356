use vstd::prelude::*;

verus! {

/// The one-shot bundle a program hands to the renderer at construction:
/// initial mesh data, shader bytecode as SPIR-V words, and texture bytes.
#[derive(Debug, Clone)]
pub struct ProgramInitialization<'a, V> {
    pub vertices: &'a Vec<V>,
    pub indices: &'a Vec<u32>,
    pub vertex_shader: Vec<u32>,
    pub fragment_shader: Vec<u32>,
    pub image_buf: Vec<u8>,
    pub image_height: u32,
    pub image_width: u32,
}

} // verus!
