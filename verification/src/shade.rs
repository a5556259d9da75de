//! Shader interface values consumed by the device layer: the shader pipeline
//! itself lives outside this core and is reached only through these types.

use vstd::prelude::*;

verus! {

/// Which shader model the device supports.
#[derive(Clone, Copy, PartialEq, Eq, Debug)]
pub enum ShaderModel {
    /// No shader support at all.
    Unsupported,
    /// Shader model 3.0.
    Version30,
    /// Shader model 4.0.
    Version40,
    /// Shader model 4.1.
    Version41,
    /// Shader model 5.0.
    Version50,
}

/// A shader pipeline stage.
#[derive(Clone, Copy, PartialEq, Eq, Debug)]
pub enum Stage {
    /// Per-vertex processing.
    Vertex,
    /// Per-primitive processing.
    Geometry,
    /// Per-fragment processing.
    Fragment,
}

/// Why creating a shader failed.
#[derive(Clone, Copy, PartialEq, Eq, Debug)]
pub enum CreateShaderError {
    /// The device does not support the required shader model.
    ModelNotSupported,
    /// The device does not support the requested stage.
    StageNotSupported,
    /// The backend rejected the shader source.
    CompilationFailed,
}

} // verus!
