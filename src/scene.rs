//! The scene vocabulary a module's `render` returns to the renderer.

use vstd::prelude::*;

verus! {

/// A built-in geometric shape.
#[derive(Clone, Copy, Debug, PartialEq, Eq, Structural)]
pub enum Shape {
    Cube,
    Sphere,
    Cylinder,
}

/// Where a model's data comes from.
#[derive(Clone, Debug)]
pub enum ModelHandle {
    File(String),
}

/// Which meshes of a model an override applies to.
#[derive(Clone, Copy, Debug, PartialEq, Eq, Structural)]
pub enum MeshSelector {
    All,
}

impl MeshSelector {
    /// The selector of every mesh.
    pub fn all() -> (r: MeshSelector)
        ensures
            r == MeshSelector::All,
    {
        MeshSelector::All
    }
}

/// Where a texture's data comes from.
#[derive(Clone, Debug)]
pub enum TextureDescription {
    File(String),
}

/// The animated property of a node.
#[derive(Clone, Copy, Debug, PartialEq, Eq, Structural)]
pub enum AnimationProperty {
    Translation,
    Rotation,
    Scale,
    Weights,
}

/// The scalar type of a vertex attribute.
#[derive(Clone, Copy, Debug, PartialEq, Eq, Structural)]
pub enum VertexAttributeType {
    Float,
}

/// The shader channel a vertex attribute feeds.
#[derive(Clone, Copy, Debug, PartialEq, Eq, Structural)]
pub enum BuiltInVertexChannel {
    Position,
    Uv,
    Normal,
    Binormal,
    Tangent,
    JointIndices,
    JointWeights,
    /// Bound to no built-in channel; free for custom shaders.
    Custom,
}

/// One attribute of a vertex layout: its type, channel, byte offset within
/// the vertex and number of components.
#[derive(Clone, Copy, Debug, PartialEq, Eq, Structural)]
pub struct VertexAttribute {
    pub attribute_type: VertexAttributeType,
    pub attribute_channel: BuiltInVertexChannel,
    pub offset: usize,
    pub size: i32,
}

} // verus!
