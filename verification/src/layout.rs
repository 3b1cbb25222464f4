//! Vertex attribute layout: how one attribute's components sit inside a
//! tightly packed vertex buffer.

use vstd::prelude::*;

verus! {

use crate::FLOAT_BYTES;

/// Description of a single vertex attribute as handed to the driver:
/// which slot it occupies, how many components it has, how wide one
/// component is, whether the driver should normalize it, the distance in
/// bytes between consecutive vertices, and the offset of the attribute's
/// first byte inside a vertex.
pub struct AttributeLayout {
    /// Attribute slot (shader-side location) the data binds to.
    pub location: u32,
    /// Number of components per vertex (a 3-D position has 3).
    pub components: u32,
    /// Size in bytes of one component.
    pub component_size: u32,
    /// Whether fixed-point data is normalized when fetched.
    pub normalized: bool,
    /// Byte distance from one vertex's data to the next.
    pub stride: u32,
    /// Byte offset of this attribute inside one vertex.
    pub offset: u32,
}

impl AttributeLayout {
    /// A layout is tightly packed when the stride is exactly the bytes
    /// of its own components and the attribute starts at the vertex's
    /// first byte.
    pub open spec fn tightly_packed(self) -> bool {
        &&& self.stride == self.components * self.component_size
        &&& self.offset == 0
    }
}

/// Stride of a tightly packed vertex holding one attribute of
/// `components` components, each `component_size` bytes wide.
pub fn packed_stride(components: u32, component_size: u32) -> (r: u32)
    requires
        components * component_size <= u32::MAX,
    ensures
        r == components * component_size,
{
    components * component_size
}

/// The one attribute layout of the bootstrap mesh: position, three
/// single-precision float components, not normalized, tightly packed in
/// slot zero.
pub fn position_layout() -> (r: AttributeLayout)
    ensures
        r.location == 0,
        r.components == 3,
        r.component_size == FLOAT_BYTES,
        !r.normalized,
        r.tightly_packed(),
        r.stride == 3 * FLOAT_BYTES,
        r.offset == 0,
{
    let stride = packed_stride(3, FLOAT_BYTES);
    AttributeLayout {
        location: 0,
        components: 3,
        component_size: FLOAT_BYTES,
        normalized: false,
        stride,
        offset: 0,
    }
}

} // verus!
