//! The fixed geometry and the GPU buffer layouts.
//!
//! Every particle is drawn as the same unit quad (two triangles, six
//! vertices) centered at the origin; the instanced draw varies only the
//! per-instance position and color. The byte layouts here are what the
//! pipeline's two vertex input streams must match: stream 0 steps per
//! vertex over the quad corners, stream 1 steps per instance over the
//! particle records.

use vstd::prelude::*;
use crate::particle::{ParticleInstance, Vec2M};

verus! {

/// Shader input slot of the per-vertex quad corner position.
pub const LOC_VERTEX_POSITION: u32 = 0;

/// Shader input slot of the per-instance particle position.
pub const LOC_INSTANCE_POSITION: u32 = 1;

/// Shader input slot of the per-instance particle color.
pub const LOC_INSTANCE_COLOR: u32 = 2;

/// Bytes per quad-corner record: one 2-component single-precision vector.
pub const VERTEX_STRIDE: u64 = 8;

/// Bytes per particle instance record: a 2-component position followed by
/// a 4-component color, single precision.
pub const INSTANCE_STRIDE: u64 = 24;

/// Byte offset of the color inside an instance record.
pub const INSTANCE_COLOR_OFFSET: u64 = 8;

/// Vertices in the quad mesh: two triangles.
pub const QUAD_VERTEX_COUNT: u32 = 6;

/// Half the quad's extent in milli-units: corners lie at (+-500, +-500),
/// a unit square centered at the origin.
pub const QUAD_HALF: i64 = 500;

/// One corner of the quad mesh, in milli-units.
#[derive(Clone, Copy, Debug, PartialEq, Eq, Structural)]
pub struct Vertex {
    pub position: Vec2M,
}

/// One attribute of a vertex-buffer layout: where it starts inside a
/// record, which shader input slot it feeds, and how many single-precision
/// components it has.
#[derive(Clone, Copy, Debug, PartialEq, Eq, Structural)]
pub struct AttributeDesc {
    pub offset: u64,
    pub shader_location: u32,
    pub components: u32,
}

/// A vertex-buffer layout: the byte stride between records, whether the
/// stream advances per vertex or per instance, and its attributes.
#[derive(Debug, PartialEq, Eq)]
pub struct BufferLayoutDesc {
    pub array_stride: u64,
    pub per_instance: bool,
    pub attributes: Vec<AttributeDesc>,
}

impl Vertex {
    /// The layout of the quad-corner stream: 8-byte records advancing per
    /// vertex, one 2-component attribute at slot 0.
    pub fn desc() -> (r: BufferLayoutDesc)
        ensures
            r.array_stride == VERTEX_STRIDE,
            !r.per_instance,
            r.attributes@.len() == 1,
            r.attributes@[0] == (AttributeDesc {
                offset: 0,
                shader_location: LOC_VERTEX_POSITION,
                components: 2,
            }),
    {
        let mut attributes: Vec<AttributeDesc> = Vec::new();
        attributes.push(
            AttributeDesc { offset: 0, shader_location: LOC_VERTEX_POSITION, components: 2 },
        );
        BufferLayoutDesc { array_stride: VERTEX_STRIDE, per_instance: false, attributes }
    }
}

impl ParticleInstance {
    /// The layout of the particle-instance stream: 24-byte records
    /// advancing per instance, a 2-component position at slot 1 and a
    /// 4-component color at slot 2, matching the instance record's fields
    /// in order.
    pub fn desc() -> (r: BufferLayoutDesc)
        ensures
            r.array_stride == INSTANCE_STRIDE,
            r.per_instance,
            r.attributes@.len() == 2,
            r.attributes@[0] == (AttributeDesc {
                offset: 0,
                shader_location: LOC_INSTANCE_POSITION,
                components: 2,
            }),
            r.attributes@[1] == (AttributeDesc {
                offset: INSTANCE_COLOR_OFFSET,
                shader_location: LOC_INSTANCE_COLOR,
                components: 4,
            }),
    {
        let mut attributes: Vec<AttributeDesc> = Vec::new();
        attributes.push(
            AttributeDesc { offset: 0, shader_location: LOC_INSTANCE_POSITION, components: 2 },
        );
        attributes.push(
            AttributeDesc {
                offset: INSTANCE_COLOR_OFFSET,
                shader_location: LOC_INSTANCE_COLOR,
                components: 4,
            },
        );
        BufferLayoutDesc { array_stride: INSTANCE_STRIDE, per_instance: true, attributes }
    }
}

/// The corner a given quad vertex has: two counter-clockwise triangles
/// covering the unit square, sharing the diagonal from the lower-left to
/// the upper-right corner.
pub open spec fn quad_corner(i: int) -> Vec2M {
    if i == 0 {
        Vec2M { x: (-QUAD_HALF) as i64, y: (-QUAD_HALF) as i64 }
    } else if i == 1 {
        Vec2M { x: QUAD_HALF, y: (-QUAD_HALF) as i64 }
    } else if i == 2 {
        Vec2M { x: QUAD_HALF, y: QUAD_HALF }
    } else if i == 3 {
        Vec2M { x: (-QUAD_HALF) as i64, y: QUAD_HALF }
    } else if i == 4 {
        Vec2M { x: (-QUAD_HALF) as i64, y: (-QUAD_HALF) as i64 }
    } else {
        Vec2M { x: QUAD_HALF, y: QUAD_HALF }
    }
}

/// The quad mesh shared by every instance: six corners, two triangles.
pub fn quad_vertices() -> (r: Vec<Vertex>)
    ensures
        r@.len() == QUAD_VERTEX_COUNT,
        forall|i: int| 0 <= i < 6 ==> (#[trigger] r@[i]).position == quad_corner(i),
{
    let mut r: Vec<Vertex> = Vec::new();
    r.push(Vertex { position: Vec2M { x: -QUAD_HALF, y: -QUAD_HALF } });
    r.push(Vertex { position: Vec2M { x: QUAD_HALF, y: -QUAD_HALF } });
    r.push(Vertex { position: Vec2M { x: QUAD_HALF, y: QUAD_HALF } });
    r.push(Vertex { position: Vec2M { x: -QUAD_HALF, y: QUAD_HALF } });
    r.push(Vertex { position: Vec2M { x: -QUAD_HALF, y: -QUAD_HALF } });
    r.push(Vertex { position: Vec2M { x: QUAD_HALF, y: QUAD_HALF } });
    r
}

/// The fixed-function state every pipeline of this system is built with,
/// independent of the surface format and dimensions it is parameterized by.
#[derive(Clone, Copy, Debug, PartialEq, Eq, Structural)]
pub struct PipelineSettings {
    /// Samples per pixel.
    pub sample_count: u32,
    /// Whether back faces are culled.
    pub cull_back_faces: bool,
    /// Whether blending replaces the destination outright (straight,
    /// non-premultiplied alpha) rather than mixing with it.
    pub blend_replace: bool,
    /// Whether a depth/stencil attachment is used.
    pub has_depth_stencil: bool,
    /// How many color attachments the fragment stage writes.
    pub color_targets: u32,
}

/// The fixed-function state of the render pipeline: triangle-list geometry
/// drawn single-sampled into one color attachment, back faces culled,
/// blending a plain replace, no depth or stencil. Only the color
/// attachment's format and the screen-bound constants vary between
/// rebuilds.
pub fn pipeline_settings() -> (r: PipelineSettings)
    ensures
        r.sample_count == 1,
        r.cull_back_faces,
        r.blend_replace,
        !r.has_depth_stencil,
        r.color_targets == 1,
{
    PipelineSettings {
        sample_count: 1,
        cull_back_faces: true,
        blend_replace: true,
        has_depth_stencil: false,
        color_targets: 1,
    }
}

/// How many bytes a full instance-buffer upload takes: one record per
/// particle. The buffer is sized once at creation to exactly this, and
/// every frame's upload overwrites exactly this many bytes.
pub fn instance_buffer_bytes(count: u64) -> (r: u64)
    requires
        count * INSTANCE_STRIDE <= u64::MAX,
    ensures
        r == count * INSTANCE_STRIDE,
{
    count * INSTANCE_STRIDE
}

} // verus!
