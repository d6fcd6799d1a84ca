//! From particles to vertices: one square of two triangles per particle.
//!
//! The six vertices of a particle come in a fixed order: bottom-left,
//! bottom-right, top-right, then bottom-left, top-right, top-left. Texture
//! coordinates run over the unit square, with the origin at the bottom-left
//! corner.

use crate::particle::{Particle, ParticleStore};
use crate::scalar::Scalar;
use crate::vector::Vec2;
use vstd::prelude::*;

verus! {

/// Number of vertices made for each particle.
pub const VERTICES_PER_PARTICLE: usize = 6;

/// Bit pattern of 0.5, which takes a size to a half-extent.
pub const HALF: u32 = 0x3F00_0000;

/// Bit pattern of 1.0, the far end of the texture's axes.
pub const TEXTURE_END: u32 = 0x3F80_0000;

/// A vertex of the stream that is drawn.
#[derive(Clone, Copy, Debug, PartialEq, Eq, Structural)]
pub struct Vertex {
    pub position: Vec2,
    pub tex: Vec2,
}

/// A vertex of a buffer that holds positions alone.
#[derive(Clone, Copy, Debug, PartialEq, Eq, Structural)]
pub struct VertexPos {
    pub pos: Vec2,
}

/// A vertex of a buffer that holds texture coordinates alone.
#[derive(Clone, Copy, Debug, PartialEq, Eq, Structural)]
pub struct VertexTex {
    pub tex: Vec2,
}

/// Whether the corner with this number, from 0 to 5, is on the right side.
pub open spec fn corner_is_right(corner: int) -> bool {
    corner == 1 || corner == 2 || corner == 4
}

/// Whether the corner with this number, from 0 to 5, is on the top side.
pub open spec fn corner_is_top(corner: int) -> bool {
    corner == 2 || corner == 4 || corner == 5
}

/// Where a coordinate of a corner lies: half the size above the centre's
/// coordinate on the far side, half the negated size above it on the near
/// side.
pub open spec fn corner_coordinate(centre: Scalar, size: Scalar, far: bool) -> Scalar {
    if far {
        size.times_spec(Scalar { bits: HALF }).plus_spec(centre)
    } else {
        size.neg_spec().times_spec(Scalar { bits: HALF }).plus_spec(centre)
    }
}

/// The position of a corner of a particle's square.
pub open spec fn corner_position(p: Particle, corner: int) -> Vec2 {
    Vec2 {
        x: corner_coordinate(p.position.x, p.size, corner_is_right(corner)),
        y: corner_coordinate(p.position.y, p.size, corner_is_top(corner)),
    }
}

/// The texture coordinate of a corner: 1 along each axis on whose far side
/// the corner lies, else 0.
pub open spec fn corner_tex(corner: int) -> Vec2 {
    Vec2 {
        x: Scalar { bits: if corner_is_right(corner) { TEXTURE_END } else { 0 } },
        y: Scalar { bits: if corner_is_top(corner) { TEXTURE_END } else { 0 } },
    }
}

/// The vertex with number `index` of the stream for `particles`.
pub open spec fn vertex_at(particles: Seq<Particle>, index: int) -> Vertex {
    Vertex {
        position: corner_position(particles[index / 6], index % 6),
        tex: corner_tex(index % 6),
    }
}

/// The whole stream for `particles`: six vertices for each, in the order of
/// the particles.
pub open spec fn vertex_stream(particles: Seq<Particle>) -> Seq<Vertex> {
    Seq::new(6 * particles.len(), |index: int| vertex_at(particles, index))
}

/// The positions of the stream for `particles`.
pub open spec fn position_stream(particles: Seq<Particle>) -> Seq<VertexPos> {
    Seq::new(6 * particles.len(), |index: int| VertexPos { pos: vertex_at(particles, index).position })
}

/// The buffer `before` after it was filled with texture coordinates: every
/// whole group of six holds the coordinates of the six corners, and what is
/// left over at the end is as it was.
pub open spec fn tex_filled(before: Seq<VertexTex>) -> Seq<VertexTex> {
    Seq::new(
        before.len(),
        |index: int|
            if index < 6 * (before.len() / 6) {
                VertexTex { tex: corner_tex(index % 6) }
            } else {
                before[index]
            },
    )
}

fn corner_coordinate_of(centre: Scalar, size: Scalar, far: bool) -> (c: Scalar)
    ensures
        c == corner_coordinate(centre, size, far),
{
    if far {
        size.times(Scalar::from_bits(HALF)).plus(centre)
    } else {
        size.neg().times(Scalar::from_bits(HALF)).plus(centre)
    }
}

fn corner_tex_of(corner: usize) -> (tex: Vec2)
    requires
        corner < 6,
    ensures
        tex == corner_tex(corner as int),
{
    let right = corner == 1 || corner == 2 || corner == 4;
    let top = corner == 2 || corner == 4 || corner == 5;
    Vec2::new(
        Scalar::from_bits(if right { TEXTURE_END } else { 0 }),
        Scalar::from_bits(if top { TEXTURE_END } else { 0 }),
    )
}

fn corner_position_of(p: Particle, corner: usize) -> (position: Vec2)
    requires
        corner < 6,
    ensures
        position == corner_position(p, corner as int),
{
    let right = corner == 1 || corner == 2 || corner == 4;
    let top = corner == 2 || corner == 4 || corner == 5;
    Vec2::new(
        corner_coordinate_of(p.position.x, p.size, right),
        corner_coordinate_of(p.position.y, p.size, top),
    )
}

/// Builds the stream of vertices for the particles of `store`.
pub fn build_geometry(store: &ParticleStore) -> (stream: Vec<Vertex>)
    ensures
        stream@ == vertex_stream(store@),
{
    let count = store.len();
    let mut stream: Vec<Vertex> = Vec::new();
    let mut i: usize = 0;
    while i < count
        invariant
            i <= count,
            count == store@.len(),
            stream@.len() == 6 * i,
            forall|j: int| 0 <= j < 6 * i ==> stream@[j] == vertex_at(store@, j),
        decreases count - i,
    {
        let p = store.get(i);
        let mut corner: usize = 0;
        while corner < VERTICES_PER_PARTICLE
            invariant
                i < count,
                count == store@.len(),
                corner <= 6,
                p == store@[i as int],
                stream@.len() == 6 * i + corner,
                forall|j: int| 0 <= j < 6 * i + corner ==> stream@[j] == vertex_at(store@, j),
            decreases 6 - corner,
        {
            stream.push(Vertex { position: corner_position_of(p, corner), tex: corner_tex_of(corner) });
            corner += 1;
        }
        i += 1;
    }
    stream
}

/// Writes the positions of the stream for the particles of `store` into
/// `vertices`, which must hold six vertices for each particle.
pub fn build_vertex_pos_buffer(store: &ParticleStore, vertices: &mut Vec<VertexPos>)
    requires
        old(vertices)@.len() == 6 * store@.len(),
    ensures
        final(vertices)@ == position_stream(store@),
{
    let count = store.len();
    let total = vertices.len();
    let mut i: usize = 0;
    while i < count
        invariant
            i <= count,
            count == store@.len(),
            vertices@.len() == 6 * count,
            total == 6 * count,
            forall|j: int| 0 <= j < 6 * i ==> vertices@[j].pos == vertex_at(store@, j).position,
        decreases count - i,
    {
        let p = store.get(i);
        let mut corner: usize = 0;
        while corner < VERTICES_PER_PARTICLE
            invariant
                i < count,
                count == store@.len(),
                corner <= 6,
                p == store@[i as int],
                vertices@.len() == 6 * count,
            total == 6 * count,
                forall|j: int|
                    0 <= j < 6 * i + corner ==> vertices@[j].pos == vertex_at(store@, j).position,
            decreases 6 - corner,
        {
            vertices.set(i * 6 + corner, VertexPos { pos: corner_position_of(p, corner) });
            corner += 1;
        }
        i += 1;
    }
}

/// Writes the texture coordinates of the six corners into every whole group
/// of six vertices of `vertices`. Vertices left over at the end are not
/// touched.
pub fn build_vertex_tex_buffer(vertices: &mut Vec<VertexTex>)
    ensures
        final(vertices)@ == tex_filled(old(vertices)@),
{
    let ghost before = vertices@;
    let total = vertices.len();
    let groups = total / 6;
    let mut i: usize = 0;
    while i < groups
        invariant
            i <= groups,
            groups == before.len() / 6,
            vertices@.len() == before.len(),
            total == before.len(),
            forall|j: int| 0 <= j < 6 * i ==> vertices@[j] == tex_filled(before)[j],
            forall|j: int| 6 * i <= j < before.len() ==> vertices@[j] == before[j],
        decreases groups - i,
    {
        let mut corner: usize = 0;
        while corner < VERTICES_PER_PARTICLE
            invariant
                i < groups,
                groups == before.len() / 6,
                corner <= 6,
                vertices@.len() == before.len(),
            total == before.len(),
                forall|j: int| 0 <= j < 6 * i + corner ==> vertices@[j] == tex_filled(before)[j],
                forall|j: int| 6 * i + corner <= j < before.len() ==> vertices@[j] == before[j],
            decreases 6 - corner,
        {
            vertices.set(i * 6 + corner, VertexTex { tex: corner_tex_of(corner) });
            corner += 1;
        }
        i += 1;
    }
}

/// Building twice from particles that did not change gives the same stream,
/// vertex for vertex.
pub proof fn rebuild_is_identical(particles: Seq<Particle>, first: Seq<Vertex>, second: Seq<Vertex>)
    requires
        first == vertex_stream(particles),
        second == vertex_stream(particles),
    ensures
        first == second,
{
}

} // verus!
