//! Drawable objects and their GPU-facing raw records.
//!
//! An entity owns a pose (position, rotation, scale, origin) and local
//! geometry, and projects the pose into a fixed-layout raw record for the
//! instance buffer. The trigonometric values and rotation matrices that the
//! projection embeds are floating-point work: the render layer computes them
//! from the pose and hands them in as bit patterns, and the entity caches
//! them until the next `update`.

use vstd::prelude::*;

verus! {

use crate::{EngineError, ScalarBits, SCALAR_ONE, SCALAR_ZERO};
use crate::identity::IdPool;
use crate::matrix::{mat3_diagonal, Mat2, Mat3};
use crate::quaternion::Quaternion;
use crate::texture::{Texture2DMap, UpdateTextures};
use crate::transformation::{rotation2_of, scale2_of, Transformation2D, Trig};
use crate::vector::{Vector2, Vector3};
use crate::vertex::{Vertex2D, Vertex3D};

/// The fixed-layout GPU record of a 2D entity's pose: a pixel-space
/// position and origin, and the cached 2x2 rotation and scale matrices.
#[derive(Clone, Copy, PartialEq, Debug)]
pub struct RawEntity2D {
    pub position: Vector2<u32>,
    pub rotation: Mat2,
    pub scale: Mat2,
    pub origin: Vector2<u32>,
}

/// The fixed-layout GPU record of a 3D entity's pose.
#[derive(Clone, Copy, PartialEq, Debug)]
pub struct RawEntity3D {
    pub position: Vector3<ScalarBits>,
    pub rotation: Mat3,
    pub origin: Vector3<ScalarBits>,
    pub scale: Mat3,
}

/// The constant unit quad every 2D entity is built over: one vertex per
/// corner, texture coordinates matching the corner positions.
pub open spec fn quad_vertices() -> Seq<Vertex2D> {
    seq![
        (Vertex2D {
            position: Vector2 { x: SCALAR_ONE, y: SCALAR_ONE },
            tex_pos: Vector2 { x: SCALAR_ONE, y: SCALAR_ONE },
        }),
        (Vertex2D {
            position: Vector2 { x: SCALAR_ZERO, y: SCALAR_ONE },
            tex_pos: Vector2 { x: SCALAR_ZERO, y: SCALAR_ONE },
        }),
        (Vertex2D {
            position: Vector2 { x: SCALAR_ZERO, y: SCALAR_ZERO },
            tex_pos: Vector2 { x: SCALAR_ZERO, y: SCALAR_ZERO },
        }),
        (Vertex2D {
            position: Vector2 { x: SCALAR_ONE, y: SCALAR_ZERO },
            tex_pos: Vector2 { x: SCALAR_ONE, y: SCALAR_ZERO },
        }),
    ]
}

/// A drawable 2D object: a pixel-space pose, the texture it is drawn with,
/// and the cached transform derived from the pose.
pub struct Entity2D {
    id: u32,
    position: Vector2<u32>,
    rotation: ScalarBits,
    scale: ScalarBits,
    transformation: Transformation2D,
    origin: Vector2<u32>,
    tex_id: u32,
    vertices: [Vertex2D; 4],
}

/// The raw record `Entity2D::to_raw` projects an entity to.
pub open spec fn raw2_of(e: Entity2D) -> RawEntity2D {
    RawEntity2D {
        position: e.spec_position(),
        rotation: e.spec_transformation().spec_rotation(),
        scale: e.spec_transformation().spec_scale(),
        origin: e.spec_origin(),
    }
}

impl Entity2D {
    pub closed spec fn spec_id(self) -> u32 {
        self.id
    }

    pub closed spec fn spec_position(self) -> Vector2<u32> {
        self.position
    }

    /// The rotation angle of the pose, as a scalar bit pattern.
    pub closed spec fn spec_rotation(self) -> ScalarBits {
        self.rotation
    }

    pub closed spec fn spec_scale(self) -> ScalarBits {
        self.scale
    }

    pub closed spec fn spec_transformation(self) -> Transformation2D {
        self.transformation
    }

    pub closed spec fn spec_origin(self) -> Vector2<u32> {
        self.origin
    }

    pub closed spec fn spec_tex_id(self) -> u32 {
        self.tex_id
    }

    pub closed spec fn spec_vertices(self) -> Seq<Vertex2D> {
        self.vertices@
    }

    /// Well-formedness: the cached transformation keeps its shape, and the
    /// vertices are the constant unit quad.
    pub open spec fn wf(self) -> bool {
        &&& self.spec_transformation().wf()
        &&& self.spec_vertices() === quad_vertices()
    }

    /// Create an entity drawn with the texture registered under `tex_id`,
    /// giving it a fresh identifier from the pool.
    ///
    /// `trig` must carry the cosine and sine of `rotation`, which the caller
    /// computes; the cached transformation is built from it. A `tex_id` that
    /// is not registered is a caller bug: it is rejected as an
    /// `InvalidReference` and the pool is untouched.
    pub fn new(
        textures: &Texture2DMap,
        pool: &mut IdPool,
        tex_id: u32,
        position: Vector2<u32>,
        rotation: ScalarBits,
        trig: Trig,
        scale: ScalarBits,
        origin: Vector2<u32>,
    ) -> (r: Result<Entity2D, EngineError>)
        requires
            old(pool).wf(),
            old(pool).ids().len() < 0xFFFF_FFFF,
        ensures
            final(pool).wf(),
            match r {
                Ok(e) => {
                    &&& textures.textures().contains_key(tex_id)
                    &&& e.wf()
                    &&& e.spec_tex_id() == tex_id
                    &&& e.spec_position() === position
                    &&& e.spec_rotation() == rotation
                    &&& e.spec_scale() == scale
                    &&& e.spec_origin() === origin
                    &&& e.spec_transformation().spec_rotation() === rotation2_of(trig)
                    &&& e.spec_transformation().spec_scale() === scale2_of(scale)
                    &&& !old(pool).contains(e.spec_id())
                    &&& final(pool).ids() === old(pool).ids().push(e.spec_id())
                },
                Err(err) => {
                    &&& err === EngineError::InvalidReference
                    &&& !textures.textures().contains_key(tex_id)
                    &&& final(pool).ids() === old(pool).ids()
                },
            },
    {
        if !textures.contains(tex_id) {
            return Err(EngineError::InvalidReference);
        }
        let id = pool.allocate();
        let vertices = [
            Vertex2D {
                position: Vector2 { x: SCALAR_ONE, y: SCALAR_ONE },
                tex_pos: Vector2 { x: SCALAR_ONE, y: SCALAR_ONE },
            },
            Vertex2D {
                position: Vector2 { x: SCALAR_ZERO, y: SCALAR_ONE },
                tex_pos: Vector2 { x: SCALAR_ZERO, y: SCALAR_ONE },
            },
            Vertex2D {
                position: Vector2 { x: SCALAR_ZERO, y: SCALAR_ZERO },
                tex_pos: Vector2 { x: SCALAR_ZERO, y: SCALAR_ZERO },
            },
            Vertex2D {
                position: Vector2 { x: SCALAR_ONE, y: SCALAR_ZERO },
                tex_pos: Vector2 { x: SCALAR_ONE, y: SCALAR_ZERO },
            },
        ];
        proof {
            assert(vertices@ =~= quad_vertices());
        }
        Ok(
            Entity2D {
                id,
                position,
                rotation,
                scale,
                transformation: Transformation2D::new(trig, scale),
                origin,
                tex_id,
                vertices,
            },
        )
    }

    pub fn rotation(&self) -> (r: ScalarBits)
        ensures
            r == self.spec_rotation(),
    {
        self.rotation
    }

    pub fn scale(&self) -> (s: ScalarBits)
        ensures
            s == self.spec_scale(),
    {
        self.scale
    }

    pub fn position(&self) -> (p: Vector2<u32>)
        ensures
            p === self.spec_position(),
    {
        self.position
    }

    /// Replace the rotation angle; the cached transformation is stale until
    /// the next `update`.
    pub fn set_rotation(&mut self, rotation: ScalarBits)
        ensures
            final(self).spec_rotation() == rotation,
            unchanged_but_pose(*old(self), *final(self)),
            final(self).spec_position() === old(self).spec_position(),
            final(self).spec_scale() == old(self).spec_scale(),
    {
        self.rotation = rotation;
    }

    /// Replace the scale factor; the cached transformation is stale until
    /// the next `update`.
    pub fn set_scale(&mut self, scale: ScalarBits)
        ensures
            final(self).spec_scale() == scale,
            unchanged_but_pose(*old(self), *final(self)),
            final(self).spec_position() === old(self).spec_position(),
            final(self).spec_rotation() == old(self).spec_rotation(),
    {
        self.scale = scale;
    }

    pub fn set_position(&mut self, x: u32, y: u32)
        ensures
            final(self).spec_position() === (Vector2 { x, y }),
            unchanged_but_pose(*old(self), *final(self)),
            final(self).spec_rotation() == old(self).spec_rotation(),
            final(self).spec_scale() == old(self).spec_scale(),
    {
        self.position.x = x;
        self.position.y = y;
    }

    /// Recompute the cached transformation from the current scale and the
    /// trig pair of the current angle, which the caller computes.
    pub fn update(&mut self, trig: Trig)
        requires
            old(self).wf(),
        ensures
            final(self).wf(),
            final(self).spec_transformation().spec_rotation() === rotation2_of(trig),
            final(self).spec_transformation().spec_scale() === scale2_of(
                old(self).spec_scale(),
            ),
            final(self).spec_id() == old(self).spec_id(),
            final(self).spec_tex_id() == old(self).spec_tex_id(),
            final(self).spec_position() === old(self).spec_position(),
            final(self).spec_rotation() == old(self).spec_rotation(),
            final(self).spec_scale() == old(self).spec_scale(),
            final(self).spec_origin() === old(self).spec_origin(),
            final(self).spec_vertices() === old(self).spec_vertices(),
    {
        let scale = self.scale;
        self.transformation.update(trig, scale);
    }

    /// Project the pose into its GPU record; the entity is not changed.
    pub fn to_raw(&self) -> (r: RawEntity2D)
        ensures
            r === raw2_of(*self),
    {
        RawEntity2D {
            position: self.position,
            rotation: self.transformation.rotation(),
            scale: self.transformation.scale(),
            origin: self.origin,
        }
    }

    pub fn texture_id(&self) -> (t: u32)
        ensures
            t == self.spec_tex_id(),
    {
        self.tex_id
    }

    pub fn vertices(&self) -> (v: &[Vertex2D; 4])
        ensures
            v@ === self.spec_vertices(),
    {
        &self.vertices
    }

    pub fn id(&self) -> (id: u32)
        ensures
            id == self.spec_id(),
    {
        self.id
    }

    /// Tear the entity down, releasing its identifier back to the pool
    /// exactly once. An identifier the pool does not hold marks a corrupted
    /// lifecycle and is reported.
    pub fn destroy(self, pool: &mut IdPool) -> (r: Result<(), EngineError>)
        requires
            old(pool).wf(),
        ensures
            final(pool).wf(),
            match r {
                Ok(()) => {
                    &&& old(pool).contains(self.spec_id())
                    &&& !final(pool).contains(self.spec_id())
                    &&& final(pool).ids() === old(pool).ids().remove(
                        old(pool).ids().index_of(self.spec_id()),
                    )
                },
                Err(e) => {
                    &&& e === EngineError::InvariantViolation
                    &&& !old(pool).contains(self.spec_id())
                    &&& final(pool).ids() === old(pool).ids()
                },
            },
    {
        pool.release(self.id)
    }
}

/// A 2D entity always holds exactly one vertex per corner of its quad.
pub broadcast proof fn lemma_vertices_len(e: Entity2D)
    ensures
        #[trigger] e.spec_vertices().len() == 4,
{
    broadcast use vstd::array::group_array_axioms;

}

/// The fields of a 2D entity that no pose mutator touches: identity,
/// texture, origin, cached transformation and vertices.
pub open spec fn unchanged_but_pose(pre: Entity2D, post: Entity2D) -> bool {
    &&& post.spec_id() == pre.spec_id()
    &&& post.spec_tex_id() == pre.spec_tex_id()
    &&& post.spec_origin() === pre.spec_origin()
    &&& post.spec_transformation() === pre.spec_transformation()
    &&& post.spec_vertices() === pre.spec_vertices()
}

/// A drawable 3D object: a world-space pose, optional texture, and its own
/// vertex and index lists.
pub struct Entity3D {
    id: u32,
    texture_id: Option<u32>,
    position: Vector3<ScalarBits>,
    scale: ScalarBits,
    rotation: Quaternion,
    rotation_matrix: Mat3,
    origin: Vector3<ScalarBits>,
    vertices: Vec<Vertex3D>,
    indices: Vec<u32>,
}

/// The raw record `Entity3D::to_raw` projects an entity to.
pub open spec fn raw3_of(e: Entity3D) -> RawEntity3D {
    RawEntity3D {
        position: e.spec_position(),
        rotation: e.spec_rotation_matrix(),
        origin: e.spec_origin(),
        scale: mat3_diagonal(e.spec_scale()),
    }
}

impl Entity3D {
    pub closed spec fn spec_id(self) -> u32 {
        self.id
    }

    pub closed spec fn spec_texture_id(self) -> Option<u32> {
        self.texture_id
    }

    pub closed spec fn spec_position(self) -> Vector3<ScalarBits> {
        self.position
    }

    pub closed spec fn spec_scale(self) -> ScalarBits {
        self.scale
    }

    pub closed spec fn spec_rotation(self) -> Quaternion {
        self.rotation
    }

    /// The cached rotation matrix last handed in by `update`.
    pub closed spec fn spec_rotation_matrix(self) -> Mat3 {
        self.rotation_matrix
    }

    pub closed spec fn spec_origin(self) -> Vector3<ScalarBits> {
        self.origin
    }

    pub closed spec fn spec_vertices(self) -> Seq<Vertex3D> {
        self.vertices@
    }

    pub closed spec fn spec_indices(self) -> Seq<u32> {
        self.indices@
    }

    /// Create an entity, giving it a fresh identifier from the pool.
    ///
    /// `rotation_matrix` must be the 3x3 matrix the render layer derived
    /// from `rotation`; it is cached until the next `update`. A referenced
    /// texture id that is not registered is a caller bug: it is rejected as
    /// an `InvalidReference` and the pool is untouched.
    pub fn new(
        textures: &Texture2DMap,
        pool: &mut IdPool,
        texture_id: Option<u32>,
        position: Vector3<ScalarBits>,
        scale: ScalarBits,
        rotation: Quaternion,
        rotation_matrix: Mat3,
        origin: Vector3<ScalarBits>,
        vertices: Vec<Vertex3D>,
        indices: Vec<u32>,
    ) -> (r: Result<Entity3D, EngineError>)
        requires
            old(pool).wf(),
            old(pool).ids().len() < 0xFFFF_FFFF,
        ensures
            final(pool).wf(),
            match r {
                Ok(e) => {
                    &&& (texture_id matches Some(t) ==> textures.textures().contains_key(t))
                    &&& e.spec_texture_id() === texture_id
                    &&& e.spec_position() === position
                    &&& e.spec_scale() == scale
                    &&& e.spec_rotation() === rotation
                    &&& e.spec_rotation_matrix() === rotation_matrix
                    &&& e.spec_origin() === origin
                    &&& e.spec_vertices() === vertices@
                    &&& e.spec_indices() === indices@
                    &&& !old(pool).contains(e.spec_id())
                    &&& final(pool).ids() === old(pool).ids().push(e.spec_id())
                },
                Err(err) => {
                    &&& err === EngineError::InvalidReference
                    &&& (texture_id matches Some(t) && !textures.textures().contains_key(t))
                    &&& final(pool).ids() === old(pool).ids()
                },
            },
    {
        if let Some(t) = texture_id {
            if !textures.contains(t) {
                return Err(EngineError::InvalidReference);
            }
        }
        let id = pool.allocate();
        Ok(
            Entity3D {
                id,
                texture_id,
                position,
                scale,
                rotation,
                rotation_matrix,
                origin,
                vertices,
                indices,
            },
        )
    }

    pub fn rotation(&self) -> (q: &Quaternion)
        ensures
            *q === self.spec_rotation(),
    {
        &self.rotation
    }

    /// Replace the rotation pose; the cached rotation matrix is stale until
    /// the next `update`.
    pub fn set_rotation(&mut self, rotation: Quaternion)
        ensures
            final(self).spec_rotation() === rotation,
            unchanged_but_pose3(*old(self), *final(self)),
            final(self).spec_position() === old(self).spec_position(),
            final(self).spec_scale() == old(self).spec_scale(),
            final(self).spec_rotation_matrix() === old(self).spec_rotation_matrix(),
    {
        self.rotation = rotation;
    }

    /// Cache the rotation matrix the render layer derived from the current
    /// rotation pose.
    pub fn update(&mut self, rotation_matrix: Mat3)
        ensures
            final(self).spec_rotation_matrix() === rotation_matrix,
            unchanged_but_pose3(*old(self), *final(self)),
            final(self).spec_position() === old(self).spec_position(),
            final(self).spec_scale() == old(self).spec_scale(),
            final(self).spec_rotation() === old(self).spec_rotation(),
    {
        self.rotation_matrix = rotation_matrix;
    }

    pub fn position(&self) -> (p: &Vector3<ScalarBits>)
        ensures
            *p === self.spec_position(),
    {
        &self.position
    }

    pub fn set_position(&mut self, position: Vector3<ScalarBits>)
        ensures
            final(self).spec_position() === position,
            unchanged_but_pose3(*old(self), *final(self)),
            final(self).spec_scale() == old(self).spec_scale(),
            final(self).spec_rotation() === old(self).spec_rotation(),
            final(self).spec_rotation_matrix() === old(self).spec_rotation_matrix(),
    {
        self.position = position;
    }

    pub fn scale(&self) -> (s: ScalarBits)
        ensures
            s == self.spec_scale(),
    {
        self.scale
    }

    pub fn set_scale(&mut self, scale: ScalarBits)
        ensures
            final(self).spec_scale() == scale,
            unchanged_but_pose3(*old(self), *final(self)),
            final(self).spec_position() === old(self).spec_position(),
            final(self).spec_rotation() === old(self).spec_rotation(),
            final(self).spec_rotation_matrix() === old(self).spec_rotation_matrix(),
    {
        self.scale = scale;
    }

    pub fn id(&self) -> (id: u32)
        ensures
            id == self.spec_id(),
    {
        self.id
    }

    /// Point the entity at another registered texture.
    pub fn set_texture(&mut self, texture_id: u32)
        ensures
            final(self).spec_texture_id() === Some(texture_id),
            final(self).spec_position() === old(self).spec_position(),
            final(self).spec_scale() == old(self).spec_scale(),
            final(self).spec_rotation() === old(self).spec_rotation(),
            final(self).spec_rotation_matrix() === old(self).spec_rotation_matrix(),
            final(self).spec_id() == old(self).spec_id(),
            final(self).spec_origin() === old(self).spec_origin(),
            final(self).spec_vertices() === old(self).spec_vertices(),
            final(self).spec_indices() === old(self).spec_indices(),
    {
        self.texture_id = Some(texture_id);
    }

    pub fn texture_id(&self) -> (t: Option<u32>)
        ensures
            t === self.spec_texture_id(),
    {
        self.texture_id
    }

    pub fn vertices(&self) -> (r: (&Vec<Vertex3D>, &Vec<u32>))
        ensures
            r.0@ === self.spec_vertices(),
            r.1@ === self.spec_indices(),
    {
        (&self.vertices, &self.indices)
    }

    pub fn set_vertices(&mut self, vertices: Vec<Vertex3D>, indices: Vec<u32>)
        ensures
            final(self).spec_vertices() === vertices@,
            final(self).spec_indices() === indices@,
            final(self).spec_position() === old(self).spec_position(),
            final(self).spec_scale() == old(self).spec_scale(),
            final(self).spec_rotation() === old(self).spec_rotation(),
            final(self).spec_rotation_matrix() === old(self).spec_rotation_matrix(),
            final(self).spec_id() == old(self).spec_id(),
            final(self).spec_texture_id() === old(self).spec_texture_id(),
            final(self).spec_origin() === old(self).spec_origin(),
    {
        self.vertices = vertices;
        self.indices = indices;
    }

    /// Project the pose into its GPU record; the entity is not changed.
    pub fn to_raw(&self) -> (r: RawEntity3D)
        ensures
            r === raw3_of(*self),
    {
        RawEntity3D {
            position: self.position,
            rotation: self.rotation_matrix,
            origin: self.origin,
            scale: Mat3 {
                c0r0: self.scale,
                c0r1: SCALAR_ZERO,
                c0r2: SCALAR_ZERO,
                c1r0: SCALAR_ZERO,
                c1r1: self.scale,
                c1r2: SCALAR_ZERO,
                c2r0: SCALAR_ZERO,
                c2r1: SCALAR_ZERO,
                c2r2: self.scale,
            },
        }
    }

    /// Tear the entity down, releasing its identifier back to the pool
    /// exactly once. An identifier the pool does not hold marks a corrupted
    /// lifecycle and is reported.
    pub fn destroy(self, pool: &mut IdPool) -> (r: Result<(), EngineError>)
        requires
            old(pool).wf(),
        ensures
            final(pool).wf(),
            match r {
                Ok(()) => {
                    &&& old(pool).contains(self.spec_id())
                    &&& !final(pool).contains(self.spec_id())
                    &&& final(pool).ids() === old(pool).ids().remove(
                        old(pool).ids().index_of(self.spec_id()),
                    )
                },
                Err(e) => {
                    &&& e === EngineError::InvariantViolation
                    &&& !old(pool).contains(self.spec_id())
                    &&& final(pool).ids() === old(pool).ids()
                },
            },
    {
        pool.release(self.id)
    }
}

/// The fields of a 3D entity that no pose mutator touches: identity,
/// texture, origin and geometry.
pub open spec fn unchanged_but_pose3(pre: Entity3D, post: Entity3D) -> bool {
    &&& post.spec_id() == pre.spec_id()
    &&& post.spec_texture_id() === pre.spec_texture_id()
    &&& post.spec_origin() === pre.spec_origin()
    &&& post.spec_vertices() === pre.spec_vertices()
    &&& post.spec_indices() === pre.spec_indices()
}

} // verus!
