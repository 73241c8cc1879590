//! Texture resources and the registry that owns them.
//!
//! A texture resource is built from an encoded image byte stream: the bytes
//! are decoded to an RGBA pixel buffer and the resource is given a fresh
//! identifier from the shared pool. Uploading the pixels to the GPU and
//! building sampler and binding-set objects is device work and happens in
//! the render layer, which reads the pixel buffer and dimensions from here.

use std::collections::HashMap;
use vstd::prelude::*;

verus! {

use crate::EngineError;
use crate::identity::IdPool;

broadcast use vstd::std_specs::hash::group_hash_axioms;

/// What decoding an image byte stream to RGBA yields: `None` when the bytes
/// cannot be decoded, otherwise the pixel bytes and the width and height in
/// pixels. Decoding is deterministic: a function of the bytes alone.
pub uninterp spec fn decoded_rgba(bytes: Seq<u8>) -> Option<(Seq<u8>, u32, u32)>;

/// An RGBA pixel buffer with its pixel dimensions.
pub struct DecodedImage {
    pub pixels: Vec<u8>,
    pub width: u32,
    pub height: u32,
}

#[verifier::external_type_specification]
#[verifier::external_body]
pub struct ExImageError(image::ImageError);

/// Relies on image::load_from_memory and image::DynamicImage::to_rgba8:
/// decoding depends on the byte stream alone, and the RGBA buffer holds
/// exactly four bytes for each of `width * height` pixels.
#[verifier::external_body]
fn decode_rgba_bytes(bytes: &Vec<u8>) -> (r: Result<DecodedImage, image::ImageError>)
    ensures
        match r {
            Ok(img) => {
                &&& decoded_rgba(bytes@) === Some((img.pixels@, img.width, img.height))
                &&& img.pixels@.len() == 4 * (img.width as int) * (img.height as int)
            },
            Err(_) => decoded_rgba(bytes@) === None::<(Seq<u8>, u32, u32)>,
        },
{
    let dynamic = image::load_from_memory(bytes.as_slice())?;
    let rgba = dynamic.to_rgba8();
    let (width, height) = rgba.dimensions();
    Ok(DecodedImage { pixels: rgba.into_raw(), width, height })
}

/// A decoded texture with its identifier.
///
/// The GPU texture, sampler and binding-set handles built from it live in
/// the render layer; the core owns the identifier and the pixel data.
#[derive(Debug)]
pub struct Texture2D {
    id: u32,
    rgba_buffer: Vec<u8>,
    width: u32,
    height: u32,
}

impl Texture2D {
    /// The texture's identifier.
    pub closed spec fn spec_id(self) -> u32 {
        self.id
    }

    /// The decoded RGBA pixel bytes.
    pub closed spec fn spec_pixels(self) -> Seq<u8> {
        self.rgba_buffer@
    }

    /// The pixel dimensions, width first.
    pub closed spec fn spec_dimensions(self) -> (u32, u32) {
        (self.width, self.height)
    }

    /// Well-formedness: four pixel bytes for each of `width * height` pixels.
    pub open spec fn wf(self) -> bool {
        self.spec_pixels().len() == 4 * (self.spec_dimensions().0 as int) * (
        self.spec_dimensions().1 as int)
    }

    /// Decode `bytes` and register a fresh identifier for the texture.
    ///
    /// An undecodable byte stream is the one recoverable failure of the
    /// core: it is reported as a `DecodeFailure` and the pool is untouched.
    pub fn new(pool: &mut IdPool, bytes: &Vec<u8>) -> (r: Result<Texture2D, EngineError>)
        requires
            old(pool).wf(),
            old(pool).ids().len() < 0xFFFF_FFFF,
        ensures
            final(pool).wf(),
            match r {
                Ok(t) => {
                    &&& decoded_rgba(bytes@) matches Some(d) && t.spec_pixels() === d.0
                        && t.spec_dimensions().0 == d.1 && t.spec_dimensions().1 == d.2
                    &&& t.wf()
                    &&& !old(pool).contains(t.spec_id())
                    &&& final(pool).ids() === old(pool).ids().push(t.spec_id())
                },
                Err(e) => {
                    &&& e === EngineError::DecodeFailure
                    &&& decoded_rgba(bytes@) is None
                    &&& final(pool).ids() === old(pool).ids()
                },
            },
    {
        match decode_rgba_bytes(bytes) {
            Ok(img) => {
                let id = pool.allocate();
                Ok(
                    Texture2D {
                        id,
                        rgba_buffer: img.pixels,
                        width: img.width,
                        height: img.height,
                    },
                )
            },
            Err(_) => Err(EngineError::DecodeFailure),
        }
    }

    pub fn id(&self) -> (id: u32)
        ensures
            id == self.spec_id(),
    {
        self.id
    }

    /// The decoded pixel buffer, for CPU-side introspection.
    pub fn rgba_buffer(&self) -> (b: &Vec<u8>)
        ensures
            b@ === self.spec_pixels(),
    {
        &self.rgba_buffer
    }

    /// The pixel dimensions, width first.
    pub fn dimensions(&self) -> (d: (u32, u32))
        ensures
            d == self.spec_dimensions(),
    {
        (self.width, self.height)
    }
}

/// A registry of textures, keyed by their identifiers.
pub trait UpdateTextures {
    /// The map from live texture identifiers to textures.
    spec fn textures(&self) -> Map<u32, Texture2D>;

    /// Add a texture under its identifier.
    ///
    /// An identifier that is already registered signals an engine bug; the
    /// texture is handed back unconsumed and the registry is unchanged.
    fn add_texture(&mut self, texture: Texture2D) -> (r: Result<(), Texture2D>)
        ensures
            match r {
                Ok(()) => {
                    &&& !old(self).textures().contains_key(texture.spec_id())
                    &&& final(self).textures() === old(self).textures().insert(
                        texture.spec_id(),
                        texture,
                    )
                },
                Err(t) => {
                    &&& t === texture
                    &&& old(self).textures().contains_key(texture.spec_id())
                    &&& final(self).textures() === old(self).textures()
                },
            },
    ;

    /// Remove the texture registered under `id` and release `id` back to
    /// the pool.
    ///
    /// Removing an identifier that is registered here and live in the pool
    /// always succeeds: those are the only two failures, so the texture is
    /// removed and its identifier released on every valid removal.
    ///
    /// Removing an identifier that is not registered is a caller bug and is
    /// rejected as an `InvalidReference`; an identifier that is registered
    /// here but missing from the pool marks corrupted bookkeeping and is
    /// rejected as an `InvariantViolation`. In both cases nothing changes.
    fn remove_texture(&mut self, id: u32, pool: &mut IdPool) -> (r: Result<
        Texture2D,
        EngineError,
    >)
        requires
            old(pool).wf(),
        ensures
            final(pool).wf(),
            match r {
                Ok(t) => {
                    &&& old(self).textures().contains_key(id)
                    &&& t === old(self).textures()[id]
                    &&& final(self).textures() === old(self).textures().remove(id)
                    &&& old(pool).contains(id)
                    &&& !final(pool).contains(id)
                    &&& final(pool).ids() === old(pool).ids().remove(
                        old(pool).ids().index_of(id),
                    )
                },
                Err(e) => {
                    &&& final(self).textures() === old(self).textures()
                    &&& final(pool).ids() === old(pool).ids()
                    &&& (e === EngineError::InvalidReference || e
                        === EngineError::InvariantViolation)
                    &&& (e === EngineError::InvalidReference <==> !old(
                        self,
                    ).textures().contains_key(id))
                    &&& (e === EngineError::InvariantViolation <==> old(
                        self,
                    ).textures().contains_key(id) && !old(pool).contains(id))
                },
            },
    ;
}

/// The texture registry: a hash map from identifiers to textures.
pub struct Texture2DMap {
    map: HashMap<u32, Texture2D>,
}

impl Texture2DMap {
    /// An empty registry.
    pub fn new() -> (m: Texture2DMap)
        ensures
            m.textures() === Map::empty(),
    {
        Texture2DMap { map: HashMap::new() }
    }

    /// The underlying map.
    pub fn inner(&self) -> (m: &HashMap<u32, Texture2D>)
        ensures
            m@ === self.textures(),
    {
        &self.map
    }

    /// Whether a texture is registered under `id`.
    pub fn contains(&self, id: u32) -> (r: bool)
        ensures
            r == self.textures().contains_key(id),
    {
        self.map.contains_key(&id)
    }
}

impl UpdateTextures for Texture2DMap {
    closed spec fn textures(&self) -> Map<u32, Texture2D> {
        self.map@
    }

    fn add_texture(&mut self, texture: Texture2D) -> (r: Result<(), Texture2D>) {
        if self.map.contains_key(&texture.id()) {
            Err(texture)
        } else {
            self.map.insert(texture.id(), texture);
            Ok(())
        }
    }

    fn remove_texture(&mut self, id: u32, pool: &mut IdPool) -> (r: Result<
        Texture2D,
        EngineError,
    >) {
        if !self.map.contains_key(&id) {
            return Err(EngineError::InvalidReference);
        }
        match pool.release(id) {
            Ok(()) => {
                match self.map.remove(&id) {
                    Some(texture) => Ok(texture),
                    None => {
                        proof {
                            assert(false);
                        }
                        Err(EngineError::InvariantViolation)
                    },
                }
            },
            Err(_) => Err(EngineError::InvariantViolation),
        }
    }
}

} // verus!
