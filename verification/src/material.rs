//! Base materials, the wind extension, and derived materials.
//!
//! Promotion is generic over the base material: any base satisfying the
//! small `CombinableBase` capability can be combined with the wind extension,
//! and any derived-material type implementing `WindAffectable` can be driven
//! by the promotion engine.  The engine depends only on these interfaces,
//! never on a concrete base type.

use vstd::prelude::*;
use crate::texture::TextureHandle;
use crate::wind::{spec_encode, Wind, WindUniform};

verus! {

/// The capability a base material needs so the wind extension can be layered
/// on top of it: it can hand out an exact copy of itself while the original
/// stays bound to the host's asset storage.
pub trait CombinableBase: Sized {
    /// An exact copy of the base material's shading inputs.
    fn clone_base(&self) -> (r: Self)
        ensures
            r == *self,
    ;
}

/// The capability of a derived-material type: it bundles a base material, a
/// wind snapshot, and the shared noise texture, and it can be built from
/// those parts and refreshed with a newer wind snapshot.  The three spec
/// views expose the bundled parts to contracts without fixing a layout.
pub trait WindAffectable<M>: Sized {
    /// The bundled base material.
    spec fn spec_base(&self) -> M;

    /// The embedded wind snapshot.
    spec fn spec_wind(&self) -> Wind;

    /// The shared noise texture reference.
    spec fn spec_texture(&self) -> TextureHandle;

    /// Builds the derived material from a base material, the current wind
    /// parameters, and the shared noise texture.
    fn create_material(base: &M, wind: &Wind, noise_texture: TextureHandle) -> (r: Self)
        ensures
            r.spec_base() == *base,
            r.spec_wind() == *wind,
            r.spec_texture() == noise_texture,
    ;

    /// Overwrites the embedded wind snapshot with a newer value, leaving the
    /// base material and the texture reference untouched.
    fn update_material(&mut self, wind: &Wind)
        ensures
            final(self).spec_wind() == *wind,
            final(self).spec_base() == old(self).spec_base(),
            final(self).spec_texture() == old(self).spec_texture(),
    ;
}

/// The wind extension layered on top of a base material: the embedded wind
/// snapshot and the shared noise texture the shader reads.
#[derive(Clone, Copy, Debug, PartialEq, Eq, Structural)]
pub struct WindAffectedExtension {
    pub wind: Wind,
    pub noise_texture: TextureHandle,
}

impl WindAffectedExtension {
    /// The uniform block the shader observes for this extension: the
    /// encoding of the embedded wind snapshot.
    pub fn uniform(&self) -> (r: WindUniform)
        ensures
            r == spec_encode(self.wind),
    {
        WindUniform::encode(&self.wind)
    }
}

/// A generic derived material: an arbitrary base material with the wind
/// extension layered on top.  Structure is fixed at creation; only the
/// embedded wind snapshot is overwritten by broadcast updates.
#[derive(Debug)]
pub struct ExtendedMaterial<B> {
    pub base: B,
    pub extension: WindAffectedExtension,
}

impl<B: CombinableBase> WindAffectable<B> for ExtendedMaterial<B> {
    open spec fn spec_base(&self) -> B {
        self.base
    }

    open spec fn spec_wind(&self) -> Wind {
        self.extension.wind
    }

    open spec fn spec_texture(&self) -> TextureHandle {
        self.extension.noise_texture
    }

    fn create_material(base: &B, wind: &Wind, noise_texture: TextureHandle) -> (r: Self) {
        ExtendedMaterial {
            base: base.clone_base(),
            extension: WindAffectedExtension { wind: *wind, noise_texture },
        }
    }

    fn update_material(&mut self, wind: &Wind) {
        self.extension.wind = *wind;
    }
}

/// A minimal opaque base material: its shading inputs are one packed RGBA
/// color, opaque to the promotion engine.
#[derive(Clone, Copy, Debug, PartialEq, Eq, Structural)]
pub struct StandardMaterial {
    pub base_color: u32,
}

impl CombinableBase for StandardMaterial {
    fn clone_base(&self) -> (r: Self) {
        *self
    }
}

/// The stock derived material: the opaque standard base with the wind
/// extension on top.
pub type WindAffectedExtendedMaterial = ExtendedMaterial<StandardMaterial>;

} // verus!
