//! The external-image dispatcher: it owns at most one provider per provider
//! kind and routes the renderer's lock/unlock handshake, via the registry, to
//! the provider that owns the image.
//!
//! The renderer must only pass identifiers it obtained from the registry and
//! has not removed; an unknown identifier is a caller contract violation, not
//! a runtime condition, so the lock and unlock operations require a
//! registered identifier (and a provider for its kind) instead of reporting a
//! recoverable error. An embedder that receives identifiers from an untrusted
//! caller checks them against the registry first and treats a miss as fatal.

use vstd::prelude::*;

use crate::geom::PixelSize;
use crate::registry::ExternalImageId;
use crate::registry::WebrenderExternalImageRegistry;
use crate::registry::WebrenderImageHandlerType;

verus! {

/// The capability each external provider implements: a fast, non-blocking
/// lock/unlock handshake. `lock` hands out a native texture handle and the
/// image's pixel size; the renderer must not read the texture after the
/// matching `unlock` returns. Nothing is assumed of an implementation beyond
/// its signature.
pub trait WebrenderExternalImageApi {
    /// Locks the image with the given numeric identifier and returns its
    /// native texture handle and pixel size.
    fn lock(&mut self, id: u64) -> (u32, PixelSize);

    /// Unlocks the image with the given numeric identifier.
    fn unlock(&mut self, id: u64);
}

/// A texture-coordinate rectangle, in texel units, describing how to sample
/// a locked image given its native orientation.
#[derive(Clone, Copy, PartialEq, Eq, Structural, Debug)]
pub struct UvRect {
    pub u0: i32,
    pub v0: i32,
    pub u1: i32,
    pub v1: i32,
}

/// What a successful lock hands the renderer: the provider's native texture
/// handle and the UV rectangle to sample it with.
#[derive(Clone, Copy, PartialEq, Eq, Structural, Debug)]
pub struct ExternalImageDescriptor {
    pub texture_id: u32,
    pub uv: UvRect,
}

/// The UV rectangle for an image of `size` owned by a provider of `kind`.
///
/// The orientation is provider-kind-dependent and deliberately asymmetric: a
/// 3D-canvas image is sampled with Y flipped (top-left origin, from the
/// bottom row up), while a media image is sampled in natural top-left,
/// bottom-right order. The asymmetry reflects the differing native texture
/// origins of the two providers and must not be unified without checking
/// each provider's actual convention.
pub open spec fn spec_uv_rect(kind: WebrenderImageHandlerType, size: PixelSize) -> UvRect {
    match kind {
        WebrenderImageHandlerType::WebGL => UvRect {
            u0: 0,
            v0: size.height,
            u1: size.width,
            v1: 0,
        },
        WebrenderImageHandlerType::Media => UvRect {
            u0: 0,
            v0: 0,
            u1: size.width,
            v1: size.height,
        },
    }
}

/// The descriptor a lock builds from a provider's answer.
pub open spec fn spec_descriptor(
    kind: WebrenderImageHandlerType,
    texture_id: u32,
    size: PixelSize,
) -> ExternalImageDescriptor {
    ExternalImageDescriptor { texture_id, uv: spec_uv_rect(kind, size) }
}

/// Combines a provider's answer into the descriptor handed to the renderer,
/// applying the UV orientation convention of the provider's kind.
pub fn image_descriptor(
    kind: WebrenderImageHandlerType,
    texture_id: u32,
    size: PixelSize,
) -> (r: ExternalImageDescriptor)
    ensures
        r == spec_descriptor(kind, texture_id, size),
{
    let uv = match kind {
        WebrenderImageHandlerType::WebGL => UvRect {
            u0: 0,
            v0: size.height,
            u1: size.width,
            v1: 0,
        },
        WebrenderImageHandlerType::Media => UvRect {
            u0: 0,
            v0: 0,
            u1: size.width,
            v1: size.height,
        },
    };
    ExternalImageDescriptor { texture_id, uv }
}

/// The dispatcher: one optional provider per kind, plus the registry that
/// says which kind owns each image.
///
/// The reference design shares the registry between the dispatcher and the
/// allocating subsystems behind one exclusive lock; here the dispatcher owns
/// the registry as a public field, and an embedder that shares the pair
/// across threads wraps the whole dispatcher in its own lock.
pub struct WebrenderExternalImageHandlers<H: WebrenderExternalImageApi> {
    /// 3D-canvas provider.
    webgl_handler: Option<H>,
    /// Media player provider.
    media_handler: Option<H>,
    /// The shared registry of live external images.
    pub external_images: WebrenderExternalImageRegistry,
}

impl<H: WebrenderExternalImageApi> WebrenderExternalImageHandlers<H> {
    /// The owned registry, as a value, for contracts that speak of its
    /// counter or well-formedness.
    pub closed spec fn registry(&self) -> WebrenderExternalImageRegistry {
        self.external_images
    }

    /// The registry's mapping from image identifier to owning kind.
    pub open spec fn images(&self) -> Map<u64, WebrenderImageHandlerType> {
        self.registry()@
    }

    /// The provider installed for `kind`, if any.
    pub closed spec fn handler(&self, kind: WebrenderImageHandlerType) -> Option<H> {
        match kind {
            WebrenderImageHandlerType::WebGL => self.webgl_handler,
            WebrenderImageHandlerType::Media => self.media_handler,
        }
    }

    /// Whether a provider is installed for `kind`.
    pub open spec fn has_handler(&self, kind: WebrenderImageHandlerType) -> bool {
        self.handler(kind) is Some
    }

    /// Creates a dispatcher with no providers installed and a fresh, empty
    /// registry.
    pub fn new() -> (r: Self)
        ensures
            r.images() == Map::<u64, WebrenderImageHandlerType>::empty(),
            r.registry().counter() == 0,
            r.registry().well_formed(),
            !r.has_handler(WebrenderImageHandlerType::WebGL),
            !r.has_handler(WebrenderImageHandlerType::Media),
    {
        Self {
            webgl_handler: None,
            media_handler: None,
            external_images: WebrenderExternalImageRegistry::new(),
        }
    }

    /// Borrows the owned registry mutably: the dispatcher's analog of the
    /// shared registry handle of the reference design, through which the
    /// allocating subsystems issue and release image identifiers. The
    /// provider slots are untouched by anything done through the borrow.
    pub fn images_mut(&mut self) -> (r: &mut WebrenderExternalImageRegistry)
        ensures
            *r == old(self).registry(),
            final(self).registry() == *final(r),
            forall|k: WebrenderImageHandlerType|
                final(self).handler(k) == old(self).handler(k),
    {
        &mut self.external_images
    }

    /// Reports whether a provider is installed for `handler_type`, so that a
    /// caller can establish the routing precondition of `lock` and `unlock`
    /// before dispatching.
    pub fn has_handler_for(&self, handler_type: WebrenderImageHandlerType) -> (r: bool)
        ensures
            r == self.has_handler(handler_type),
    {
        match handler_type {
            WebrenderImageHandlerType::WebGL => self.webgl_handler.is_some(),
            WebrenderImageHandlerType::Media => self.media_handler.is_some(),
        }
    }

    /// Installs `handler` as the provider for `handler_type`, replacing any
    /// previous one. The replaced provider gets no notification; any cleanup
    /// it needs is the caller's responsibility.
    pub fn set_handler(&mut self, handler: H, handler_type: WebrenderImageHandlerType)
        ensures
            final(self).handler(handler_type) == Some(handler),
            forall|k: WebrenderImageHandlerType|
                k != handler_type ==> final(self).handler(k) == old(self).handler(k),
            final(self).registry() == old(self).registry(),
    {
        match handler_type {
            WebrenderImageHandlerType::WebGL => self.webgl_handler = Some(handler),
            WebrenderImageHandlerType::Media => self.media_handler = Some(handler),
        }
    }

    /// Locks the external image `key` for the renderer and returns the
    /// descriptor to sample it with: the provider's texture handle and the
    /// UV rectangle in the orientation of the owning kind.
    ///
    /// The identifier must be registered and its kind must have a provider;
    /// passing any other identifier is a protocol violation by the caller.
    /// After this returns, the provider must not mutate the image until the
    /// matching `unlock`. `_channel_index` and `_is_composited` are accepted
    /// for interface compatibility but not consulted: this dispatcher is
    /// single-channel and hint-agnostic.
    pub fn lock(&mut self, key: ExternalImageId, _channel_index: u8, _is_composited: bool) -> (r:
        ExternalImageDescriptor)
        requires
            old(self).images().contains_key(key.0),
            old(self).has_handler(old(self).images()[key.0]),
        ensures
            final(self).images() == old(self).images(),
            forall|k: WebrenderImageHandlerType|
                final(self).has_handler(k) == old(self).has_handler(k),
            forall|k: WebrenderImageHandlerType|
                k != old(self).images()[key.0] ==> final(self).handler(k) == old(self).handler(k),
            exists|texture_id: u32, size: PixelSize|
                r == spec_descriptor(old(self).images()[key.0], texture_id, size),
    {
        let handler_type = *self.external_images.get(&key).unwrap();
        let (texture_id, size) = match handler_type {
            WebrenderImageHandlerType::WebGL => match &mut self.webgl_handler {
                Some(h) => h.lock(key.0),
                None => vstd::pervasive::unreached(),
            },
            WebrenderImageHandlerType::Media => match &mut self.media_handler {
                Some(h) => h.lock(key.0),
                None => vstd::pervasive::unreached(),
            },
        };
        let r = image_descriptor(handler_type, texture_id, size);
        proof {
            assert(r == spec_descriptor(old(self).images()[key.0], texture_id, size));
        }
        r
    }

    /// Unlocks the external image `key`: the renderer is done sampling, and
    /// must not read the image again until a subsequent lock. The same
    /// lookup-or-violation rule as for `lock` applies, and for a given
    /// identifier, calls must alternate lock, unlock, lock, unlock.
    pub fn unlock(&mut self, key: ExternalImageId, _channel_index: u8)
        requires
            old(self).images().contains_key(key.0),
            old(self).has_handler(old(self).images()[key.0]),
        ensures
            final(self).images() == old(self).images(),
            forall|k: WebrenderImageHandlerType|
                final(self).has_handler(k) == old(self).has_handler(k),
            forall|k: WebrenderImageHandlerType|
                k != old(self).images()[key.0] ==> final(self).handler(k) == old(self).handler(k),
    {
        let handler_type = *self.external_images.get(&key).unwrap();
        match handler_type {
            WebrenderImageHandlerType::WebGL => match &mut self.webgl_handler {
                Some(h) => h.unlock(key.0),
                None => vstd::pervasive::unreached(),
            },
            WebrenderImageHandlerType::Media => match &mut self.media_handler {
                Some(h) => h.unlock(key.0),
                None => vstd::pervasive::unreached(),
            },
        }
    }
}

} // verus!
