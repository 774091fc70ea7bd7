//! A bridge between a compositing renderer's external-image protocol and a
//! platform GPU surface library.
//!
//! The crate has two independent halves, composed by the embedding
//! application:
//!
//! * [`registry`] and [`dispatcher`] manage externally produced GPU textures:
//!   the registry issues unique image identifiers and remembers which provider
//!   kind owns each one, and the dispatcher routes the renderer's lock/unlock
//!   handshake to the provider registered for that kind.
//! * [`surface`] owns a GPU device/context pair (optionally backed by a swap
//!   chain) and drives surface creation, presentation, resizing and ordered
//!   teardown through the `surfman` surface library.

mod dispatcher;
mod geom;
mod registry;
mod surface;

pub use dispatcher::ExternalImageDescriptor;
pub use dispatcher::UvRect;
pub use dispatcher::WebrenderExternalImageApi;
pub use dispatcher::WebrenderExternalImageHandlers;
pub use dispatcher::image_descriptor;
pub use dispatcher::spec_descriptor;
pub use dispatcher::spec_uv_rect;
pub use geom::PixelSize;
pub use registry::ExternalImageId;
pub use registry::WebrenderExternalImageRegistry;
pub use registry::WebrenderImageHandlerType;
pub use registry::issued_ids;
pub use registry::lemma_issued_ids_strictly_increasing;
pub use registry::lemma_lookup_after_allocate;
pub use registry::lemma_lookup_after_remove;
pub use surface::AttachedSwapChain;
pub use surface::SurfaceError;
pub use surface::SurfaceTarget;
pub use surface::WebrenderSurfman;
