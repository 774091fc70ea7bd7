//! The GPU surface lifecycle bridge: one device/context pair, optionally
//! backed by a swap chain, with creation, presentation, resizing and ordered
//! teardown.
//!
//! All GPU work is done by the `surfman` surface library and the
//! `surfman_chains` swap-chain library; their values are opaque here, and
//! each call into them stands behind a small trusted wrapper. What is
//! verified is the logic around the calls: which rendering mode the manager
//! is in, that the swap chain exists exactly in off-screen mode, that the
//! misuse error and the GPU errors stay apart, and that teardown runs in the
//! required order (swap chain before context) without letting an error
//! escape.

use vstd::prelude::*;

use crate::geom::PixelSize;
use surfman::Adapter;
use surfman::Connection;
use surfman::Context;
use surfman::ContextAttributes;
use surfman::ContextDescriptor;
use surfman::Device;
use surfman::NativeContext;
use surfman::NativeDevice;
use surfman::NativeWidget;
use surfman::Surface;
use surfman::SurfaceInfo;
use surfman::SurfaceTexture;
use surfman_chains::SwapChain;

verus! {

// The `surfman` types the manager's signatures and fields mention. Each
// declaration only makes the type known; its values stay opaque.
#[verifier::external_type_specification]
#[verifier::external_body]
pub struct ExConnection(Connection);

#[verifier::external_type_specification]
#[verifier::external_body]
pub struct ExAdapter(Adapter);

#[verifier::external_type_specification]
#[verifier::external_body]
pub struct ExDevice(Device);

#[verifier::external_type_specification]
#[verifier::external_body]
pub struct ExContext(Context);

#[verifier::external_type_specification]
#[verifier::external_body]
pub struct ExContextDescriptor(ContextDescriptor);

#[verifier::external_type_specification]
#[verifier::external_body]
pub struct ExContextAttributes(ContextAttributes);

#[verifier::external_type_specification]
#[verifier::external_body]
pub struct ExNativeContext(NativeContext);

#[verifier::external_type_specification]
#[verifier::external_body]
pub struct ExNativeDevice(NativeDevice);

#[verifier::external_type_specification]
#[verifier::external_body]
pub struct ExNativeWidget(NativeWidget);

#[verifier::external_type_specification]
#[verifier::external_body]
pub struct ExSurface(Surface);

#[verifier::external_type_specification]
#[verifier::external_body]
pub struct ExSurfaceInfo(SurfaceInfo);

#[verifier::external_type_specification]
#[verifier::external_body]
pub struct ExSurfaceTexture(SurfaceTexture);

#[verifier::external_type_specification]
#[verifier::external_body]
pub struct ExError(surfman::Error);

/// The swap chain attached to the manager's context. Verus cannot declare
/// `surfman_chains::SwapChain` itself (its generic parameter is bound by an
/// outside trait), so the chain is held opaquely in this wrapper; the
/// trusted wrappers below call its methods. The field is public so that an
/// embedder can hand the raw chain to a consumer of its front buffer.
#[verifier::external_body]
pub struct AttachedSwapChain(pub SwapChain<Device>);

/// The rendering target the manager is created against: either a native
/// on-screen widget, or a generic off-screen target of a given size.
pub enum SurfaceTarget {
    /// Render to a native window-system widget; presentation cycles the
    /// single bound surface directly, and no swap chain is attached.
    Widget { native_widget: NativeWidget },
    /// Render off-screen; presentation goes through an attached swap chain.
    Generic { size: PixelSize },
}

/// The errors the surface manager reports. Misuse of the manager in the
/// wrong mode is kept apart from genuine GPU failures.
pub enum SurfaceError {
    /// The operation needs an attached swap chain, but the manager renders
    /// to a native widget, so none is attached.
    NoAttachedSwapChain,
    /// The context had no bound surface to present. The manager binds a
    /// surface at construction and rebinds it after every presentation, so
    /// this is not expected to occur.
    NoBoundSurface,
    /// The platform surface library reported an error.
    Gpu(surfman::Error),
}

/// A bridge between a compositing renderer and the `surfman` surface
/// library: it exclusively owns one GPU device and one context bound to it,
/// plus, in off-screen mode, the swap chain attached to that context.
///
/// The device and context are confined to one GPU-owning thread; an embedder
/// that shares the manager adds its own mutual exclusion around every call.
/// Teardown is an explicit ordered step, [`WebrenderSurfman::destroy`],
/// because the swap chain holds a reference into the context and must go
/// first.
pub struct WebrenderSurfman {
    device: Device,
    context: Context,
    /// The manager either renders to a swap chain or to a native widget.
    swap_chain: Option<AttachedSwapChain>,
}

impl WebrenderSurfman {
    /// Whether a swap chain is attached: true exactly when the manager was
    /// created against a generic (off-screen) target.
    pub closed spec fn has_swap_chain(&self) -> bool {
        self.swap_chain is Some
    }

    /// Creates the manager: device, then context, then an initial surface
    /// with GPU-only access bound to the context, and, for a generic target,
    /// a swap chain attached to the context.
    ///
    /// If binding the initial surface fails, the partially-created surface
    /// is destroyed against the context before the error propagates, so no
    /// created-but-unbound surface leaks. On success the manager has a swap
    /// chain if and only if the target was generic.
    pub fn create(
        connection: &Connection,
        adapter: &Adapter,
        context_attributes: ContextAttributes,
        surface_type: SurfaceTarget,
    ) -> (r: Result<Self, SurfaceError>)
        ensures
            r matches Ok(m) ==> (m.has_swap_chain() <==> surface_type is Generic),
            r matches Err(e) ==> e is Gpu,
    {
        let mut device = match sm_create_device(connection, adapter) {
            Ok(d) => d,
            Err(e) => return Err(SurfaceError::Gpu(e)),
        };
        let context_descriptor = match sm_create_context_descriptor(&device, &context_attributes) {
            Ok(d) => d,
            Err(e) => return Err(SurfaceError::Gpu(e)),
        };
        let mut context = match sm_create_context(&mut device, &context_descriptor) {
            Ok(c) => c,
            Err(e) => return Err(SurfaceError::Gpu(e)),
        };
        let headless = matches!(surface_type, SurfaceTarget::Generic { .. });
        let surface = match sm_create_surface(&mut device, &context, surface_type) {
            Ok(s) => s,
            Err(e) => return Err(SurfaceError::Gpu(e)),
        };
        match sm_bind_surface_to_context(&device, &mut context, surface) {
            Ok(()) => (),
            Err((e, mut unbound)) => {
                let _ = sm_destroy_surface(&device, &mut context, &mut unbound);
                return Err(SurfaceError::Gpu(e));
            },
        }
        let swap_chain = if headless {
            match sm_create_attached_swap_chain(&mut device, &mut context) {
                Ok(c) => Some(c),
                Err(e) => return Err(SurfaceError::Gpu(e)),
            }
        } else {
            None
        };
        Ok(WebrenderSurfman { device, context, swap_chain })
    }

    /// Imports a surface into a texture bound to the context. On failure the
    /// original surface is handed back to the caller: ownership is not
    /// consumed by a failed import.
    pub fn create_surface_texture(&mut self, surface: Surface) -> (r: Result<
        SurfaceTexture,
        (SurfaceError, Surface),
    >)
        ensures
            final(self).has_swap_chain() == old(self).has_swap_chain(),
            r matches Err(p) ==> p.1 == surface && p.0 is Gpu,
    {
        match sm_create_surface_texture(&self.device, &mut self.context, surface) {
            Ok(t) => Ok(t),
            Err((e, s)) => Err((SurfaceError::Gpu(e), s)),
        }
    }

    /// Destroys a surface texture and returns the underlying surface. On
    /// failure the original surface texture is handed back to the caller.
    pub fn destroy_surface_texture(&mut self, surface_texture: SurfaceTexture) -> (r: Result<
        Surface,
        (SurfaceError, SurfaceTexture),
    >)
        ensures
            final(self).has_swap_chain() == old(self).has_swap_chain(),
            r matches Err(p) ==> p.1 == surface_texture && p.0 is Gpu,
    {
        match sm_destroy_surface_texture(&self.device, &mut self.context, surface_texture) {
            Ok(s) => Ok(s),
            Err((e, t)) => Err((SurfaceError::Gpu(e), t)),
        }
    }

    /// Makes the owned device/context pair the active GL context of the
    /// calling thread.
    pub fn make_gl_context_current(&self) -> (r: Result<(), SurfaceError>)
        ensures
            r matches Err(e) ==> e is Gpu,
    {
        match sm_make_context_current(&self.device, &self.context) {
            Ok(()) => Ok(()),
            Err(e) => Err(SurfaceError::Gpu(e)),
        }
    }

    /// Borrows the attached swap chain. Succeeds exactly when the manager
    /// was created against a generic target; against a native widget the
    /// distinct misuse error is returned.
    pub fn swap_chain(&self) -> (r: Result<&AttachedSwapChain, SurfaceError>)
        ensures
            r is Ok <==> self.has_swap_chain(),
            r matches Err(e) ==> e is NoAttachedSwapChain,
    {
        match &self.swap_chain {
            Some(chain) => Ok(chain),
            None => Err(SurfaceError::NoAttachedSwapChain),
        }
    }

    /// Resizes the attached swap chain. Valid only in swap-chain mode: for a
    /// widget-backed manager the misuse error is returned, never a GPU
    /// error; in swap-chain mode the misuse error is never returned.
    pub fn resize(&mut self, size: PixelSize) -> (r: Result<(), SurfaceError>)
        ensures
            final(self).has_swap_chain() == old(self).has_swap_chain(),
            !old(self).has_swap_chain() ==> (r matches Err(e) && e is NoAttachedSwapChain),
            old(self).has_swap_chain() ==> (r matches Err(e) ==> e is Gpu),
    {
        match &self.swap_chain {
            Some(chain) => match sm_swap_chain_resize(
                chain,
                &mut self.device,
                &mut self.context,
                size,
            ) {
                Ok(()) => Ok(()),
                Err(e) => Err(SurfaceError::Gpu(e)),
            },
            None => Err(SurfaceError::NoAttachedSwapChain),
        }
    }

    /// Presents a finished frame. In swap-chain mode this swaps the chain's
    /// buffers; in widget mode it unbinds the bound surface, presents it via
    /// the device's native present call, and rebinds it. If rebinding fails,
    /// the surface is destroyed before the error propagates, as at
    /// construction. The misuse error of `resize` is never returned.
    pub fn present(&mut self) -> (r: Result<(), SurfaceError>)
        ensures
            final(self).has_swap_chain() == old(self).has_swap_chain(),
            r matches Err(e) ==> !(e is NoAttachedSwapChain),
            old(self).has_swap_chain() ==> (r matches Err(e) ==> e is Gpu),
    {
        match &self.swap_chain {
            Some(chain) => {
                return match sm_swap_chain_swap_buffers(
                    chain,
                    &mut self.device,
                    &mut self.context,
                ) {
                    Ok(()) => Ok(()),
                    Err(e) => Err(SurfaceError::Gpu(e)),
                };
            },
            None => (),
        }
        let unbound = match sm_unbind_surface_from_context(&self.device, &mut self.context) {
            Ok(s) => s,
            Err(e) => return Err(SurfaceError::Gpu(e)),
        };
        let mut surface = match unbound {
            Some(s) => s,
            None => return Err(SurfaceError::NoBoundSurface),
        };
        match sm_present_surface(&self.device, &self.context, &mut surface) {
            Ok(()) => (),
            Err(e) => return Err(SurfaceError::Gpu(e)),
        }
        match sm_bind_surface_to_context(&self.device, &mut self.context, surface) {
            Ok(()) => Ok(()),
            Err((e, mut rejected)) => {
                let _ = sm_destroy_surface(&self.device, &mut self.context, &mut rejected);
                Err(SurfaceError::Gpu(e))
            },
        }
    }

    /// The display server connection the device was created with.
    pub fn connection(&self) -> Connection {
        sm_device_connection(&self.device)
    }

    /// The adapter the device was created with.
    pub fn adapter(&self) -> Adapter {
        sm_device_adapter(&self.device)
    }

    /// The native context handle underlying the owned context.
    pub fn native_context(&self) -> NativeContext {
        sm_native_context(&self.device, &self.context)
    }

    /// The native device handle underlying the owned device.
    pub fn native_device(&self) -> NativeDevice {
        sm_native_device(&self.device)
    }

    /// The attributes the owned context was created with.
    pub fn context_attributes(&self) -> ContextAttributes {
        let descriptor = sm_context_descriptor(&self.device, &self.context);
        sm_context_descriptor_attributes(&self.device, &descriptor)
    }

    /// Information about the surface currently bound to the context, if any.
    pub fn context_surface_info(&self) -> (r: Result<Option<SurfaceInfo>, SurfaceError>)
        ensures
            r matches Err(e) ==> e is Gpu,
    {
        match sm_context_surface_info(&self.device, &self.context) {
            Ok(info) => Ok(info),
            Err(e) => Err(SurfaceError::Gpu(e)),
        }
    }

    /// Information about a given surface.
    pub fn surface_info(&self, surface: &Surface) -> SurfaceInfo {
        sm_surface_info(&self.device, surface)
    }

    /// The GL texture object carrying a surface texture's contents.
    pub fn surface_texture_object(&self, surface_texture: &SurfaceTexture) -> u32 {
        sm_surface_texture_object(&self.device, surface_texture)
    }

    /// The address of the named GL symbol, scoped to the owned context, as a
    /// plain integer (zero when the symbol is unknown to the driver). GL
    /// symbol names are plain identifiers: a name with an interior NUL
    /// character is excluded, because the platform lookup cannot represent
    /// one.
    pub fn get_proc_address(&self, name: &str) -> (r: usize)
        requires
            forall|i: int| 0 <= i < name@.len() ==> name@[i] != '\0',
    {
        sm_get_proc_address(&self.device, &self.context, name)
    }

    /// Tears the manager down in the required order: the swap chain (if any)
    /// is destroyed against the device and context first, because it holds a
    /// reference into the context, and only then is the context destroyed.
    /// Errors from either step are swallowed: destruction has no caller left
    /// to report to, and a swap-chain teardown failure must not prevent
    /// context destruction.
    pub fn destroy(self) {
        let WebrenderSurfman { mut device, mut context, swap_chain } = self;
        match swap_chain {
            Some(chain) => {
                let _ = sm_swap_chain_destroy(&chain, &mut device, &mut context);
            },
            None => (),
        }
        let _ = sm_destroy_context(&device, &mut context);
    }
}

/// Relies on `surfman::Connection::create_device`: opens the GPU device
/// described by the adapter.
#[verifier::external_body]
fn sm_create_device(connection: &Connection, adapter: &Adapter) -> (r: Result<
    Device,
    surfman::Error,
>) {
    connection.create_device(adapter)
}

/// Relies on `surfman::Device::create_context_descriptor`: derives a
/// device-local context descriptor from the attributes.
#[verifier::external_body]
fn sm_create_context_descriptor(device: &Device, attributes: &ContextAttributes) -> (r: Result<
    ContextDescriptor,
    surfman::Error,
>) {
    device.create_context_descriptor(attributes)
}

/// Relies on `surfman::Device::create_context`, sharing with no other
/// context: the new context has no surface attached yet.
#[verifier::external_body]
fn sm_create_context(device: &mut Device, descriptor: &ContextDescriptor) -> (r: Result<
    Context,
    surfman::Error,
>) {
    device.create_context(descriptor, None)
}

/// Relies on `surfman::Device::create_surface` with GPU-only access,
/// building the widget or generic surface type from the target.
#[verifier::external_body]
fn sm_create_surface(device: &mut Device, context: &Context, target: SurfaceTarget) -> (r: Result<
    Surface,
    surfman::Error,
>) {
    let surface_type = match target {
        SurfaceTarget::Widget { native_widget } => surfman::SurfaceType::Widget { native_widget },
        SurfaceTarget::Generic { size } => surfman::SurfaceType::Generic {
            size: euclid::default::Size2D::new(size.width, size.height),
        },
    };
    device.create_surface(context, surfman::SurfaceAccess::GPUOnly, surface_type)
}

/// Relies on `surfman::Device::bind_surface_to_context`: attaches the
/// surface to the context; on failure the same surface is returned beside
/// the error, as the device documentation states.
#[verifier::external_body]
fn sm_bind_surface_to_context(device: &Device, context: &mut Context, surface: Surface) -> (r:
    Result<(), (surfman::Error, Surface)>)
    ensures
        r matches Err(p) ==> p.1 == surface,
{
    device.bind_surface_to_context(context, surface)
}

/// Relies on `surfman::Device::unbind_surface_from_context`: detaches and
/// returns the bound surface, or `None` when no surface is bound.
#[verifier::external_body]
fn sm_unbind_surface_from_context(device: &Device, context: &mut Context) -> (r: Result<
    Option<Surface>,
    surfman::Error,
>) {
    device.unbind_surface_from_context(context)
}

/// Relies on `surfman::Device::destroy_surface`: disposes of a surface
/// against the context it was created with.
#[verifier::external_body]
fn sm_destroy_surface(device: &Device, context: &mut Context, surface: &mut Surface) -> (r: Result<
    (),
    surfman::Error,
>) {
    device.destroy_surface(context, surface)
}

/// Relies on `surfman::Device::create_surface_texture`: imports a surface
/// into a texture local to the context; on failure the same surface is
/// returned beside the error, as the device documentation states.
#[verifier::external_body]
fn sm_create_surface_texture(device: &Device, context: &mut Context, surface: Surface) -> (r:
    Result<SurfaceTexture, (surfman::Error, Surface)>)
    ensures
        r matches Err(p) ==> p.1 == surface,
{
    device.create_surface_texture(context, surface)
}

/// Relies on `surfman::Device::destroy_surface_texture`: recovers the
/// underlying surface; on failure the same surface texture is returned
/// beside the error, as the device documentation states.
#[verifier::external_body]
fn sm_destroy_surface_texture(
    device: &Device,
    context: &mut Context,
    surface_texture: SurfaceTexture,
) -> (r: Result<Surface, (surfman::Error, SurfaceTexture)>)
    ensures
        r matches Err(p) ==> p.1 == surface_texture,
{
    device.destroy_surface_texture(context, surface_texture)
}

/// Relies on `surfman::Device::make_context_current`: makes the context the
/// calling thread's current GL context.
#[verifier::external_body]
fn sm_make_context_current(device: &Device, context: &Context) -> (r: Result<(), surfman::Error>) {
    device.make_context_current(context)
}

/// Relies on `surfman::Device::present_surface`: displays a widget
/// surface's contents on screen.
#[verifier::external_body]
fn sm_present_surface(device: &Device, context: &Context, surface: &mut Surface) -> (r: Result<
    (),
    surfman::Error,
>) {
    device.present_surface(context, surface)
}

/// Relies on `surfman::Device::destroy_context`: destroys the context,
/// which must not be used afterwards.
#[verifier::external_body]
fn sm_destroy_context(device: &Device, context: &mut Context) -> (r: Result<(), surfman::Error>) {
    device.destroy_context(context)
}

/// Relies on `surfman_chains::SwapChain::create_attached` with GPU-only
/// access: attaches a new swap chain to the context, whose bound surface
/// becomes the chain's back buffer. `create_attached` reads the context's
/// bound surface and aborts on a context without one, so the body first asks
/// `surfman::Device::context_surface_info` and reports an error instead of
/// calling into `surfman_chains` with such a context.
#[verifier::external_body]
fn sm_create_attached_swap_chain(device: &mut Device, context: &mut Context) -> (r: Result<
    AttachedSwapChain,
    surfman::Error,
>) {
    match device.context_surface_info(context) {
        Ok(Some(_)) => (),
        Ok(None) => return Err(surfman::Error::Failed),
        Err(e) => return Err(e),
    }
    SwapChain::create_attached(device, context, surfman::SurfaceAccess::GPUOnly).map(
        AttachedSwapChain,
    )
}

/// Relies on `surfman_chains::SwapChain::swap_buffers`, without preserving
/// the old buffer contents: swaps the chain's back and front buffers. An
/// attached chain takes the context's bound surface and aborts when there is
/// none, so the body first asks `surfman::Device::context_surface_info` and
/// reports an error instead of calling into `surfman_chains` then.
#[verifier::external_body]
fn sm_swap_chain_swap_buffers(
    chain: &AttachedSwapChain,
    device: &mut Device,
    context: &mut Context,
) -> (r: Result<(), surfman::Error>) {
    match device.context_surface_info(context) {
        Ok(Some(_)) => (),
        Ok(None) => return Err(surfman::Error::Failed),
        Err(e) => return Err(e),
    }
    chain.0.swap_buffers(device, context, surfman_chains::PreserveBuffer::No)
}

/// Relies on `surfman_chains::SwapChain::resize`: replaces the chain's back
/// buffer with one of the given size (a size under one pixel in either
/// direction is refused by the chain as an error). The same bound-surface
/// guard as for the buffer swap applies.
#[verifier::external_body]
fn sm_swap_chain_resize(
    chain: &AttachedSwapChain,
    device: &mut Device,
    context: &mut Context,
    size: PixelSize,
) -> (r: Result<(), surfman::Error>) {
    match device.context_surface_info(context) {
        Ok(Some(_)) => (),
        Ok(None) => return Err(surfman::Error::Failed),
        Err(e) => return Err(e),
    }
    chain.0.resize(device, context, euclid::default::Size2D::new(size.width, size.height))
}

/// Relies on `surfman_chains::SwapChain::destroy`: destroys the chain's
/// surfaces against the producing device and context. The same bound-surface
/// guard as for the buffer swap applies, so teardown reports an error rather
/// than aborting on a context whose surface is gone.
#[verifier::external_body]
fn sm_swap_chain_destroy(
    chain: &AttachedSwapChain,
    device: &mut Device,
    context: &mut Context,
) -> (r: Result<(), surfman::Error>) {
    match device.context_surface_info(context) {
        Ok(Some(_)) => (),
        Ok(None) => return Err(surfman::Error::Failed),
        Err(e) => return Err(e),
    }
    chain.0.destroy(device, context)
}

/// Relies on `surfman::Device::connection`.
#[verifier::external_body]
fn sm_device_connection(device: &Device) -> (r: Connection) {
    device.connection()
}

/// Relies on `surfman::Device::adapter`.
#[verifier::external_body]
fn sm_device_adapter(device: &Device) -> (r: Adapter) {
    device.adapter()
}

/// Relies on `surfman::Device::native_context`. The device and context
/// types here are the default Unix (Wayland/EGL) backend's own, so the call
/// only rewraps the context's EGL handle; the cross-backend pairing that the
/// multi-backend device would refuse cannot arise.
#[verifier::external_body]
fn sm_native_context(device: &Device, context: &Context) -> (r: NativeContext) {
    device.native_context(context)
}

/// Relies on `surfman::Device::native_device`.
#[verifier::external_body]
fn sm_native_device(device: &Device) -> (r: NativeDevice) {
    device.native_device()
}

/// Relies on `surfman::Device::context_descriptor`: the descriptor the
/// context was created with, reread from the context's EGL configuration.
/// On the default Unix (Wayland/EGL) backend this is a plain query with no
/// cross-backend pairing to go wrong.
#[verifier::external_body]
fn sm_context_descriptor(device: &Device, context: &Context) -> (r: ContextDescriptor) {
    device.context_descriptor(context)
}

/// Relies on `surfman::Device::context_descriptor_attributes`: the
/// attributes the descriptor was created with, reread from the descriptor's
/// EGL configuration. On the default Unix (Wayland/EGL) backend this is a
/// plain query with no cross-backend pairing to go wrong.
#[verifier::external_body]
fn sm_context_descriptor_attributes(device: &Device, descriptor: &ContextDescriptor) -> (r:
    ContextAttributes) {
    device.context_descriptor_attributes(descriptor)
}

/// Relies on `surfman::Device::context_surface_info`.
#[verifier::external_body]
fn sm_context_surface_info(device: &Device, context: &Context) -> (r: Result<
    Option<SurfaceInfo>,
    surfman::Error,
>) {
    device.context_surface_info(context)
}

/// Relies on `surfman::Device::surface_info`. On the default Unix
/// (Wayland/EGL) backend this reads the surface's own fields, whichever
/// device the surface came from.
#[verifier::external_body]
fn sm_surface_info(device: &Device, surface: &Surface) -> (r: SurfaceInfo) {
    device.surface_info(surface)
}

/// Relies on `surfman::Device::surface_texture_object`. On the default
/// Unix (Wayland/EGL) backend this reads the texture's own field, whichever
/// device the texture came from.
#[verifier::external_body]
fn sm_surface_texture_object(device: &Device, surface_texture: &SurfaceTexture) -> (r: u32) {
    device.surface_texture_object(surface_texture)
}

/// Relies on `surfman::Device::get_proc_address`; the symbol's address is
/// handed on as a plain integer. The EGL lookup under it turns the name into
/// a C string and aborts on an interior NUL character, so such names are
/// excluded here.
#[verifier::external_body]
fn sm_get_proc_address(device: &Device, context: &Context, name: &str) -> (r: usize)
    requires
        forall|i: int| 0 <= i < name@.len() ==> name@[i] != '\0',
{
    device.get_proc_address(context, name) as usize
}

} // verus!
