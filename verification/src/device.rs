//! The device: factory and owner of contexts.
//!
//! The device mediates every lifecycle transition. The native CGL calls
//! themselves stand outside the library; the embedding performs them and
//! hands their outcomes in as plain event values (a zero native code means
//! success). Every decision taken on such an outcome — which typed error it
//! becomes, how the context and the device state change — is verified here.
//! The native actions the library orders (making a handle current, flushing
//! the command stream, destroying a handle) are recorded in the device state,
//! so the contracts can say when each is performed.

use vstd::prelude::*;

use crate::attributes::{
    attributes_of, descriptor_for, pixel_format_request_spec, ContextAttributeFlags,
    ContextAttributes, ContextDescriptor, GLVersion, CGL_PFA_ALLOW_OFFLINE_RENDERERS,
    CGL_PFA_ALPHA_SIZE, CGL_PFA_DEPTH_SIZE, CGL_PFA_OPENGL_PROFILE, CGL_PFA_STENCIL_SIZE,
    PROFILE_3_2_CORE, PROFILE_4_CORE, PROFILE_LEGACY,
};
use crate::context::{
    bind_result, bind_transition, destroy_fires_native, destroy_result, destroy_transition,
    unbind_result, unbind_transition, Context, ContextID, Framebuffer, NativeContext,
    NO_NATIVE_HANDLE,
};
use crate::error::Error;
use crate::registry::ContextRegistry;
use crate::surface::{info_of, Surface, SurfaceInfo};

verus! {

/// The outcome of the native pixel-format selection call: its error code
/// (zero on success) and the number of matching formats it reported.
#[derive(Clone, Copy, Debug, PartialEq, Eq, Structural)]
pub struct PixelFormatSelection {
    /// The native error code; zero means the call succeeded.
    pub error: i32,
    /// How many formats matched the request.
    pub num_formats: i32,
}

/// The combined outcome of the two native calls context creation makes: the
/// context-creation call, and the make-current call that follows it.
#[derive(Clone, Copy, Debug, PartialEq, Eq, Structural)]
pub enum ContextCreationEvent {
    /// The native context-creation call failed with this nonzero code.
    CreationFailed {
        /// The native error code.
        error: i32,
    },
    /// The native context was created, but making it current failed.
    CurrentFailed {
        /// The handle the creation call produced.
        handle: u64,
        /// The native error code of the make-current call.
        error: i32,
    },
    /// Both native calls succeeded.
    Created {
        /// The handle the creation call produced.
        handle: u64,
    },
}

impl ContextCreationEvent {
    /// An event is well formed when its error codes are nonzero and its
    /// handles are real: the native calls report zero exactly on success and
    /// never produce the sentinel as a handle.
    pub open spec fn wf(self) -> bool {
        match self {
            ContextCreationEvent::CreationFailed { error } => error != 0,
            ContextCreationEvent::CurrentFailed { handle, error } => handle != NO_NATIVE_HANDLE
                && error != 0,
            ContextCreationEvent::Created { handle } => handle != NO_NATIVE_HANDLE,
        }
    }
}

/// A scoped save/restore token around the single piece of state "the current
/// context": it captures whatever handle was current when it was made and, on
/// release, restores that handle as current.
#[must_use]
pub struct CurrentContextGuard {
    /// The handle that was current when the guard was made.
    pub saved_native: u64,
}

/// The factory and owner: creates descriptors, creates and destroys contexts,
/// binds and unbinds surfaces, and mediates current-context transitions.
pub struct Device {
    /// Whether the adapter this device was opened on is marked low-power; a
    /// low-power adapter opts pixel-format selection into offline renderers.
    pub adapter_is_low_power: bool,
    /// The registry serializing creation and id allocation for this device.
    pub registry: ContextRegistry,
    /// The handle of the context current on this thread; the sentinel when no
    /// context is current.
    pub current_native: u64,
    /// The handles on which a command-stream flush has been performed, in
    /// order. Each flush runs while its context is current.
    pub flushed: Ghost<Seq<u64>>,
    /// The handles passed to the native destroy primitive, in order.
    pub native_destroys: Ghost<Seq<u64>>,
}

impl Device {
    /// The device is well formed when its registry is.
    pub open spec fn wf(self) -> bool {
        self.registry.wf()
    }

    /// The same device with another handle current.
    pub open spec fn with_current(self, current: u64) -> Device {
        Device { current_native: current, ..self }
    }

    /// Opens a device on an adapter. No context exists and none is current.
    pub fn new(adapter_is_low_power: bool) -> (d: Device)
        ensures
            d.wf(),
            d.adapter_is_low_power == adapter_is_low_power,
            d.registry.next_id == 0,
            d.registry.live@ == Set::<u64>::empty(),
            d.current_native == NO_NATIVE_HANDLE,
            d.flushed@ == Seq::<u64>::empty(),
            d.native_destroys@ == Seq::<u64>::empty(),
    {
        Device {
            adapter_is_low_power,
            registry: ContextRegistry::new(),
            current_native: NO_NATIVE_HANDLE,
            flushed: Ghost(Seq::empty()),
            native_destroys: Ghost(Seq::empty()),
        }
    }

    /// The attribute list to hand to the native pixel-format selection call
    /// for a requested attribute set: the profile tier for the requested
    /// major version, the buffer sizes the flags select, an opt-in to offline
    /// renderers when the adapter is low-power, and a terminating zero pair.
    pub fn pixel_format_request(&self, attributes: &ContextAttributes) -> (r: Vec<i32>)
        ensures
            r@ == pixel_format_request_spec(*attributes, self.adapter_is_low_power),
    {
        let profile = if attributes.version.major >= 4 {
            PROFILE_4_CORE
        } else if attributes.version.major == 3 {
            PROFILE_3_2_CORE
        } else {
            PROFILE_LEGACY
        };
        let alpha_size: i32 = if attributes.flags.alpha { 8 } else { 0 };
        let depth_size: i32 = if attributes.flags.depth { 24 } else { 0 };
        let stencil_size: i32 = if attributes.flags.stencil { 8 } else { 0 };

        let mut request: Vec<i32> = Vec::new();
        request.push(CGL_PFA_OPENGL_PROFILE);
        request.push(profile);
        request.push(CGL_PFA_ALPHA_SIZE);
        request.push(alpha_size);
        request.push(CGL_PFA_DEPTH_SIZE);
        request.push(depth_size);
        request.push(CGL_PFA_STENCIL_SIZE);
        request.push(stencil_size);
        if self.adapter_is_low_power {
            request.push(CGL_PFA_ALLOW_OFFLINE_RENDERERS);
        }
        request.push(0);
        request.push(0);
        proof {
            assert(request@ =~= pixel_format_request_spec(*attributes, self.adapter_is_low_power));
        }
        request
    }

    /// Creates a context descriptor from the given attribute set and the
    /// outcome of the native selection call on the corresponding request.
    ///
    /// Fails with `PixelFormatSelectionFailed` carrying the native code when
    /// the call errored, with `NoPixelFormatFound` when it matched zero
    /// formats, and succeeds otherwise with the descriptor recording exactly
    /// the requested sizes and profile.
    pub fn create_context_descriptor(
        &self,
        attributes: &ContextAttributes,
        selection: &PixelFormatSelection,
    ) -> (r: Result<ContextDescriptor, Error>)
        ensures
            selection.error != 0 ==> r == Err::<ContextDescriptor, Error>(
                Error::PixelFormatSelectionFailed(selection.error),
            ),
            selection.error == 0 && selection.num_formats == 0 ==> r == Err::<
                ContextDescriptor,
                Error,
            >(Error::NoPixelFormatFound),
            selection.error == 0 && selection.num_formats != 0 ==> r == Ok::<
                ContextDescriptor,
                Error,
            >(descriptor_for(*attributes)),
            r matches Ok(d) ==> d.wf(),
    {
        if selection.error != 0 {
            return Err(Error::PixelFormatSelectionFailed(selection.error));
        }
        if selection.num_formats == 0 {
            return Err(Error::NoPixelFormatFound);
        }
        let profile = if attributes.version.major >= 4 {
            PROFILE_4_CORE
        } else if attributes.version.major == 3 {
            PROFILE_3_2_CORE
        } else {
            PROFILE_LEGACY
        };
        Ok(
            ContextDescriptor {
                alpha_size: if attributes.flags.alpha { 8 } else { 0 },
                depth_size: if attributes.flags.depth { 24 } else { 0 },
                stencil_size: if attributes.flags.stencil { 8 } else { 0 },
                gl_profile: profile,
            },
        )
    }

    /// Reads back the attributes a descriptor represents: each buffer flag is
    /// present exactly when its recorded size is nonzero, and the version is
    /// decoded from the profile value's version bits. The decoding is lossy
    /// by construction: only the profile tier comes back, not the exact
    /// version that was requested.
    pub fn context_descriptor_attributes(&self, context_descriptor: &ContextDescriptor) -> (a:
        ContextAttributes)
        requires
            context_descriptor.profile_wf(),
        ensures
            a == attributes_of(*context_descriptor),
    {
        let p = context_descriptor.gl_profile;
        proof {
            assert(((0x1000i32 >> 12) & 0xf) == 1i32 && ((0x1000i32 >> 8) & 0xf) == 0i32)
                by (bit_vector);
            assert(((0x3200i32 >> 12) & 0xf) == 3i32 && ((0x3200i32 >> 8) & 0xf) == 2i32)
                by (bit_vector);
            assert(((0x4100i32 >> 12) & 0xf) == 4i32 && ((0x4100i32 >> 8) & 0xf) == 1i32)
                by (bit_vector);
        }
        let major_bits = (p >> 12) & 0xf;
        let minor_bits = (p >> 8) & 0xf;
        ContextAttributes {
            version: GLVersion { major: major_bits as u8, minor: minor_bits as u8 },
            flags: ContextAttributeFlags {
                alpha: context_descriptor.alpha_size != 0,
                depth: context_descriptor.depth_size != 0,
                stencil: context_descriptor.stencil_size != 0,
            },
        }
    }

    /// Creates a context from a descriptor and the outcome of the two native
    /// calls creation makes.
    ///
    /// Fails with `ContextCreationFailed` when the native creation failed and
    /// with `MakeCurrentFailed` when the fresh context could not be made
    /// current; in both cases nothing changes. On success the context carries
    /// an owned native context with the fresh handle, the next id — which no
    /// live context holds — an empty framebuffer slot, and the descriptor it
    /// was created from; the fresh handle becomes current.
    pub fn create_context(&mut self, descriptor: &ContextDescriptor, event: &ContextCreationEvent)
        -> (r: Result<Context, Error>)
        requires
            old(self).wf(),
            old(self).registry.next_id < u64::MAX,
            event.wf(),
        ensures
            final(self).wf(),
            match *event {
                ContextCreationEvent::CreationFailed { error } => {
                    &&& *final(self) == *old(self)
                    &&& r matches Err(e) && e == Error::ContextCreationFailed(error)
                },
                ContextCreationEvent::CurrentFailed { handle, error } => {
                    &&& *final(self) == *old(self)
                    &&& r matches Err(e) && e == Error::MakeCurrentFailed(error)
                },
                ContextCreationEvent::Created { handle } => {
                    &&& r matches Ok(c) && c == (Context {
                        native_context: NativeContext::Owned { handle },
                        id: ContextID(old(self).registry.next_id),
                        framebuffer: Framebuffer::NoSurface,
                        descriptor: *descriptor,
                    })
                    &&& !old(self).registry.live@.contains(old(self).registry.next_id)
                    &&& final(self).registry.next_id == old(self).registry.next_id + 1
                    &&& final(self).registry.live@ == old(self).registry.live@.insert(
                        old(self).registry.next_id,
                    )
                    &&& final(self).current_native == handle
                    &&& final(self).adapter_is_low_power == old(self).adapter_is_low_power
                    &&& final(self).flushed == old(self).flushed
                    &&& final(self).native_destroys == old(self).native_destroys
                },
            },
    {
        match event {
            ContextCreationEvent::CreationFailed { error } => Err(
                Error::ContextCreationFailed(*error),
            ),
            ContextCreationEvent::CurrentFailed { handle: _, error } => Err(
                Error::MakeCurrentFailed(*error),
            ),
            ContextCreationEvent::Created { handle } => {
                let id = self.registry.allocate();
                self.current_native = *handle;
                Ok(
                    Context {
                        native_context: NativeContext::Owned { handle: *handle },
                        id,
                        framebuffer: Framebuffer::NoSurface,
                        descriptor: *descriptor,
                    },
                )
            },
        }
    }

    /// Opens the device and context corresponding to the current native
    /// context, adopting a handle created outside this library.
    ///
    /// The caller passes the handle the native API reports as current —
    /// adoption presupposes one is current — and the pixel format it reports
    /// for that handle. The adopted context's render target is external:
    /// every surface binding operation on it is refused, and destroying it
    /// only forgets the handle locally, since this library did not create it.
    pub fn from_current_context(
        current_native: u64,
        descriptor: ContextDescriptor,
        adapter_is_low_power: bool,
    ) -> (r: Result<(Device, Context), Error>)
        requires
            current_native != NO_NATIVE_HANDLE,
        ensures
            r matches Ok(p) && ({
                let (d, c) = p;
                &&& d.wf()
                &&& d.adapter_is_low_power == adapter_is_low_power
                &&& d.registry.next_id == 1
                &&& d.registry.live@ == Set::<u64>::empty().insert(0)
                &&& d.current_native == current_native
                &&& d.flushed@ == Seq::<u64>::empty()
                &&& d.native_destroys@ == Seq::<u64>::empty()
                &&& c == (Context {
                    native_context: NativeContext::External { handle: current_native },
                    id: ContextID(0),
                    framebuffer: Framebuffer::External,
                    descriptor,
                })
            }),
    {
        let mut device = Device::new(adapter_is_low_power);
        let id = device.registry.allocate();
        device.current_native = current_native;
        let context = Context {
            native_context: NativeContext::External { handle: current_native },
            id,
            framebuffer: Framebuffer::External,
            descriptor,
        };
        Ok((device, context))
    }

    /// Destroys a context, given the outcome the surface subsystem reported
    /// for destroying the bound surface — consulted only when a surface is
    /// bound. Idempotent: an already-destroyed context is left untouched and
    /// the call succeeds again.
    ///
    /// Otherwise any bound surface is detached and destroyed first; a failure
    /// from the surface subsystem propagates unchanged, leaving the surface
    /// detached but the native context alive, its id live, and the device
    /// untouched, so the destroy can be retried. When nothing fails the
    /// context's id retires from the live set and the native context is
    /// forgotten. For a library-owned native context the native destroy
    /// primitive runs — exactly once over the context's lifetime — and the
    /// thread is left with no current context; an adopted native context is
    /// only forgotten locally and the current context does not change.
    pub fn destroy_context(
        &mut self,
        context: &mut Context,
        surface_destroy: &Result<(), Error>,
    ) -> (r: Result<(), Error>)
        requires
            old(self).wf(),
        ensures
            final(self).wf(),
            r == destroy_result(*old(context), *surface_destroy),
            *final(context) == destroy_transition(*old(context), *surface_destroy),
            old(context).native_context.spec_is_destroyed() ==> *final(self) == *old(self),
            (r matches Err(_)) ==> *final(self) == *old(self),
            !old(context).native_context.spec_is_destroyed() && r == Ok::<(), Error>(()) ==> {
                &&& final(self).registry.next_id == old(self).registry.next_id
                &&& final(self).registry.live@ == old(self).registry.live@.remove(
                    old(context).id.0,
                )
                &&& final(self).adapter_is_low_power == old(self).adapter_is_low_power
                &&& final(self).flushed == old(self).flushed
                &&& (destroy_fires_native(*old(context), *surface_destroy)
                    ==> final(self).native_destroys@ == old(self).native_destroys@.push(
                    old(context).native_context.spec_handle(),
                ) && final(self).current_native == NO_NATIVE_HANDLE)
                &&& (!destroy_fires_native(*old(context), *surface_destroy)
                    ==> final(self).native_destroys == old(self).native_destroys
                    && final(self).current_native == old(self).current_native)
            },
    {
        if context.native_context.is_destroyed() {
            return Ok(());
        }

        let framebuffer = context.framebuffer;
        context.framebuffer = Framebuffer::NoSurface;
        if let Framebuffer::Surface(surface) = framebuffer {
            match self.destroy_surface(context, surface, surface_destroy) {
                Ok(()) => {},
                Err(e) => {
                    return Err(e);
                },
            }
        }

        self.registry.retire(context.id);
        match context.native_context {
            NativeContext::Owned { .. } => {
                // The native destroy primitive first clears the current
                // context, then destroys the handle.
                self.current_native = NO_NATIVE_HANDLE;
                self.native_destroys = Ghost(
                    self.native_destroys@.push(context.native_context.spec_handle()),
                );
            },
            NativeContext::External { .. } => {},
        }
        context.native_context.destroy();
        Ok(())
    }

    /// Destroys a surface that was detached from its context, given the
    /// outcome the surface subsystem reported for it.
    ///
    /// This models the surface subsystem, an external collaborator: it
    /// consumes the surface and passes the subsystem's verdict through
    /// unchanged, so a failure propagates as-is through `destroy_context`.
    pub fn destroy_surface(
        &self,
        _context: &Context,
        _surface: Surface,
        outcome: &Result<(), Error>,
    ) -> (r: Result<(), Error>)
        ensures
            r == *outcome,
    {
        *outcome
    }

    /// Returns the descriptor the context was created with (for an adopted
    /// context, the one recorded at adoption).
    pub fn context_descriptor(&self, context: &Context) -> (d: ContextDescriptor)
        ensures
            d == context.descriptor,
    {
        context.descriptor
    }

    /// Makes the context the current rendering context for this thread, given
    /// the outcome of the native make-current call on its handle. Fails with
    /// `MakeCurrentFailed` carrying the native code exactly when that call
    /// failed, and then changes nothing.
    pub fn make_context_current(&mut self, context: &Context, native_result: i32) -> (r: Result<
        (),
        Error,
    >)
        requires
            !context.native_context.spec_is_destroyed(),
        ensures
            native_result == 0 ==> r == Ok::<(), Error>(()) && *final(self) == old(
                self,
            ).with_current(context.native_context.spec_handle()),
            native_result != 0 ==> r == Err::<(), Error>(Error::MakeCurrentFailed(native_result))
                && *final(self) == *old(self),
    {
        if native_result != 0 {
            return Err(Error::MakeCurrentFailed(native_result));
        }
        self.current_native = context.native_context.cgl_context();
        Ok(())
    }

    /// Makes this thread have no current rendering context, given the outcome
    /// of the native make-current call on the null handle. Fails with
    /// `MakeCurrentFailed` exactly when that call failed, and then changes
    /// nothing.
    pub fn make_no_context_current(&mut self, native_result: i32) -> (r: Result<(), Error>)
        ensures
            native_result == 0 ==> r == Ok::<(), Error>(()) && *final(self) == old(
                self,
            ).with_current(NO_NATIVE_HANDLE),
            native_result != 0 ==> r == Err::<(), Error>(Error::MakeCurrentFailed(native_result))
                && *final(self) == *old(self),
    {
        if native_result != 0 {
            return Err(Error::MakeCurrentFailed(native_result));
        }
        self.current_native = NO_NATIVE_HANDLE;
        Ok(())
    }

    /// Makes the context current for a scoped region: captures the presently
    /// current handle in a guard and makes the context current. Releasing the
    /// guard restores the captured handle as current. This is the sanctioned
    /// pattern for one operation against a context without permanently
    /// changing which context is current.
    pub fn temporarily_make_context_current(&mut self, context: &Context, native_result: i32)
        -> (r: Result<CurrentContextGuard, Error>)
        requires
            !context.native_context.spec_is_destroyed(),
        ensures
            native_result == 0 ==> ({
                &&& r matches Ok(g) && g.saved_native == old(self).current_native
                &&& *final(self) == old(self).with_current(context.native_context.spec_handle())
            }),
            native_result != 0 ==> ({
                &&& r matches Err(e) && e == Error::MakeCurrentFailed(native_result)
                &&& *final(self) == *old(self)
            }),
    {
        let guard = CurrentContextGuard { saved_native: self.current_native };
        match self.make_context_current(context, native_result) {
            Ok(()) => Ok(guard),
            Err(e) => Err(e),
        }
    }

    /// Attaches a surface to this context.
    ///
    /// Fails with `ExternalRenderTarget` on an adopted context, with
    /// `SurfaceAlreadyBound` when a surface is already attached — the bound
    /// surface remains bound — and with `IncompatibleSurface` when the
    /// surface's owning-context id differs from this context's id. Otherwise
    /// the surface becomes the context's render target. A refused bind leaves
    /// the context unchanged.
    pub fn bind_surface_to_context(&self, context: &mut Context, new_surface: Surface) -> (r:
        Result<(), Error>)
        ensures
            r == bind_result(*old(context), new_surface),
            *final(context) == bind_transition(*old(context), new_surface),
    {
        match context.framebuffer {
            Framebuffer::External => {
                return Err(Error::ExternalRenderTarget);
            },
            Framebuffer::Surface(_) => {
                return Err(Error::SurfaceAlreadyBound);
            },
            Framebuffer::NoSurface => {},
        }

        if new_surface.context_id.0 != context.id.0 {
            return Err(Error::IncompatibleSurface);
        }

        context.framebuffer = Framebuffer::Surface(new_surface);
        Ok(())
    }

    /// Detaches the attached surface, if any, and returns it.
    ///
    /// Fails with `ExternalRenderTarget` on an adopted context. With no
    /// surface attached it succeeds returning `None` and changes nothing.
    /// Otherwise the surface is detached and, before it is returned, a
    /// command-stream flush is performed while the context is temporarily
    /// current — `native_result` is the native outcome of that temporary
    /// make-current — so that all rendering to the surface is synchronized;
    /// the previously current handle is restored afterwards. When the context
    /// cannot be made current the flush cannot run: the surface is dropped
    /// detached and `MakeCurrentFailed` is returned.
    pub fn unbind_surface_from_context(&mut self, context: &mut Context, native_result: i32) -> (r:
        Result<Option<Surface>, Error>)
        requires
            old(context).framebuffer matches Framebuffer::Surface(_)
                ==> !old(context).native_context.spec_is_destroyed(),
        ensures
            r == unbind_result(*old(context), native_result),
            *final(context) == unbind_transition(*old(context)),
            !(old(context).framebuffer matches Framebuffer::Surface(_)) ==> *final(self) == *old(
                self,
            ),
            old(context).framebuffer matches Framebuffer::Surface(_) && native_result != 0
                ==> *final(self) == *old(self),
            old(context).framebuffer matches Framebuffer::Surface(_) && native_result == 0 ==> {
                &&& final(self).flushed@ == old(self).flushed@.push(
                    old(context).native_context.spec_handle(),
                )
                &&& final(self).current_native == old(self).current_native
                &&& final(self).registry == old(self).registry
                &&& final(self).adapter_is_low_power == old(self).adapter_is_low_power
                &&& final(self).native_destroys == old(self).native_destroys
            },
    {
        let framebuffer = context.framebuffer;
        match framebuffer {
            Framebuffer::External => Err(Error::ExternalRenderTarget),
            Framebuffer::NoSurface => Ok(None),
            Framebuffer::Surface(surface) => {
                context.framebuffer = Framebuffer::NoSurface;
                let guard = match self.temporarily_make_context_current(context, native_result) {
                    Ok(guard) => guard,
                    Err(e) => {
                        return Err(e);
                    },
                };
                // All rendering to the surface is synchronized here, while
                // the context is current, before the surface is handed back.
                self.flushed = Ghost(
                    self.flushed@.push(context.native_context.spec_handle()),
                );
                guard.restore(self);
                Ok(Some(surface))
            },
        }
    }

    /// Reads the current binding state: `None` when no surface is attached,
    /// the attached surface's info record when one is, and
    /// `ExternalRenderTarget` on an adopted context.
    pub fn context_surface_info(&self, context: &Context) -> (r: Result<Option<SurfaceInfo>, Error>)
        ensures
            match context.framebuffer {
                Framebuffer::NoSurface => r == Ok::<Option<SurfaceInfo>, Error>(None),
                Framebuffer::External => r == Err::<Option<SurfaceInfo>, Error>(
                    Error::ExternalRenderTarget,
                ),
                Framebuffer::Surface(s) => r == Ok::<Option<SurfaceInfo>, Error>(Some(info_of(s))),
            },
    {
        match context.framebuffer {
            Framebuffer::NoSurface => Ok(None),
            Framebuffer::External => Err(Error::ExternalRenderTarget),
            Framebuffer::Surface(surface) => Ok(Some(self.surface_info(&surface))),
        }
    }

    /// The descriptive record of a surface. Models the surface subsystem's
    /// info query.
    pub fn surface_info(&self, surface: &Surface) -> (i: SurfaceInfo)
        ensures
            i == info_of(*surface),
    {
        SurfaceInfo {
            id: surface.id,
            context_id: surface.context_id,
            width: surface.width,
            height: surface.height,
        }
    }

    /// The id of a context: unique among all currently-live contexts of this
    /// device's registry. After a context is destroyed, later contexts may
    /// reuse its id.
    pub fn context_id(&self, context: &Context) -> (id: ContextID)
        ensures
            id == context.id,
    {
        context.id
    }
}

impl CurrentContextGuard {
    /// Releases the guard: the handle that was current when the guard was
    /// made becomes current again. The native restore call's outcome is
    /// ignored, as scope-exit restoration cannot propagate an error.
    pub fn restore(self, device: &mut Device)
        ensures
            *final(device) == old(device).with_current(self.saved_native),
    {
        device.current_native = self.saved_native;
    }
}

} // verus!
