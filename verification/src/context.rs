//! Contexts, their native handles, and the framebuffer-binding state machine.

use vstd::prelude::*;

use crate::attributes::ContextDescriptor;
use crate::error::Error;
use crate::surface::Surface;

verus! {

/// Identifier of a context, allocated by the registry that serializes context
/// creation. Unique among all currently-live contexts of that registry; ids of
/// destroyed contexts may be reused.
#[derive(Clone, Copy, Debug, PartialEq, Eq, Structural)]
pub struct ContextID(pub u64);

/// The native handle value that stands for "no context". A destroyed native
/// context holds this sentinel in place of its former handle.
pub const NO_NATIVE_HANDLE: u64 = 0;

/// The native rendering-context handle behind a context, in its two kinds.
///
/// An `Owned` handle was created by this library and must be destroyed through
/// it, exactly once. An `External` handle was adopted from outside: the
/// library never invokes the native destroy primitive on it; destroying it
/// merely forgets the handle locally.
#[derive(Clone, Copy, Debug, PartialEq, Eq, Structural)]
pub enum NativeContext {
    /// A handle this library created and is responsible for destroying.
    Owned {
        /// The native handle; the sentinel once destroyed.
        handle: u64,
    },
    /// A borrowed handle created elsewhere and merely wrapped.
    External {
        /// The native handle; the sentinel once locally forgotten.
        handle: u64,
    },
}

impl NativeContext {
    /// The handle this native context carries, whatever its kind.
    pub open spec fn spec_handle(self) -> u64 {
        match self {
            NativeContext::Owned { handle } => handle,
            NativeContext::External { handle } => handle,
        }
    }

    /// A native context is destroyed when its handle has been replaced by the
    /// sentinel.
    pub open spec fn spec_is_destroyed(self) -> bool {
        self.spec_handle() == NO_NATIVE_HANDLE
    }

    /// The same native context with its handle forgotten: the destroyed state
    /// keeps the kind and replaces the handle by the sentinel.
    pub open spec fn forgotten(self) -> NativeContext {
        match self {
            NativeContext::Owned { .. } => NativeContext::Owned { handle: NO_NATIVE_HANDLE },
            NativeContext::External { .. } => NativeContext::External { handle: NO_NATIVE_HANDLE },
        }
    }

    /// Access to the live handle, only valid while not destroyed.
    pub fn cgl_context(&self) -> (h: u64)
        requires
            !self.spec_is_destroyed(),
        ensures
            h == self.spec_handle(),
    {
        match self {
            NativeContext::Owned { handle } => *handle,
            NativeContext::External { handle } => *handle,
        }
    }

    /// Whether this native context has been destroyed.
    pub fn is_destroyed(&self) -> (r: bool)
        ensures
            r == self.spec_is_destroyed(),
    {
        let h = match self {
            NativeContext::Owned { handle } => *handle,
            NativeContext::External { handle } => *handle,
        };
        h == NO_NATIVE_HANDLE
    }

    /// Marks this native context destroyed by forgetting its handle. For an
    /// owned handle the caller is responsible for also invoking the native
    /// destroy primitive; for an external handle there is nothing more to do.
    pub fn destroy(&mut self)
        requires
            !old(self).spec_is_destroyed(),
        ensures
            *final(self) == old(self).forgotten(),
    {
        match self {
            NativeContext::Owned { handle } => {
                *handle = NO_NATIVE_HANDLE;
            },
            NativeContext::External { handle } => {
                *handle = NO_NATIVE_HANDLE;
            },
        }
    }
}

/// The framebuffer-binding state of a context: exactly one of the three
/// states holds at any time.
#[derive(Clone, Copy, Debug, PartialEq, Eq, Structural)]
pub enum Framebuffer {
    /// No render target is bound.
    NoSurface,
    /// The render target is managed outside this library; binding and
    /// unbinding surfaces is illegal. A permanent state, entered only at
    /// adoption.
    External,
    /// Exactly one surface is attached.
    Surface(Surface),
}

/// A rendering context: the user-facing handle. It exclusively owns its
/// native context and its framebuffer slot, and carries its registry-assigned
/// id and the descriptor it was created from.
///
/// A context must be destroyed exactly once through the device's destroy
/// operation before it is discarded; destruction is explicit, never implicit.
pub struct Context {
    /// The native context behind this handle.
    pub native_context: NativeContext,
    /// This context's id.
    pub id: ContextID,
    /// The framebuffer-binding state.
    pub framebuffer: Framebuffer,
    /// The pixel format this context was created from. For an adopted context,
    /// the format the native API reports for the adopted handle.
    pub descriptor: ContextDescriptor,
}

/// What binding a surface to a context returns: refused on an external render
/// target, refused when a surface is already bound, refused when the surface's
/// owning-context id differs from the context's id, and accepted otherwise.
pub open spec fn bind_result(c: Context, s: Surface) -> Result<(), Error> {
    match c.framebuffer {
        Framebuffer::External => Err(Error::ExternalRenderTarget),
        Framebuffer::Surface(_) => Err(Error::SurfaceAlreadyBound),
        Framebuffer::NoSurface => if s.context_id != c.id {
            Err(Error::IncompatibleSurface)
        } else {
            Ok(())
        },
    }
}

/// The context after a bind attempt: the surface is attached exactly when the
/// bind is accepted; a refused bind leaves the context unchanged.
pub open spec fn bind_transition(c: Context, s: Surface) -> Context {
    if bind_result(c, s) == Ok::<(), Error>(()) {
        Context { framebuffer: Framebuffer::Surface(s), ..c }
    } else {
        c
    }
}

/// What unbinding returns: refused on an external render target; `None` when
/// no surface was bound; the bound surface when the command-stream flush could
/// run, that is when the context could be made current (`make_current_err` is
/// the native outcome of that temporary make-current, zero on success).
pub open spec fn unbind_result(c: Context, make_current_err: i32) -> Result<Option<Surface>, Error> {
    match c.framebuffer {
        Framebuffer::External => Err(Error::ExternalRenderTarget),
        Framebuffer::NoSurface => Ok(None),
        Framebuffer::Surface(s) => if make_current_err == 0 {
            Ok(Some(s))
        } else {
            Err(Error::MakeCurrentFailed(make_current_err))
        },
    }
}

/// The context after an unbind attempt: a bound surface is detached whether or
/// not the flush could run; the other states are left unchanged.
pub open spec fn unbind_transition(c: Context) -> Context {
    match c.framebuffer {
        Framebuffer::Surface(_) => Context { framebuffer: Framebuffer::NoSurface, ..c },
        _ => c,
    }
}

/// What destroying a context returns, given the outcome the surface subsystem
/// reported for destroying the bound surface (consulted only when one is
/// bound): an already-destroyed context succeeds again at once; a failure
/// destroying the bound surface propagates unchanged; otherwise destruction
/// succeeds.
pub open spec fn destroy_result(c: Context, surface_destroy: Result<(), Error>) -> Result<
    (),
    Error,
> {
    if c.native_context.spec_is_destroyed() {
        Ok(())
    } else {
        match (c.framebuffer, surface_destroy) {
            (Framebuffer::Surface(_), Err(e)) => Err(e),
            _ => Ok(()),
        }
    }
}

/// The context after a destroy attempt: a no-op on an already-destroyed
/// context. When the surface subsystem fails to destroy the bound surface,
/// the surface is already detached but the native context stays alive, so the
/// destroy can be retried. Otherwise the native context is forgotten and any
/// bound surface detached.
pub open spec fn destroy_transition(c: Context, surface_destroy: Result<(), Error>) -> Context {
    if c.native_context.spec_is_destroyed() {
        c
    } else {
        match (c.framebuffer, surface_destroy) {
            (Framebuffer::Surface(_), Err(_)) => Context {
                framebuffer: Framebuffer::NoSurface,
                ..c
            },
            _ => Context {
                native_context: c.native_context.forgotten(),
                framebuffer: Framebuffer::NoSurface,
                ..c
            },
        }
    }
}

/// Whether a destroy attempt reaches the native destroy primitive: only a
/// successful destroy of a not-yet-destroyed, library-owned native context is
/// destroyed natively.
pub open spec fn destroy_fires_native(c: Context, surface_destroy: Result<(), Error>) -> bool {
    &&& destroy_result(c, surface_destroy) == Ok::<(), Error>(())
    &&& !c.native_context.spec_is_destroyed()
    &&& c.native_context matches NativeContext::Owned { .. }
}

/// Law: a bind succeeds exactly on a context with no bound surface and a
/// surface whose owning-context id equals the context's id; an id mismatch is
/// refused as an incompatible surface and mutates nothing.
pub proof fn lemma_bind_requires_matching_owner(c: Context, s: Surface)
    requires
        c.framebuffer matches Framebuffer::NoSurface,
    ensures
        s.context_id != c.id ==> bind_result(c, s) == Err::<(), Error>(Error::IncompatibleSurface)
            && bind_transition(c, s) == c,
        s.context_id == c.id ==> bind_result(c, s) == Ok::<(), Error>(()) && bind_transition(c, s)
            == (Context { framebuffer: Framebuffer::Surface(s), ..c }),
{
}

/// Law: a bind on a context already holding a surface is refused, and the
/// previously bound surface remains bound — no partial mutation.
pub proof fn lemma_bind_already_bound(c: Context, s: Surface, bound: Surface)
    requires
        c.framebuffer == Framebuffer::Surface(bound),
    ensures
        bind_result(c, s) == Err::<(), Error>(Error::SurfaceAlreadyBound),
        bind_transition(c, s) == c,
        bind_transition(c, s).framebuffer == Framebuffer::Surface(bound),
{
}

/// Law: unbinding a context with no bound surface succeeds with `None` and
/// leaves the state unchanged; unbinding a bound surface (with the flush able
/// to run) returns that surface and leaves no surface bound.
pub proof fn lemma_unbind_state_machine(c: Context, s: Surface)
    ensures
        c.framebuffer matches Framebuffer::NoSurface ==> unbind_result(c, 0) == Ok::<
            Option<Surface>,
            Error,
        >(None) && unbind_transition(c) == c,
        c.framebuffer == Framebuffer::Surface(s) ==> unbind_result(c, 0) == Ok::<
            Option<Surface>,
            Error,
        >(Some(s)) && unbind_transition(c).framebuffer == Framebuffer::NoSurface,
{
}

/// Law: every binding operation on a context whose render target is external
/// — as every context adopted from the current native context is — fails with
/// `ExternalRenderTarget` and mutates nothing, regardless of anything else.
pub proof fn lemma_external_target_rejects_binding(c: Context, s: Surface, make_current_err: i32)
    requires
        c.framebuffer matches Framebuffer::External,
    ensures
        bind_result(c, s) == Err::<(), Error>(Error::ExternalRenderTarget),
        bind_transition(c, s) == c,
        unbind_result(c, make_current_err) == Err::<Option<Surface>, Error>(
            Error::ExternalRenderTarget,
        ),
        unbind_transition(c) == c,
{
}

/// Law: destruction is idempotent and reaches the native destroy primitive at
/// most once. After one successful destroy the context is destroyed; a second
/// destroy succeeds again — whatever the surface subsystem would report, as it
/// is no longer consulted — changes nothing, and fires no native call.
pub proof fn lemma_destroy_idempotent(c: Context, retry: Result<(), Error>)
    ensures
        destroy_transition(c, Ok(())).native_context.spec_is_destroyed(),
        destroy_result(destroy_transition(c, Ok(())), retry) == Ok::<(), Error>(()),
        destroy_transition(destroy_transition(c, Ok(())), retry) == destroy_transition(c, Ok(())),
        !destroy_fires_native(destroy_transition(c, Ok(())), retry),
{
}

/// Law: when the surface subsystem fails to destroy the bound surface, the
/// failure propagates unchanged out of the destroy; the surface is already
/// detached, but the native context is not destroyed — no native destroy
/// fires — and the context keeps its id, so the destroy can be retried.
pub proof fn lemma_destroy_surface_failure_propagates(c: Context, e: Error)
    requires
        !c.native_context.spec_is_destroyed(),
        c.framebuffer matches Framebuffer::Surface(_),
    ensures
        destroy_result(c, Err(e)) == Err::<(), Error>(e),
        destroy_transition(c, Err(e)) == (Context { framebuffer: Framebuffer::NoSurface, ..c }),
        !destroy_transition(c, Err(e)).native_context.spec_is_destroyed(),
        !destroy_fires_native(c, Err(e)),
{
}

} // verus!
