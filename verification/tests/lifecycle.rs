//! Context creation, destruction, adoption, and the binding state machine.

use cgl_context::{
    ContextAttributeFlags, ContextAttributes, ContextCreationEvent, ContextDescriptor, ContextID,
    Device, Error, GLVersion, PixelFormatSelection, Surface, SurfaceInfo,
};

fn test_descriptor(device: &Device) -> ContextDescriptor {
    let attributes = ContextAttributes {
        version: GLVersion::new(3, 2),
        flags: ContextAttributeFlags { alpha: true, depth: true, stencil: false },
    };
    let selection = PixelFormatSelection { error: 0, num_formats: 1 };
    device.create_context_descriptor(&attributes, &selection).unwrap()
}

fn created(handle: u64) -> ContextCreationEvent {
    ContextCreationEvent::Created { handle }
}

#[test]
fn context_creation_failure_carries_native_code() {
    let mut device = Device::new(false);
    let descriptor = test_descriptor(&device);
    let event = ContextCreationEvent::CreationFailed { error: 10000 };
    let r = device.create_context(&descriptor, &event);
    assert!(matches!(r, Err(Error::ContextCreationFailed(10000))));
}

#[test]
fn make_current_failure_during_creation_carries_native_code() {
    let mut device = Device::new(false);
    let descriptor = test_descriptor(&device);
    let event = ContextCreationEvent::CurrentFailed { handle: 41, error: 10001 };
    let r = device.create_context(&descriptor, &event);
    assert!(matches!(r, Err(Error::MakeCurrentFailed(10001))));
}

#[test]
fn created_context_starts_unbound_with_its_descriptor() {
    let mut device = Device::new(false);
    let descriptor = test_descriptor(&device);
    let mut context = device.create_context(&descriptor, &created(41)).unwrap();
    assert_eq!(device.context_surface_info(&context), Ok(None));
    assert_eq!(device.context_descriptor(&context), descriptor);
    device.destroy_context(&mut context, &Ok(())).unwrap();
}

#[test]
fn live_context_ids_are_pairwise_distinct() {
    let mut device = Device::new(false);
    let descriptor = test_descriptor(&device);
    let mut a = device.create_context(&descriptor, &created(41)).unwrap();
    let mut b = device.create_context(&descriptor, &created(42)).unwrap();
    let mut c = device.create_context(&descriptor, &created(43)).unwrap();
    let ia = device.context_id(&a);
    let ib = device.context_id(&b);
    let ic = device.context_id(&c);
    assert!(ia != ib && ib != ic && ia != ic);
    device.destroy_context(&mut a, &Ok(())).unwrap();
    device.destroy_context(&mut b, &Ok(())).unwrap();
    device.destroy_context(&mut c, &Ok(())).unwrap();
}

#[test]
fn id_of_destroyed_context_never_collides_with_live_ones() {
    let mut device = Device::new(false);
    let descriptor = test_descriptor(&device);
    let mut a = device.create_context(&descriptor, &created(41)).unwrap();
    let mut b = device.create_context(&descriptor, &created(42)).unwrap();
    device.destroy_context(&mut a, &Ok(())).unwrap();
    let mut c = device.create_context(&descriptor, &created(43)).unwrap();
    assert!(device.context_id(&c) != device.context_id(&b));
    device.destroy_context(&mut b, &Ok(())).unwrap();
    device.destroy_context(&mut c, &Ok(())).unwrap();
}

#[test]
fn bind_refuses_surface_of_another_context() {
    let mut device = Device::new(false);
    let descriptor = test_descriptor(&device);
    let mut context = device.create_context(&descriptor, &created(41)).unwrap();
    let foreign = Surface::new(9, ContextID(1234), 64, 64);
    let r = device.bind_surface_to_context(&mut context, foreign);
    assert_eq!(r, Err(Error::IncompatibleSurface));
    assert_eq!(device.context_surface_info(&context), Ok(None));
    device.destroy_context(&mut context, &Ok(())).unwrap();
}

#[test]
fn bind_accepts_surface_of_this_context() {
    let mut device = Device::new(false);
    let descriptor = test_descriptor(&device);
    let mut context = device.create_context(&descriptor, &created(41)).unwrap();
    let surface = Surface::new(9, device.context_id(&context), 64, 64);
    assert_eq!(device.bind_surface_to_context(&mut context, surface), Ok(()));
    let info = device.context_surface_info(&context).unwrap().unwrap();
    assert_eq!(info, SurfaceInfo { id: 9, context_id: device.context_id(&context), width: 64, height: 64 });
    device.destroy_context(&mut context, &Ok(())).unwrap();
}

#[test]
fn bind_on_bound_context_keeps_first_surface_bound() {
    let mut device = Device::new(false);
    let descriptor = test_descriptor(&device);
    let mut context = device.create_context(&descriptor, &created(41)).unwrap();
    let id = device.context_id(&context);
    let first = Surface::new(9, id, 64, 64);
    let second = Surface::new(10, id, 32, 32);
    device.bind_surface_to_context(&mut context, first).unwrap();
    let r = device.bind_surface_to_context(&mut context, second);
    assert_eq!(r, Err(Error::SurfaceAlreadyBound));
    let info = device.context_surface_info(&context).unwrap().unwrap();
    assert_eq!(info.id, 9);
    device.destroy_context(&mut context, &Ok(())).unwrap();
}

#[test]
fn unbind_without_surface_returns_none_and_keeps_state() {
    let mut device = Device::new(false);
    let descriptor = test_descriptor(&device);
    let mut context = device.create_context(&descriptor, &created(41)).unwrap();
    assert_eq!(device.unbind_surface_from_context(&mut context, 0), Ok(None));
    assert_eq!(device.context_surface_info(&context), Ok(None));
    device.destroy_context(&mut context, &Ok(())).unwrap();
}

#[test]
fn unbind_returns_bound_surface_and_empties_slot() {
    let mut device = Device::new(false);
    let descriptor = test_descriptor(&device);
    let mut context = device.create_context(&descriptor, &created(41)).unwrap();
    let surface = Surface::new(9, device.context_id(&context), 64, 64);
    device.bind_surface_to_context(&mut context, surface).unwrap();
    assert_eq!(device.unbind_surface_from_context(&mut context, 0), Ok(Some(surface)));
    assert_eq!(device.context_surface_info(&context), Ok(None));
    device.destroy_context(&mut context, &Ok(())).unwrap();
}

#[test]
fn unbind_fails_when_flush_cannot_make_context_current() {
    let mut device = Device::new(false);
    let descriptor = test_descriptor(&device);
    let mut context = device.create_context(&descriptor, &created(41)).unwrap();
    let surface = Surface::new(9, device.context_id(&context), 64, 64);
    device.bind_surface_to_context(&mut context, surface).unwrap();
    let r = device.unbind_surface_from_context(&mut context, 10001);
    assert_eq!(r, Err(Error::MakeCurrentFailed(10001)));
    device.destroy_context(&mut context, &Ok(())).unwrap();
}

#[test]
fn destroy_context_is_idempotent() {
    let mut device = Device::new(false);
    let descriptor = test_descriptor(&device);
    let mut context = device.create_context(&descriptor, &created(41)).unwrap();
    assert_eq!(device.destroy_context(&mut context, &Ok(())), Ok(()));
    assert_eq!(device.destroy_context(&mut context, &Ok(())), Ok(()));
}

#[test]
fn destroy_context_detaches_and_destroys_bound_surface() {
    let mut device = Device::new(false);
    let descriptor = test_descriptor(&device);
    let mut context = device.create_context(&descriptor, &created(41)).unwrap();
    let surface = Surface::new(9, device.context_id(&context), 64, 64);
    device.bind_surface_to_context(&mut context, surface).unwrap();
    assert_eq!(device.destroy_context(&mut context, &Ok(())), Ok(()));
    assert_eq!(device.destroy_context(&mut context, &Ok(())), Ok(()));
}

#[test]
fn destroy_context_propagates_surface_subsystem_failure_and_can_retry() {
    let mut device = Device::new(false);
    let descriptor = test_descriptor(&device);
    let mut context = device.create_context(&descriptor, &created(41)).unwrap();
    let surface = Surface::new(9, device.context_id(&context), 64, 64);
    device.bind_surface_to_context(&mut context, surface).unwrap();
    let failed = device.destroy_context(&mut context, &Err(Error::IncompatibleSurface));
    assert_eq!(failed, Err(Error::IncompatibleSurface));
    // The surface is already detached, but the context is still alive.
    assert_eq!(device.context_surface_info(&context), Ok(None));
    assert!(!context.native_context.is_destroyed());
    assert_eq!(device.destroy_context(&mut context, &Ok(())), Ok(()));
    assert!(context.native_context.is_destroyed());
}

#[test]
fn destroy_of_destroyed_context_ignores_surface_subsystem_outcome() {
    let mut device = Device::new(false);
    let descriptor = test_descriptor(&device);
    let mut context = device.create_context(&descriptor, &created(41)).unwrap();
    assert_eq!(device.destroy_context(&mut context, &Ok(())), Ok(()));
    assert_eq!(device.destroy_context(&mut context, &Err(Error::IncompatibleSurface)), Ok(()));
}

#[test]
fn adopted_context_refuses_every_binding_operation() {
    let descriptor = ContextDescriptor {
        alpha_size: 8,
        depth_size: 0,
        stencil_size: 0,
        gl_profile: 0x1000,
    };
    let (mut device, mut context) = Device::from_current_context(77, descriptor, false).unwrap();
    let surface = Surface::new(9, device.context_id(&context), 64, 64);
    assert_eq!(
        device.bind_surface_to_context(&mut context, surface),
        Err(Error::ExternalRenderTarget)
    );
    assert_eq!(
        device.unbind_surface_from_context(&mut context, 0),
        Err(Error::ExternalRenderTarget)
    );
    assert_eq!(device.context_surface_info(&context), Err(Error::ExternalRenderTarget));
    assert_eq!(device.destroy_context(&mut context, &Ok(())), Ok(()));
}

#[test]
fn make_context_current_tracks_native_outcome() {
    let mut device = Device::new(false);
    let descriptor = test_descriptor(&device);
    let mut context = device.create_context(&descriptor, &created(41)).unwrap();
    assert_eq!(device.make_context_current(&context, 0), Ok(()));
    assert_eq!(device.make_context_current(&context, 10001), Err(Error::MakeCurrentFailed(10001)));
    assert_eq!(device.make_no_context_current(0), Ok(()));
    assert_eq!(device.make_no_context_current(10001), Err(Error::MakeCurrentFailed(10001)));
    device.destroy_context(&mut context, &Ok(())).unwrap();
}

#[test]
fn guard_restores_previously_current_context() {
    let mut device = Device::new(false);
    let descriptor = test_descriptor(&device);
    let mut first = device.create_context(&descriptor, &created(41)).unwrap();
    let mut second = device.create_context(&descriptor, &created(42)).unwrap();
    device.make_context_current(&first, 0).unwrap();
    let guard = device.temporarily_make_context_current(&second, 0).unwrap();
    guard.restore(&mut device);
    device.destroy_context(&mut second, &Ok(())).unwrap();
    device.destroy_context(&mut first, &Ok(())).unwrap();
}

#[test]
fn end_to_end_offscreen_lifecycle() {
    let mut device = Device::new(false);
    let attributes = ContextAttributes {
        version: GLVersion::new(3, 2),
        flags: ContextAttributeFlags { alpha: true, depth: true, stencil: false },
    };
    let selection = PixelFormatSelection { error: 0, num_formats: 1 };
    let descriptor = device.create_context_descriptor(&attributes, &selection).unwrap();
    let mut context = device.create_context(&descriptor, &created(41)).unwrap();
    let surface = Surface::new(1, device.context_id(&context), 256, 256);
    device.bind_surface_to_context(&mut context, surface).unwrap();
    device.make_context_current(&context, 0).unwrap();
    let unbound = device.unbind_surface_from_context(&mut context, 0).unwrap();
    assert_eq!(unbound, Some(surface));
    assert_eq!(device.context_surface_info(&context), Ok(None));
    assert_eq!(device.destroy_context(&mut context, &Ok(())), Ok(()));
}
