//! Descriptor creation and the attribute round-trip.

use cgl_context::{
    ContextAttributeFlags, ContextAttributes, Device, Error, GLVersion, PixelFormatSelection,
};

fn attrs(major: u8, minor: u8, alpha: bool, depth: bool, stencil: bool) -> ContextAttributes {
    ContextAttributes {
        version: GLVersion::new(major, minor),
        flags: ContextAttributeFlags { alpha, depth, stencil },
    }
}

fn selected() -> PixelFormatSelection {
    PixelFormatSelection { error: 0, num_formats: 1 }
}

#[test]
fn pixel_format_request_lists_profile_sizes_and_terminator() {
    let device = Device::new(false);
    let request = device.pixel_format_request(&attrs(3, 2, true, true, false));
    assert_eq!(request, vec![99, 0x3200, 11, 8, 12, 24, 13, 0, 0, 0]);
}

#[test]
fn pixel_format_request_opts_into_offline_renderers_on_low_power() {
    let device = Device::new(true);
    let request = device.pixel_format_request(&attrs(4, 1, false, false, true));
    assert_eq!(request, vec![99, 0x4100, 11, 0, 12, 0, 13, 8, 96, 0, 0]);
}

#[test]
fn pixel_format_request_legacy_tier_for_low_versions() {
    let device = Device::new(false);
    let request = device.pixel_format_request(&attrs(2, 1, false, false, false));
    assert_eq!(request[1], 0x1000);
}

#[test]
fn descriptor_selection_failure_carries_native_code() {
    let device = Device::new(false);
    let selection = PixelFormatSelection { error: 10002, num_formats: 0 };
    let r = device.create_context_descriptor(&attrs(3, 2, true, false, false), &selection);
    assert_eq!(r, Err(Error::PixelFormatSelectionFailed(10002)));
}

#[test]
fn descriptor_selection_with_zero_formats_fails() {
    let device = Device::new(false);
    let selection = PixelFormatSelection { error: 0, num_formats: 0 };
    let r = device.create_context_descriptor(&attrs(3, 2, true, false, false), &selection);
    assert_eq!(r, Err(Error::NoPixelFormatFound));
}

#[test]
fn attribute_round_trip_preserves_flags_exactly() {
    let device = Device::new(false);
    let requested = attrs(3, 2, true, true, false);
    let descriptor = device.create_context_descriptor(&requested, &selected()).unwrap();
    let reported = device.context_descriptor_attributes(&descriptor);
    assert_eq!(reported.flags, requested.flags);
    assert_eq!(reported.version, GLVersion::new(3, 2));
}

#[test]
fn attribute_round_trip_coarsens_version_to_its_tier() {
    let device = Device::new(false);

    let descriptor = device.create_context_descriptor(&attrs(4, 6, false, true, true), &selected())
        .unwrap();
    let reported = device.context_descriptor_attributes(&descriptor);
    assert_eq!(reported.version, GLVersion::new(4, 1));
    assert_eq!(reported.flags, ContextAttributeFlags { alpha: false, depth: true, stencil: true });

    let descriptor = device.create_context_descriptor(&attrs(2, 1, false, false, false), &selected())
        .unwrap();
    let reported = device.context_descriptor_attributes(&descriptor);
    assert_eq!(reported.version, GLVersion::new(1, 0));
    assert_eq!(reported.flags, ContextAttributeFlags::empty());
}

#[test]
fn largest_major_version_selects_top_tier() {
    let device = Device::new(false);
    let descriptor = device
        .create_context_descriptor(&attrs(255, 255, true, true, true), &selected())
        .unwrap();
    let reported = device.context_descriptor_attributes(&descriptor);
    assert_eq!(reported.version, GLVersion::new(4, 1));
    assert_eq!(reported.flags, ContextAttributeFlags { alpha: true, depth: true, stencil: true });
}

#[test]
fn empty_flag_set_requests_zero_sized_buffers() {
    let device = Device::new(false);
    let descriptor = device.create_context_descriptor(&attrs(1, 0, false, false, false), &selected())
        .unwrap();
    let reported = device.context_descriptor_attributes(&descriptor);
    assert_eq!(reported.flags, ContextAttributeFlags::empty());
    assert_eq!(reported.version, GLVersion::new(1, 0));
}
