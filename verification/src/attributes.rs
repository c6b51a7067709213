//! Requested context attributes, pixel-format descriptors, and the attribute
//! round-trip between them.

use vstd::prelude::*;

verus! {

/// CGL pixel-format attribute code: number of alpha bits.
pub const CGL_PFA_ALPHA_SIZE: i32 = 11;
/// CGL pixel-format attribute code: number of depth bits.
pub const CGL_PFA_DEPTH_SIZE: i32 = 12;
/// CGL pixel-format attribute code: number of stencil bits.
pub const CGL_PFA_STENCIL_SIZE: i32 = 13;
/// CGL pixel-format attribute code: allow offline (low-power) renderers.
pub const CGL_PFA_ALLOW_OFFLINE_RENDERERS: i32 = 96;
/// CGL pixel-format attribute code: the OpenGL profile to select.
pub const CGL_PFA_OPENGL_PROFILE: i32 = 99;

/// CGL profile value: a renderer compatible with OpenGL 1.0.
pub const PROFILE_LEGACY: i32 = 0x1000;
/// CGL profile value: a renderer capable of OpenGL 3.2 core or later.
pub const PROFILE_3_2_CORE: i32 = 0x3200;
/// CGL profile value: a renderer capable of OpenGL 4.x core or later.
pub const PROFILE_4_CORE: i32 = 0x4100;

/// A requested OpenGL version.
#[derive(Clone, Copy, Debug, PartialEq, Eq, Structural)]
pub struct GLVersion {
    /// Major version number.
    pub major: u8,
    /// Minor version number.
    pub minor: u8,
}

impl GLVersion {
    /// Builds a version from its major and minor numbers.
    pub fn new(major: u8, minor: u8) -> (v: GLVersion)
        ensures
            v == (GLVersion { major, minor }),
    {
        GLVersion { major, minor }
    }
}

/// Which optional buffers the selected pixel format must provide.
#[derive(Clone, Copy, Debug, PartialEq, Eq, Structural)]
pub struct ContextAttributeFlags {
    /// Request an alpha channel (8 bits).
    pub alpha: bool,
    /// Request a depth buffer (24 bits).
    pub depth: bool,
    /// Request a stencil buffer (8 bits).
    pub stencil: bool,
}

impl ContextAttributeFlags {
    /// The empty flag set: no optional buffers.
    pub fn empty() -> (f: ContextAttributeFlags)
        ensures
            f == (ContextAttributeFlags { alpha: false, depth: false, stencil: false }),
    {
        ContextAttributeFlags { alpha: false, depth: false, stencil: false }
    }
}

/// The attribute set a context descriptor is requested from.
#[derive(Clone, Copy, Debug, PartialEq, Eq, Structural)]
pub struct ContextAttributes {
    /// The requested OpenGL version.
    pub version: GLVersion,
    /// The requested optional buffers.
    pub flags: ContextAttributeFlags,
}

/// The CGL profile tier selected for a requested major version: major version
/// 4 or above selects the 4.x-core tier, exactly 3 the 3.2-core tier, and
/// anything else the legacy tier. There is no downgrade path.
pub open spec fn profile_for_major(major: u8) -> i32 {
    if major >= 4 {
        PROFILE_4_CORE
    } else if major == 3 {
        PROFILE_3_2_CORE
    } else {
        PROFILE_LEGACY
    }
}

/// The alpha-buffer size requested for a flag set: 8 bits when the flag is
/// present, 0 otherwise.
pub open spec fn alpha_size_for(flags: ContextAttributeFlags) -> i32 {
    if flags.alpha {
        8
    } else {
        0
    }
}

/// The depth-buffer size requested for a flag set: 24 bits when the flag is
/// present, 0 otherwise.
pub open spec fn depth_size_for(flags: ContextAttributeFlags) -> i32 {
    if flags.depth {
        24
    } else {
        0
    }
}

/// The stencil-buffer size requested for a flag set: 8 bits when the flag is
/// present, 0 otherwise.
pub open spec fn stencil_size_for(flags: ContextAttributeFlags) -> i32 {
    if flags.stencil {
        8
    } else {
        0
    }
}

/// The pixel-format attribute list handed to the native selection call for a
/// requested attribute set: attribute/value pairs for the profile and the
/// three buffer sizes, a request to allow offline renderers when the adapter
/// is low-power, and a terminating pair of zeros.
pub open spec fn pixel_format_request_spec(a: ContextAttributes, low_power: bool) -> Seq<i32> {
    let base = seq![
        CGL_PFA_OPENGL_PROFILE,
        profile_for_major(a.version.major),
        CGL_PFA_ALPHA_SIZE,
        alpha_size_for(a.flags),
        CGL_PFA_DEPTH_SIZE,
        depth_size_for(a.flags),
        CGL_PFA_STENCIL_SIZE,
        stencil_size_for(a.flags),
    ];
    let with_power = if low_power {
        base.push(CGL_PFA_ALLOW_OFFLINE_RENDERERS)
    } else {
        base
    };
    with_power + seq![0, 0]
}

/// A pixel format: the configuration a context is created from.
///
/// This corresponds to a "pixel format" object in many APIs. It records, as
/// plain values, exactly what the lifecycle layer reads of the native
/// pixel-format object: the three buffer sizes and the encoded profile.
#[derive(Clone, Copy, Debug, PartialEq, Eq, Structural)]
pub struct ContextDescriptor {
    /// Alpha-buffer size in bits.
    pub alpha_size: i32,
    /// Depth-buffer size in bits.
    pub depth_size: i32,
    /// Stencil-buffer size in bits.
    pub stencil_size: i32,
    /// The encoded CGL profile the format was selected for.
    pub gl_profile: i32,
}

impl ContextDescriptor {
    /// The descriptor carries one of the three CGL profile values. The
    /// version decode is defined on exactly these; the native API reports one
    /// of them for every format it selects, whatever the buffer sizes.
    pub open spec fn profile_wf(self) -> bool {
        self.gl_profile == PROFILE_LEGACY || self.gl_profile == PROFILE_3_2_CORE
            || self.gl_profile == PROFILE_4_CORE
    }

    /// A descriptor is well formed when it carries one of the three CGL
    /// profile values and the buffer sizes the selection logic can request.
    /// Every descriptor the selection logic hands out is well formed.
    pub open spec fn wf(self) -> bool {
        &&& self.profile_wf()
        &&& (self.alpha_size == 0 || self.alpha_size == 8)
        &&& (self.depth_size == 0 || self.depth_size == 24)
        &&& (self.stencil_size == 0 || self.stencil_size == 8)
    }
}

/// The descriptor the selection logic produces for a requested attribute set.
pub open spec fn descriptor_for(a: ContextAttributes) -> ContextDescriptor {
    ContextDescriptor {
        alpha_size: alpha_size_for(a.flags),
        depth_size: depth_size_for(a.flags),
        stencil_size: stencil_size_for(a.flags),
        gl_profile: profile_for_major(a.version.major),
    }
}

/// The version a well-formed profile value decodes to: bits 12..16 give the
/// major and bits 8..12 the minor version, so each tier decodes to its
/// characteristic version. This is lossy by construction: only the tier of the
/// originally requested version comes back.
pub open spec fn version_for_profile(profile: i32) -> GLVersion {
    if profile == PROFILE_4_CORE {
        GLVersion { major: 4, minor: 1 }
    } else if profile == PROFILE_3_2_CORE {
        GLVersion { major: 3, minor: 2 }
    } else {
        GLVersion { major: 1, minor: 0 }
    }
}

/// The attribute set a descriptor reports: a buffer flag is present exactly
/// when the recorded size is nonzero, and the version is decoded from the
/// profile value.
pub open spec fn attributes_of(d: ContextDescriptor) -> ContextAttributes {
    ContextAttributes {
        version: version_for_profile(d.gl_profile),
        flags: ContextAttributeFlags {
            alpha: d.alpha_size != 0,
            depth: d.depth_size != 0,
            stencil: d.stencil_size != 0,
        },
    }
}

/// Law: the descriptor round-trip is exact on flags and tier-consistent on the
/// version. Selecting a descriptor for an attribute set and reading its
/// attributes back reconstructs the flag set exactly; the version comes back
/// as the characteristic version of the selected tier, so it may be coarsened
/// but never contradicts the requested major version's tier.
pub proof fn lemma_descriptor_attribute_round_trip(a: ContextAttributes)
    ensures
        attributes_of(descriptor_for(a)).flags == a.flags,
        a.version.major >= 4 ==> attributes_of(descriptor_for(a)).version == (GLVersion {
            major: 4,
            minor: 1,
        }),
        a.version.major == 3 ==> attributes_of(descriptor_for(a)).version == (GLVersion {
            major: 3,
            minor: 2,
        }),
        a.version.major < 3 ==> attributes_of(descriptor_for(a)).version == (GLVersion {
            major: 1,
            minor: 0,
        }),
        descriptor_for(a).wf(),
{
}

} // verus!
