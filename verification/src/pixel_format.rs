//! The pixel format of a context, and the attribute list that asks for it.

use crate::config::{GlConfig, GlError, Profile};
use vstd::prelude::*;

verus! {

pub const PFA_DOUBLE_BUFFER: u32 = 5;
pub const PFA_COLOR_SIZE: u32 = 8;
pub const PFA_ALPHA_SIZE: u32 = 11;
pub const PFA_DEPTH_SIZE: u32 = 12;
pub const PFA_STENCIL_SIZE: u32 = 13;
pub const PFA_SAMPLE_BUFFERS: u32 = 55;
pub const PFA_SAMPLES: u32 = 56;
pub const PFA_MULTISAMPLE: u32 = 59;
pub const PFA_ACCELERATED: u32 = 73;
pub const PFA_OPENGL_PROFILE: u32 = 99;

pub const PROFILE_VERSION_LEGACY: u32 = 0x1000;
pub const PROFILE_VERSION_3_2_CORE: u32 = 0x3200;
pub const PROFILE_VERSION_4_1_CORE: u32 = 0x4100;

/// A pixel format that the window system is asked for.
#[derive(Clone, Copy, Debug, PartialEq, Eq)]
pub struct PixelFormat {
    /// One of the profiles that the window system offers.
    pub profile: u32,
    pub color_size: u32,
    pub alpha_size: u32,
    pub depth_size: u32,
    pub stencil_size: u32,
    pub samples: Option<u32>,
}

/// The version `(major, minor)` as one number that orders as versions do.
pub open spec fn version_number(version: (u8, u8)) -> int {
    version.0 * 256 + version.1
}

/// The window system's profile for a version: the legacy one below 3.2 in the
/// compatibility profile, 3.2 itself and what is above it in the core profile,
/// and none otherwise.
pub open spec fn profile_for(version: (u8, u8), profile: Profile) -> Option<u32> {
    let asked = version_number(version);
    let core_3_2 = version_number((3, 2));
    match profile {
        Profile::Compatibility if asked < core_3_2 => Some(PROFILE_VERSION_LEGACY),
        Profile::Core if asked == core_3_2 => Some(PROFILE_VERSION_3_2_CORE),
        Profile::Core if asked > core_3_2 => Some(PROFILE_VERSION_4_1_CORE),
        _ => None,
    }
}

/// Picks the window system's profile for a version.
pub fn choose_profile(version: (u8, u8), profile: Profile) -> (chosen: Result<u32, GlError>)
    ensures
        chosen == match profile_for(version, profile) {
            Some(code) => Ok::<u32, GlError>(code),
            None => Err(GlError::VersionNotSupported),
        },
        chosen == Ok::<u32, GlError>(0x1000) <==> profile is Compatibility && (version.0 < 3
            || version.0 == 3 && version.1 < 2),
        chosen == Ok::<u32, GlError>(0x3200) <==> profile is Core && version.0 == 3 && version.1 == 2,
        chosen == Ok::<u32, GlError>(0x4100) <==> profile is Core && (version.0 > 3 || version.0 == 3
            && version.1 > 2),
{
    let (major, minor) = version;
    let below = major < 3 || (major == 3 && minor < 2);
    let exact = major == 3 && minor == 2;
    match profile {
        Profile::Compatibility => {
            if below {
                Ok(PROFILE_VERSION_LEGACY)
            } else {
                Err(GlError::VersionNotSupported)
            }
        },
        Profile::Core => {
            if exact {
                Ok(PROFILE_VERSION_3_2_CORE)
            } else if below {
                Err(GlError::VersionNotSupported)
            } else {
                Ok(PROFILE_VERSION_4_1_CORE)
            }
        },
    }
}

impl PixelFormat {
    /// The pixel format of `config` in the window system's profile `profile`.
    pub open spec fn of(profile: u32, config: GlConfig) -> PixelFormat {
        PixelFormat {
            profile,
            color_size: config.color_bits() as u32,
            alpha_size: config.alpha_bits as u32,
            depth_size: config.depth_bits as u32,
            stencil_size: config.stencil_bits as u32,
            samples: match config.samples {
                Some(samples) => Some(samples as u32),
                None => None,
            },
        }
    }

    /// Reads the pixel format off a configuration. The channels are added in
    /// eight bits.
    pub fn new(profile: u32, config: GlConfig) -> (format: PixelFormat)
        requires
            config.color_bits() <= u8::MAX,
        ensures
            format == PixelFormat::of(profile, config),
            format.profile == profile,
            format.color_size == config.red_bits + config.blue_bits + config.green_bits,
            format.alpha_size == config.alpha_bits,
            format.depth_size == config.depth_bits,
            format.stencil_size == config.stencil_bits,
            format.samples is Some <==> config.samples is Some,
            config.samples matches Some(samples) ==> format.samples->0 == samples,
    {
        PixelFormat {
            profile,
            color_size: (config.red_bits + config.blue_bits + config.green_bits) as u32,
            alpha_size: config.alpha_bits as u32,
            depth_size: config.depth_bits as u32,
            stencil_size: config.stencil_bits as u32,
            samples: match config.samples {
                Some(samples) => Some(samples as u32),
                None => None,
            },
        }
    }

    /// The part of the attribute list that every format has.
    pub open spec fn sizes(self) -> Seq<u32> {
        seq![
            PFA_OPENGL_PROFILE, self.profile,
            PFA_COLOR_SIZE, self.color_size,
            PFA_ALPHA_SIZE, self.alpha_size,
            PFA_DEPTH_SIZE, self.depth_size,
            PFA_STENCIL_SIZE, self.stencil_size,
            PFA_ACCELERATED,
        ]
    }

    /// The part of the attribute list that asks for multisampling.
    pub open spec fn multisampling(self) -> Seq<u32> {
        match self.samples {
            Some(samples) => seq![
                PFA_MULTISAMPLE,
                PFA_SAMPLE_BUFFERS, 1,
                PFA_SAMPLES, samples,
            ],
            None => seq![],
        }
    }

    /// The attribute list that asks for this format, with its terminator.
    ///
    /// There is no double buffer in it: the frame is finished into an
    /// `IOSurface` and the surface is handed to a layer, so a second buffer
    /// would only be a second copy of it.
    pub fn attributes(&self) -> (list: Vec<u32>)
        ensures
            list@ == self.list(),
    {
        let mut list: Vec<u32> = vec![
            PFA_OPENGL_PROFILE, self.profile,
            PFA_COLOR_SIZE, self.color_size,
            PFA_ALPHA_SIZE, self.alpha_size,
            PFA_DEPTH_SIZE, self.depth_size,
            PFA_STENCIL_SIZE, self.stencil_size,
            PFA_ACCELERATED,
        ];
        if let Some(samples) = self.samples {
            let mut extra: Vec<u32> = vec![
                PFA_MULTISAMPLE,
                PFA_SAMPLE_BUFFERS, 1,
                PFA_SAMPLES, samples,
            ];
            list.append(&mut extra);
        }
        list.push(0);
        list
    }
}

/// Whether an attribute stands alone in a list, or is followed by its value.
/// Only the attributes that are named here are meant.
pub open spec fn stands_alone(attribute: u32) -> bool {
    attribute == PFA_DOUBLE_BUFFER || attribute == PFA_MULTISAMPLE || attribute == PFA_ACCELERATED
}

/// The attributes of a list, up to its terminator, with their values. The list
/// holds none but the attributes that are named here.
pub open spec fn settings(list: Seq<u32>) -> Seq<(u32, Option<u32>)>
    decreases list.len(),
{
    if list.len() == 0 || list[0] == 0 {
        seq![]
    } else if stands_alone(list[0]) {
        seq![(list[0], None)] + settings(list.skip(1))
    } else if list.len() == 1 {
        seq![]
    } else {
        seq![(list[0], Some(list[1]))] + settings(list.skip(2))
    }
}

impl PixelFormat {
    /// The attribute list, with its terminator.
    pub open spec fn list(self) -> Seq<u32> {
        self.sizes() + self.multisampling() + seq![0u32]
    }

    /// What the attribute list asks for.
    pub open spec fn asks_for(self) -> Seq<(u32, Option<u32>)> {
        let sizes = seq![
            (PFA_OPENGL_PROFILE, Some(self.profile)),
            (PFA_COLOR_SIZE, Some(self.color_size)),
            (PFA_ALPHA_SIZE, Some(self.alpha_size)),
            (PFA_DEPTH_SIZE, Some(self.depth_size)),
            (PFA_STENCIL_SIZE, Some(self.stencil_size)),
            (PFA_ACCELERATED, None),
        ];
        match self.samples {
            None => sizes,
            Some(samples) => sizes + seq![
                (PFA_MULTISAMPLE, None),
                (PFA_SAMPLE_BUFFERS, Some(1u32)),
                (PFA_SAMPLES, Some(samples)),
            ],
        }
    }
}

/// The attribute list of a format, read back, gives the format's settings in
/// full, whatever their values, and a double buffer is not among them.
pub proof fn law_attributes_read_back(format: PixelFormat)
    ensures
        settings(format.list()) == format.asks_for(),
        forall|i: int|
            0 <= i < settings(format.list()).len() ==> (#[trigger] settings(format.list())[i]).0
                != PFA_DOUBLE_BUFFER,
{
    let list = format.list();
    let rest1 = list.skip(2);
    let rest2 = rest1.skip(2);
    let rest3 = rest2.skip(2);
    let rest4 = rest3.skip(2);
    let rest5 = rest4.skip(2);
    let rest6 = rest5.skip(1);
    assert(settings(list) == seq![(PFA_OPENGL_PROFILE, Some(format.profile))] + settings(rest1));
    assert(settings(rest1) == seq![(PFA_COLOR_SIZE, Some(format.color_size))] + settings(rest2));
    assert(settings(rest2) == seq![(PFA_ALPHA_SIZE, Some(format.alpha_size))] + settings(rest3));
    assert(settings(rest3) == seq![(PFA_DEPTH_SIZE, Some(format.depth_size))] + settings(rest4));
    assert(settings(rest4) == seq![(PFA_STENCIL_SIZE, Some(format.stencil_size))] + settings(rest5));
    assert(settings(rest5) == seq![(PFA_ACCELERATED, None::<u32>)] + settings(rest6));
    if let Some(samples) = format.samples {
        let rest7 = rest6.skip(1);
        let rest8 = rest7.skip(2);
        let rest9 = rest8.skip(2);
        assert(settings(rest6) == seq![(PFA_MULTISAMPLE, None::<u32>)] + settings(rest7));
        assert(settings(rest7) == seq![(PFA_SAMPLE_BUFFERS, Some(1u32))] + settings(rest8));
        assert(settings(rest8) == seq![(PFA_SAMPLES, Some(samples))] + settings(rest9));
        assert(settings(rest9) =~= seq![]);
    } else {
        assert(settings(rest6) =~= seq![]);
    }
    assert(settings(list) =~= format.asks_for());
}

} // verus!
