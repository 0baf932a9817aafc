//! Settings that decide how the viewer behaves: colour theme and the limits
//! handed to the HEIF decoder.

use vstd::prelude::*;
use vstd::string::StringExecFns;
use crate::text::{ascii_lower, decimal, eq_ignore_ascii_case, u64_to_decimal};

verus! {

/// The colour theme chosen in the settings.
#[derive(Debug, Clone, Copy, PartialEq, Eq, Structural)]
pub enum ColorTheme {
    Light,
    Dark,
    System,
}

/// The theme the operating system reports.
#[derive(Debug, Clone, Copy, PartialEq, Eq, Structural)]
pub enum SystemMode {
    Dark,
    Light,
    Unspecified,
}

impl ColorTheme {
    /// The theme named by the settings window's choice: "Light", "System",
    /// anything else meaning Dark.
    pub fn from_choice(choice: &str) -> (r: ColorTheme)
        ensures
            r == if choice@ == "Light"@ {
                ColorTheme::Light
            } else if choice@ == "System"@ {
                ColorTheme::System
            } else {
                ColorTheme::Dark
            },
    {
        if crate::text::str_eq(choice, "Light") {
            ColorTheme::Light
        } else if crate::text::str_eq(choice, "System") {
            ColorTheme::System
        } else {
            ColorTheme::Dark
        }
    }

    pub open spec fn choice_text(self) -> Seq<char> {
        match self {
            ColorTheme::Light => "Light"@,
            ColorTheme::System => "System"@,
            ColorTheme::Dark => "Dark"@,
        }
    }

    /// The settings window's name for the theme.
    pub fn choice_name(&self) -> (r: &str)
        ensures
            r@ == self.choice_text(),
    {
        match self {
            ColorTheme::Light => "Light",
            ColorTheme::System => "System",
            ColorTheme::Dark => "Dark",
        }
    }

    /// Whether the interface is drawn dark: Dark and Light decide by
    /// themselves; System follows what the operating system reports, dark
    /// when it reports light nothing (`None`) or an unspecified mode.
    pub fn is_dark(&self, detected: Option<SystemMode>) -> (r: bool)
        ensures
            r == match *self {
                ColorTheme::Dark => true,
                ColorTheme::Light => false,
                ColorTheme::System => !(detected == Some(SystemMode::Light)),
            },
    {
        match self {
            ColorTheme::Dark => true,
            ColorTheme::Light => false,
            ColorTheme::System => match detected {
                Some(SystemMode::Dark) => true,
                Some(SystemMode::Light) => false,
                _ => true,
            },
        }
    }
}

/// A limit of the HEIF decoder as the settings keep it: the decoder's own
/// default, no limit, or a maximum.
#[derive(Clone, Copy, Debug, Default, PartialEq, Eq, Structural)]
pub enum Limit {
    #[default]
    Default,
    NoLimit,
    U64(u64),
    U32(u32),
}

impl Limit {
    /// The text the settings show for the limit.
    pub open spec fn display_text(self) -> Seq<char> {
        match self {
            Limit::Default => Seq::empty(),
            Limit::NoLimit => "0"@,
            Limit::U64(v) => decimal(v as nat),
            Limit::U32(v) => decimal(v as nat),
        }
    }

    /// The limit as text: empty for the default, "0" for no limit, the
    /// maximum in decimal otherwise.
    pub fn to_display_string(&self) -> (r: String)
        ensures
            r@ == self.display_text(),
    {
        match self {
            Limit::Default => String::new(),
            Limit::NoLimit => String::from_str("0"),
            Limit::U64(v) => u64_to_decimal(*v),
            Limit::U32(v) => u64_to_decimal(*v as u64),
        }
    }

    /// The value to set for a 64-bit limit: 0 for no limit, the maximum when
    /// it is given as a 64-bit value; none (keep the decoder's default)
    /// otherwise.
    pub open spec fn u64_setting(self) -> Option<u64> {
        match self {
            Limit::NoLimit => Some(0),
            Limit::U64(v) => Some(v),
            _ => None,
        }
    }

    /// The value to set for a 32-bit limit: 0 for no limit, the maximum when
    /// it is given as a 32-bit value; none (keep the decoder's default)
    /// otherwise.
    pub open spec fn u32_setting(self) -> Option<u32> {
        match self {
            Limit::NoLimit => Some(0),
            Limit::U32(v) => Some(v),
            _ => None,
        }
    }

    fn as_u64_setting(&self) -> (r: Option<u64>)
        ensures
            r == self.u64_setting(),
    {
        match self {
            Limit::NoLimit => Some(0),
            Limit::U64(v) => Some(*v),
            _ => None,
        }
    }

    fn as_u32_setting(&self) -> (r: Option<u32>)
        ensures
            r == self.u32_setting(),
    {
        match self {
            Limit::NoLimit => Some(0),
            Limit::U32(v) => Some(*v),
            _ => None,
        }
    }
}

/// Security limits for HEIF decoding, kept whether or not the decoder is
/// built in.
#[derive(Clone, Copy, Debug, Default)]
pub struct HeifLimits {
    pub image_size_pixels: Limit,
    pub number_of_tiles: Limit,
    pub bayer_pattern_pixels: Limit,
    pub items: Limit,
    pub color_profile_size: Limit,
    pub memory_block_size: Limit,
    pub components: Limit,
    pub iloc_extents_per_item: Limit,
    pub size_entity_group: Limit,
    pub children_per_box: Limit,
    pub override_all: bool,
}

/// Settings of the decoders.
#[derive(Clone, Copy, Debug, Default)]
pub struct DecoderSettings {
    /// Settings for libheif
    pub heif: HeifLimits,
}

/// The values to give the decoder's security limit setters; `None` leaves a
/// limit at the decoder's default.
#[derive(Clone, Copy, Debug, PartialEq, Eq, Structural)]
pub struct SecurityLimitSettings {
    pub max_image_size_pixels: Option<u64>,
    pub max_number_of_tiles: Option<u64>,
    pub max_bayer_pattern_pixels: Option<u32>,
    pub max_items: Option<u32>,
    pub max_color_profile_size: Option<u32>,
    pub max_memory_block_size: Option<u64>,
    pub max_components: Option<u32>,
    pub max_iloc_extents_per_item: Option<u32>,
    pub max_size_entity_group: Option<u32>,
    pub max_children_per_box: Option<u32>,
}

/// The setters' values for the limits: each 64-bit limit (image size,
/// number of tiles, memory block size) takes `u64_setting`, each other limit
/// `u32_setting`.
pub open spec fn limit_settings(l: HeifLimits) -> SecurityLimitSettings {
    SecurityLimitSettings {
        max_image_size_pixels: l.image_size_pixels.u64_setting(),
        max_number_of_tiles: l.number_of_tiles.u64_setting(),
        max_bayer_pattern_pixels: l.bayer_pattern_pixels.u32_setting(),
        max_items: l.items.u32_setting(),
        max_color_profile_size: l.color_profile_size.u32_setting(),
        max_memory_block_size: l.memory_block_size.u64_setting(),
        max_components: l.components.u32_setting(),
        max_iloc_extents_per_item: l.iloc_extents_per_item.u32_setting(),
        max_size_entity_group: l.size_entity_group.u32_setting(),
        max_children_per_box: l.children_per_box.u32_setting(),
    }
}

/// Whether the environment variable's value is "on", in any ASCII case.
pub open spec fn is_on_text(value: Seq<char>) -> bool {
    ascii_lower(value) == ascii_lower("on"@)
}

impl HeifLimits {
    /// The values to give the decoder's security limit setters.
    pub fn settings(&self) -> (r: SecurityLimitSettings)
        ensures
            r == limit_settings(*self),
    {
        SecurityLimitSettings {
            max_image_size_pixels: self.image_size_pixels.as_u64_setting(),
            max_number_of_tiles: self.number_of_tiles.as_u64_setting(),
            max_bayer_pattern_pixels: self.bayer_pattern_pixels.as_u32_setting(),
            max_items: self.items.as_u32_setting(),
            max_color_profile_size: self.color_profile_size.as_u32_setting(),
            max_memory_block_size: self.memory_block_size.as_u64_setting(),
            max_components: self.components.as_u32_setting(),
            max_iloc_extents_per_item: self.iloc_extents_per_item.as_u32_setting(),
            max_size_entity_group: self.size_entity_group.as_u32_setting(),
            max_children_per_box: self.children_per_box.as_u32_setting(),
        }
    }

    /// Whether all limits are overridden: when the `LIBHEIF_SECURITY_LIMITS`
    /// environment variable is set, exactly when its value is "on" in any
    /// ASCII case; otherwise as the setting says.
    pub fn resolve_override_all(&self, env_value: Option<&str>) -> (r: bool)
        ensures
            r == match env_value {
                Some(v) => is_on_text(v@),
                None => self.override_all,
            },
    {
        match env_value {
            Some(v) => eq_ignore_ascii_case(v, "on"),
            None => self.override_all,
        }
    }

    /// The limits to hand the decoder: none when all are overridden.
    pub fn maybe_limit_settings(&self, override_all: bool) -> (r: Option<SecurityLimitSettings>)
        ensures
            r == if override_all {
                None
            } else {
                Some(limit_settings(*self))
            },
    {
        if !override_all {
            Some(self.settings())
        } else {
            None
        }
    }
}

pub open spec fn security_limits_env_text(override_all: bool) -> Seq<char> {
    if override_all {
        "off"@
    } else {
        "on"@
    }
}

/// The value written back to `LIBHEIF_SECURITY_LIMITS` once decided: "off"
/// when all limits are overridden, "on" otherwise.
pub fn security_limits_env_value(override_all: bool) -> (r: &'static str)
    ensures
        r@ == security_limits_env_text(override_all),
{
    if override_all {
        "off"
    } else {
        "on"
    }
}

/// Each setter of the decoder's security limits gets the limit of its own
/// name: 0 when that limit is off, its value when it is given in the
/// setter's width, and nothing (the decoder's default) otherwise.
pub proof fn law_each_limit_goes_to_its_setter(l: HeifLimits)
    ensures
        ({
            let r = limit_settings(l);
            &&& r.max_image_size_pixels == (match l.image_size_pixels {
                Limit::NoLimit => Some(0),
                Limit::U64(v) => Some(v),
                _ => None,
            })
            &&& r.max_number_of_tiles == (match l.number_of_tiles {
                Limit::NoLimit => Some(0),
                Limit::U64(v) => Some(v),
                _ => None,
            })
            &&& r.max_bayer_pattern_pixels == (match l.bayer_pattern_pixels {
                Limit::NoLimit => Some(0),
                Limit::U32(v) => Some(v),
                _ => None,
            })
            &&& r.max_items == (match l.items {
                Limit::NoLimit => Some(0),
                Limit::U32(v) => Some(v),
                _ => None,
            })
            &&& r.max_color_profile_size == (match l.color_profile_size {
                Limit::NoLimit => Some(0),
                Limit::U32(v) => Some(v),
                _ => None,
            })
            &&& r.max_memory_block_size == (match l.memory_block_size {
                Limit::NoLimit => Some(0),
                Limit::U64(v) => Some(v),
                _ => None,
            })
            &&& r.max_components == (match l.components {
                Limit::NoLimit => Some(0),
                Limit::U32(v) => Some(v),
                _ => None,
            })
            &&& r.max_iloc_extents_per_item == (match l.iloc_extents_per_item {
                Limit::NoLimit => Some(0),
                Limit::U32(v) => Some(v),
                _ => None,
            })
            &&& r.max_size_entity_group == (match l.size_entity_group {
                Limit::NoLimit => Some(0),
                Limit::U32(v) => Some(v),
                _ => None,
            })
            &&& r.max_children_per_box == (match l.children_per_box {
                Limit::NoLimit => Some(0),
                Limit::U32(v) => Some(v),
                _ => None,
            })
        }),
{
}

} // verus!
