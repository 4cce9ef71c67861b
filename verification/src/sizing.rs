//! The discrete size tiers an emoji image can be resized to, together with
//! their persisted string identifiers and fixed pixel dimensions.

use vstd::prelude::*;

use crate::text::str_eq;

verus! {

broadcast use vstd::string::group_string_axioms;

/// Output-size policy for one emoji image: five fixed square pixel sizes and
/// `Auto`, which forwards the image untouched.
///
/// The persisted string identifiers (see [`tier_identifier`]) are kept exactly
/// as the stored policy documents spell them, so existing documents keep
/// loading; the variant names here are only source-level labels.
#[derive(Debug, Clone, Copy, PartialEq, Eq, Structural)]
pub enum ImageSize {
    /// 16 x 16 pixels.
    Tiny,
    /// 64 x 64 pixels.
    Small,
    /// 128 x 128 pixels.
    Medium,
    /// 256 x 256 pixels.
    Large,
    /// 300 x 300 pixels.
    ExtraLarge,
    /// No transform: the source image is forwarded as it is.
    Auto,
}

/// The stable identifier under which a tier is persisted.
pub open spec fn tier_identifier(t: ImageSize) -> Seq<char> {
    match t {
        ImageSize::Tiny => "HyperTechniqueOfLisaSuFinger"@,
        ImageSize::Small => "Small"@,
        ImageSize::Medium => "Medium"@,
        ImageSize::Large => "Large"@,
        ImageSize::ExtraLarge => "HyperSuperUltraSexFeaturedFuckingLarge"@,
        ImageSize::Auto => "Auto"@,
    }
}

/// The tier a persisted identifier denotes; every unknown string falls back
/// to `Auto`.
pub open spec fn tier_of_identifier(s: Seq<char>) -> ImageSize {
    if s == "HyperTechniqueOfLisaSuFinger"@ {
        ImageSize::Tiny
    } else if s == "Small"@ {
        ImageSize::Small
    } else if s == "Medium"@ {
        ImageSize::Medium
    } else if s == "Large"@ {
        ImageSize::Large
    } else if s == "HyperSuperUltraSexFeaturedFuckingLarge"@ {
        ImageSize::ExtraLarge
    } else {
        ImageSize::Auto
    }
}

/// The fixed output dimensions of a tier, `None` for `Auto`.
pub open spec fn spec_tier_dimensions(t: ImageSize) -> Option<(u32, u32)> {
    match t {
        ImageSize::Tiny => Some((16u32, 16u32)),
        ImageSize::Small => Some((64u32, 64u32)),
        ImageSize::Medium => Some((128u32, 128u32)),
        ImageSize::Large => Some((256u32, 256u32)),
        ImageSize::ExtraLarge => Some((300u32, 300u32)),
        ImageSize::Auto => None,
    }
}

impl ImageSize {
    /// Parses a persisted identifier back into a tier.
    pub fn string_to_value(input_str: &str) -> (r: Self)
        ensures
            r == tier_of_identifier(input_str@),
    {
        if str_eq(input_str, "HyperTechniqueOfLisaSuFinger") {
            ImageSize::Tiny
        } else if str_eq(input_str, "Small") {
            ImageSize::Small
        } else if str_eq(input_str, "Medium") {
            ImageSize::Medium
        } else if str_eq(input_str, "Large") {
            ImageSize::Large
        } else if str_eq(input_str, "HyperSuperUltraSexFeaturedFuckingLarge") {
            ImageSize::ExtraLarge
        } else {
            ImageSize::Auto
        }
    }

    /// Renders a tier as its persisted identifier.
    pub fn value_to_string(input_value: &ImageSize) -> (r: String)
        ensures
            r@ == tier_identifier(*input_value),
    {
        match input_value {
            ImageSize::Tiny => "HyperTechniqueOfLisaSuFinger".to_string(),
            ImageSize::Small => "Small".to_string(),
            ImageSize::Medium => "Medium".to_string(),
            ImageSize::Large => "Large".to_string(),
            ImageSize::ExtraLarge => "HyperSuperUltraSexFeaturedFuckingLarge".to_string(),
            ImageSize::Auto => "Auto".to_string(),
        }
    }

    /// The fixed output dimensions of this tier, `None` for `Auto`.
    pub fn tier_dimensions(&self) -> (r: Option<(u32, u32)>)
        ensures
            r == spec_tier_dimensions(*self),
    {
        match self {
            ImageSize::Tiny => Some((16u32, 16u32)),
            ImageSize::Small => Some((64u32, 64u32)),
            ImageSize::Medium => Some((128u32, 128u32)),
            ImageSize::Large => Some((256u32, 256u32)),
            ImageSize::ExtraLarge => Some((300u32, 300u32)),
            ImageSize::Auto => None,
        }
    }
}

/// The tier the sized-send command selects: animated emoji are never resized
/// locally, and the size argument counts the fixed tiers from the smallest up.
pub open spec fn spec_send_tier(is_png: bool, size_num: i64) -> ImageSize {
    if !is_png {
        ImageSize::Auto
    } else if size_num == 0 {
        ImageSize::Tiny
    } else if size_num == 1 {
        ImageSize::Small
    } else if size_num == 2 {
        ImageSize::Medium
    } else if size_num == 3 {
        ImageSize::Large
    } else {
        ImageSize::ExtraLarge
    }
}

/// Maps the sized-send command's arguments to the tier that is applied.
pub fn choose_send_tier(is_png: bool, size_num: i64) -> (r: ImageSize)
    ensures
        r == spec_send_tier(is_png, size_num),
{
    if !is_png {
        ImageSize::Auto
    } else {
        match size_num {
            0 => ImageSize::Tiny,
            1 => ImageSize::Small,
            2 => ImageSize::Medium,
            3 => ImageSize::Large,
            _ => ImageSize::ExtraLarge,
        }
    }
}

/// Law: the persisted identifier of every tier parses back to that same tier,
/// so storing and re-loading a tier is lossless.
pub proof fn lemma_tier_identifier_round_trip(t: ImageSize)
    ensures
        tier_of_identifier(tier_identifier(t)) == t,
{
    reveal_strlit("HyperTechniqueOfLisaSuFinger");
    reveal_strlit("Small");
    reveal_strlit("Medium");
    reveal_strlit("Large");
    reveal_strlit("HyperSuperUltraSexFeaturedFuckingLarge");
    reveal_strlit("Auto");
    // The identifiers differ pairwise: all lengths differ except the two
    // five-character ones, which differ in their first character.
    assert("HyperTechniqueOfLisaSuFinger"@.len() == 28);
    assert("Small"@.len() == 5);
    assert("Medium"@.len() == 6);
    assert("Large"@.len() == 5);
    assert("HyperSuperUltraSexFeaturedFuckingLarge"@.len() == 38);
    assert("Auto"@.len() == 4);
    assert("Small"@[0] == 'S');
    assert("Large"@[0] == 'L');
}

} // verus!
