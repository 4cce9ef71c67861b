//! Per-guild policy records and the keyed store that holds them.
//!
//! The store is modelled as a map from guild id to its policy record. The
//! surrounding runtime shards it behind a read-mostly outer lock with one
//! exclusive lock per record, so an edit to one guild never blocks another;
//! this module carries the sequential contract that each per-guild critical
//! section relies on, together with the hydration and edit decisions. Every
//! record mutation is mirrored to a durable document store by the caller
//! (write-through): [`GuildConfig::document_fields`] yields the plain values
//! of that document.

use std::collections::HashMap;

use vstd::prelude::*;

use crate::sizing::{tier_identifier, tier_of_identifier, ImageSize};
use crate::text::str_eq;

verus! {

broadcast use vstd::std_specs::hash::group_hash_axioms;

/// Policy of one guild: feature flags and the default size tier. Exactly one
/// live record exists per guild id; the persisted document is its durable
/// shadow and may lag briefly after a mutation.
#[derive(Debug, Clone)]
pub struct GuildConfig {
    /// Non-zero 64-bit guild identifier.
    pub guild_id: u64,
    /// Whether emoji messages are automatically resized and re-sent.
    pub auto_magnitute_enable: bool,
    /// The tier applied by the automatic resize.
    pub auto_magnitute_config: ImageSize,
    /// Whether animated WebP attachments are automatically converted to GIF.
    pub auto_transfer_webp: bool,
}

impl GuildConfig {
    /// A valid record names a real guild.
    pub open spec fn wf(self) -> bool {
        self.guild_id != 0
    }

    /// The default policy a guild starts with: every flag off, tier `Auto`.
    pub open spec fn spec_default(guild_id: u64) -> GuildConfig {
        GuildConfig {
            guild_id,
            auto_magnitute_enable: false,
            auto_magnitute_config: ImageSize::Auto,
            auto_transfer_webp: false,
        }
    }

    /// Creates the default policy for a newly observed guild.
    pub fn new(guild_id: u64) -> (r: Self)
        requires
            guild_id != 0,
        ensures
            r == Self::spec_default(guild_id),
            r.wf(),
    {
        Self {
            guild_id,
            auto_magnitute_enable: false,
            auto_magnitute_config: ImageSize::Auto,
            auto_transfer_webp: false,
        }
    }

    /// Rebuilds a policy record from persisted values.
    pub fn load(
        guild_id: u64,
        auto_magnitute_enable_input: bool,
        auto_magnitute_config_input: ImageSize,
        auto_transfer_webp_input: bool,
    ) -> (r: Self)
        requires
            guild_id != 0,
        ensures
            r.guild_id == guild_id,
            r.auto_magnitute_enable == auto_magnitute_enable_input,
            r.auto_magnitute_config == auto_magnitute_config_input,
            r.auto_transfer_webp == auto_transfer_webp_input,
            r.wf(),
    {
        Self {
            guild_id,
            auto_magnitute_enable: auto_magnitute_enable_input,
            auto_magnitute_config: auto_magnitute_config_input,
            auto_transfer_webp: auto_transfer_webp_input,
        }
    }

    /// Flips the automatic-resize flag; everything else stays.
    pub fn toggle_auto_magnitute(&mut self)
        ensures
            final(self).auto_magnitute_enable == !old(self).auto_magnitute_enable,
            final(self).guild_id == old(self).guild_id,
            final(self).auto_magnitute_config == old(self).auto_magnitute_config,
            final(self).auto_transfer_webp == old(self).auto_transfer_webp,
    {
        self.auto_magnitute_enable = !self.auto_magnitute_enable;
    }

    /// Flips the automatic WebP conversion flag; everything else stays.
    pub fn toggle_auto_transfer(&mut self)
        ensures
            final(self).auto_transfer_webp == !old(self).auto_transfer_webp,
            final(self).guild_id == old(self).guild_id,
            final(self).auto_magnitute_enable == old(self).auto_magnitute_enable,
            final(self).auto_magnitute_config == old(self).auto_magnitute_config,
    {
        self.auto_transfer_webp = !self.auto_transfer_webp;
    }

    /// Sets the default size tier; everything else stays.
    pub fn set_size_tier(&mut self, tier: ImageSize)
        ensures
            final(self).auto_magnitute_config == tier,
            final(self).guild_id == old(self).guild_id,
            final(self).auto_magnitute_enable == old(self).auto_magnitute_enable,
            final(self).auto_transfer_webp == old(self).auto_transfer_webp,
    {
        self.auto_magnitute_config = tier;
    }

    /// The automatic-resize gate of this record: the tier to apply when the
    /// feature is on, `None` when it is off.
    pub fn autosend_gate(&self) -> (r: Option<ImageSize>)
        ensures
            match r {
                Some(t) => self.auto_magnitute_enable && t == self.auto_magnitute_config,
                None => !self.auto_magnitute_enable,
            },
    {
        if self.auto_magnitute_enable {
            Some(self.auto_magnitute_config)
        } else {
            None
        }
    }

    /// The plain values of the persisted policy document for this record,
    /// written through after every mutation: guild id, resize flag, the
    /// tier's persisted identifier, and the WebP conversion flag.
    pub fn document_fields(&self) -> (r: (u64, bool, String, bool))
        ensures
            r.0 == self.guild_id,
            r.1 == self.auto_magnitute_enable,
            r.2@ == tier_identifier(self.auto_magnitute_config),
            r.3 == self.auto_transfer_webp,
    {
        (
            self.guild_id,
            self.auto_magnitute_enable,
            ImageSize::value_to_string(&self.auto_magnitute_config),
            self.auto_transfer_webp,
        )
    }
}

/// The plain values read from one persisted policy document.
pub struct PolicyDocument {
    pub auto_magnitute_enable: bool,
    pub auto_magnitute_config: String,
    pub auto_transfer_webp: bool,
}

/// Decides how one guild's policy is hydrated at boot: from its persisted
/// document when one exists, else as a fresh default. The flag is true
/// exactly when a default document must be written back to the store.
pub fn hydrate_config(guild_id: u64, document: Option<PolicyDocument>) -> (r: (GuildConfig, bool))
    requires
        guild_id != 0,
    ensures
        r.0.wf(),
        r.0.guild_id == guild_id,
        match document {
            Some(d) => ({
                &&& r.0.auto_magnitute_enable == d.auto_magnitute_enable
                &&& r.0.auto_magnitute_config == tier_of_identifier(d.auto_magnitute_config@)
                &&& r.0.auto_transfer_webp == d.auto_transfer_webp
                &&& r.1 == false
            }),
            None => r.0 == GuildConfig::spec_default(guild_id) && r.1 == true,
        },
{
    match document {
        Some(d) => (
            GuildConfig::load(
                guild_id,
                d.auto_magnitute_enable,
                ImageSize::string_to_value(d.auto_magnitute_config.as_str()),
                d.auto_transfer_webp,
            ),
            false,
        ),
        None => (GuildConfig::new(guild_id), true),
    }
}

/// The tier a size-selection input denotes; every unknown input falls back
/// to `Auto`.
pub open spec fn spec_size_button_tier(s: Seq<char>) -> ImageSize {
    if s == "setemoji_smallest"@ {
        ImageSize::Tiny
    } else if s == "setemoji_small"@ {
        ImageSize::Small
    } else if s == "setemoji_medium"@ {
        ImageSize::Medium
    } else if s == "setemoji_large"@ {
        ImageSize::Large
    } else if s == "setemoji_largest"@ {
        ImageSize::ExtraLarge
    } else {
        ImageSize::Auto
    }
}

/// Maps a size-selection input of the configuration dialogue to its tier.
pub fn size_button_tier(custom_id: &str) -> (r: ImageSize)
    ensures
        r == spec_size_button_tier(custom_id@),
{
    if str_eq(custom_id, "setemoji_smallest") {
        ImageSize::Tiny
    } else if str_eq(custom_id, "setemoji_small") {
        ImageSize::Small
    } else if str_eq(custom_id, "setemoji_medium") {
        ImageSize::Medium
    } else if str_eq(custom_id, "setemoji_large") {
        ImageSize::Large
    } else if str_eq(custom_id, "setemoji_largest") {
        ImageSize::ExtraLarge
    } else {
        ImageSize::Auto
    }
}

/// The process-wide keyed policy store: one record per known guild.
pub struct GuildConfigStore {
    configs: HashMap<u64, GuildConfig>,
}

impl View for GuildConfigStore {
    type V = Map<u64, GuildConfig>;

    closed spec fn view(&self) -> Map<u64, GuildConfig> {
        self.configs@
    }
}

impl GuildConfigStore {
    /// Every stored record is valid and filed under its own guild id.
    pub open spec fn wf(self) -> bool {
        forall|g: u64|
            self@.contains_key(g) ==> (#[trigger] self@[g]).wf() && self@[g].guild_id == g
    }

    /// An empty store.
    pub fn new() -> (r: Self)
        ensures
            r@ == Map::<u64, GuildConfig>::empty(),
            r.wf(),
    {
        let r = GuildConfigStore { configs: HashMap::new() };
        proof {
            assert(r@ =~= Map::<u64, GuildConfig>::empty());
        }
        r
    }

    /// Number of guilds the store knows.
    pub fn len(&self) -> (r: usize)
        ensures
            r == self@.dom().len(),
    {
        self.configs.len()
    }

    /// Looks a guild's record up; absence means the guild is unknown.
    pub fn get(&self, guild_id: u64) -> (r: Option<&GuildConfig>)
        ensures
            match r {
                Some(c) => self@.contains_key(guild_id) && *c == self@[guild_id],
                None => !self@.contains_key(guild_id),
            },
    {
        self.configs.get(&guild_id)
    }

    /// Files a record under its guild id, replacing any previous one; used
    /// after every hydration or edit, whose write-through the caller mirrors
    /// to the document store.
    pub fn upsert(&mut self, config: GuildConfig)
        requires
            old(self).wf(),
            config.wf(),
        ensures
            final(self)@ == old(self)@.insert(config.guild_id, config),
            final(self).wf(),
    {
        let id = config.guild_id;
        self.configs.insert(id, config);
    }

    /// Inserts a fresh default record when the guild is not yet known and
    /// keeps the existing record otherwise; used at first observation of a
    /// guild.
    pub fn upsert_default(&mut self, guild_id: u64)
        requires
            guild_id != 0,
            old(self).wf(),
        ensures
            final(self)@ == if old(self)@.contains_key(guild_id) {
                old(self)@
            } else {
                old(self)@.insert(guild_id, GuildConfig::spec_default(guild_id))
            },
            final(self).wf(),
    {
        if self.configs.get(&guild_id).is_none() {
            self.configs.insert(guild_id, GuildConfig::new(guild_id));
        } else {
            proof {
                assert(self@ =~= old(self)@);
            }
        }
    }

    /// Removes a guild's record; reports whether one existed. Used when the
    /// guild becomes unavailable; the caller deletes the persisted document.
    pub fn remove(&mut self, guild_id: u64) -> (r: Result<(), ()>)
        requires
            old(self).wf(),
        ensures
            final(self)@ == old(self)@.remove(guild_id),
            r is Ok <==> old(self)@.contains_key(guild_id),
            final(self).wf(),
    {
        match self.configs.remove(&guild_id) {
            Some(_) => Ok(()),
            None => {
                proof {
                    assert(self@ =~= old(self)@.remove(guild_id));
                }
                Err(())
            },
        }
    }

    /// The policy gate of the automatic paths: the tier to apply, or `None`
    /// when the guild is unknown or automatic resizing is off.
    pub fn autosend_policy(&self, guild_id: u64) -> (r: Option<ImageSize>)
        ensures
            match r {
                Some(t) => self@.contains_key(guild_id) && self@[guild_id].auto_magnitute_enable
                    && t == self@[guild_id].auto_magnitute_config,
                None => !self@.contains_key(guild_id) || !self@[
                    guild_id
                ].auto_magnitute_enable,
            },
    {
        match self.configs.get(&guild_id) {
            None => None,
            Some(c) => if c.auto_magnitute_enable {
                Some(c.auto_magnitute_config)
            } else {
                None
            },
        }
    }
}

/// Law: filing one guild's record changes no other guild's record — the
/// store's state is independent per key, so per-key serialisation is sound.
pub proof fn lemma_store_edit_is_per_guild(
    before: Map<u64, GuildConfig>,
    config: GuildConfig,
    other: u64,
)
    requires
        other != config.guild_id,
    ensures
        before.insert(config.guild_id, config).contains_key(other) == before.contains_key(other),
        before.contains_key(other) ==> before.insert(config.guild_id, config)[other]
            == before[other],
{
}

} // verus!
