//! The saved Effects profile that both the hardware OutFX path and the
//! software Effects fallback apply.

use vstd::prelude::*;

use crate::text::str_eq;

verus! {

/// One Effects profile: a master switch and five effects, each with an
/// availability flag, a switch and a level.
#[derive(Debug, Eq, PartialEq)]
pub struct EffectsProfileEntry {
    pub id: String,
    pub name: String,
    pub source: String,
    pub read_only: bool,
    pub outfx_enabled: bool,
    pub surround_available: bool,
    pub surround_enabled: bool,
    pub surround_level: u16,
    pub crystalizer_available: bool,
    pub crystalizer_enabled: bool,
    pub crystalizer_level: u16,
    pub bass_available: bool,
    pub bass_enabled: bool,
    pub bass_level: u16,
    pub smart_volume_available: bool,
    pub smart_volume_enabled: bool,
    pub smart_volume_level: u16,
    pub smart_volume_mode: String,
    pub dialog_available: bool,
    pub dialog_enabled: bool,
    pub dialog_level: u16,
}

impl Clone for EffectsProfileEntry {
    fn clone(&self) -> (r: Self)
        ensures
            r == *self,
    {
        EffectsProfileEntry {
            id: self.id.clone(),
            name: self.name.clone(),
            source: self.source.clone(),
            read_only: self.read_only,
            outfx_enabled: self.outfx_enabled,
            surround_available: self.surround_available,
            surround_enabled: self.surround_enabled,
            surround_level: self.surround_level,
            crystalizer_available: self.crystalizer_available,
            crystalizer_enabled: self.crystalizer_enabled,
            crystalizer_level: self.crystalizer_level,
            bass_available: self.bass_available,
            bass_enabled: self.bass_enabled,
            bass_level: self.bass_level,
            smart_volume_available: self.smart_volume_available,
            smart_volume_enabled: self.smart_volume_enabled,
            smart_volume_level: self.smart_volume_level,
            smart_volume_mode: self.smart_volume_mode.clone(),
            dialog_available: self.dialog_available,
            dialog_enabled: self.dialog_enabled,
            dialog_level: self.dialog_level,
        }
    }
}

/// The settings of a profile, with its strings as character sequences.
pub open spec fn effects_profile_view(p: EffectsProfileEntry) -> (
    (Seq<char>, Seq<char>, Seq<char>, bool, bool),
    (bool, bool, u16),
    (bool, bool, u16),
    (bool, bool, u16),
    (bool, bool, u16, Seq<char>),
    (bool, bool, u16),
) {
    (
        (p.id@, p.name@, p.source@, p.read_only, p.outfx_enabled),
        (p.surround_available, p.surround_enabled, p.surround_level),
        (p.crystalizer_available, p.crystalizer_enabled, p.crystalizer_level),
        (p.bass_available, p.bass_enabled, p.bass_level),
        (p.smart_volume_available, p.smart_volume_enabled, p.smart_volume_level, p.smart_volume_mode@),
        (p.dialog_available, p.dialog_enabled, p.dialog_level),
    )
}

/// Whether two profiles hold the same settings.
pub fn same_effects_profile(a: &EffectsProfileEntry, b: &EffectsProfileEntry) -> (r: bool)
    ensures
        r == (effects_profile_view(*a) == effects_profile_view(*b)),
{
    str_eq(a.id.as_str(), b.id.as_str()) && str_eq(a.name.as_str(), b.name.as_str()) && str_eq(
        a.source.as_str(),
        b.source.as_str(),
    ) && a.read_only == b.read_only && a.outfx_enabled == b.outfx_enabled && a.surround_available
        == b.surround_available && a.surround_enabled == b.surround_enabled && a.surround_level
        == b.surround_level && a.crystalizer_available == b.crystalizer_available
        && a.crystalizer_enabled == b.crystalizer_enabled && a.crystalizer_level
        == b.crystalizer_level && a.bass_available == b.bass_available && a.bass_enabled
        == b.bass_enabled && a.bass_level == b.bass_level && a.smart_volume_available
        == b.smart_volume_available && a.smart_volume_enabled == b.smart_volume_enabled
        && a.smart_volume_level == b.smart_volume_level && str_eq(
        a.smart_volume_mode.as_str(),
        b.smart_volume_mode.as_str(),
    ) && a.dialog_available == b.dialog_available && a.dialog_enabled == b.dialog_enabled
        && a.dialog_level == b.dialog_level
}

} // verus!
