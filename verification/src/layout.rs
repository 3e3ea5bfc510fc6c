//! The two on-disk installation conventions, how one is recognised, and
//! the relative paths each one puts files at.

use vstd::prelude::*;

verus! {

/// Which of the two installation conventions the target uses. It is
/// derived once per run from the presence of one marker file and drives
/// both the texture output prefix and the patch strategy.
#[derive(Copy, Clone, PartialEq, Eq, Structural, Debug)]
pub enum LayoutMode {
    /// The older convention: textures sit directly under the game
    /// directory and the module is patched by pattern anchor.
    Legacy,
    /// The repackaged convention, recognised by its content archive:
    /// textures go under a custom directory and the module is patched
    /// at fixed offsets.
    Repackaged,
}

/// The marker file whose presence under the root selects the
/// repackaged convention.
pub fn layout_marker_rel_path() -> (r: &'static str)
    ensures
        r@ == "portal/portal_pak_dir.vpk"@,
{
    "portal/portal_pak_dir.vpk"
}

/// The companion module that must exist under the root, and that the
/// patcher mutates.
pub fn module_rel_path() -> (r: &'static str)
    ensures
        r@ == "portal/bin/client.dll"@,
{
    "portal/bin/client.dll"
}

/// The game descriptor that must exist under the root.
pub fn game_info_rel_path() -> (r: &'static str)
    ensures
        r@ == "portal/gameinfo.txt"@,
{
    "portal/gameinfo.txt"
}

/// Maps the presence of the layout marker to the layout mode: present
/// means repackaged, absent means legacy.
pub fn detect(marker_present: bool) -> (r: LayoutMode)
    ensures
        r == LayoutMode::Repackaged <==> marker_present,
        r == (if marker_present {
            LayoutMode::Repackaged
        } else {
            LayoutMode::Legacy
        }),
{
    if marker_present {
        LayoutMode::Repackaged
    } else {
        LayoutMode::Legacy
    }
}

/// What `texture_dir_rel_path` returns, as a sequence of characters.
pub open spec fn spec_texture_dir_rel_path(mode: LayoutMode) -> Seq<char> {
    match mode {
        LayoutMode::Legacy => "portal/materials/models/portals/"@,
        LayoutMode::Repackaged => "portal/custom/portaltools/materials/models/portals/"@,
    }
}

/// The directory the textures are written into, relative to the root.
/// Under the repackaged convention the embedding program must create it
/// (and its parents) before writing; creating it when it already exists
/// is not an error.
pub fn texture_dir_rel_path(mode: LayoutMode) -> (r: &'static str)
    ensures
        r@ == spec_texture_dir_rel_path(mode),
{
    match mode {
        LayoutMode::Legacy => "portal/materials/models/portals/",
        LayoutMode::Repackaged => "portal/custom/portaltools/materials/models/portals/",
    }
}

/// What `texture_rel_path` returns, as a sequence of characters.
pub open spec fn spec_texture_rel_path(mode: LayoutMode, color_index: int, dx8: bool) -> Seq<
    char,
> {
    match mode {
        LayoutMode::Legacy => {
            if color_index == 0 {
                if dx8 {
                    "portal/materials/models/portals/portal-blue-color-dx8.vtf"@
                } else {
                    "portal/materials/models/portals/portal-blue-color.vtf"@
                }
            } else {
                if dx8 {
                    "portal/materials/models/portals/portal-orange-color-dx8.vtf"@
                } else {
                    "portal/materials/models/portals/portal-orange-color.vtf"@
                }
            }
        },
        LayoutMode::Repackaged => {
            if color_index == 0 {
                if dx8 {
                    "portal/custom/portaltools/materials/models/portals/portal-blue-color-dx8.vtf"@
                } else {
                    "portal/custom/portaltools/materials/models/portals/portal-blue-color.vtf"@
                }
            } else {
                if dx8 {
                    "portal/custom/portaltools/materials/models/portals/portal-orange-color-dx8.vtf"@
                } else {
                    "portal/custom/portaltools/materials/models/portals/portal-orange-color.vtf"@
                }
            }
        },
    }
}

/// The file one texture is written to, relative to the root: under the
/// mode's texture directory, named after the colorized portal (position
/// 0 is blue, position 1 is orange), with a suffix for the lower
/// hardware tier.
pub fn texture_rel_path(mode: LayoutMode, color_index: u8, dx8: bool) -> (r: &'static str)
    requires
        color_index < 2,
    ensures
        r@ == spec_texture_rel_path(mode, color_index as int, dx8),
{
    match mode {
        LayoutMode::Legacy => {
            if color_index == 0 {
                if dx8 {
                    "portal/materials/models/portals/portal-blue-color-dx8.vtf"
                } else {
                    "portal/materials/models/portals/portal-blue-color.vtf"
                }
            } else {
                if dx8 {
                    "portal/materials/models/portals/portal-orange-color-dx8.vtf"
                } else {
                    "portal/materials/models/portals/portal-orange-color.vtf"
                }
            }
        },
        LayoutMode::Repackaged => {
            if color_index == 0 {
                if dx8 {
                    "portal/custom/portaltools/materials/models/portals/portal-blue-color-dx8.vtf"
                } else {
                    "portal/custom/portaltools/materials/models/portals/portal-blue-color.vtf"
                }
            } else {
                if dx8 {
                    "portal/custom/portaltools/materials/models/portals/portal-orange-color-dx8.vtf"
                } else {
                    "portal/custom/portaltools/materials/models/portals/portal-orange-color.vtf"
                }
            }
        },
    }
}

} // verus!
