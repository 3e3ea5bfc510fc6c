//! The orchestrator's decisions: what one run does, in what order, and
//! the exact files the texture phase produces. The embedding program
//! only reads and writes what these functions decide.

use vstd::prelude::*;
use vstd::string::StringExecFns;

use crate::color::Color;
use crate::color::Colors;
use crate::color::color_of_hex;
use crate::color::parse_colors;
use crate::color::valid_color_hex;
use crate::colorize::TemplateImage;
use crate::colorize::colorize;
use crate::colorize::colorized_data;
use crate::encode::EncoderProfile;
use crate::encode::encodable_dims;
use crate::encode::encode;
use crate::encode::vtf_bytes;
use crate::errors::ApplyError;
use crate::errors::EncodeError;
use crate::layout::LayoutMode;
use crate::layout::spec_texture_rel_path;
use crate::layout::texture_rel_path;

verus! {

/// What one run will do, decided up front from the request, the root
/// markers and the color fields, before any file is touched.
#[derive(Copy, Clone, PartialEq, Eq, Structural, Debug)]
pub struct Plan {
    /// Whether the texture phase runs.
    pub do_textures: bool,
    /// Whether the patch phase runs.
    pub do_patch: bool,
    /// The decoded colors of the run.
    pub colors: Colors,
    /// The layout the target installation uses.
    pub mode: LayoutMode,
}

/// Decides a run. With nothing requested the run is an empty success.
/// Otherwise the root must hold the two required markers, refused
/// before the colors are looked at; then the three color fields must
/// each hold six hex digits, refused before any file work; then the
/// layout marker selects the mode.
pub fn apply_plan(
    want_textures: bool,
    want_patch: bool,
    module_present: bool,
    game_info_present: bool,
    layout_marker_present: bool,
    blue: &str,
    orange: &str,
    carry: &str,
) -> (r: Result<Plan, ApplyError>)
    ensures
        !want_textures && !want_patch ==> r == Ok::<Plan, ApplyError>(
            Plan {
                do_textures: false,
                do_patch: false,
                colors: Colors {
                    blue: Color { r: 0, g: 0, b: 0 },
                    orange: Color { r: 0, g: 0, b: 0 },
                    carry: Color { r: 0, g: 0, b: 0 },
                },
                mode: LayoutMode::Legacy,
            },
        ),
        (want_textures || want_patch) && !(module_present && game_info_present) ==> r
            == Err::<Plan, ApplyError>(ApplyError::InvalidRoot),
        (want_textures || want_patch) && module_present && game_info_present ==> {
            if valid_color_hex(blue@) && valid_color_hex(orange@) && valid_color_hex(carry@) {
                r == Ok::<Plan, ApplyError>(
                    Plan {
                        do_textures: want_textures,
                        do_patch: want_patch,
                        colors: Colors {
                            blue: color_of_hex(blue@),
                            orange: color_of_hex(orange@),
                            carry: color_of_hex(carry@),
                        },
                        mode: if layout_marker_present {
                            LayoutMode::Repackaged
                        } else {
                            LayoutMode::Legacy
                        },
                    },
                )
            } else {
                r == Err::<Plan, ApplyError>(ApplyError::InvalidColor)
            }
        },
{
    if !want_textures && !want_patch {
        return Ok(
            Plan {
                do_textures: false,
                do_patch: false,
                colors: Colors {
                    blue: Color { r: 0, g: 0, b: 0 },
                    orange: Color { r: 0, g: 0, b: 0 },
                    carry: Color { r: 0, g: 0, b: 0 },
                },
                mode: LayoutMode::Legacy,
            },
        );
    }
    if !module_present || !game_info_present {
        return Err(ApplyError::InvalidRoot);
    }
    let colors = match parse_colors(blue, orange, carry) {
        Ok(cs) => cs,
        Err(e) => {
            return Err(e);
        },
    };
    let mode = if layout_marker_present {
        LayoutMode::Repackaged
    } else {
        LayoutMode::Legacy
    };
    Ok(Plan { do_textures: want_textures, do_patch: want_patch, colors, mode })
}

/// Aggregates the two phases' outcomes the way the tool reports a run:
/// at most one failure is surfaced, and when both phases fail the
/// later, patch phase's failure wins. Callers wanting full diagnostics
/// should inspect both outcomes themselves.
pub fn aggregate_outcomes(textures: Result<(), ApplyError>, patching: Result<(), ApplyError>) -> (r:
    Result<(), ApplyError>)
    ensures
        r == (if patching is Err {
            patching
        } else {
            textures
        }),
{
    match patching {
        Err(e) => Err(e),
        Ok(_) => textures,
    }
}

/// One texture file the texture phase will write: its path relative to
/// the root, and its full container bytes.
pub struct TextureFile {
    pub rel_path: String,
    pub bytes: Vec<u8>,
}

/// Computes the whole texture phase: both portal colors, colorized
/// against both tier templates and serialized, in the order the files
/// are written — blue for the newer tier, blue for the older, orange
/// for the newer, orange for the older. Nothing is produced unless
/// every file can be; the carry color paints no texture.
pub fn plan_textures(
    colors: &Colors,
    template_dx9: &TemplateImage,
    template_dx8: &TemplateImage,
    mode: LayoutMode,
) -> (r: Result<Vec<TextureFile>, ApplyError>)
    requires
        template_dx9.wf(),
        template_dx8.wf(),
    ensures
        r is Ok <==> encodable_dims(template_dx9.width as int, template_dx9.height as int)
            && encodable_dims(template_dx8.width as int, template_dx8.height as int),
        r is Err ==> r == Err::<Vec<TextureFile>, ApplyError>(
            ApplyError::Encode(EncodeError::InvalidDimensions),
        ),
        r matches Ok(v) ==> {
            &&& v@.len() == 4
            &&& v@[0].rel_path@ == spec_texture_rel_path(mode, 0, false)
            &&& v@[0].bytes@ == vtf_bytes(
                template_dx9.width as nat,
                template_dx9.height as nat,
                colorized_data(*template_dx9, colors.blue),
            )
            &&& v@[1].rel_path@ == spec_texture_rel_path(mode, 0, true)
            &&& v@[1].bytes@ == vtf_bytes(
                template_dx8.width as nat,
                template_dx8.height as nat,
                colorized_data(*template_dx8, colors.blue),
            )
            &&& v@[2].rel_path@ == spec_texture_rel_path(mode, 1, false)
            &&& v@[2].bytes@ == vtf_bytes(
                template_dx9.width as nat,
                template_dx9.height as nat,
                colorized_data(*template_dx9, colors.orange),
            )
            &&& v@[3].rel_path@ == spec_texture_rel_path(mode, 1, true)
            &&& v@[3].bytes@ == vtf_bytes(
                template_dx8.width as nat,
                template_dx8.height as nat,
                colorized_data(*template_dx8, colors.orange),
            )
            &&& v@[0].bytes@.len() == 64 + 4 * template_dx9.pixel_count()
            &&& v@[1].bytes@.len() == 64 + 4 * template_dx8.pixel_count()
            &&& v@[2].bytes@.len() == 64 + 4 * template_dx9.pixel_count()
            &&& v@[3].bytes@.len() == 64 + 4 * template_dx8.pixel_count()
        },
{
    let blue_dx9 = colorize(template_dx9, colors.blue);
    let blue_dx8 = colorize(template_dx8, colors.blue);
    let orange_dx9 = colorize(template_dx9, colors.orange);
    let orange_dx8 = colorize(template_dx8, colors.orange);
    let bytes_blue_dx9 = match encode(&blue_dx9, EncoderProfile::Dx9) {
        Ok(b) => b,
        Err(_) => {
            return Err(ApplyError::Encode(EncodeError::InvalidDimensions));
        },
    };
    let bytes_blue_dx8 = match encode(&blue_dx8, EncoderProfile::Dx8) {
        Ok(b) => b,
        Err(_) => {
            return Err(ApplyError::Encode(EncodeError::InvalidDimensions));
        },
    };
    let bytes_orange_dx9 = match encode(&orange_dx9, EncoderProfile::Dx9) {
        Ok(b) => b,
        Err(_) => {
            return Err(ApplyError::Encode(EncodeError::InvalidDimensions));
        },
    };
    let bytes_orange_dx8 = match encode(&orange_dx8, EncoderProfile::Dx8) {
        Ok(b) => b,
        Err(_) => {
            return Err(ApplyError::Encode(EncodeError::InvalidDimensions));
        },
    };
    let mut files: Vec<TextureFile> = Vec::new();
    files.push(
        TextureFile {
            rel_path: String::from_str(texture_rel_path(mode, 0, false)),
            bytes: bytes_blue_dx9,
        },
    );
    files.push(
        TextureFile {
            rel_path: String::from_str(texture_rel_path(mode, 0, true)),
            bytes: bytes_blue_dx8,
        },
    );
    files.push(
        TextureFile {
            rel_path: String::from_str(texture_rel_path(mode, 1, false)),
            bytes: bytes_orange_dx9,
        },
    );
    files.push(
        TextureFile {
            rel_path: String::from_str(texture_rel_path(mode, 1, true)),
            bytes: bytes_orange_dx8,
        },
    );
    Ok(files)
}

} // verus!
