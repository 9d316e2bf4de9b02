//! The file names the renderer works with: the scene file extension and
//! the per-frame output paths under a scene's directory.

use vstd::prelude::*;
use vstd::string::*;

use crate::text::{has_suffix, spec_decimal, str_ends_with};

verus! {

/// The extension a scene description file carries.
pub fn scene_file_extension() -> (r: &'static str)
    ensures
        r@ == ".rrtscene"@,
{
    ".rrtscene"
}

/// Whether `path` names a scene file, by its extension.
pub fn is_scene_file(path: &str) -> (r: bool)
    ensures
        r == has_suffix(path@, ".rrtscene"@),
{
    str_ends_with(path, scene_file_extension())
}

/// The directory rendered frames are written to: `<directory>/output`.
pub fn output_path(directory: &str) -> (r: String)
    ensures
        r@ == directory@ + "/output"@,
{
    let mut path = String::from_str(directory);
    path.append("/output");
    path
}

/// The file a frame is written to:
/// `<directory>/output/frame-<frame>.png`.
pub fn frame_image_path(directory: &str, frame: u32) -> (r: String)
    ensures
        r@ == directory@ + "/output"@ + "/frame-"@ + spec_decimal(frame as nat) + ".png"@,
{
    let mut path = output_path(directory);
    path.append("/frame-");
    let digits = crate::text::decimal_string(frame);
    path.append(digits.as_str());
    path.append(".png");
    proof {
        assert(path@ =~= directory@ + "/output"@ + "/frame-"@ + spec_decimal(frame as nat)
            + ".png"@);
    }
    path
}

} // verus!
