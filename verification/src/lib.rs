//! Core logic of a small path-tracing renderer.
//!
//! The floating-point light transport itself (vector math, intersection
//! roots, scattering) lives with the binary; this crate holds everything
//! the renderer decides and produces in discrete form, with proofs: the
//! pixel buffer a frame render yields, the plan of frames an animation
//! request expands to, the file paths frames are written to, the command
//! line grammar, and the editor's mode/loading state machine.

mod command;
mod editor;
mod frame;
mod paths;
mod render;
mod text;

pub use command::Command;
pub use command::CommandError;
pub use command::args_well_formed;
pub use command::spec_args_problem;
pub use command::validate_args;
pub use editor::EditorAction;
pub use editor::EditorEvent;
pub use editor::EditorMode;
pub use editor::EditorState;
pub use editor::Error;
pub use frame::FrameBuffer;
pub use frame::pixel_coords;
pub use frame::max_u32;
pub use render::RenderType;
pub use render::frames_to_render;
pub use render::spec_frames;
pub use render::frames_representable;
pub use paths::scene_file_extension;
pub use paths::is_scene_file;
pub use paths::output_path;
pub use paths::frame_image_path;
pub use text::str_eq;
pub use text::str_ends_with;
pub use text::decimal_string;
pub use text::parse_u32;
pub use text::is_digit;
pub use text::digit_value;
pub use text::digit_char;
pub use text::all_digits;
pub use text::spec_decimal;
pub use text::decimal_value;
pub use text::has_suffix;
pub use text::decimal_digits;
pub use text::is_u32_decimal;
pub use text::lemma_decimal_round_trip;
pub use text::lemma_decimal_parses;
