use rrt::{
    frames_to_render, frame_image_path, is_scene_file, output_path, parse_u32, pixel_coords,
    scene_file_extension, str_ends_with, str_eq, validate_args, Command, CommandError,
    EditorAction, EditorEvent, EditorMode, EditorState, Error, FrameBuffer, RenderType,
};

fn strings(parts: &[&str]) -> Vec<String> {
    parts.iter().map(|p| p.to_string()).collect()
}

#[test]
fn frame_buffer_keeps_pixels_row_major() {
    let pixels = vec![[1, 2, 3], [4, 5, 6], [7, 8, 9], [10, 11, 12], [13, 14, 15], [16, 17, 18]];
    let frame = FrameBuffer::from_pixels(3, 2, pixels);
    assert_eq!(frame.width(), 3);
    assert_eq!(frame.height(), 2);
    assert_eq!(frame.pixel_at(0, 0), [1, 2, 3]);
    assert_eq!(frame.pixel_at(2, 0), [7, 8, 9]);
    assert_eq!(frame.pixel_at(0, 1), [10, 11, 12]);
    assert_eq!(frame.pixel_at(2, 1), [16, 17, 18]);
}

#[test]
fn frame_buffer_single_pixel() {
    let frame = FrameBuffer::from_pixels(1, 1, vec![[9, 9, 9]]);
    assert_eq!(frame.pixel_at(0, 0), [9, 9, 9]);
}

#[test]
fn image_height_is_floored_at_one() {
    assert_eq!(rrt::max_u32(1, 0), 1);
    assert_eq!(rrt::max_u32(1, 1), 1);
    assert_eq!(rrt::max_u32(1, 225), 225);
    assert_eq!(rrt::max_u32(7, 3), 7);
}

#[test]
fn pixel_coords_splits_flat_index() {
    assert_eq!(pixel_coords(0, 4), (0, 0));
    assert_eq!(pixel_coords(5, 4), (1, 1));
    assert_eq!(pixel_coords(11, 4), (3, 2));
    assert_eq!(pixel_coords(7, 8), (7, 0));
}

#[test]
fn single_frame_renders_one_frame() {
    let frames = frames_to_render(&RenderType::SingleFrame(7));
    assert_eq!(frames, vec![7]);
}

#[test]
fn animation_renders_consecutive_frames() {
    let frames = frames_to_render(&RenderType::Animation(3, 4));
    assert_eq!(frames, vec![3, 4, 5, 6]);
}

#[test]
fn empty_animation_renders_nothing() {
    let frames = frames_to_render(&RenderType::Animation(5, 0));
    assert!(frames.is_empty());
}

#[test]
fn animation_reaching_last_index() {
    let frames = frames_to_render(&RenderType::Animation(u32::MAX - 1, 2));
    assert_eq!(frames, vec![u32::MAX - 1, u32::MAX]);
}

#[test]
fn decimal_of_small_numbers() {
    assert_eq!(rrt::decimal_string(0), "0");
    assert_eq!(rrt::decimal_string(7), "7");
    assert_eq!(rrt::decimal_string(10), "10");
    assert_eq!(rrt::decimal_string(42), "42");
}

#[test]
fn decimal_of_large_numbers() {
    assert_eq!(rrt::decimal_string(12345), "12345");
    assert_eq!(rrt::decimal_string(4294967295), "4294967295");
}

#[test]
fn parse_accepts_plain_digits() {
    assert_eq!(parse_u32("0"), Some(0));
    assert_eq!(parse_u32("123"), Some(123));
    assert_eq!(parse_u32("007"), Some(7));
    assert_eq!(parse_u32("4294967295"), Some(u32::MAX));
}

#[test]
fn parse_accepts_leading_plus() {
    assert_eq!(parse_u32("+42"), Some(42));
    assert_eq!(parse_u32("+0"), Some(0));
}

#[test]
fn parse_rejects_non_literals() {
    assert_eq!(parse_u32(""), None);
    assert_eq!(parse_u32("+"), None);
    assert_eq!(parse_u32("abc"), None);
    assert_eq!(parse_u32("12a"), None);
    assert_eq!(parse_u32("-1"), None);
    assert_eq!(parse_u32("1 2"), None);
}

#[test]
fn parse_rejects_overflow() {
    assert_eq!(parse_u32("4294967296"), None);
    assert_eq!(parse_u32("99999999999999999999"), None);
}

#[test]
fn formatting_then_parsing_round_trips() {
    for n in [0u32, 1, 9, 10, 99, 100, 4096, 123456789, u32::MAX] {
        assert_eq!(parse_u32(&rrt::decimal_string(n)), Some(n));
    }
}

#[test]
fn string_equality_by_characters() {
    assert!(str_eq("render", "render"));
    assert!(!str_eq("render", "rende"));
    assert!(!str_eq("render", "editor"));
    assert!(str_eq("", ""));
}

#[test]
fn suffix_test_by_characters() {
    assert!(str_ends_with("scene.rrtscene", ".rrtscene"));
    assert!(str_ends_with("abc", ""));
    assert!(!str_ends_with("scene.toml", ".rrtscene"));
    assert!(!str_ends_with("ene", "scene"));
}

#[test]
fn scene_files_by_extension() {
    assert_eq!(scene_file_extension(), ".rrtscene");
    assert!(is_scene_file("examples/world.rrtscene"));
    assert!(is_scene_file(".rrtscene"));
    assert!(!is_scene_file("examples/world.toml"));
    assert!(!is_scene_file("rrtscene"));
}

#[test]
fn output_directory_under_scene_directory() {
    assert_eq!(output_path("scenes/demo"), "scenes/demo/output");
}

#[test]
fn frame_files_are_numbered() {
    assert_eq!(frame_image_path("scenes/demo", 12), "scenes/demo/output/frame-12.png");
    assert_eq!(frame_image_path("s", 0), "s/output/frame-0.png");
}

#[test]
fn command_render_frame_defaults_to_zero() {
    let args = strings(&["rrt", "render", "world.rrtscene", "frame"]);
    match Command::from_args(args) {
        Ok(Command::Render(file, RenderType::SingleFrame(frame))) => {
            assert_eq!(file, "world.rrtscene");
            assert_eq!(frame, 0);
        }
        other => panic!("unexpected command: {:?}", other.is_ok()),
    }
}

#[test]
fn command_render_frame_with_index() {
    let args = strings(&["rrt", "render", "world.rrtscene", "frame", "5"]);
    match Command::from_args(args) {
        Ok(Command::Render(file, RenderType::SingleFrame(frame))) => {
            assert_eq!(file, "world.rrtscene");
            assert_eq!(frame, 5);
        }
        other => panic!("unexpected command: {:?}", other.is_ok()),
    }
}

#[test]
fn command_render_animation() {
    let args = strings(&["rrt", "render", "world.rrtscene", "animation", "2", "10"]);
    match Command::from_args(args) {
        Ok(Command::Render(file, RenderType::Animation(start, frames))) => {
            assert_eq!(file, "world.rrtscene");
            assert_eq!(start, 2);
            assert_eq!(frames, 10);
        }
        other => panic!("unexpected command: {:?}", other.is_ok()),
    }
}

#[test]
fn command_editor() {
    let args = strings(&["rrt", "editor", "world.rrtscene"]);
    match Command::from_args(args) {
        Ok(Command::Editor(file)) => assert_eq!(file, "world.rrtscene"),
        other => panic!("unexpected command: {:?}", other.is_ok()),
    }
}

#[test]
fn validation_accepts_the_grammar() {
    assert_eq!(validate_args(&strings(&["rrt", "render", "w.rrtscene", "frame"])), None);
    assert_eq!(validate_args(&strings(&["rrt", "render", "w.rrtscene", "frame", "9"])), None);
    assert_eq!(
        validate_args(&strings(&["rrt", "render", "w.rrtscene", "animation", "0", "24"])),
        None
    );
    assert_eq!(validate_args(&strings(&["rrt", "editor", "w.rrtscene"])), None);
}

#[test]
fn validation_reports_the_first_problem() {
    assert_eq!(validate_args(&strings(&["rrt"])), Some(CommandError::NoCommand));
    assert_eq!(validate_args(&strings(&[])), Some(CommandError::NoCommand));
    assert_eq!(validate_args(&strings(&["rrt", "paint"])), Some(CommandError::UnknownCommand));
    assert_eq!(
        validate_args(&strings(&["rrt", "render", "w.rrtscene"])),
        Some(CommandError::MissingRenderArgs)
    );
    assert_eq!(
        validate_args(&strings(&["rrt", "render", "w.rrtscene", "movie"])),
        Some(CommandError::UnknownRenderType)
    );
    assert_eq!(
        validate_args(&strings(&["rrt", "render", "w.rrtscene", "frame", "x"])),
        Some(CommandError::BadFrameNumber)
    );
    assert_eq!(
        validate_args(&strings(&["rrt", "render", "w.rrtscene", "animation", "1"])),
        Some(CommandError::WrongAnimationArgCount)
    );
    assert_eq!(
        validate_args(&strings(&["rrt", "render", "w.rrtscene", "animation", "1", "two"])),
        Some(CommandError::BadAnimationNumber)
    );
    assert_eq!(
        validate_args(&strings(&["rrt", "editor"])),
        Some(CommandError::WrongEditorArgCount)
    );
}

#[test]
fn editor_titles() {
    assert_eq!(EditorMode::Scene.title(), "Scene explorer");
    assert_eq!(EditorMode::Render.title(), "Render");
    assert_eq!(EditorMode::Meta.title(), "Meta");
}

#[test]
fn editor_starts_on_scene_tab() {
    let state = EditorState::new();
    assert_eq!(state.mode, EditorMode::Scene);
    assert!(!state.is_loading);
}

#[test]
fn editor_switches_tabs() {
    let mut state = EditorState::new();
    let action = state.update(EditorEvent::ModeChanged(EditorMode::Render));
    assert!(matches!(action, EditorAction::Idle));
    assert_eq!(state.mode, EditorMode::Render);
    assert!(!state.is_loading);
}

#[test]
fn editor_opens_dialog_once() {
    let mut state = EditorState::new();
    let action = state.update(EditorEvent::OpenSceneFile);
    assert!(matches!(action, EditorAction::OpenFileDialog));
    assert!(state.is_loading);
    let action = state.update(EditorEvent::OpenSceneFile);
    assert!(matches!(action, EditorAction::Idle));
    assert!(state.is_loading);
}

#[test]
fn editor_returns_to_scene_tab_on_open() {
    let mut state = EditorState::new();
    state.update(EditorEvent::ModeChanged(EditorMode::Meta));
    state.update(EditorEvent::OpenSceneFile);
    let action = state.update(EditorEvent::SceneOpened(Ok(())));
    assert!(matches!(action, EditorAction::NotifySuccess));
    assert_eq!(state.mode, EditorMode::Scene);
    assert!(!state.is_loading);
}

#[test]
fn editor_reports_dialog_closed() {
    let mut state = EditorState::new();
    state.update(EditorEvent::ModeChanged(EditorMode::Meta));
    state.update(EditorEvent::OpenSceneFile);
    let action = state.update(EditorEvent::SceneOpened(Err(Error::DialogClosed)));
    assert!(matches!(action, EditorAction::NotifyError(Error::DialogClosed)));
    assert_eq!(state.mode, EditorMode::Meta);
    assert!(!state.is_loading);
}

#[test]
fn editor_reports_io_error() {
    let mut state = EditorState::new();
    state.update(EditorEvent::OpenSceneFile);
    let action = state.update(
        EditorEvent::SceneOpened(Err(Error::IoError(std::io::ErrorKind::InvalidData))),
    );
    match action {
        EditorAction::NotifyError(Error::IoError(kind)) => {
            assert_eq!(kind, std::io::ErrorKind::InvalidData);
        }
        _ => panic!("expected an error notification"),
    }
    assert!(!state.is_loading);
}
