use tui_obj::app::{
    view_command, Action, App, AppMode, Key, Primitives, Status, StatusMode, ViewCommand, TAB_COUNT,
};
use tui_obj::mesh::LoadError;
use tui_obj::projection::source;
use tui_obj::render::Color;

fn cube() -> App<f32> {
    let positions: Vec<f32> = vec![
        1.0, 1.0, 1.0, -1.0, 1.0, 1.0, -1.0, 1.0, -1.0, 1.0, 1.0, -1.0, 1.0, -1.0, 1.0, -1.0,
        -1.0, 1.0, -1.0, -1.0, -1.0, 1.0, -1.0, -1.0,
    ];
    let indices: Vec<u32> = vec![
        0, 1, 2, 0, 2, 3, 4, 5, 6, 4, 6, 7, 0, 1, 5, 0, 4, 5, 1, 2, 6, 1, 6, 5, 2, 3, 7, 2, 7, 6,
        3, 0, 4, 3, 7, 4,
    ];
    App::new(positions, indices).ok().unwrap()
}

fn type_text(app: &mut App<f32>, text: &str) {
    for c in text.chars() {
        assert_eq!(app.handle_key(Key::Char(c)), Action::Nothing);
    }
}

fn typed(app: &App<f32>) -> String {
    app.input().iter().collect()
}

#[test]
fn a_session_starts_on_the_help_tab_with_nothing_selected() {
    let app = cube();
    assert_eq!(app.tab_index(), 2);
    assert_eq!(app.mode(), AppMode::Help);
    assert_eq!(app.status(), Status::Welcome);
    assert_eq!(app.status_mode(), StatusMode::Normal);
    assert!(!app.top_down());
    assert!(app.input().is_empty());
    assert_eq!(app.vertices().len(), 8);
    assert_eq!(app.faces().len(), 12);
    assert_eq!(app.vertices().selected(), None);
    assert_eq!(app.faces().selected(), None);
}

#[test]
fn a_session_is_not_started_on_buffers_that_are_no_mesh() {
    let made: Result<App<f32>, LoadError> = App::new(vec![0.0; 6], vec![0, 1, 2]);
    assert_eq!(made.err(), Some(LoadError::IndexOutOfRange { position: 2, index: 2 }));
}

#[test]
fn tabs_wrap_in_both_directions() {
    let mut app = cube();
    assert_eq!(TAB_COUNT, 3);
    app.next_tab();
    assert_eq!(app.tab_index(), 0);
    assert_eq!(app.mode(), AppMode::VertexList);
    app.next_tab();
    assert_eq!(app.tab_index(), 1);
    assert_eq!(app.mode(), AppMode::FaceList);
    app.next_tab();
    assert_eq!(app.tab_index(), 2);
    app.prev_tab();
    assert_eq!(app.tab_index(), 1);
    app.prev_tab();
    app.prev_tab();
    assert_eq!(app.tab_index(), 2);
    assert_eq!(app.status(), Status::Welcome);
}

#[test]
fn choosing_a_tab_is_reported() {
    let mut app = cube();
    app.set_tab(1);
    assert_eq!(app.tab_index(), 1);
    assert_eq!(app.status(), Status::Switched);
    app.set_tab(0);
    assert_eq!(app.mode(), AppMode::VertexList);
    app.set_tab(2);
    assert_eq!(app.mode(), AppMode::Help);
}

#[test]
fn items_step_in_the_list_of_the_tab() {
    let mut app = cube();
    app.set_tab(0);
    app.next_item();
    app.next_item();
    assert_eq!(app.vertices().selected(), Some(1));
    assert_eq!(app.faces().selected(), None);
    app.set_tab(1);
    app.prev_item();
    app.prev_item();
    assert_eq!(app.faces().selected(), Some(11));
    assert_eq!(app.vertices().selected(), Some(1));
    app.next_item();
    assert_eq!(app.faces().selected(), Some(0));
    app.set_tab(0);
    app.prev_item();
    app.prev_item();
    assert_eq!(app.vertices().selected(), Some(7));
}

#[test]
fn items_do_not_step_on_the_help_tab() {
    let mut app = cube();
    app.next_item();
    app.prev_item();
    assert_eq!(app.handle_key(Key::Down), Action::Nothing);
    assert_eq!(app.handle_key(Key::Up), Action::Nothing);
    assert_eq!(app.vertices().selected(), None);
    assert_eq!(app.faces().selected(), None);
}

#[test]
fn q_ends_the_session() {
    let mut app = cube();
    assert_eq!(app.handle_key(Key::Char('q')), Action::Quit);
    app.set_tab(0);
    assert_eq!(app.handle_key(Key::Char('q')), Action::Quit);
    assert_eq!(app.tab_index(), 0);
}

#[test]
fn tab_keys_choose_tabs() {
    let mut app = cube();
    assert_eq!(app.handle_key(Key::Char('v')), Action::Nothing);
    assert_eq!(app.tab_index(), 0);
    assert_eq!(app.status(), Status::Switched);
    assert_eq!(app.handle_key(Key::Char('f')), Action::Nothing);
    assert_eq!(app.tab_index(), 1);
    assert_eq!(app.handle_key(Key::Char('h')), Action::Nothing);
    assert_eq!(app.tab_index(), 2);
}

#[test]
fn arrow_keys_step_through_the_list() {
    let mut app = cube();
    app.handle_key(Key::Char('f'));
    assert_eq!(app.handle_key(Key::Down), Action::Nothing);
    assert_eq!(app.handle_key(Key::Down), Action::Nothing);
    assert_eq!(app.faces().selected(), Some(1));
    assert_eq!(app.handle_key(Key::Up), Action::Nothing);
    assert_eq!(app.handle_key(Key::Up), Action::Nothing);
    assert_eq!(app.faces().selected(), Some(11));
}

#[test]
fn camera_keys_are_passed_on_in_the_two_mesh_tabs() {
    let mut app = cube();
    app.set_tab(0);
    assert_eq!(app.handle_key(Key::Char('-')), Action::View(ViewCommand::ZoomOut));
    assert_eq!(app.handle_key(Key::Char('+')), Action::View(ViewCommand::ZoomIn));
    assert_eq!(app.handle_key(Key::Char('7')), Action::View(ViewCommand::RotateLeft));
    assert_eq!(app.handle_key(Key::Char('9')), Action::View(ViewCommand::RotateRight));
    assert_eq!(app.handle_key(Key::Char('8')), Action::View(ViewCommand::PanUp));
    assert_eq!(app.handle_key(Key::Char('2')), Action::View(ViewCommand::PanDown));
    assert_eq!(app.handle_key(Key::Char('6')), Action::View(ViewCommand::PanRight));
    assert_eq!(app.handle_key(Key::Char('4')), Action::View(ViewCommand::PanLeft));
    app.set_tab(1);
    assert_eq!(app.handle_key(Key::Char('9')), Action::View(ViewCommand::RotateRight));
    assert_eq!(app.status(), Status::Switched);
    assert_eq!(app.tab_index(), 1);
}

#[test]
fn camera_keys_do_nothing_on_the_help_tab() {
    let mut app = cube();
    for c in ['-', '+', '7', '9', '8', '2', '6', '4', '5'] {
        assert_eq!(app.handle_key(Key::Char(c)), Action::Nothing);
    }
    assert!(!app.top_down());
}

#[test]
fn five_changes_between_side_and_top() {
    let mut app = cube();
    app.set_tab(0);
    assert_eq!(app.handle_key(Key::Char('5')), Action::Nothing);
    assert!(app.top_down());
    assert_eq!(app.handle_key(Key::Char('5')), Action::Nothing);
    assert!(!app.top_down());
    app.toggle_top_down();
    assert!(app.top_down());
}

#[test]
fn other_keys_do_nothing() {
    let mut app = cube();
    app.set_tab(0);
    for key in [
        Key::Other,
        Key::Left,
        Key::Right,
        Key::Enter,
        Key::Backspace,
        Key::Esc,
        Key::Char('w'),
        Key::Char('u'),
        Key::Char('n'),
        Key::Char('d'),
        Key::Char('t'),
        Key::Char('x'),
    ] {
        assert_eq!(app.handle_key(key), Action::Nothing);
    }
    assert_eq!(app.tab_index(), 0);
    assert_eq!(app.status_mode(), StatusMode::Normal);
    assert_eq!(app.vertices().selected(), None);
    assert!(!app.top_down());
}

#[test]
fn o_opens_an_empty_prompt() {
    let mut app = cube();
    assert_eq!(app.handle_key(Key::Char('o')), Action::Nothing);
    assert_eq!(app.status_mode(), StatusMode::Open);
    assert_eq!(app.status(), Status::Prompt);
    assert!(app.input().is_empty());
    assert_eq!(app.tab_index(), 2);
}

#[test]
fn the_prompt_takes_every_character_as_text() {
    let mut app = cube();
    app.handle_key(Key::Char('o'));
    type_text(&mut app, "qvf5o.obj");
    assert_eq!(typed(&app), "qvf5o.obj");
    assert_eq!(app.status_mode(), StatusMode::Open);
    assert_eq!(app.tab_index(), 2);
    assert_eq!(app.handle_key(Key::Down), Action::Nothing);
    assert_eq!(typed(&app), "qvf5o.obj");
}

#[test]
fn backspace_takes_the_last_character_away() {
    let mut app = cube();
    app.handle_key(Key::Char('o'));
    type_text(&mut app, "ab");
    assert_eq!(app.handle_key(Key::Backspace), Action::Nothing);
    assert_eq!(typed(&app), "a");
    app.handle_key(Key::Backspace);
    app.handle_key(Key::Backspace);
    assert_eq!(typed(&app), "");
    assert_eq!(app.status_mode(), StatusMode::Open);
}

#[test]
fn escape_leaves_the_prompt_and_the_mesh_as_it_was() {
    let mut app = cube();
    app.set_tab(1);
    app.next_item();
    app.handle_key(Key::Char('o'));
    type_text(&mut app, "x.obj");
    assert_eq!(app.handle_key(Key::Esc), Action::Nothing);
    assert_eq!(app.status_mode(), StatusMode::Normal);
    assert_eq!(app.status(), Status::Cancelled);
    assert_eq!(app.faces().len(), 12);
    assert_eq!(app.faces().selected(), Some(0));
    assert_eq!(app.tab_index(), 1);
}

#[test]
fn enter_asks_for_the_file_to_be_loaded() {
    let mut app = cube();
    app.handle_key(Key::Char('o'));
    type_text(&mut app, "teapot.obj");
    assert_eq!(app.handle_key(Key::Enter), Action::Open { convert: false });
    assert_eq!(app.status_mode(), StatusMode::Normal);
    assert_eq!(typed(&app), "teapot.obj");
}

#[test]
fn enter_asks_for_an_stl_file_to_be_converted_first() {
    let mut app = cube();
    app.handle_key(Key::Char('o'));
    type_text(&mut app, "part.stl");
    assert_eq!(app.handle_key(Key::Enter), Action::Open { convert: true });
    assert_eq!(app.status_mode(), StatusMode::Normal);
}

#[test]
fn a_new_prompt_starts_empty_again() {
    let mut app = cube();
    app.handle_key(Key::Char('o'));
    type_text(&mut app, "a.obj");
    app.handle_key(Key::Enter);
    app.handle_key(Key::Char('o'));
    assert_eq!(typed(&app), "");
}

#[test]
fn a_loaded_mesh_takes_the_place_of_the_old_one() {
    let mut app = cube();
    app.set_tab(0);
    app.next_item();
    app.toggle_top_down();
    let outcome = app.open_file(Ok((vec![0.0; 9], vec![0, 1, 2])));
    assert_eq!(outcome, Ok(()));
    assert_eq!(app.status(), Status::Opened);
    assert_eq!(app.vertices().len(), 3);
    assert_eq!(app.faces().items(), &vec![0, 1, 2]);
    assert_eq!(app.vertices().selected(), None);
    assert_eq!(app.faces().selected(), None);
    assert!(app.top_down());
    assert_eq!(app.tab_index(), 0);
}

#[test]
fn an_index_past_the_vertices_fails_the_load_and_keeps_the_mesh() {
    let mut app = cube();
    app.set_tab(1);
    app.next_item();
    app.next_item();
    let error = LoadError::IndexOutOfRange { position: 1, index: 3 };
    let outcome = app.open_file(Ok((vec![0.0; 9], vec![0, 3, 2])));
    assert_eq!(outcome, Err(error));
    assert_eq!(app.status(), Status::Failed(error));
    assert_eq!(app.vertices().len(), 8);
    assert_eq!(app.faces().len(), 12);
    assert_eq!(app.faces().selected(), Some(1));
    match app.draw_viewport() {
        Primitives::Segments(segments) => assert_eq!(segments.len(), 39),
        Primitives::Points(_) => panic!("the face tab draws segments"),
    }
}

#[test]
fn ragged_buffers_fail_the_load() {
    let mut app = cube();
    let outcome = app.open_file(Ok((vec![0.0; 10], Vec::new())));
    assert_eq!(outcome, Err(LoadError::RaggedVertices { len: 10 }));
    assert_eq!(app.status(), Status::Failed(LoadError::RaggedVertices { len: 10 }));
    let outcome = app.open_file(Ok((vec![0.0; 9], vec![0, 1])));
    assert_eq!(outcome, Err(LoadError::RaggedIndices { len: 2 }));
    assert_eq!(app.vertices().len(), 8);
}

#[test]
fn a_failure_of_the_loader_keeps_the_mesh() {
    let mut app = cube();
    assert_eq!(app.open_file(Err(LoadError::Unreadable)), Err(LoadError::Unreadable));
    assert_eq!(app.status(), Status::Failed(LoadError::Unreadable));
    assert_eq!(
        app.open_file(Err(LoadError::ConversionFailed)),
        Err(LoadError::ConversionFailed)
    );
    assert_eq!(app.status(), Status::Failed(LoadError::ConversionFailed));
    assert_eq!(app.vertices().len(), 8);
    assert_eq!(app.faces().len(), 12);
}

#[test]
fn the_vertex_tab_draws_points() {
    let mut app = cube();
    app.set_tab(0);
    app.next_item();
    app.next_item();
    app.next_item();
    match app.draw_viewport() {
        Primitives::Points(points) => {
            assert_eq!(points.len(), 9);
            for (vertex, point) in points.iter().take(8).enumerate() {
                assert_eq!(point.at, source(vertex, false));
                assert_eq!(point.color, Color::White);
            }
            assert_eq!(points[8].at, source(2, false));
            assert_eq!(points[8].color, Color::Yellow);
        },
        Primitives::Segments(_) => panic!("the vertex tab draws points"),
    }
}

#[test]
fn the_face_tab_draws_the_wireframe() {
    let mut app = cube();
    app.set_tab(1);
    app.toggle_top_down();
    match app.draw_viewport() {
        Primitives::Segments(segments) => {
            assert_eq!(segments.len(), 36);
            assert_eq!(segments[0].from, source(0, true));
            assert_eq!(segments[0].to, source(1, true));
            assert_eq!(segments[2].from, source(2, true));
            assert_eq!(segments[2].to, source(0, true));
            assert_eq!(segments[35].from, source(4, true));
            assert_eq!(segments[35].to, source(3, true));
            assert!(segments.iter().all(|s| s.color == Color::White));
        },
        Primitives::Points(_) => panic!("the face tab draws segments"),
    }
}

#[test]
fn an_empty_mesh_draws_nothing() {
    let mut app: App<f32> = App::new(Vec::new(), Vec::new()).ok().unwrap();
    app.set_tab(0);
    app.next_item();
    assert_eq!(app.vertices().selected(), None);
    match app.draw_viewport() {
        Primitives::Points(points) => assert!(points.is_empty()),
        Primitives::Segments(_) => panic!("the vertex tab draws points"),
    }
    app.set_tab(1);
    app.prev_item();
    assert_eq!(app.faces().selected(), None);
    match app.draw_viewport() {
        Primitives::Segments(segments) => assert!(segments.is_empty()),
        Primitives::Points(_) => panic!("the face tab draws segments"),
    }
}

#[test]
fn eight_characters_move_the_camera() {
    assert_eq!(view_command('-'), Some(ViewCommand::ZoomOut));
    assert_eq!(view_command('+'), Some(ViewCommand::ZoomIn));
    assert_eq!(view_command('7'), Some(ViewCommand::RotateLeft));
    assert_eq!(view_command('9'), Some(ViewCommand::RotateRight));
    assert_eq!(view_command('8'), Some(ViewCommand::PanUp));
    assert_eq!(view_command('2'), Some(ViewCommand::PanDown));
    assert_eq!(view_command('6'), Some(ViewCommand::PanRight));
    assert_eq!(view_command('4'), Some(ViewCommand::PanLeft));
    for c in ['5', '1', '3', '0', 'q', ' ', '=', '_'] {
        assert_eq!(view_command(c), None);
    }
}

#[test]
fn a_load_keeps_the_prompt_text_for_the_status_line() {
    let mut app = cube();
    app.handle_key(Key::Char('o'));
    type_text(&mut app, "bunny.obj");
    assert_eq!(app.handle_key(Key::Enter), Action::Open { convert: false });
    assert_eq!(app.open_file(Err(LoadError::Unreadable)), Err(LoadError::Unreadable));
    assert_eq!(typed(&app), "bunny.obj");
    assert_eq!(app.status_mode(), StatusMode::Normal);
    assert_eq!(app.handle_key(Key::Char('q')), Action::Quit);
}
