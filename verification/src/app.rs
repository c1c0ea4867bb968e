use vstd::prelude::*;
use crate::mesh::{check_outcome, mesh_ok, LoadError, Mesh};
use crate::path::{needs_conversion, wants_conversion};
use crate::render::{
    dot_render, line_render, points_in_buffer, points_of, segments_in_buffer, segments_of, Point,
    Segment,
};
use crate::selection::{
    lemma_next_in_range, lemma_previous_index, next_cursor, previous_cursor, StateList, STRIDE,
};

verus! {

/// Number of tabs: vertices, faces, help.
pub const TAB_COUNT: usize = 3;

/// What the screen shows.
#[derive(Clone, Copy, Debug, PartialEq, Eq, Structural)]
pub enum AppMode {
    VertexList,
    FaceList,
    Help,
}

/// Whether keys are commands or text for the file prompt.
#[derive(Clone, Copy, Debug, PartialEq, Eq, Structural)]
pub enum StatusMode {
    Normal,
    Open,
}

/// What the status line reports.
#[derive(Clone, Copy, Debug, PartialEq, Eq, Structural)]
pub enum Status {
    /// Nothing has happened yet.
    Welcome,
    /// A tab was chosen by its key.
    Switched,
    /// The path of a file is being typed.
    Prompt,
    /// The prompt was left without opening a file.
    Cancelled,
    /// The file named by the input was opened.
    Opened,
    /// The file named by the input was not opened.
    Failed(LoadError),
}

/// A key press, as far as the viewer tells keys apart.
#[derive(Clone, Copy, Debug, PartialEq, Eq, Structural)]
pub enum Key {
    Char(char),
    Enter,
    Backspace,
    Esc,
    Up,
    Down,
    Left,
    Right,
    Other,
}

/// A change of the camera. The camera's numbers are kept by the caller.
#[derive(Clone, Copy, Debug, PartialEq, Eq, Structural)]
pub enum ViewCommand {
    ZoomIn,
    ZoomOut,
    RotateLeft,
    RotateRight,
    PanUp,
    PanDown,
    PanLeft,
    PanRight,
}

/// What the caller has to do after a key press.
#[derive(Clone, Copy, Debug, PartialEq, Eq, Structural)]
pub enum Action {
    /// Nothing beyond drawing the next frame.
    Nothing,
    /// End the session.
    Quit,
    /// Load the file named by the input, after converting it if `convert`
    /// is set, and hand the outcome to `App::open_file`.
    Open { convert: bool },
    /// Move the camera.
    View(ViewCommand),
}

/// What the viewport shows: dots in the vertex tab, a wireframe elsewhere.
pub enum Primitives {
    Points(Vec<Point>),
    Segments(Vec<Segment>),
}

/// The camera change bound to a character.
pub open spec fn view_command_of(c: char) -> Option<ViewCommand> {
    if c == '-' {
        Some(ViewCommand::ZoomOut)
    } else if c == '+' {
        Some(ViewCommand::ZoomIn)
    } else if c == '7' {
        Some(ViewCommand::RotateLeft)
    } else if c == '9' {
        Some(ViewCommand::RotateRight)
    } else if c == '8' {
        Some(ViewCommand::PanUp)
    } else if c == '2' {
        Some(ViewCommand::PanDown)
    } else if c == '6' {
        Some(ViewCommand::PanRight)
    } else if c == '4' {
        Some(ViewCommand::PanLeft)
    } else {
        None
    }
}

/// The camera change bound to a character, if any.
pub fn view_command(c: char) -> (command: Option<ViewCommand>)
    ensures
        command == view_command_of(c),
{
    if c == '-' {
        Some(ViewCommand::ZoomOut)
    } else if c == '+' {
        Some(ViewCommand::ZoomIn)
    } else if c == '7' {
        Some(ViewCommand::RotateLeft)
    } else if c == '9' {
        Some(ViewCommand::RotateRight)
    } else if c == '8' {
        Some(ViewCommand::PanUp)
    } else if c == '2' {
        Some(ViewCommand::PanDown)
    } else if c == '6' {
        Some(ViewCommand::PanRight)
    } else if c == '4' {
        Some(ViewCommand::PanLeft)
    } else {
        None
    }
}

/// The state of a session as a mathematical value.
pub struct AppModel<V> {
    pub vertices: Seq<V>,
    pub vertex_cursor: Option<nat>,
    pub faces: Seq<u32>,
    pub face_cursor: Option<nat>,
    pub tab: nat,
    pub top_down: bool,
    pub status: Status,
    pub status_mode: StatusMode,
    pub input: Seq<char>,
}

impl<V> AppModel<V> {
    /// Number of vertices of the mesh.
    pub open spec fn vertex_count(self) -> nat {
        self.vertices.len() / (STRIDE as nat)
    }

    /// Number of faces of the mesh.
    pub open spec fn face_count(self) -> nat {
        self.faces.len() / (STRIDE as nat)
    }

    /// The buffers form a mesh, each cursor names an item of its list, and
    /// the tab exists.
    pub open spec fn wf(self) -> bool {
        &&& self.tab < TAB_COUNT
        &&& mesh_ok(self.vertices.len(), self.faces)
        &&& match self.vertex_cursor {
            Some(v) => v < self.vertex_count(),
            None => true,
        }
        &&& match self.face_cursor {
            Some(f) => f < self.face_count(),
            None => true,
        }
    }

    /// The session as it starts on a mesh: the help tab, nothing selected,
    /// the side view, no input.
    pub open spec fn initial(vertices: Seq<V>, faces: Seq<u32>) -> Self {
        AppModel {
            vertices,
            vertex_cursor: None,
            faces,
            face_cursor: None,
            tab: 2,
            top_down: false,
            status: Status::Welcome,
            status_mode: StatusMode::Normal,
            input: Seq::empty(),
        }
    }

    /// The following tab, and after the last one the first.
    pub open spec fn next_tab(self) -> Self {
        AppModel { tab: (self.tab + 1) % (TAB_COUNT as nat), ..self }
    }

    /// The preceding tab, and before the first one the last.
    pub open spec fn prev_tab(self) -> Self {
        AppModel {
            tab: if self.tab > 0 {
                (self.tab - 1) as nat
            } else {
                (TAB_COUNT - 1) as nat
            },
            ..self
        }
    }

    /// Tab `tab`, reported on the status line.
    pub open spec fn set_tab(self, tab: nat) -> Self {
        AppModel { tab, status: Status::Switched, ..self }
    }

    /// The cursor of the list that the tab shows, one item forward.
    pub open spec fn next_item(self) -> Self {
        if self.tab == 0 {
            AppModel {
                vertex_cursor: next_cursor(self.vertex_cursor, self.vertex_count()),
                ..self
            }
        } else if self.tab == 1 {
            AppModel { face_cursor: next_cursor(self.face_cursor, self.face_count()), ..self }
        } else {
            self
        }
    }

    /// The cursor of the list that the tab shows, one item backward.
    pub open spec fn prev_item(self) -> Self {
        if self.tab == 0 {
            AppModel {
                vertex_cursor: previous_cursor(self.vertex_cursor, self.vertex_count()),
                ..self
            }
        } else if self.tab == 1 {
            AppModel { face_cursor: previous_cursor(self.face_cursor, self.face_count()), ..self }
        } else {
            self
        }
    }

    /// The other of the two views, side and top.
    pub open spec fn toggle_top_down(self) -> Self {
        AppModel { top_down: !self.top_down, ..self }
    }

    /// A new mesh in place of the old one: nothing of it is selected, the
    /// rest of the session stays.
    pub open spec fn loaded(self, vertices: Seq<V>, faces: Seq<u32>) -> Self {
        AppModel {
            vertices,
            vertex_cursor: None,
            faces,
            face_cursor: None,
            status: Status::Opened,
            ..self
        }
    }

    /// The mesh stays, the status line says why.
    pub open spec fn failed(self, error: LoadError) -> Self {
        AppModel { status: Status::Failed(error), ..self }
    }

    /// The state after a key press while keys are commands.
    pub open spec fn press_normal(self, key: Key) -> Self {
        match key {
            Key::Char(c) => {
                if c == 'o' {
                    AppModel {
                        input: Seq::empty(),
                        status: Status::Prompt,
                        status_mode: StatusMode::Open,
                        ..self
                    }
                } else if c == 'v' {
                    self.set_tab(0)
                } else if c == 'f' {
                    self.set_tab(1)
                } else if c == 'h' {
                    self.set_tab(2)
                } else if c == '5' && self.tab < 2 {
                    self.toggle_top_down()
                } else {
                    self
                }
            },
            Key::Down => if self.tab < 2 {
                self.next_item()
            } else {
                self
            },
            Key::Up => if self.tab < 2 {
                self.prev_item()
            } else {
                self
            },
            _ => self,
        }
    }

    /// What the caller is asked to do for a key press while keys are
    /// commands.
    pub open spec fn action_normal(self, key: Key) -> Action {
        match key {
            Key::Char(c) => {
                if c == 'q' {
                    Action::Quit
                } else if self.tab < 2 {
                    match view_command_of(c) {
                        Some(command) => Action::View(command),
                        None => Action::Nothing,
                    }
                } else {
                    Action::Nothing
                }
            },
            _ => Action::Nothing,
        }
    }

    /// The state after a key press while the path of a file is typed.
    pub open spec fn press_open(self, key: Key) -> Self {
        match key {
            Key::Enter => AppModel { status_mode: StatusMode::Normal, ..self },
            Key::Char(c) => AppModel { input: self.input.push(c), ..self },
            Key::Backspace => if self.input.len() > 0 {
                AppModel { input: self.input.drop_last(), ..self }
            } else {
                self
            },
            Key::Esc => AppModel {
                status_mode: StatusMode::Normal,
                status: Status::Cancelled,
                ..self
            },
            _ => self,
        }
    }

    /// What the caller is asked to do for a key press while the path of a
    /// file is typed.
    pub open spec fn action_open(self, key: Key) -> Action {
        match key {
            Key::Enter => Action::Open { convert: wants_conversion(self.input) },
            _ => Action::Nothing,
        }
    }

    /// The state after a key press.
    pub open spec fn press(self, key: Key) -> Self {
        match self.status_mode {
            StatusMode::Normal => self.press_normal(key),
            StatusMode::Open => self.press_open(key),
        }
    }

    /// What the caller is asked to do for a key press.
    pub open spec fn action(self, key: Key) -> Action {
        match self.status_mode {
            StatusMode::Normal => self.action_normal(key),
            StatusMode::Open => self.action_open(key),
        }
    }
}

/// The number of the tab that shows `mode`.
pub open spec fn tab_of(mode: AppMode) -> nat {
    match mode {
        AppMode::VertexList => 0,
        AppMode::FaceList => 1,
        AppMode::Help => 2,
    }
}

/// The state of a session: the mesh with its two cursors, the tab, the view
/// from the side or from the top, the status line and the file prompt.
pub struct App<V> {
    mesh: Mesh<V>,
    input: Vec<char>,
    status: Status,
    status_mode: StatusMode,
    top_down: bool,
    mode: AppMode,
}

impl<V> App<V> {
    /// The session as a mathematical value.
    pub closed spec fn view(&self) -> AppModel<V> {
        AppModel {
            vertices: self.mesh.positions(),
            vertex_cursor: self.mesh.vertex_cursor(),
            faces: self.mesh.indices(),
            face_cursor: self.mesh.face_cursor(),
            tab: tab_of(self.mode),
            top_down: self.top_down,
            status: self.status,
            status_mode: self.status_mode,
            input: self.input@,
        }
    }

    /// A session on the mesh made of `positions` and `indices`, or the reason
    /// why the two do not form a mesh.
    pub fn new(positions: Vec<V>, indices: Vec<u32>) -> (made: Result<App<V>, LoadError>)
        ensures
            match made {
                Ok(app) => app@ == AppModel::initial(positions@, indices@) && app@.wf(),
                Err(error) => check_outcome(positions@.len(), indices@, Err(error)),
            },
            made is Ok <==> mesh_ok(positions@.len(), indices@),
    {
        match Mesh::new(positions, indices) {
            Ok(mesh) => Ok(
                App {
                    mesh,
                    input: Vec::new(),
                    status: Status::Welcome,
                    status_mode: StatusMode::Normal,
                    top_down: false,
                    mode: AppMode::Help,
                },
            ),
            Err(error) => Err(error),
        }
    }

    /// The vertex list.
    pub fn vertices(&self) -> (list: &StateList<V>)
        ensures
            list@ == self@.vertices,
            list.cursor() == self@.vertex_cursor,
            self@.wf(),
    {
        self.mesh.vertices()
    }

    /// The face list.
    pub fn faces(&self) -> (list: &StateList<u32>)
        ensures
            list@ == self@.faces,
            list.cursor() == self@.face_cursor,
            self@.wf(),
    {
        self.mesh.faces()
    }

    /// The text typed at the file prompt.
    pub fn input(&self) -> (input: &Vec<char>)
        ensures
            input@ == self@.input,
    {
        &self.input
    }

    /// What the status line reports.
    pub fn status(&self) -> (status: Status)
        ensures
            status == self@.status,
    {
        self.status
    }

    /// Whether keys are commands or text for the file prompt.
    pub fn status_mode(&self) -> (status_mode: StatusMode)
        ensures
            status_mode == self@.status_mode,
    {
        self.status_mode
    }

    /// Whether the mesh is seen from the top.
    pub fn top_down(&self) -> (top_down: bool)
        ensures
            top_down == self@.top_down,
    {
        self.top_down
    }

    /// The number of the tab shown.
    pub fn tab_index(&self) -> (tab: usize)
        ensures
            tab == self@.tab,
            tab < TAB_COUNT,
    {
        match self.mode {
            AppMode::VertexList => 0,
            AppMode::FaceList => 1,
            AppMode::Help => 2,
        }
    }

    /// What the screen shows.
    pub fn mode(&self) -> (mode: AppMode)
        ensures
            tab_of(mode) == self@.tab,
    {
        self.mode
    }

    /// Shows the following tab, and after the last one the first.
    pub fn next_tab(&mut self)
        ensures
            final(self)@ == old(self)@.next_tab(),
            final(self)@.wf(),
    {
        proof {
            use_type_invariant(&self.mesh);
        }
        self.mode = match self.mode {
            AppMode::VertexList => AppMode::FaceList,
            AppMode::FaceList => AppMode::Help,
            AppMode::Help => AppMode::VertexList,
        };
    }

    /// Shows the preceding tab, and before the first one the last.
    pub fn prev_tab(&mut self)
        ensures
            final(self)@ == old(self)@.prev_tab(),
            final(self)@.wf(),
    {
        proof {
            use_type_invariant(&self.mesh);
        }
        self.mode = match self.mode {
            AppMode::VertexList => AppMode::Help,
            AppMode::FaceList => AppMode::VertexList,
            AppMode::Help => AppMode::FaceList,
        };
    }

    /// Shows tab `tab` and reports the change on the status line.
    pub fn set_tab(&mut self, tab: usize)
        requires
            tab < TAB_COUNT,
        ensures
            final(self)@ == old(self)@.set_tab(tab as nat),
            final(self)@.wf(),
    {
        proof {
            use_type_invariant(&self.mesh);
        }
        self.mode = if tab == 0 {
            AppMode::VertexList
        } else if tab == 1 {
            AppMode::FaceList
        } else {
            AppMode::Help
        };
        self.status = Status::Switched;
    }

    /// Moves the cursor of the list that the tab shows one item forward.
    pub fn next_item(&mut self)
        ensures
            final(self)@ == old(self)@.next_item(),
            final(self)@.wf(),
    {
        proof {
            use_type_invariant(&self.mesh);
        }
        match self.mode {
            AppMode::VertexList => self.mesh.next_vertex(),
            AppMode::FaceList => self.mesh.next_face(),
            AppMode::Help => {},
        }
    }

    /// Moves the cursor of the list that the tab shows one item backward.
    pub fn prev_item(&mut self)
        ensures
            final(self)@ == old(self)@.prev_item(),
            final(self)@.wf(),
    {
        proof {
            use_type_invariant(&self.mesh);
        }
        match self.mode {
            AppMode::VertexList => self.mesh.previous_vertex(),
            AppMode::FaceList => self.mesh.previous_face(),
            AppMode::Help => {},
        }
    }

    /// Changes between the view from the side and the view from the top.
    pub fn toggle_top_down(&mut self)
        ensures
            final(self)@ == old(self)@.toggle_top_down(),
            final(self)@.wf(),
    {
        proof {
            use_type_invariant(&self.mesh);
        }
        self.top_down = !self.top_down;
    }

    /// Takes the outcome of loading the file named by the input. A mesh takes
    /// the place of the old one, with nothing selected. A failure of the
    /// loader, or buffers that do not form a mesh, leave the old mesh and its
    /// cursors as they are. The status line reports either.
    pub fn open_file(&mut self, loaded: Result<(Vec<V>, Vec<u32>), LoadError>) -> (outcome: Result<
        (),
        LoadError,
    >)
        ensures
            match loaded {
                Ok((positions, indices)) => check_outcome(positions@.len(), indices@, outcome),
                Err(error) => outcome == Err::<(), LoadError>(error),
            },
            match outcome {
                Ok(()) => loaded is Ok && final(self)@ == old(self)@.loaded(
                    loaded->Ok_0.0@,
                    loaded->Ok_0.1@,
                ),
                Err(error) => final(self)@ == old(self)@.failed(error),
            },
            final(self)@.wf(),
    {
        proof {
            use_type_invariant(&self.mesh);
        }
        match loaded {
            Ok((positions, indices)) => {
                match Mesh::new(positions, indices) {
                    Ok(mesh) => {
                        self.mesh = mesh;
                        self.status = Status::Opened;
                        Ok(())
                    },
                    Err(error) => {
                        self.status = Status::Failed(error);
                        Err(error)
                    },
                }
            },
            Err(error) => {
                self.status = Status::Failed(error);
                Err(error)
            },
        }
    }

    /// The primitives of the current frame: the dots of the vertex list in
    /// the vertex tab, the wireframe of the mesh in every other tab.
    pub fn draw_viewport(&self) -> (frame: Primitives)
        ensures
            match frame {
                Primitives::Points(points) => {
                    &&& self@.tab == 0
                    &&& points@ == points_of(
                        self@.vertex_count(),
                        self@.vertex_cursor,
                        self@.top_down,
                    )
                    &&& points_in_buffer(points@, self@.vertices.len())
                },
                Primitives::Segments(segments) => {
                    &&& self@.tab != 0
                    &&& segments@ == segments_of(self@.faces, self@.face_cursor, self@.top_down)
                    &&& segments_in_buffer(segments@, self@.vertices.len())
                },
            },
    {
        proof {
            use_type_invariant(&self.mesh);
        }
        match self.mode {
            AppMode::VertexList => Primitives::Points(
                dot_render(self.mesh.vertices(), self.top_down),
            ),
            _ => Primitives::Segments(
                line_render(self.mesh.vertices(), self.mesh.faces(), self.top_down),
            ),
        }
    }

    /// Handles a key press while keys are commands.
    fn press_normal(&mut self, key: Key) -> (action: Action)
        requires
            old(self)@.status_mode == StatusMode::Normal,
        ensures
            final(self)@ == old(self)@.press(key),
            action == old(self)@.action(key),
            final(self)@.wf(),
    {
        proof {
            use_type_invariant(&self.mesh);
        }
        match key {
            Key::Char(c) => {
                if c == 'q' {
                    Action::Quit
                } else if c == 'o' {
                    self.input = Vec::new();
                    self.status = Status::Prompt;
                    self.status_mode = StatusMode::Open;
                    Action::Nothing
                } else if c == 'v' {
                    self.set_tab(0);
                    Action::Nothing
                } else if c == 'f' {
                    self.set_tab(1);
                    Action::Nothing
                } else if c == 'h' {
                    self.set_tab(2);
                    Action::Nothing
                } else if self.tab_index() < 2 {
                    if c == '5' {
                        self.toggle_top_down();
                        Action::Nothing
                    } else {
                        match view_command(c) {
                            Some(command) => Action::View(command),
                            None => Action::Nothing,
                        }
                    }
                } else {
                    Action::Nothing
                }
            },
            Key::Down => {
                if self.tab_index() < 2 {
                    self.next_item();
                }
                Action::Nothing
            },
            Key::Up => {
                if self.tab_index() < 2 {
                    self.prev_item();
                }
                Action::Nothing
            },
            _ => Action::Nothing,
        }
    }

    /// Handles a key press while the path of a file is typed.
    fn press_open(&mut self, key: Key) -> (action: Action)
        requires
            old(self)@.status_mode == StatusMode::Open,
        ensures
            final(self)@ == old(self)@.press(key),
            action == old(self)@.action(key),
            final(self)@.wf(),
    {
        proof {
            use_type_invariant(&self.mesh);
        }
        match key {
            Key::Enter => {
                self.status_mode = StatusMode::Normal;
                Action::Open { convert: needs_conversion(&self.input) }
            },
            Key::Char(c) => {
                self.input.push(c);
                Action::Nothing
            },
            Key::Backspace => {
                self.input.pop();
                Action::Nothing
            },
            Key::Esc => {
                self.status_mode = StatusMode::Normal;
                self.status = Status::Cancelled;
                Action::Nothing
            },
            _ => Action::Nothing,
        }
    }

    /// Handles a key press: changes the session as the key asks and tells
    /// the caller what is left for it to do.
    pub fn handle_key(&mut self, key: Key) -> (action: Action)
        ensures
            final(self)@ == old(self)@.press(key),
            action == old(self)@.action(key),
            final(self)@.wf(),
    {
        match self.status_mode {
            StatusMode::Normal => self.press_normal(key),
            StatusMode::Open => self.press_open(key),
        }
    }
}

/// No key press touches the mesh: the two buffers stay as they are, each
/// cursor keeps naming an item of its list, and the tab stays one of the
/// three. Leaving the file prompt without opening a file changes nothing but
/// the status line and the meaning of the keys.
pub proof fn lemma_press_keeps_mesh<V>(model: AppModel<V>, key: Key)
    requires
        model.wf(),
    ensures
        model.press(key).wf(),
        model.press(key).vertices == model.vertices,
        model.press(key).faces == model.faces,
        model.status_mode == StatusMode::Open && key == Key::Esc ==> model.press(key) == (AppModel {
            status: Status::Cancelled,
            status_mode: StatusMode::Normal,
            ..model
        }),
{
    match model.vertex_cursor {
        Some(v) => {
            lemma_next_in_range(v, model.vertex_count());
            lemma_previous_index(v, model.vertex_count());
        },
        None => {},
    }
    match model.face_cursor {
        Some(f) => {
            lemma_next_in_range(f, model.face_count());
            lemma_previous_index(f, model.face_count());
        },
        None => {},
    }
}

} // verus!
