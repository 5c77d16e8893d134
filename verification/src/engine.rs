use vstd::prelude::*;
use crate::gl::{Capability, GlCommand, PolygonMode};

verus! {

/// The number of keys whose up/down state the engine tracks, indexed by the
/// windowing system's key code.
pub const KEY_COUNT: usize = 1024;

/// The keys that the engine binds to an action when pressed; every other key
/// (and a bound key when it is released) only has its state recorded.
#[derive(Clone, Copy, PartialEq, Eq, Structural, Debug)]
pub enum KeyName {
    /// Exits the engine.
    Escape,
    /// Toggles the depth test.
    Digit1,
    /// Toggles capturing the cursor.
    Digit2,
    Other,
}

/// A window event, as far as the engine's decisions read it.
#[derive(Clone, Copy, PartialEq, Eq, Structural, Debug)]
pub enum InputEvent {
    CloseRequested,
    Resized { width: u32, height: u32 },
    RedrawRequested,
    /// A key with a known physical code; `code` is the code's index.
    Key { code: usize, name: KeyName, pressed: bool },
    /// A key whose physical code the windowing system could not identify.
    UnidentifiedKey,
    CursorMoved,
    /// A mouse button changed state; `left` tells whether it is the left one.
    MouseButton { left: bool, pressed: bool },
    /// The wheel scrolled by lines.
    MouseWheelLines,
    /// The wheel (or a touchpad) scrolled by pixels.
    MouseWheelPixels,
    /// Any other window event.
    Other,
}

/// Why the engine leaves its event loop.
#[derive(Clone, Copy, PartialEq, Eq, Structural, Debug)]
pub enum ExitReason {
    CloseRequested,
    EscapePressed,
}

/// What the engine does in answer to an event.
#[derive(Clone, Copy, PartialEq, Eq, Structural, Debug)]
pub enum EngineAction {
    /// Leave the event loop.
    Exit(ExitReason),
    /// Resize the window surface, the GL viewport and every scene's projection.
    Resize { width: u32, height: u32 },
    /// Advance the frame clock, clear, render every scene, and ask for the next frame.
    Redraw,
    /// Switch the GL depth test on or off.
    SetDepthTest(bool),
    /// Confine the cursor to the window, or release it.
    SetCursorCapture(bool),
    /// Orbit the first scene's camera by the cursor's movement.
    Orbit,
    /// Pan the first scene's camera by the cursor's movement.
    Pan,
    /// Zoom the first scene's camera by the lines scrolled.
    Zoom,
    /// Report an event the engine does not handle.
    LogUnhandled,
    Nothing,
}

/// The engine's switches.
#[derive(Clone, Copy, PartialEq, Eq, Structural, Debug)]
pub struct EngineFlags {
    /// Set-up has started (it is never attempted twice).
    pub initialized: bool,
    /// The left mouse button is held.
    pub is_dragging: bool,
    pub enable_depth_test: bool,
    pub enable_v_sync: bool,
    pub enable_capture_cursor: bool,
    pub enable_wireframe_mode: bool,
    pub enable_backface_culling: bool,
    pub enable_msaa: bool,
}

/// The switches of a new engine: depth test, v-sync and multisampling on,
/// everything else off, nothing started and nothing dragged.
pub open spec fn initial_flags() -> EngineFlags {
    EngineFlags {
        initialized: false,
        is_dragging: false,
        enable_depth_test: true,
        enable_v_sync: true,
        enable_capture_cursor: false,
        enable_wireframe_mode: false,
        enable_backface_culling: false,
        enable_msaa: true,
    }
}

/// Whether a key event only records the key's state: any release, and any
/// press of a key that is not bound to an action.
pub open spec fn records_key(name: KeyName, pressed: bool) -> bool {
    !pressed || name == KeyName::Other
}

/// The key states after `e`: a recorded key event within range sets its
/// key's state; nothing else changes them.
pub open spec fn next_keys(keys: Seq<bool>, e: InputEvent) -> Seq<bool> {
    match e {
        InputEvent::Key { code, name, pressed } => if records_key(name, pressed) && code < keys.len() {
            keys.update(code as int, pressed)
        } else {
            keys
        },
        _ => keys,
    }
}

/// The switches after `e`: pressing 1 flips the depth test, pressing 2 flips
/// cursor capture, the left mouse button sets dragging to its state.
pub open spec fn next_flags(f: EngineFlags, e: InputEvent) -> EngineFlags {
    match e {
        InputEvent::Key { name: KeyName::Digit1, pressed: true, .. } => EngineFlags {
            enable_depth_test: !f.enable_depth_test,
            ..f
        },
        InputEvent::Key { name: KeyName::Digit2, pressed: true, .. } => EngineFlags {
            enable_capture_cursor: !f.enable_capture_cursor,
            ..f
        },
        InputEvent::MouseButton { left: true, pressed } => EngineFlags { is_dragging: pressed, ..f },
        _ => f,
    }
}

/// The action taken for `e`, given the switches and key states before it and
/// the code of the key that turns a drag into a pan.
pub open spec fn action_for(f: EngineFlags, keys: Seq<bool>, pan_key: usize, e: InputEvent) -> EngineAction {
    match e {
        InputEvent::CloseRequested => EngineAction::Exit(ExitReason::CloseRequested),
        InputEvent::Resized { width, height } => EngineAction::Resize { width, height },
        InputEvent::RedrawRequested => EngineAction::Redraw,
        InputEvent::Key { name, pressed, .. } => if pressed && name == KeyName::Escape {
            EngineAction::Exit(ExitReason::EscapePressed)
        } else if pressed && name == KeyName::Digit1 {
            EngineAction::SetDepthTest(!f.enable_depth_test)
        } else if pressed && name == KeyName::Digit2 {
            EngineAction::SetCursorCapture(!f.enable_capture_cursor)
        } else {
            EngineAction::Nothing
        },
        InputEvent::UnidentifiedKey => EngineAction::Nothing,
        InputEvent::CursorMoved => if !f.is_dragging {
            EngineAction::Nothing
        } else if keys[pan_key as int] {
            EngineAction::Pan
        } else {
            EngineAction::Orbit
        },
        InputEvent::MouseButton { .. } => EngineAction::Nothing,
        InputEvent::MouseWheelLines => EngineAction::Zoom,
        InputEvent::MouseWheelPixels => EngineAction::Nothing,
        InputEvent::Other => EngineAction::LogUnhandled,
    }
}

/// What a resume decides from the switches before it: whether set-up is
/// due (it has not started yet), and the switches after it (set-up marked
/// as started, everything else as it was).
pub open spec fn resumed(f: EngineFlags) -> (bool, EngineFlags) {
    (!f.initialized, EngineFlags { initialized: true, ..f })
}

/// The key states after a sequence of events, each handled in turn.
pub open spec fn keys_after(keys: Seq<bool>, events: Seq<InputEvent>) -> Seq<bool>
    decreases events.len(),
{
    if events.len() == 0 {
        keys
    } else {
        next_keys(keys_after(keys, events.drop_last()), events.last())
    }
}

/// Whether the latest key event with code `code` among `events` was a press
/// (false when there is none).
pub open spec fn latest_key_press(events: Seq<InputEvent>, code: usize) -> bool
    decreases events.len(),
{
    if events.len() == 0 {
        false
    } else {
        match events.last() {
            InputEvent::Key { code: c, pressed, .. } => if c == code {
                pressed
            } else {
                latest_key_press(events.drop_last(), code)
            },
            _ => latest_key_press(events.drop_last(), code),
        }
    }
}

/// The GL state set when the engine starts, in order: the depth test (with a
/// less-than comparison) when enabled, back-face culling when enabled,
/// multisampling when enabled, the polygon mode (lines in wireframe mode,
/// else filled), and the viewport over the whole window.
pub open spec fn setup_commands_for(f: EngineFlags, width: u32, height: u32) -> Seq<GlCommand> {
    (if f.enable_depth_test {
        seq![GlCommand::Enable(Capability::DepthTest), GlCommand::DepthFuncLess]
    } else {
        Seq::empty()
    }) + (if f.enable_backface_culling {
        seq![GlCommand::Enable(Capability::CullFace), GlCommand::CullFaceBack]
    } else {
        Seq::empty()
    }) + (if f.enable_msaa {
        seq![GlCommand::Enable(Capability::Multisample)]
    } else {
        Seq::empty()
    }) + seq![
        GlCommand::PolygonMode(if f.enable_wireframe_mode { PolygonMode::Line } else { PolygonMode::Fill }),
        GlCommand::Viewport { x: 0, y: 0, width: width as i32, height: height as i32 },
    ]
}

/// The engine's decision state: its switches, the state of every tracked
/// key, the frame rate it targets, and the key that turns a drag into a pan.
pub struct EngineState {
    target_fps: u32,
    pan_key: usize,
    keys: Vec<bool>,
    flags: EngineFlags,
}

impl EngineState {
    pub closed spec fn wf(&self) -> bool {
        &&& self.keys@.len() == KEY_COUNT
        &&& self.target_fps != 0
        &&& self.pan_key < KEY_COUNT
    }

    /// The engine's switches.
    pub closed spec fn spec_flags(&self) -> EngineFlags {
        self.flags
    }

    /// Whether each tracked key is down, by key code.
    pub closed spec fn spec_keys(&self) -> Seq<bool> {
        self.keys@
    }

    pub closed spec fn spec_target_fps(&self) -> u32 {
        self.target_fps
    }

    pub closed spec fn spec_pan_key(&self) -> usize {
        self.pan_key
    }

    /// A new engine aiming at `target_fps` frames per second, with the
    /// initial switches and every key up; `pan_key` is the code of the key
    /// that, held during a drag, pans rather than orbits.
    pub fn new(target_fps: u32, pan_key: usize) -> (s: Self)
        requires
            target_fps != 0,
            pan_key < KEY_COUNT,
        ensures
            s.wf(),
            s.spec_flags() == initial_flags(),
            s.spec_keys() == Seq::new(KEY_COUNT as nat, |i: int| false),
            s.spec_target_fps() == target_fps,
            s.spec_pan_key() == pan_key,
    {
        let mut keys: Vec<bool> = Vec::new();
        while keys.len() < KEY_COUNT
            invariant
                keys@.len() <= KEY_COUNT,
                forall|i: int| 0 <= i < keys@.len() ==> !keys@[i],
            decreases KEY_COUNT - keys@.len(),
        {
            keys.push(false);
        }
        let s = EngineState {
            target_fps,
            pan_key,
            keys,
            flags: EngineFlags {
                initialized: false,
                is_dragging: false,
                enable_depth_test: true,
                enable_v_sync: true,
                enable_capture_cursor: false,
                enable_wireframe_mode: false,
                enable_backface_culling: false,
                enable_msaa: true,
            },
        };
        assert(s.keys@ =~= Seq::new(KEY_COUNT as nat, |i: int| false));
        s
    }

    pub fn flags(&self) -> (r: EngineFlags)
        ensures
            r == self.spec_flags(),
    {
        self.flags
    }

    pub fn target_fps(&self) -> (r: u32)
        ensures
            r == self.spec_target_fps(),
    {
        self.target_fps
    }

    /// Whether the key with code `code` is down; codes out of range are up.
    pub fn is_key_down(&self, code: usize) -> (r: bool)
        requires
            self.wf(),
        ensures
            r == (code < KEY_COUNT && self.spec_keys()[code as int]),
    {
        if code < self.keys.len() {
            self.keys[code]
        } else {
            false
        }
    }

    /// Called when the application is resumed: set-up is due if it has not
    /// started yet; it is marked as started before it runs, so that a failed
    /// set-up is not retried.
    pub fn on_resumed(&mut self) -> (initialize: bool)
        requires
            old(self).wf(),
        ensures
            final(self).wf(),
            (initialize, final(self).spec_flags()) == resumed(old(self).spec_flags()),
            final(self).spec_keys() == old(self).spec_keys(),
            final(self).spec_target_fps() == old(self).spec_target_fps(),
            final(self).spec_pan_key() == old(self).spec_pan_key(),
    {
        let initialize = !self.flags.initialized;
        self.flags.initialized = true;
        initialize
    }

    /// Called when the event loop is about to wait: a new frame is requested
    /// once set-up has started.
    pub fn on_about_to_wait(&self) -> (request_redraw: bool)
        ensures
            request_redraw == self.spec_flags().initialized,
    {
        self.flags.initialized
    }

    /// The GL state calls of the engine's set-up for a window of the given size.
    pub fn setup_commands(&self, width: u32, height: u32) -> (r: Vec<GlCommand>)
        ensures
            r@ == setup_commands_for(self.spec_flags(), width, height),
    {
        let mut r: Vec<GlCommand> = Vec::new();
        if self.flags.enable_depth_test {
            r.push(GlCommand::Enable(Capability::DepthTest));
            r.push(GlCommand::DepthFuncLess);
        }
        if self.flags.enable_backface_culling {
            r.push(GlCommand::Enable(Capability::CullFace));
            r.push(GlCommand::CullFaceBack);
        }
        if self.flags.enable_msaa {
            r.push(GlCommand::Enable(Capability::Multisample));
        }
        if self.flags.enable_wireframe_mode {
            r.push(GlCommand::PolygonMode(PolygonMode::Line));
        } else {
            r.push(GlCommand::PolygonMode(PolygonMode::Fill));
        }
        r.push(GlCommand::Viewport { x: 0, y: 0, width: width as i32, height: height as i32 });
        assert(r@ =~= setup_commands_for(self.spec_flags(), width, height));
        r
    }

    /// Reacts to a window event: updates the switches and key states and
    /// returns the action to perform.
    pub fn handle_event(&mut self, event: InputEvent) -> (action: EngineAction)
        requires
            old(self).wf(),
        ensures
            final(self).wf(),
            action == action_for(old(self).spec_flags(), old(self).spec_keys(), old(self).spec_pan_key(), event),
            final(self).spec_flags() == next_flags(old(self).spec_flags(), event),
            final(self).spec_keys() == next_keys(old(self).spec_keys(), event),
            final(self).spec_target_fps() == old(self).spec_target_fps(),
            final(self).spec_pan_key() == old(self).spec_pan_key(),
    {
        match event {
            InputEvent::CloseRequested => EngineAction::Exit(ExitReason::CloseRequested),
            InputEvent::Resized { width, height } => EngineAction::Resize { width, height },
            InputEvent::RedrawRequested => EngineAction::Redraw,
            InputEvent::Key { code, name, pressed } => {
                if pressed && name == KeyName::Escape {
                    EngineAction::Exit(ExitReason::EscapePressed)
                } else if pressed && name == KeyName::Digit1 {
                    self.flags.enable_depth_test = !self.flags.enable_depth_test;
                    EngineAction::SetDepthTest(self.flags.enable_depth_test)
                } else if pressed && name == KeyName::Digit2 {
                    self.flags.enable_capture_cursor = !self.flags.enable_capture_cursor;
                    EngineAction::SetCursorCapture(self.flags.enable_capture_cursor)
                } else {
                    if code < self.keys.len() {
                        self.keys.set(code, pressed);
                    }
                    EngineAction::Nothing
                }
            },
            InputEvent::UnidentifiedKey => EngineAction::Nothing,
            InputEvent::CursorMoved => {
                if self.flags.is_dragging {
                    if self.keys[self.pan_key] && self.flags.is_dragging {
                        EngineAction::Pan
                    } else {
                        EngineAction::Orbit
                    }
                } else {
                    EngineAction::Nothing
                }
            },
            InputEvent::MouseButton { left, pressed } => {
                if left {
                    self.flags.is_dragging = pressed;
                }
                EngineAction::Nothing
            },
            InputEvent::MouseWheelLines => EngineAction::Zoom,
            InputEvent::MouseWheelPixels => EngineAction::Nothing,
            InputEvent::Other => EngineAction::LogUnhandled,
        }
    }
}

} // verus!
