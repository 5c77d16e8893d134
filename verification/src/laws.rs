use vstd::prelude::*;
use crate::engine::{
    action_for, initial_flags, keys_after, latest_key_press, next_flags, next_keys, records_key, resumed,
    setup_commands_for, EngineAction, EngineFlags, ExitReason, InputEvent, KeyName, KEY_COUNT,
};
use crate::gl::{Capability, GlCommand, GlObject, PolygonMode};
use crate::registry::Registry;
use crate::resources::{
    compiled_stages, draw_resolution, mesh_gl_objects, meshes_gl_objects, shader_gl_objects, stage_if_present,
    texture_gl_objects, Mesh, MissingResource, Resources, Shader, ShaderStage, Texture2D,
};

verus! {

// ============================================================================
// Engine input
// ============================================================================

/// Pressing 1 twice leaves the engine's switches and keys as they were: the
/// depth-test toggle undoes itself.
pub proof fn law_depth_toggle_undoes_itself(f: EngineFlags, keys: Seq<bool>, code1: usize, code2: usize)
    ensures
        ({
            let e1 = InputEvent::Key { code: code1, name: KeyName::Digit1, pressed: true };
            let e2 = InputEvent::Key { code: code2, name: KeyName::Digit1, pressed: true };
            &&& next_flags(next_flags(f, e1), e2) == f
            &&& next_keys(next_keys(keys, e1), e2) == keys
        }),
{
}

/// Pressing 2 twice leaves the engine's switches and keys as they were: the
/// cursor-capture toggle undoes itself.
pub proof fn law_capture_toggle_undoes_itself(f: EngineFlags, keys: Seq<bool>, code1: usize, code2: usize)
    ensures
        ({
            let e1 = InputEvent::Key { code: code1, name: KeyName::Digit2, pressed: true };
            let e2 = InputEvent::Key { code: code2, name: KeyName::Digit2, pressed: true };
            &&& next_flags(next_flags(f, e1), e2) == f
            &&& next_keys(next_keys(keys, e1), e2) == keys
        }),
{
}

/// Pressing 1 flips the depth-test switch and nothing else, records no key,
/// and asks for the depth test to be set to the flipped value.
pub proof fn law_digit1_press(f: EngineFlags, keys: Seq<bool>, pan_key: usize, code: usize)
    ensures
        ({
            let e = InputEvent::Key { code, name: KeyName::Digit1, pressed: true };
            &&& next_flags(f, e) == (EngineFlags { enable_depth_test: !f.enable_depth_test, ..f })
            &&& next_flags(f, e).enable_capture_cursor == f.enable_capture_cursor
            &&& next_flags(f, e).is_dragging == f.is_dragging
            &&& next_flags(f, e).initialized == f.initialized
            &&& next_keys(keys, e) == keys
            &&& action_for(f, keys, pan_key, e) == EngineAction::SetDepthTest(!f.enable_depth_test)
        }),
{
}

/// Pressing 2 flips the cursor-capture switch and nothing else, records no
/// key, and asks for the cursor to be captured exactly when it was free.
pub proof fn law_digit2_press(f: EngineFlags, keys: Seq<bool>, pan_key: usize, code: usize)
    ensures
        ({
            let e = InputEvent::Key { code, name: KeyName::Digit2, pressed: true };
            &&& next_flags(f, e) == (EngineFlags { enable_capture_cursor: !f.enable_capture_cursor, ..f })
            &&& next_flags(f, e).enable_depth_test == f.enable_depth_test
            &&& next_flags(f, e).is_dragging == f.is_dragging
            &&& next_keys(keys, e) == keys
            &&& action_for(f, keys, pan_key, e) == EngineAction::SetCursorCapture(!f.enable_capture_cursor)
        }),
{
}

/// Pressing 1 and then 2 flips exactly the depth test and the cursor
/// capture, each action reporting its own new value.
pub proof fn law_digit1_then_digit2(f: EngineFlags, keys: Seq<bool>, pan_key: usize, c1: usize, c2: usize)
    ensures
        ({
            let e1 = InputEvent::Key { code: c1, name: KeyName::Digit1, pressed: true };
            let e2 = InputEvent::Key { code: c2, name: KeyName::Digit2, pressed: true };
            let f1 = next_flags(f, e1);
            &&& action_for(f, keys, pan_key, e1) == EngineAction::SetDepthTest(!f.enable_depth_test)
            &&& action_for(f1, next_keys(keys, e1), pan_key, e2) == EngineAction::SetCursorCapture(
                !f.enable_capture_cursor,
            )
            &&& next_flags(f1, e2) == (EngineFlags {
                enable_depth_test: !f.enable_depth_test,
                enable_capture_cursor: !f.enable_capture_cursor,
                ..f
            })
        }),
{
}

/// A key event that only records (any release, or a press of an unbound
/// key) changes no switch and asks for nothing.
pub proof fn law_recorded_key_changes_no_switch(
    f: EngineFlags,
    keys: Seq<bool>,
    pan_key: usize,
    code: usize,
    name: KeyName,
    pressed: bool,
)
    requires
        !pressed || name == KeyName::Other,
    ensures
        next_flags(f, InputEvent::Key { code, name, pressed }) == f,
        action_for(f, keys, pan_key, InputEvent::Key { code, name, pressed }) == EngineAction::Nothing,
        code < keys.len() ==> next_keys(keys, InputEvent::Key { code, name, pressed }) == keys.update(
            code as int,
            pressed,
        ),
{
}

/// The action for each event that is not a key, cursor or button event:
/// closing exits, resizing resizes to the event's size, a redraw request
/// redraws, line scrolling zooms, pixel scrolling and unidentified keys do
/// nothing, anything else is reported as unhandled.
pub proof fn law_window_event_actions(f: EngineFlags, keys: Seq<bool>, pan_key: usize, width: u32, height: u32)
    ensures
        action_for(f, keys, pan_key, InputEvent::CloseRequested) == EngineAction::Exit(ExitReason::CloseRequested),
        action_for(f, keys, pan_key, InputEvent::Resized { width, height }) == (EngineAction::Resize {
            width,
            height,
        }),
        action_for(f, keys, pan_key, InputEvent::RedrawRequested) == EngineAction::Redraw,
        action_for(f, keys, pan_key, InputEvent::MouseWheelLines) == EngineAction::Zoom,
        action_for(f, keys, pan_key, InputEvent::MouseWheelPixels) == EngineAction::Nothing,
        action_for(f, keys, pan_key, InputEvent::UnidentifiedKey) == EngineAction::Nothing,
        action_for(f, keys, pan_key, InputEvent::Other) == EngineAction::LogUnhandled,
{
}

/// Mouse buttons never ask for an action.
pub proof fn law_mouse_button_no_action(f: EngineFlags, keys: Seq<bool>, pan_key: usize, left: bool, pressed: bool)
    ensures
        action_for(f, keys, pan_key, InputEvent::MouseButton { left, pressed }) == EngineAction::Nothing,
        next_keys(keys, InputEvent::MouseButton { left, pressed }) == keys,
{
}

/// A new engine has depth test, v-sync and multisampling on and every other
/// switch off.
pub proof fn law_initial_flags()
    ensures
        initial_flags() == (EngineFlags {
            initialized: false,
            is_dragging: false,
            enable_depth_test: true,
            enable_v_sync: true,
            enable_capture_cursor: false,
            enable_wireframe_mode: false,
            enable_backface_culling: false,
            enable_msaa: true,
        }),
{
}

/// Pressing Escape exits and changes neither switches nor keys.
pub proof fn law_escape_exits_unchanged(f: EngineFlags, keys: Seq<bool>, pan_key: usize, code: usize)
    ensures
        ({
            let e = InputEvent::Key { code, name: KeyName::Escape, pressed: true };
            &&& action_for(f, keys, pan_key, e) == EngineAction::Exit(ExitReason::EscapePressed)
            &&& next_flags(f, e) == f
            &&& next_keys(keys, e) == keys
        }),
{
}

/// A recorded key event (any release, or a press of an unbound key) with a
/// tracked code sets that key's state and no other.
pub proof fn law_key_state_recorded(keys: Seq<bool>, code: usize, name: KeyName, pressed: bool)
    requires
        records_key(name, pressed),
        code < keys.len(),
    ensures
        ({
            let after = next_keys(keys, InputEvent::Key { code, name, pressed });
            &&& after.len() == keys.len()
            &&& after[code as int] == pressed
            &&& forall|j: int| 0 <= j < keys.len() && j != code ==> after[j] == keys[j]
        }),
{
}

/// A key code beyond the tracked range leaves every key state unchanged.
pub proof fn law_untracked_key_ignored(keys: Seq<bool>, code: usize, name: KeyName, pressed: bool)
    requires
        code >= keys.len(),
    ensures
        next_keys(keys, InputEvent::Key { code, name, pressed }) == keys,
{
}

/// Dragging follows the left mouse button; other buttons change nothing.
pub proof fn law_drag_follows_left_button(f: EngineFlags, left: bool, pressed: bool)
    ensures
        left ==> next_flags(f, InputEvent::MouseButton { left, pressed }) == (EngineFlags { is_dragging: pressed, ..f }),
        !left ==> next_flags(f, InputEvent::MouseButton { left, pressed }) == f,
{
}

/// Moving the cursor changes no state; it moves the camera only during a
/// drag, panning while the pan key is down and orbiting otherwise.
pub proof fn law_cursor_moves_camera_only_while_dragging(f: EngineFlags, keys: Seq<bool>, pan_key: usize)
    requires
        pan_key < keys.len(),
    ensures
        next_flags(f, InputEvent::CursorMoved) == f,
        next_keys(keys, InputEvent::CursorMoved) == keys,
        !f.is_dragging ==> action_for(f, keys, pan_key, InputEvent::CursorMoved) == EngineAction::Nothing,
        f.is_dragging && keys[pan_key as int] ==> action_for(f, keys, pan_key, InputEvent::CursorMoved)
            == EngineAction::Pan,
        f.is_dragging && !keys[pan_key as int] ==> action_for(f, keys, pan_key, InputEvent::CursorMoved)
            == EngineAction::Orbit,
{
}

/// Only key presses and the left mouse button change the engine's state;
/// every other event leaves switches and keys as they were.
pub proof fn law_other_events_keep_state(f: EngineFlags, keys: Seq<bool>, e: InputEvent)
    requires
        !(e is Key),
        !(e is MouseButton),
    ensures
        next_flags(f, e) == f,
        next_keys(keys, e) == keys,
{
}

/// Set-up is attempted at most once: a resume asks for set-up exactly when
/// none has started, marks it started and changes no other switch; a second
/// resume asks for no set-up and changes nothing.
pub proof fn law_setup_at_most_once(f: EngineFlags)
    ensures
        resumed(f).0 == !f.initialized,
        resumed(f).1 == (EngineFlags { initialized: true, ..f }),
        resumed(f).1.enable_depth_test == f.enable_depth_test,
        resumed(f).1.enable_msaa == f.enable_msaa,
        !resumed(resumed(f).1).0,
        resumed(resumed(f).1).1 == resumed(f).1,
{
}

/// The set-up plan in full order: the depth test and its comparison first
/// (when on), then back-face culling and its face (when on), then
/// multisampling (when on), then the polygon mode, then the viewport.
pub proof fn law_setup_order(f: EngineFlags, width: u32, height: u32)
    ensures
        ({
            let c = setup_commands_for(f, width, height);
            let d: int = if f.enable_depth_test { 2 } else { 0 };
            let k: int = d + if f.enable_backface_culling { 2int } else { 0int };
            let m: int = k + if f.enable_msaa { 1int } else { 0int };
            &&& c.len() == m + 2
            &&& f.enable_depth_test ==> c[0] == GlCommand::Enable(Capability::DepthTest) && c[1]
                == GlCommand::DepthFuncLess
            &&& f.enable_backface_culling ==> c[d] == GlCommand::Enable(Capability::CullFace) && c[d + 1]
                == GlCommand::CullFaceBack
            &&& f.enable_msaa ==> c[k] == GlCommand::Enable(Capability::Multisample)
            &&& c[m] == GlCommand::PolygonMode(
                if f.enable_wireframe_mode { PolygonMode::Line } else { PolygonMode::Fill },
            )
            &&& c[m + 1] == (GlCommand::Viewport { x: 0, y: 0, width: width as i32, height: height as i32 })
        }),
{
}

proof fn lemma_concat_contains<T>(a: Seq<T>, b: Seq<T>, x: T)
    ensures
        (a + b).contains(x) <==> (a.contains(x) || b.contains(x)),
{
    if (a + b).contains(x) {
        let i = choose|i: int| 0 <= i < (a + b).len() && (a + b)[i] == x;
        if i < a.len() {
            assert(a[i] == x);
        } else {
            assert(b[i - a.len()] == x);
        }
    }
    if a.contains(x) {
        let i = choose|i: int| 0 <= i < a.len() && a[i] == x;
        assert((a + b)[i] == x);
    }
    if b.contains(x) {
        let i = choose|i: int| 0 <= i < b.len() && b[i] == x;
        assert((a + b)[a.len() + i] == x);
    }
}

proof fn lemma_pair_contains<T>(p: T, q: T, x: T)
    ensures
        seq![p, q].contains(x) <==> (x == p || x == q),
{
    if x == p {
        assert(seq![p, q][0] == x);
    }
    if x == q {
        assert(seq![p, q][1] == x);
    }
}

proof fn lemma_single_contains<T>(p: T, x: T)
    ensures
        seq![p].contains(x) <==> x == p,
{
    if x == p {
        assert(seq![p][0] == x);
    }
}

/// The set-up plan follows the switches: the depth test (with its less-than
/// comparison) is enabled exactly when it is on, back-face culling exactly
/// when it is on, multisampling exactly when it is on; the polygon mode
/// follows wireframe mode and comes second to last, and the viewport covering
/// the window comes last. No other switch (whether set-up has started, the
/// drag, v-sync, cursor capture) changes the plan, so resuming first leaves
/// it as it was.
pub proof fn law_setup_follows_switches(
    f: EngineFlags,
    width: u32,
    height: u32,
    initialized: bool,
    dragging: bool,
    v_sync: bool,
    capture: bool,
)
    ensures
        ({
            let c = setup_commands_for(f, width, height);
            &&& c.contains(GlCommand::Enable(Capability::DepthTest)) == f.enable_depth_test
            &&& c.contains(GlCommand::DepthFuncLess) == f.enable_depth_test
            &&& c.contains(GlCommand::Enable(Capability::CullFace)) == f.enable_backface_culling
            &&& c.contains(GlCommand::CullFaceBack) == f.enable_backface_culling
            &&& c.contains(GlCommand::Enable(Capability::Multisample)) == f.enable_msaa
            &&& !c.contains(GlCommand::Disable(Capability::DepthTest))
            &&& c.len() >= 2
            &&& c[c.len() - 2] == GlCommand::PolygonMode(
                if f.enable_wireframe_mode { PolygonMode::Line } else { PolygonMode::Fill },
            )
            &&& c[c.len() - 1] == (GlCommand::Viewport {
                x: 0,
                y: 0,
                width: width as i32,
                height: height as i32,
            })
            &&& c == setup_commands_for(
                EngineFlags {
                    initialized,
                    is_dragging: dragging,
                    enable_v_sync: v_sync,
                    enable_capture_cursor: capture,
                    ..f
                },
                width,
                height,
            )
            &&& c == setup_commands_for(resumed(f).1, width, height)
        }),
{
    let depth = if f.enable_depth_test {
        seq![GlCommand::Enable(Capability::DepthTest), GlCommand::DepthFuncLess]
    } else {
        Seq::<GlCommand>::empty()
    };
    let cull = if f.enable_backface_culling {
        seq![GlCommand::Enable(Capability::CullFace), GlCommand::CullFaceBack]
    } else {
        Seq::<GlCommand>::empty()
    };
    let msaa = if f.enable_msaa {
        seq![GlCommand::Enable(Capability::Multisample)]
    } else {
        Seq::<GlCommand>::empty()
    };
    let pm = GlCommand::PolygonMode(if f.enable_wireframe_mode { PolygonMode::Line } else { PolygonMode::Fill });
    let vp = GlCommand::Viewport { x: 0, y: 0, width: width as i32, height: height as i32 };
    let tail = seq![pm, vp];
    let c = setup_commands_for(f, width, height);
    assert(c == depth + cull + msaa + tail);
    let cmds = seq![
        GlCommand::Enable(Capability::DepthTest),
        GlCommand::DepthFuncLess,
        GlCommand::Enable(Capability::CullFace),
        GlCommand::CullFaceBack,
        GlCommand::Enable(Capability::Multisample),
        GlCommand::Disable(Capability::DepthTest),
    ];
    assert forall|k: int| 0 <= k < cmds.len() implies {
        let x = #[trigger] cmds[k];
        c.contains(x) == (depth.contains(x) || cull.contains(x) || msaa.contains(x) || tail.contains(x))
    } by {
        let x = cmds[k];
        lemma_concat_contains(depth + cull + msaa, tail, x);
        lemma_concat_contains(depth + cull, msaa, x);
        lemma_concat_contains(depth, cull, x);
    }
    assert forall|k: int| 0 <= k < cmds.len() implies {
        let x = #[trigger] cmds[k];
        &&& depth.contains(x) == (f.enable_depth_test && (x == GlCommand::Enable(Capability::DepthTest)
            || x == GlCommand::DepthFuncLess))
        &&& cull.contains(x) == (f.enable_backface_culling && (x == GlCommand::Enable(Capability::CullFace)
            || x == GlCommand::CullFaceBack))
        &&& msaa.contains(x) == (f.enable_msaa && x == GlCommand::Enable(Capability::Multisample))
        &&& !tail.contains(x)
    } by {
        let x = cmds[k];
        lemma_pair_contains(GlCommand::Enable(Capability::DepthTest), GlCommand::DepthFuncLess, x);
        lemma_pair_contains(GlCommand::Enable(Capability::CullFace), GlCommand::CullFaceBack, x);
        lemma_single_contains(GlCommand::Enable(Capability::Multisample), x);
        lemma_pair_contains(pm, vp, x);
    }
    assert(cmds[0] == GlCommand::Enable(Capability::DepthTest));
    assert(cmds[1] == GlCommand::DepthFuncLess);
    assert(cmds[2] == GlCommand::Enable(Capability::CullFace));
    assert(cmds[3] == GlCommand::CullFaceBack);
    assert(cmds[4] == GlCommand::Enable(Capability::Multisample));
    assert(cmds[5] == GlCommand::Disable(Capability::DepthTest));
    assert(c[c.len() - 2] == tail[0]);
    assert(c[c.len() - 1] == tail[1]);
}

/// From a new engine (every key up), after any sequence of events in which
/// each key event's name is the one its code carries (`name_of`), a tracked
/// key is down exactly when it is not bound to an action and its latest key
/// event was a press; the key states keep their length.
pub proof fn law_key_state_follows_latest_event(
    events: Seq<InputEvent>,
    name_of: spec_fn(usize) -> KeyName,
    code: usize,
)
    requires
        code < KEY_COUNT,
        forall|i: int|
            0 <= i < events.len() ==> (#[trigger] events[i] matches InputEvent::Key { code: c, name, .. } ==> name
                == name_of(c)),
    ensures
        keys_after(Seq::new(KEY_COUNT as nat, |i: int| false), events).len() == KEY_COUNT,
        keys_after(Seq::new(KEY_COUNT as nat, |i: int| false), events)[code as int] == (name_of(code)
            == KeyName::Other && latest_key_press(events, code)),
    decreases events.len(),
{
    let init = Seq::new(KEY_COUNT as nat, |i: int| false);
    if events.len() > 0 {
        let prefix = events.drop_last();
        assert forall|i: int|
            0 <= i < prefix.len() implies (#[trigger] prefix[i] matches InputEvent::Key { code: c, name, .. } ==> name
                == name_of(c)) by {
            assert(prefix[i] == events[i]);
        }
        law_key_state_follows_latest_event(prefix, name_of, code);
        let e = events.last();
        assert(e == events[events.len() - 1]);
    }
}

// ============================================================================
// Resources
// ============================================================================

/// Reading a name back after filing a value under it (as `Registry::insert`,
/// and so every `Resources::add_*`, does) gives that value, and every other
/// name reads as before.
pub proof fn law_read_after_write<V>(
    before: Registry<V>,
    after: Registry<V>,
    name: Seq<char>,
    value: V,
    other: Seq<char>,
)
    requires
        after.view() == before.view().insert(name, value),
    ensures
        after.view().contains_key(name),
        after.view()[name] == value,
        other != name ==> after.view().contains_key(other) == before.view().contains_key(other),
        other != name && before.view().contains_key(other) ==> after.view()[other] == before.view()[other],
{
}

/// A material without a shader draws nothing, whichever mesh the object names.
pub proof fn law_shaderless_material_draws_nothing(
    r: Resources,
    mesh_id: Seq<char>,
    material_id: Seq<char>,
)
    requires
        r.materials().contains_key(material_id),
        r.materials()[material_id].shader is None,
    ensures
        draw_resolution(r.shaders(), r.meshes(), r.materials(), mesh_id, material_id) == Ok::<
            Option<(Shader, Mesh)>,
            MissingResource,
        >(None),
{
}

/// A drawable object always gets the shader its material names and the mesh
/// it names.
pub proof fn law_draw_uses_named_shader_and_mesh(
    r: Resources,
    mesh_id: Seq<char>,
    material_id: Seq<char>,
    s: Shader,
    m: Mesh,
)
    requires
        draw_resolution(r.shaders(), r.meshes(), r.materials(), mesh_id, material_id) == Ok::<
            Option<(Shader, Mesh)>,
            MissingResource,
        >(Some((s, m))),
    ensures
        r.materials().contains_key(material_id),
        r.materials()[material_id].shader matches Some(n) && r.shaders().contains_key(n@) && r.shaders()[n@] == s,
        r.meshes().contains_key(mesh_id),
        r.meshes()[mesh_id] == m,
{
}

proof fn lemma_mesh_objects_contained(meshes: Seq<Mesh>, i: int, j: int)
    requires
        0 <= i < meshes.len(),
        0 <= j < mesh_gl_objects(meshes[i]).len(),
    ensures
        meshes_gl_objects(meshes).contains(mesh_gl_objects(meshes[i])[j]),
    decreases meshes.len(),
{
    let rest = meshes.drop_last();
    let tail = mesh_gl_objects(meshes.last());
    assert(meshes_gl_objects(meshes) == meshes_gl_objects(rest) + tail);
    if i == meshes.len() - 1 {
        let k = meshes_gl_objects(rest).len() + j;
        assert(meshes_gl_objects(meshes)[k] == tail[j]);
    } else {
        assert(rest[i] == meshes[i]);
        lemma_mesh_objects_contained(rest, i, j);
        let k = choose|k: int| 0 <= k < meshes_gl_objects(rest).len() && meshes_gl_objects(rest)[k]
            == mesh_gl_objects(rest[i])[j];
        assert(meshes_gl_objects(meshes)[k] == meshes_gl_objects(rest)[k]);
    }
}

/// Releasing the resources releases every GL object of every stored shader,
/// texture and mesh.
pub proof fn law_release_covers_every_resource(r: Resources)
    requires
        r.wf(),
    ensures
        ({
            let objects = shader_gl_objects(r.shader_list()) + texture_gl_objects(r.texture_list())
                + meshes_gl_objects(r.mesh_list());
            &&& forall|s: Shader| #[trigger] r.shaders().values().contains(s) ==> objects.contains(
                GlObject::Program(s.m_program),
            )
            &&& forall|t: Texture2D| #[trigger] r.textures().values().contains(t)
                ==> objects.contains(GlObject::Texture(t.m_id))
            &&& forall|m: Mesh, j: int| #[trigger] r.meshes().values().contains(m) && 0 <= j < mesh_gl_objects(
                m,
            ).len() ==> objects.contains(#[trigger] mesh_gl_objects(m)[j])
        }),
{
    r.lemma_lists_match_maps();
    let sh = shader_gl_objects(r.shader_list());
    let tx = texture_gl_objects(r.texture_list());
    let ms = meshes_gl_objects(r.mesh_list());
    let objects = sh + tx + ms;
    assert forall|s: Shader| #[trigger] r.shaders().values().contains(s) implies objects.contains(
        GlObject::Program(s.m_program),
    ) by {
        assert(r.shader_list().contains(s));
        let i = choose|i: int| 0 <= i < r.shader_list().len() && r.shader_list()[i] == s;
        assert(objects[i] == sh[i]);
    }
    assert forall|t: Texture2D| #[trigger] r.textures().values().contains(t) implies objects.contains(
        GlObject::Texture(t.m_id),
    ) by {
        assert(r.texture_list().contains(t));
        let i = choose|i: int| 0 <= i < r.texture_list().len() && r.texture_list()[i] == t;
        assert(objects[sh.len() + i] == tx[i]);
    }
    assert forall|m: Mesh, j: int| #[trigger] r.meshes().values().contains(m) && 0 <= j < mesh_gl_objects(
        m,
    ).len() implies objects.contains(#[trigger] mesh_gl_objects(m)[j]) by {
        assert(r.mesh_list().contains(m));
        let i = choose|i: int| 0 <= i < r.mesh_list().len() && r.mesh_list()[i] == m;
        lemma_mesh_objects_contained(r.mesh_list(), i, j);
        let k = choose|k: int| 0 <= k < ms.len() && ms[k] == mesh_gl_objects(m)[j];
        assert(objects[sh.len() + tx.len() + k] == ms[k]);
    }
}

/// Drawing an object whose material exists and names a shader that exists,
/// with a mesh that exists, uses exactly that shader and that mesh, whatever
/// else the material holds (its texture, its colour inputs).
pub proof fn law_draw_resolves_shader_and_mesh(r: Resources, mesh_id: Seq<char>, material_id: Seq<char>)
    requires
        r.materials().contains_key(material_id),
        r.materials()[material_id].shader is Some,
        r.shaders().contains_key(r.materials()[material_id].shader.unwrap()@),
        r.meshes().contains_key(mesh_id),
    ensures
        draw_resolution(r.shaders(), r.meshes(), r.materials(), mesh_id, material_id) == Ok::<
            Option<(Shader, Mesh)>,
            MissingResource,
        >(Some((r.shaders()[r.materials()[material_id].shader.unwrap()@], r.meshes()[mesh_id]))),
{
}

/// Drawing fails on the first missing lookup: the material; then, for a
/// material with a shader, that shader; then the mesh.
pub proof fn law_draw_reports_missing(r: Resources, mesh_id: Seq<char>, material_id: Seq<char>)
    ensures
        !r.materials().contains_key(material_id) ==> draw_resolution(
            r.shaders(),
            r.meshes(),
            r.materials(),
            mesh_id,
            material_id,
        ) == Err::<Option<(Shader, Mesh)>, MissingResource>(MissingResource::Material),
        r.materials().contains_key(material_id) && r.materials()[material_id].shader is Some
            && !r.shaders().contains_key(r.materials()[material_id].shader.unwrap()@) ==> draw_resolution(
            r.shaders(),
            r.meshes(),
            r.materials(),
            mesh_id,
            material_id,
        ) == Err::<Option<(Shader, Mesh)>, MissingResource>(MissingResource::Shader),
        r.materials().contains_key(material_id) && r.materials()[material_id].shader is Some
            && r.shaders().contains_key(r.materials()[material_id].shader.unwrap()@) && !r.meshes().contains_key(
            mesh_id,
        ) ==> draw_resolution(r.shaders(), r.meshes(), r.materials(), mesh_id, material_id) == Err::<
            Option<(Shader, Mesh)>,
            MissingResource,
        >(MissingResource::Mesh),
{
}

/// Releasing a mesh deletes its vertex array, its vertex buffer and, exactly
/// when it is indexed, its element buffer, in that order.
pub proof fn law_mesh_release(m: Mesh)
    ensures
        m.spec_is_indexed() ==> mesh_gl_objects(m) == seq![
            GlObject::VertexArray(m.spec_vao()),
            GlObject::Buffer(m.spec_vbo()),
            GlObject::Buffer(m.spec_ebo().unwrap()),
        ],
        !m.spec_is_indexed() ==> mesh_gl_objects(m) == seq![
            GlObject::VertexArray(m.spec_vao()),
            GlObject::Buffer(m.spec_vbo()),
        ],
        m.spec_is_indexed() ==> mesh_gl_objects(m).contains(GlObject::Buffer(m.spec_ebo().unwrap())),
{
    if m.spec_is_indexed() {
        assert(mesh_gl_objects(m) =~= seq![
            GlObject::VertexArray(m.spec_vao()),
            GlObject::Buffer(m.spec_vbo()),
            GlObject::Buffer(m.spec_ebo().unwrap()),
        ]);
        assert(mesh_gl_objects(m)[2] == GlObject::Buffer(m.spec_ebo().unwrap()));
    } else {
        assert(mesh_gl_objects(m) =~= seq![GlObject::VertexArray(m.spec_vao()), GlObject::Buffer(m.spec_vbo())]);
    }
}

/// The release list of a sequence of meshes is empty for no mesh, and adding
/// a mesh at the end appends exactly that mesh's objects.
pub proof fn law_meshes_release_appends(ms: Seq<Mesh>, m: Mesh)
    ensures
        meshes_gl_objects(Seq::<Mesh>::empty()) == Seq::<GlObject>::empty(),
        meshes_gl_objects(ms.push(m)) == meshes_gl_objects(ms) + mesh_gl_objects(m),
{
    assert(ms.push(m).drop_last() =~= ms);
}

/// Releasing shaders deletes one program per shader, in order; releasing
/// textures deletes one texture object per texture, in order.
pub proof fn law_shader_and_texture_release(shaders: Seq<Shader>, textures: Seq<Texture2D>)
    ensures
        shader_gl_objects(shaders).len() == shaders.len(),
        forall|i: int| 0 <= i < shaders.len() ==> #[trigger] shader_gl_objects(shaders)[i] == GlObject::Program(
            shaders[i].m_program,
        ),
        texture_gl_objects(textures).len() == textures.len(),
        forall|i: int| 0 <= i < textures.len() ==> #[trigger] texture_gl_objects(textures)[i] == GlObject::Texture(
            textures[i].m_id,
        ),
{
}

/// Each stage is compiled exactly when its source is given and not empty;
/// the vertex stage, when present, comes first, the geometry stage, when
/// present, last; there are as many stages as non-empty sources.
pub proof fn law_compiled_stages(v: Seq<char>, f: Seq<char>, g: Option<Seq<char>>)
    ensures
        ({
            let c = compiled_stages(v, f, g);
            let gn = match g {
                Some(gs) => gs.len() > 0,
                None => false,
            };
            &&& c.contains((ShaderStage::Vertex, v)) == (v.len() > 0)
            &&& c.contains((ShaderStage::Fragment, f)) == (f.len() > 0)
            &&& gn ==> c.contains((ShaderStage::Geometry, g.unwrap()))
            &&& c.len() == (if v.len() > 0 { 1int } else { 0 }) + (if f.len() > 0 { 1int } else { 0 }) + (if gn {
                1int
            } else {
                0
            })
            &&& v.len() > 0 ==> c[0] == (ShaderStage::Vertex, v)
            &&& gn ==> c[c.len() - 1] == (ShaderStage::Geometry, g.unwrap())
            &&& forall|i: int| 0 <= i < c.len() ==> (#[trigger] c[i]).1.len() > 0
        }),
{
    let a = stage_if_present(ShaderStage::Vertex, v);
    let b = stage_if_present(ShaderStage::Fragment, f);
    let t = match g {
        Some(gs) => stage_if_present(ShaderStage::Geometry, gs),
        None => Seq::<(ShaderStage, Seq<char>)>::empty(),
    };
    let c = compiled_stages(v, f, g);
    assert(c == a + b + t);
    lemma_concat_contains(a + b, t, (ShaderStage::Vertex, v));
    lemma_concat_contains(a, b, (ShaderStage::Vertex, v));
    lemma_concat_contains(a + b, t, (ShaderStage::Fragment, f));
    lemma_concat_contains(a, b, (ShaderStage::Fragment, f));
    if v.len() > 0 {
        lemma_single_contains((ShaderStage::Vertex, v), (ShaderStage::Vertex, v));
        assert(c[0] == a[0]);
    }
    if f.len() > 0 {
        lemma_single_contains((ShaderStage::Fragment, f), (ShaderStage::Fragment, f));
    }
    lemma_single_contains((ShaderStage::Vertex, v), (ShaderStage::Fragment, f));
    lemma_single_contains((ShaderStage::Fragment, f), (ShaderStage::Vertex, v));
    if let Some(gs) = g {
        lemma_single_contains((ShaderStage::Geometry, gs), (ShaderStage::Vertex, v));
        lemma_single_contains((ShaderStage::Geometry, gs), (ShaderStage::Fragment, f));
        if gs.len() > 0 {
            lemma_concat_contains(a + b, t, (ShaderStage::Geometry, gs));
            lemma_single_contains((ShaderStage::Geometry, gs), (ShaderStage::Geometry, gs));
            assert(c[c.len() - 1] == t[0]);
        }
    }
    assert forall|i: int| 0 <= i < c.len() implies (#[trigger] c[i]).1.len() > 0 by {
        if i < a.len() {
            assert(c[i] == a[i]);
        } else if i < a.len() + b.len() {
            assert(c[i] == b[i - a.len()]);
        } else {
            assert(c[i] == t[i - a.len() - b.len()]);
        }
    }
}

} // verus!
