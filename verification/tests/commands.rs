use scene_undo::commands::{SceneCommand, SetCameraPreviewCommand, SetCameraPropertyCommand};
use scene_undo::scene::{
    Camera, CameraController, CameraProperty, Graph, Handle, Node, SceneContext,
};

fn camera(enabled: bool, fov: u32, z_near: u32, z_far: u32) -> Node {
    Node::Camera(Camera { enabled, fov, z_near, z_far })
}

/// A context with three scene cameras of which B is in preview (so the
/// editor camera is disabled), plus one non-camera node between them.
fn three_camera_scene() -> (SceneContext, Handle, Handle, Handle, Handle) {
    let mut graph = Graph::new();
    let editor = graph.add_node(camera(false, 90, 1, 1000));
    let a = graph.add_node(camera(false, 60, 1, 100));
    graph.add_node(Node::Other);
    let b = graph.add_node(camera(true, 70, 2, 200));
    let c = graph.add_node(camera(false, 80, 3, 300));
    let context = SceneContext {
        graph,
        camera_controller: CameraController { camera: editor },
    };
    (context, editor, a, b, c)
}

#[test]
fn round_trip_set_fov() {
    let mut graph = Graph::new();
    let editor = graph.add_node(camera(true, 90, 1, 1000));
    let a = graph.add_node(camera(false, 60, 1, 100));
    let mut context = SceneContext {
        graph,
        camera_controller: CameraController { camera: editor },
    };

    let mut cmd = SetCameraPropertyCommand::new(a, CameraProperty::Fov, 90);
    cmd.execute(&mut context);
    assert_eq!(context.graph.camera_property(a, CameraProperty::Fov), 90);
    assert_eq!(cmd.old_value, 60);

    cmd.revert(&mut context);
    assert_eq!(context.graph.camera_property(a, CameraProperty::Fov), 60);
}

#[test]
fn round_trip_each_property() {
    let mut graph = Graph::new();
    let editor = graph.add_node(camera(true, 90, 1, 1000));
    let a = graph.add_node(camera(false, 60, 5, 500));
    let mut context = SceneContext {
        graph,
        camera_controller: CameraController { camera: editor },
    };

    for (property, old, new) in [
        (CameraProperty::Fov, 60, 75),
        (CameraProperty::ZNear, 5, 9),
        (CameraProperty::ZFar, 500, 900),
    ] {
        let mut cmd = SetCameraPropertyCommand::new(a, property, new);
        cmd.execute(&mut context);
        assert_eq!(context.graph.camera_property(a, property), new);
        assert_eq!(cmd.old_value, old);
        cmd.revert(&mut context);
        assert_eq!(context.graph.camera_property(a, property), old);
    }
}

#[test]
fn property_edit_touches_only_its_field() {
    let mut graph = Graph::new();
    let editor = graph.add_node(camera(true, 90, 1, 1000));
    let a = graph.add_node(camera(true, 60, 5, 500));
    let mut context = SceneContext {
        graph,
        camera_controller: CameraController { camera: editor },
    };

    let mut cmd = SetCameraPropertyCommand::new(a, CameraProperty::ZNear, 7);
    cmd.execute(&mut context);
    assert_eq!(context.graph.camera_property(a, CameraProperty::Fov), 60);
    assert_eq!(context.graph.camera_property(a, CameraProperty::ZNear), 7);
    assert_eq!(context.graph.camera_property(a, CameraProperty::ZFar), 500);
    assert!(context.graph.camera_enabled(a));
}

#[test]
fn preview_cascade_disables_siblings_and_editor() {
    let (mut context, editor, a, b, c) = three_camera_scene();

    let mut cmd = SetCameraPreviewCommand::new(a, true);
    cmd.execute(&mut context);

    assert!(context.graph.camera_enabled(a));
    assert!(!context.graph.camera_enabled(b));
    assert!(!context.graph.camera_enabled(c));
    assert!(!context.graph.camera_enabled(editor));
    assert_eq!(cmd.last_active, vec![b]);
    assert_eq!(cmd.old_value, false);

    cmd.revert(&mut context);
    assert!(!context.graph.camera_enabled(a));
    assert!(context.graph.camera_enabled(b));
    assert!(!context.graph.camera_enabled(c));
    assert!(context.graph.camera_enabled(editor));
}

#[test]
fn preview_disable_restores_editor_camera() {
    let (mut context, editor, a, b, _c) = three_camera_scene();

    // Put B in preview first, then take it out again.
    let mut enable = SetCameraPreviewCommand::new(b, true);
    enable.execute(&mut context);
    assert!(!context.graph.camera_enabled(editor));

    let mut disable = SetCameraPreviewCommand::new(b, false);
    disable.execute(&mut context);
    assert!(!context.graph.camera_enabled(b));
    assert!(context.graph.camera_enabled(editor));
    assert!(disable.last_active.is_empty());
    assert_eq!(disable.old_value, true);
    assert!(!context.graph.camera_enabled(a));
}

#[test]
fn preview_repeated_execute_rebuilds_side_effect_list() {
    let (mut context, _editor, a, b, c) = three_camera_scene();

    let mut cmd = SetCameraPreviewCommand::new(a, true);
    cmd.execute(&mut context);
    assert_eq!(cmd.last_active, vec![b]);

    // External drift between executes: some other camera got enabled.
    context.graph.set_camera_enabled(c, true);

    cmd.execute(&mut context);
    assert_eq!(cmd.last_active, vec![c]);
    assert!(context.graph.camera_enabled(a));
    assert!(!context.graph.camera_enabled(c));
}

#[test]
fn command_names() {
    let a = Handle { index: 1 };
    let fov = SceneCommand::SetCameraProperty(SetCameraPropertyCommand::new(
        a,
        CameraProperty::Fov,
        90,
    ));
    let z_near = SceneCommand::SetCameraProperty(SetCameraPropertyCommand::new(
        a,
        CameraProperty::ZNear,
        1,
    ));
    let z_far = SceneCommand::SetCameraProperty(SetCameraPropertyCommand::new(
        a,
        CameraProperty::ZFar,
        100,
    ));
    let preview = SceneCommand::SetCameraPreview(SetCameraPreviewCommand::new(a, true));
    assert_eq!(fov.name(), "Set Fov");
    assert_eq!(z_near.name(), "Set Camera Z Near");
    assert_eq!(z_far.name(), "Set Camera Z Far");
    assert_eq!(preview.name(), "Set camera preview");
}

#[test]
fn name_is_pure_and_idempotent() {
    let (mut context, editor, a, b, _c) = three_camera_scene();
    let mut cmd = SetCameraPreviewCommand::new(a, true);
    cmd.execute(&mut context);

    let wrapped = SceneCommand::SetCameraPreview(cmd);
    for _ in 0..3 {
        assert_eq!(wrapped.name(), "Set camera preview");
    }
    // Neither the command state nor the context moved.
    match &wrapped {
        SceneCommand::SetCameraPreview(inner) => {
            assert_eq!(inner.node, a);
            assert_eq!(inner.value, true);
            assert_eq!(inner.old_value, false);
            assert_eq!(inner.last_active, vec![b]);
        }
        _ => unreachable!(),
    }
    assert!(context.graph.camera_enabled(a));
    assert!(!context.graph.camera_enabled(editor));
}

#[test]
fn preview_on_editor_camera_follows_uniform_rule() {
    // Targeting the editor camera itself is not special-cased: the editor
    // override runs last, so enabling preview on it leaves it disabled.
    let mut graph = Graph::new();
    let editor = graph.add_node(camera(true, 90, 1, 1000));
    let mut context = SceneContext {
        graph,
        camera_controller: CameraController { camera: editor },
    };

    let mut cmd = SetCameraPreviewCommand::new(editor, true);
    cmd.execute(&mut context);
    assert!(!context.graph.camera_enabled(editor));
    assert_eq!(cmd.old_value, true);
    assert!(cmd.last_active.is_empty());
}

#[test]
fn boundary_checks_match_handle_state() {
    let (context, _editor, a, _b, _c) = three_camera_scene();

    let good = SceneCommand::SetCameraPreview(SetCameraPreviewCommand::new(a, true));
    assert!(good.is_executable(&context));
    assert!(good.is_revertible(&context));

    let dangling = SceneCommand::SetCameraPreview(SetCameraPreviewCommand::new(
        Handle { index: 99 },
        true,
    ));
    assert!(!dangling.is_executable(&context));
    assert!(!dangling.is_revertible(&context));

    let not_a_camera = SceneCommand::SetCameraProperty(SetCameraPropertyCommand::new(
        Handle { index: 2 },
        CameraProperty::Fov,
        1,
    ));
    assert!(!not_a_camera.is_executable(&context));
}
