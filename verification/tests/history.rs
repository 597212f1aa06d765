use scene_undo::commands::{SceneCommand, SetCameraPreviewCommand, SetCameraPropertyCommand};
use scene_undo::history::CommandStack;
use scene_undo::scene::{
    Camera, CameraController, CameraProperty, Graph, Handle, Node, SceneContext,
};

fn camera(enabled: bool, fov: u32, z_near: u32, z_far: u32) -> Node {
    Node::Camera(Camera { enabled, fov, z_near, z_far })
}

/// A context with an enabled editor camera and two scene cameras, B enabled.
fn editing_scene() -> (SceneContext, Handle, Handle, Handle) {
    let mut graph = Graph::new();
    let editor = graph.add_node(camera(true, 90, 1, 1000));
    let a = graph.add_node(camera(false, 60, 1, 100));
    let b = graph.add_node(camera(true, 70, 2, 200));
    let context = SceneContext {
        graph,
        camera_controller: CameraController { camera: editor },
    };
    (context, editor, a, b)
}

fn set_fov(node: Handle, value: u32) -> SceneCommand {
    SceneCommand::SetCameraProperty(SetCameraPropertyCommand::new(
        node,
        CameraProperty::Fov,
        value,
    ))
}

#[test]
fn truncation_on_new_command() {
    let (mut context, _editor, a, _b) = editing_scene();
    let mut history = CommandStack::new();

    history.do_command(&mut context, set_fov(a, 10));
    history.do_command(&mut context, set_fov(a, 20));
    history.do_command(&mut context, set_fov(a, 30));
    assert_eq!(history.len(), 3);
    assert_eq!(history.cursor(), 3);
    assert_eq!(context.graph.camera_property(a, CameraProperty::Fov), 30);

    history.undo(&mut context);
    history.undo(&mut context);
    assert_eq!(history.cursor(), 1);
    assert_eq!(context.graph.camera_property(a, CameraProperty::Fov), 10);

    history.do_command(&mut context, set_fov(a, 99));
    assert_eq!(history.len(), 2);
    assert_eq!(history.cursor(), 2);
    assert_eq!(context.graph.camera_property(a, CameraProperty::Fov), 99);

    // The discarded redo branch is gone: redo at the top is a no-op.
    history.redo(&mut context);
    assert_eq!(history.len(), 2);
    assert_eq!(history.cursor(), 2);
    assert_eq!(context.graph.camera_property(a, CameraProperty::Fov), 99);
}

#[test]
fn no_op_at_stack_boundaries() {
    let (mut context, editor, a, b) = editing_scene();
    let mut history = CommandStack::new();

    // Undo on an empty history changes nothing.
    history.undo(&mut context);
    assert_eq!(history.cursor(), 0);
    assert_eq!(history.len(), 0);
    assert_eq!(context.graph.camera_property(a, CameraProperty::Fov), 60);
    assert!(context.graph.camera_enabled(editor));
    assert!(context.graph.camera_enabled(b));

    // Redo with the cursor at the top changes nothing either.
    history.do_command(&mut context, set_fov(a, 42));
    history.redo(&mut context);
    assert_eq!(history.cursor(), 1);
    assert_eq!(history.len(), 1);
    assert_eq!(context.graph.camera_property(a, CameraProperty::Fov), 42);
}

#[test]
fn undo_then_redo_replays_the_command() {
    let (mut context, _editor, a, _b) = editing_scene();
    let mut history = CommandStack::new();

    history.do_command(&mut context, set_fov(a, 90));
    assert_eq!(context.graph.camera_property(a, CameraProperty::Fov), 90);

    history.undo(&mut context);
    assert_eq!(context.graph.camera_property(a, CameraProperty::Fov), 60);
    assert_eq!(history.cursor(), 0);
    assert_eq!(history.len(), 1);

    history.redo(&mut context);
    assert_eq!(context.graph.camera_property(a, CameraProperty::Fov), 90);
    assert_eq!(history.cursor(), 1);
}

#[test]
fn cascading_command_through_history() {
    let (mut context, editor, a, b) = editing_scene();
    let mut history = CommandStack::new();

    let cmd = SceneCommand::SetCameraPreview(SetCameraPreviewCommand::new(a, true));
    history.do_command(&mut context, cmd);
    assert!(context.graph.camera_enabled(a));
    assert!(!context.graph.camera_enabled(b));
    assert!(!context.graph.camera_enabled(editor));

    history.undo(&mut context);
    assert!(!context.graph.camera_enabled(a));
    assert!(context.graph.camera_enabled(b));
    assert!(context.graph.camera_enabled(editor));

    history.redo(&mut context);
    assert!(context.graph.camera_enabled(a));
    assert!(!context.graph.camera_enabled(b));
    assert!(!context.graph.camera_enabled(editor));
}

#[test]
fn redo_after_drift_recomputes_side_effects() {
    let (mut context, editor, a, b) = editing_scene();
    let mut history = CommandStack::new();

    history.do_command(
        &mut context,
        SceneCommand::SetCameraPreview(SetCameraPreviewCommand::new(a, true)),
    );
    history.undo(&mut context);

    // External drift while the command sits undone: B got disabled, the
    // editor camera stays enabled.
    context.graph.set_camera_enabled(b, false);

    history.redo(&mut context);
    assert!(context.graph.camera_enabled(a));
    assert!(!context.graph.camera_enabled(b));
    assert!(!context.graph.camera_enabled(editor));

    // Undoing now restores only what this redo actually disabled: the
    // rebuilt side-effect list no longer contains B.
    history.undo(&mut context);
    assert!(!context.graph.camera_enabled(a));
    assert!(!context.graph.camera_enabled(b));
    assert!(context.graph.camera_enabled(editor));
}

#[test]
fn clear_empties_history_and_keeps_context() {
    let (mut context, _editor, a, _b) = editing_scene();
    let mut history = CommandStack::new();

    history.do_command(&mut context, set_fov(a, 10));
    history.do_command(&mut context, set_fov(a, 20));
    history.clear(&mut context);
    assert_eq!(history.len(), 0);
    assert_eq!(history.cursor(), 0);
    assert_eq!(context.graph.camera_property(a, CameraProperty::Fov), 20);

    // After a clear there is nothing to undo.
    history.undo(&mut context);
    assert_eq!(context.graph.camera_property(a, CameraProperty::Fov), 20);
}

#[test]
fn ready_checks_follow_cursor() {
    let (mut context, _editor, a, _b) = editing_scene();
    let mut history = CommandStack::new();

    assert!(!history.undo_ready(&context));
    assert!(!history.redo_ready(&context));

    history.do_command(&mut context, set_fov(a, 90));
    assert!(history.undo_ready(&context));
    assert!(!history.redo_ready(&context));

    history.undo(&mut context);
    assert!(!history.undo_ready(&context));
    assert!(history.redo_ready(&context));
}
