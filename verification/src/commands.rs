//! Reversible editing commands.
//!
//! A command is constructed with only its "new value" known; `execute`
//! captures the prior state it overwrites, and `revert` restores that state
//! exactly, including every cascading side effect.

use crate::scene::{
    cam_enabled, cam_property, is_camera_node, with_enabled, with_property, CameraProperty, Handle,
    Node, SceneContext,
};
use vstd::prelude::*;

verus! {

/// The graph after setting property `p` of the camera in slot `target` to `v`.
pub open spec fn property_set_graph(
    g: Seq<Node>,
    target: int,
    p: CameraProperty,
    v: u32,
) -> Seq<Node> {
    g.update(target, with_property(g[target], p, v))
}

/// Sets one scalar field of one camera, remembering the overwritten value so
/// the edit can be undone. One parameterized command covers every
/// (camera, field) pair; `property` selects the field.
#[derive(Debug)]
pub struct SetCameraPropertyCommand {
    pub node: Handle,
    pub property: CameraProperty,
    pub value: u32,
    pub old_value: u32,
}

impl SetCameraPropertyCommand {
    /// A command that will set `property` of the camera behind `node` to
    /// `value`. The captured old value is meaningless until `execute` runs.
    pub fn new(node: Handle, property: CameraProperty, value: u32) -> (c: Self)
        ensures
            c.node == node,
            c.property == property,
            c.value == value,
    {
        Self { node, property, value, old_value: 0 }
    }

    /// The command can run only while its handle resolves to a live camera;
    /// a dangling handle is a programming error, not a recoverable state.
    pub open spec fn applicable(self, g: Seq<Node>) -> bool {
        &&& self.node.index < g.len()
        &&& is_camera_node(g[self.node.index as int])
    }

    /// Captures the field's current value, then overwrites it with the new one.
    pub fn execute(&mut self, context: &mut SceneContext)
        requires
            old(self).applicable(old(context).graph@),
        ensures
            final(self).node == old(self).node,
            final(self).property == old(self).property,
            final(self).value == old(self).value,
            final(self).old_value == cam_property(
                old(context).graph@[old(self).node.index as int],
                old(self).property,
            ),
            final(context).graph@ == property_set_graph(
                old(context).graph@,
                old(self).node.index as int,
                old(self).property,
                old(self).value,
            ),
            final(context).camera_controller == old(context).camera_controller,
    {
        self.old_value = context.graph.camera_property(self.node, self.property);
        context.graph.set_camera_property(self.node, self.property, self.value);
    }

    /// Writes the captured old value back into the field.
    pub fn revert(&self, context: &mut SceneContext)
        requires
            self.applicable(old(context).graph@),
        ensures
            final(context).graph@ == property_set_graph(
                old(context).graph@,
                self.node.index as int,
                self.property,
                self.old_value,
            ),
            final(context).camera_controller == old(context).camera_controller,
    {
        context.graph.set_camera_property(self.node, self.property, self.old_value);
    }
}

/// Cameras other than `target` that are enabled in `g`, in slot order,
/// restricted to the first `k` slots.
pub open spec fn active_others_upto(g: Seq<Node>, target: int, k: int) -> Seq<Handle>
    decreases k,
{
    if k <= 0 {
        Seq::empty()
    } else if k - 1 != target && cam_enabled(g[k - 1]) {
        active_others_upto(g, target, k - 1).push(Handle { index: (k - 1) as usize })
    } else {
        active_others_upto(g, target, k - 1)
    }
}

/// Cameras other than `target` that are enabled in `g`, in slot order.
pub open spec fn active_others(g: Seq<Node>, target: int) -> Seq<Handle> {
    active_others_upto(g, target, g.len() as int)
}

/// The graph with every enabled camera other than `target` disabled.
pub open spec fn disable_others(g: Seq<Node>, target: int) -> Seq<Node> {
    Seq::new(
        g.len(),
        |i: int|
            if i != target && cam_enabled(g[i]) {
                with_enabled(g[i], false)
            } else {
                g[i]
            },
    )
}

/// The graph after the cascading preview execute: the target's enabled flag
/// is set to `value`, every other enabled camera is disabled, and the editor
/// camera's flag becomes the negation of `value` — in that order.
pub open spec fn preview_execute_graph(
    g: Seq<Node>,
    target: int,
    value: bool,
    editor: int,
) -> Seq<Node> {
    let after_target = g.update(target, with_enabled(g[target], value));
    let after_scan = disable_others(after_target, target);
    after_scan.update(editor, with_enabled(after_scan[editor], !value))
}

/// The graph with the cameras named by `handles` re-enabled, front to back.
pub open spec fn enable_all(g: Seq<Node>, handles: Seq<Handle>) -> Seq<Node>
    decreases handles.len(),
{
    if handles.len() == 0 {
        g
    } else {
        enable_all(
            g.update(
                handles[0].index as int,
                with_enabled(g[handles[0].index as int], true),
            ),
            handles.drop_first(),
        )
    }
}

/// The graph after the cascading preview revert: every side-effect handle is
/// re-enabled, the target's flag is restored to `old_value`, and the editor
/// camera's flag becomes the negation of `old_value` — in that order.
pub open spec fn preview_revert_graph(
    g: Seq<Node>,
    last_active: Seq<Handle>,
    target: int,
    old_value: bool,
    editor: int,
) -> Seq<Node> {
    let after_siblings = enable_all(g, last_active);
    let after_target = after_siblings.update(
        target,
        with_enabled(after_siblings[target], old_value),
    );
    after_target.update(editor, with_enabled(after_target[editor], !old_value))
}

/// Enables or disables "preview" on one scene camera while enforcing the
/// invariant that at most one non-editor camera is enabled at a time: every
/// other enabled camera is disabled (and recorded for undo), and the editor's
/// own camera is forced to the opposite of the target's new state.
#[derive(Debug)]
pub struct SetCameraPreviewCommand {
    pub node: Handle,
    pub value: bool,
    pub old_value: bool,
    pub last_active: Vec<Handle>,
}

impl SetCameraPreviewCommand {
    /// A command that will set the preview flag of the camera behind `node`
    /// to `value`. The captured old flag and the side-effect list are
    /// meaningless until `execute` runs.
    pub fn new(node: Handle, value: bool) -> (c: Self)
        ensures
            c.node == node,
            c.value == value,
            c.old_value == false,
            c.last_active@ == Seq::<Handle>::empty(),
    {
        Self { node, value, old_value: false, last_active: Vec::new() }
    }

    /// The command can run only while both its target handle and the editor
    /// camera's handle resolve to live cameras.
    pub open spec fn applicable(self, g: Seq<Node>, editor: Handle) -> bool {
        &&& self.node.index < g.len()
        &&& is_camera_node(g[self.node.index as int])
        &&& editor.index < g.len()
        &&& is_camera_node(g[editor.index as int])
    }

    /// Reverting additionally needs every captured side-effect handle to
    /// still resolve to a live camera.
    pub open spec fn revertible(self, g: Seq<Node>, editor: Handle) -> bool {
        &&& self.applicable(g, editor)
        &&& forall|j: int|
            0 <= j < self.last_active@.len() ==> {
                &&& (#[trigger] self.last_active@[j]).index < g.len()
                &&& is_camera_node(g[self.last_active@[j].index as int])
            }
    }

    /// Captures the target's current flag, applies the new one, disables and
    /// records every other enabled camera, and forces the editor camera to
    /// the negation of the new flag. The side-effect list is rebuilt from the
    /// current graph on every call, never reused from an earlier execute.
    pub fn execute(&mut self, context: &mut SceneContext)
        requires
            old(self).applicable(old(context).graph@, old(context).camera_controller.camera),
        ensures
            final(self).node == old(self).node,
            final(self).value == old(self).value,
            final(self).old_value == cam_enabled(
                old(context).graph@[old(self).node.index as int],
            ),
            final(self).last_active@ == active_others(
                old(context).graph@,
                old(self).node.index as int,
            ),
            final(context).graph@ == preview_execute_graph(
                old(context).graph@,
                old(self).node.index as int,
                old(self).value,
                old(context).camera_controller.camera.index as int,
            ),
            final(context).camera_controller == old(context).camera_controller,
    {
        let ghost g0 = context.graph@;
        let ghost t: int = self.node.index as int;

        self.old_value = context.graph.camera_enabled(self.node);
        context.graph.set_camera_enabled(self.node, self.value);
        let ghost g1 = context.graph@;

        let mut last_active: Vec<Handle> = Vec::new();
        let n = context.graph.len();
        let mut i: usize = 0;
        while i < n
            invariant
                i <= n,
                n == g1.len(),
                g1.len() == g0.len(),
                t == self.node.index as int,
                0 <= t < g0.len(),
                g1 == g0.update(t, with_enabled(g0[t], self.value)),
                context.graph@.len() == n,
                forall|k: int|
                    0 <= k < n && !(k < i && k != t && cam_enabled(g1[k]))
                        ==> context.graph@[k] == g1[k],
                forall|k: int|
                    0 <= k < i && k != t && cam_enabled(g1[k])
                        ==> context.graph@[k] == with_enabled(g1[k], false),
                last_active@ == active_others_upto(g0, t, i as int),
                context.camera_controller == old(context).camera_controller,
            decreases n - i,
        {
            if i != self.node.index {
                let h = Handle { index: i };
                if context.graph.is_enabled_camera(h) {
                    proof {
                        assert(context.graph@[i as int] == g1[i as int]);
                        assert(g1[i as int] == g0[i as int]);
                    }
                    context.graph.set_camera_enabled(h, false);
                    last_active.push(h);
                }
            }
            i += 1;
        }
        self.last_active = last_active;

        proof {
            assert(context.graph@ =~= disable_others(g1, t));
            assert(self.last_active@ == active_others(g0, t));
        }

        let editor = context.camera_controller.camera;
        proof {
            assert(is_camera_node(context.graph@[editor.index as int]));
        }
        context.graph.set_camera_enabled(editor, !self.value);
    }

    /// Run-time boundary check matching `revertible`: whether every handle
    /// this command would resolve during `revert` is a live camera.
    pub fn is_revertible(&self, context: &SceneContext) -> (r: bool)
        ensures
            r == self.revertible(context.graph@, context.camera_controller.camera),
    {
        let editor = context.camera_controller.camera;
        if !(self.node.index < context.graph.len() && context.graph.is_camera(self.node)
            && editor.index < context.graph.len() && context.graph.is_camera(editor)) {
            return false;
        }
        let n = self.last_active.len();
        let mut i: usize = 0;
        while i < n
            invariant
                i <= n,
                n == self.last_active@.len(),
                forall|j: int|
                    0 <= j < i ==> {
                        &&& (#[trigger] self.last_active@[j]).index < context.graph@.len()
                        &&& is_camera_node(context.graph@[self.last_active@[j].index as int])
                    },
            decreases n - i,
        {
            let h = self.last_active[i];
            if !(h.index < context.graph.len() && context.graph.is_camera(h)) {
                return false;
            }
            i += 1;
        }
        true
    }

    /// Re-enables every recorded side-effect camera, restores the target's
    /// flag to the captured old value, and forces the editor camera to the
    /// negation of that old value.
    pub fn revert(&self, context: &mut SceneContext)
        requires
            self.revertible(old(context).graph@, old(context).camera_controller.camera),
        ensures
            final(context).graph@ == preview_revert_graph(
                old(context).graph@,
                self.last_active@,
                self.node.index as int,
                self.old_value,
                old(context).camera_controller.camera.index as int,
            ),
            final(context).camera_controller == old(context).camera_controller,
    {
        let ghost g0 = context.graph@;
        let ghost la = self.last_active@;
        proof {
            assert(la.skip(0) =~= la);
        }
        let n = self.last_active.len();
        let mut i: usize = 0;
        while i < n
            invariant
                i <= n,
                n == la.len(),
                la == self.last_active@,
                context.graph@.len() == g0.len(),
                forall|j: int|
                    0 <= j < la.len() ==> {
                        &&& (#[trigger] la[j]).index < g0.len()
                        &&& is_camera_node(g0[la[j].index as int])
                    },
                forall|k: int|
                    0 <= k < g0.len()
                        ==> is_camera_node(context.graph@[k]) == is_camera_node(g0[k]),
                enable_all(g0, la) == enable_all(context.graph@, la.skip(i as int)),
                context.camera_controller == old(context).camera_controller,
            decreases n - i,
        {
            let h = self.last_active[i];
            let ghost before = context.graph@;
            context.graph.set_camera_enabled(h, true);
            proof {
                assert(la.skip(i as int)[0] == la[i as int]);
                assert(la.skip(i as int).drop_first() =~= la.skip(i as int + 1));
                assert(enable_all(before, la.skip(i as int)) == enable_all(
                    context.graph@,
                    la.skip(i as int + 1),
                ));
            }
            i += 1;
        }
        proof {
            assert(la.skip(n as int) =~= Seq::<Handle>::empty());
            assert(enable_all(context.graph@, la.skip(n as int)) == context.graph@);
            assert(context.graph@ == enable_all(g0, la));
        }

        context.graph.set_camera_enabled(self.node, self.old_value);
        let editor = context.camera_controller.camera;
        proof {
            assert(is_camera_node(context.graph@[editor.index as int]));
        }
        context.graph.set_camera_enabled(editor, !self.old_value);
    }
}

/// Display label of the property-edit command that targets `p`.
pub open spec fn property_command_label(p: CameraProperty) -> Seq<char> {
    match p {
        CameraProperty::Fov => "Set Fov"@,
        CameraProperty::ZNear => "Set Camera Z Near"@,
        CameraProperty::ZFar => "Set Camera Z Far"@,
    }
}

/// One closed type for every command the editor can record, so that a single
/// history stack can hold them and dispatch `execute`, `revert`, `name` and
/// `finalize` uniformly.
#[derive(Debug)]
pub enum SceneCommand {
    SetCameraProperty(SetCameraPropertyCommand),
    SetCameraPreview(SetCameraPreviewCommand),
}

impl SceneCommand {
    /// The handles the command will resolve during `execute` are live cameras.
    pub open spec fn executable(self, g: Seq<Node>, editor: Handle) -> bool {
        match self {
            SceneCommand::SetCameraProperty(c) => c.applicable(g),
            SceneCommand::SetCameraPreview(c) => c.applicable(g, editor),
        }
    }

    /// The handles the command will resolve during `revert` are live cameras.
    pub open spec fn revertible(self, g: Seq<Node>, editor: Handle) -> bool {
        match self {
            SceneCommand::SetCameraProperty(c) => c.applicable(g),
            SceneCommand::SetCameraPreview(c) => c.revertible(g, editor),
        }
    }

    /// The graph that `execute` produces from `g`.
    pub open spec fn exec_graph(self, g: Seq<Node>, editor: Handle) -> Seq<Node> {
        match self {
            SceneCommand::SetCameraProperty(c) => property_set_graph(
                g,
                c.node.index as int,
                c.property,
                c.value,
            ),
            SceneCommand::SetCameraPreview(c) => preview_execute_graph(
                g,
                c.node.index as int,
                c.value,
                editor.index as int,
            ),
        }
    }

    /// The graph that `revert` produces from `g`, using the state this
    /// command captured when it was executed.
    pub open spec fn revert_graph(self, g: Seq<Node>, editor: Handle) -> Seq<Node> {
        match self {
            SceneCommand::SetCameraProperty(c) => property_set_graph(
                g,
                c.node.index as int,
                c.property,
                c.old_value,
            ),
            SceneCommand::SetCameraPreview(c) => preview_revert_graph(
                g,
                c.last_active@,
                c.node.index as int,
                c.old_value,
                editor.index as int,
            ),
        }
    }

    /// `post` is exactly this command as it stands after `execute` ran
    /// against graph `g`: the same target and new value, with the old state
    /// and side-effect list captured from `g`.
    pub open spec fn executed_as(self, g: Seq<Node>, post: SceneCommand) -> bool {
        match self {
            SceneCommand::SetCameraProperty(c) => {
                &&& post matches SceneCommand::SetCameraProperty(pc)
                &&& pc.node == c.node
                &&& pc.property == c.property
                &&& pc.value == c.value
                &&& pc.old_value == cam_property(g[c.node.index as int], c.property)
            },
            SceneCommand::SetCameraPreview(c) => {
                &&& post matches SceneCommand::SetCameraPreview(pc)
                &&& pc.node == c.node
                &&& pc.value == c.value
                &&& pc.old_value == cam_enabled(g[c.node.index as int])
                &&& pc.last_active@ == active_others(g, c.node.index as int)
            },
        }
    }

    /// The display label `name` returns.
    pub open spec fn spec_name(self) -> Seq<char> {
        match self {
            SceneCommand::SetCameraProperty(c) => property_command_label(c.property),
            SceneCommand::SetCameraPreview(_) => "Set camera preview"@,
        }
    }

    /// Applies the command to the context, capturing the overwritten state
    /// in `self` so a later `revert` can restore it.
    pub fn execute(&mut self, context: &mut SceneContext)
        requires
            old(self).executable(old(context).graph@, old(context).camera_controller.camera),
        ensures
            old(self).executed_as(old(context).graph@, *final(self)),
            final(context).graph@ == old(self).exec_graph(
                old(context).graph@,
                old(context).camera_controller.camera,
            ),
            final(context).camera_controller == old(context).camera_controller,
    {
        match self {
            SceneCommand::SetCameraProperty(c) => c.execute(context),
            SceneCommand::SetCameraPreview(c) => c.execute(context),
        }
    }

    /// Undoes the command using the state it captured during `execute`.
    pub fn revert(&self, context: &mut SceneContext)
        requires
            self.revertible(old(context).graph@, old(context).camera_controller.camera),
        ensures
            final(context).graph@ == self.revert_graph(
                old(context).graph@,
                old(context).camera_controller.camera,
            ),
            final(context).camera_controller == old(context).camera_controller,
    {
        match self {
            SceneCommand::SetCameraProperty(c) => c.revert(context),
            SceneCommand::SetCameraPreview(c) => c.revert(context),
        }
    }

    /// A short human-readable label for the undo/redo UI list. Pure: it
    /// neither mutates the command nor touches any context.
    pub fn name(&self) -> (r: String)
        ensures
            r@ == self.spec_name(),
    {
        match self {
            SceneCommand::SetCameraProperty(c) => match c.property {
                CameraProperty::Fov => "Set Fov".to_owned(),
                CameraProperty::ZNear => "Set Camera Z Near".to_owned(),
                CameraProperty::ZFar => "Set Camera Z Far".to_owned(),
            },
            SceneCommand::SetCameraPreview(_) => "Set camera preview".to_owned(),
        }
    }

    /// Run-time boundary check matching `executable`.
    pub fn is_executable(&self, context: &SceneContext) -> (r: bool)
        ensures
            r == self.executable(context.graph@, context.camera_controller.camera),
    {
        match self {
            SceneCommand::SetCameraProperty(c) => c.node.index < context.graph.len()
                && context.graph.is_camera(c.node),
            SceneCommand::SetCameraPreview(c) => {
                let editor = context.camera_controller.camera;
                c.node.index < context.graph.len() && context.graph.is_camera(c.node)
                    && editor.index < context.graph.len() && context.graph.is_camera(editor)
            },
        }
    }

    /// Run-time boundary check matching `revertible`.
    pub fn is_revertible(&self, context: &SceneContext) -> (r: bool)
        ensures
            r == self.revertible(context.graph@, context.camera_controller.camera),
    {
        match self {
            SceneCommand::SetCameraProperty(c) => c.node.index < context.graph.len()
                && context.graph.is_camera(c.node),
            SceneCommand::SetCameraPreview(c) => c.is_revertible(context),
        }
    }

    /// Releases any resources the command still holds once it is evicted
    /// from history. The commands here hold only plain values, so there is
    /// nothing to release; the hook keeps the command contract uniform.
    pub fn finalize(&mut self, context: &mut SceneContext)
        ensures
            *final(self) == *old(self),
            *final(context) == *old(context),
    {
    }
}

proof fn lemma_with_enabled_twice(n: Node, b1: bool, b2: bool)
    ensures
        with_enabled(with_enabled(n, b1), b2) == with_enabled(n, b2),
{
}

proof fn lemma_with_enabled_identity(n: Node)
    requires
        is_camera_node(n),
    ensures
        with_enabled(n, cam_enabled(n)) == n,
{
}

/// What `enable_all` does at a single slot: slots named by some handle are
/// re-enabled, all others are untouched.
proof fn lemma_enable_all_at(g: Seq<Node>, hs: Seq<Handle>, i: int)
    requires
        0 <= i < g.len(),
        forall|j: int| 0 <= j < hs.len() ==> (#[trigger] hs[j]).index < g.len(),
    ensures
        enable_all(g, hs).len() == g.len(),
        (exists|j: int| 0 <= j < hs.len() && (#[trigger] hs[j]).index as int == i)
            ==> enable_all(g, hs)[i] == with_enabled(g[i], true),
        (forall|j: int| 0 <= j < hs.len() ==> (#[trigger] hs[j]).index as int != i)
            ==> enable_all(g, hs)[i] == g[i],
    decreases hs.len(),
{
    if hs.len() > 0 {
        let h0 = hs[0];
        let g2 = g.update(h0.index as int, with_enabled(g[h0.index as int], true));
        let rest = hs.drop_first();
        assert(forall|j: int| 0 <= j < rest.len() ==> (#[trigger] rest[j]).index < g2.len()) by {
            assert(forall|j: int| 0 <= j < rest.len() ==> #[trigger] rest[j] == hs[j + 1]);
        }
        lemma_enable_all_at(g2, rest, i);
        assert(enable_all(g, hs) == enable_all(g2, rest));
        if i == h0.index as int {
            assert(g2[i] == with_enabled(g[i], true));
            lemma_with_enabled_twice(g[i], true, true);
            if exists|j: int| 0 <= j < rest.len() && (#[trigger] rest[j]).index as int == i {
                assert(enable_all(g2, rest)[i] == with_enabled(g2[i], true));
            } else {
                assert(enable_all(g2, rest)[i] == g2[i]);
            }
            assert(enable_all(g, hs)[i] == with_enabled(g[i], true));
        } else {
            assert(g2[i] == g[i]);
            if exists|j: int| 0 <= j < hs.len() && (#[trigger] hs[j]).index as int == i {
                let j = choose|j: int| 0 <= j < hs.len() && (#[trigger] hs[j]).index as int == i;
                assert(j != 0);
                assert(rest[j - 1] == hs[j]);
                assert(exists|j2: int|
                    0 <= j2 < rest.len() && (#[trigger] rest[j2]).index as int == i);
                assert(enable_all(g2, rest)[i] == with_enabled(g2[i], true));
            } else {
                assert(forall|j2: int|
                    0 <= j2 < rest.len() ==> (#[trigger] rest[j2]).index as int != i) by {
                    assert(forall|j2: int|
                        0 <= j2 < rest.len() ==> #[trigger] rest[j2] == hs[j2 + 1]);
                }
                assert(enable_all(g2, rest)[i] == g2[i]);
            }
        }
    }
}

/// `enable_all` never changes the graph's length.
proof fn lemma_enable_all_len(g: Seq<Node>, hs: Seq<Handle>)
    requires
        forall|j: int| 0 <= j < hs.len() ==> (#[trigger] hs[j]).index < g.len(),
    ensures
        enable_all(g, hs).len() == g.len(),
    decreases hs.len(),
{
    if hs.len() > 0 {
        let h0 = hs[0];
        let g2 = g.update(h0.index as int, with_enabled(g[h0.index as int], true));
        let rest = hs.drop_first();
        assert(forall|j: int| 0 <= j < rest.len() ==> (#[trigger] rest[j]).index < g2.len()) by {
            assert(forall|j: int| 0 <= j < rest.len() ==> #[trigger] rest[j] == hs[j + 1]);
        }
        lemma_enable_all_len(g2, rest);
    }
}

/// The side-effect list collects exactly the enabled cameras other than the
/// target, each element a valid camera slot.
proof fn lemma_active_others_upto(g: Seq<Node>, target: int, k: int)
    requires
        0 <= k <= g.len(),
        k <= usize::MAX,
    ensures
        forall|j: int|
            0 <= j < active_others_upto(g, target, k).len() ==> {
                let h = #[trigger] active_others_upto(g, target, k)[j];
                &&& h.index < k
                &&& h.index as int != target
                &&& cam_enabled(g[h.index as int])
            },
        forall|i: int|
            0 <= i < k && i != target && cam_enabled(#[trigger] g[i]) ==> exists|j: int|
                0 <= j < active_others_upto(g, target, k).len()
                    && (#[trigger] active_others_upto(g, target, k)[j]).index as int == i,
    decreases k,
{
    if k > 0 {
        lemma_active_others_upto(g, target, k - 1);
        let prev = active_others_upto(g, target, k - 1);
        let cur = active_others_upto(g, target, k);
        if k - 1 != target && cam_enabled(g[k - 1]) {
            assert(0 <= k - 1 <= usize::MAX);
            assert(cur == prev.push(Handle { index: (k - 1) as usize }));
            assert(cur[cur.len() - 1].index as int == k - 1);
            assert(forall|j: int| 0 <= j < prev.len() ==> #[trigger] cur[j] == prev[j]);
            assert forall|i: int|
                0 <= i < k && i != target && cam_enabled(#[trigger] g[i]) implies exists|j: int|
                0 <= j < cur.len() && (#[trigger] cur[j]).index as int == i by {
                if i < k - 1 {
                    let j = choose|j: int|
                        0 <= j < prev.len() && (#[trigger] prev[j]).index as int == i;
                    assert(cur[j].index as int == i);
                } else {
                    assert(cur[cur.len() - 1].index as int == i);
                }
            }
        } else {
            assert(cur == prev);
        }
    }
}

/// Round trip of the cascading preview command, stated over the graph model:
/// executing against any graph whose editor camera flag is opposite to the
/// target's, and then reverting with the captured state, restores every slot
/// exactly. The target must not be the editor camera itself.
pub proof fn lemma_preview_round_trip(g: Seq<Node>, target: int, value: bool, editor: int)
    requires
        g.len() <= usize::MAX,
        0 <= target < g.len(),
        0 <= editor < g.len(),
        target != editor,
        is_camera_node(g[target]),
        is_camera_node(g[editor]),
        cam_enabled(g[editor]) == !cam_enabled(g[target]),
    ensures
        preview_revert_graph(
            preview_execute_graph(g, target, value, editor),
            active_others(g, target),
            target,
            cam_enabled(g[target]),
            editor,
        ) == g,
{
    let a0 = cam_enabled(g[target]);
    let ge = preview_execute_graph(g, target, value, editor);
    let la = active_others(g, target);
    let gr = preview_revert_graph(ge, la, target, a0, editor);

    let g1 = g.update(target, with_enabled(g[target], value));
    let g2 = disable_others(g1, target);
    lemma_active_others_upto(g, target, g.len() as int);
    assert(ge.len() == g.len());
    assert(forall|j: int| 0 <= j < la.len() ==> (#[trigger] la[j]).index < ge.len());

    let g1r = enable_all(ge, la);
    lemma_enable_all_len(ge, la);
    let g2r = g1r.update(target, with_enabled(g1r[target], a0));

    assert forall|i: int| 0 <= i < g.len() implies gr[i] == g[i] by {
        lemma_enable_all_at(ge, la, i);
        if i == editor {
            // Whatever chain of flag writes the slot went through, the final
            // write restores the editor camera's own flag.
            assert(ge[editor] == with_enabled(g2[editor], !value));
            lemma_with_enabled_twice(g2[editor], !value, true);
            lemma_with_enabled_twice(g[editor], !value, !a0);
            assert(g2[editor] == if cam_enabled(g1[editor]) {
                with_enabled(g1[editor], false)
            } else {
                g1[editor]
            });
            assert(g1[editor] == g[editor]);
            lemma_with_enabled_twice(g[editor], false, !value);
            lemma_with_enabled_twice(g[editor], true, !a0);
            assert(gr[editor] == with_enabled(g2r[editor], !a0));
            assert(g2r[editor] == g1r[editor]);
            lemma_with_enabled_twice(g2[editor], !value, !a0);
            assert(with_enabled(g2[editor], !a0) == with_enabled(g[editor], !a0)) by {
                lemma_with_enabled_twice(g[editor], false, !a0);
            }
            assert(gr[editor] == with_enabled(g[editor], !a0));
            lemma_with_enabled_identity(g[editor]);
        } else if i == target {
            assert(forall|j: int| 0 <= j < la.len() ==> (#[trigger] la[j]).index as int != target);
            assert(g1r[target] == ge[target]);
            assert(ge[target] == g2[target]);
            assert(g2[target] == g1[target]);
            assert(g1[target] == with_enabled(g[target], value));
            lemma_with_enabled_twice(g[target], value, a0);
            lemma_with_enabled_identity(g[target]);
            assert(g2r[target] == with_enabled(g[target], a0));
            assert(gr[target] == g2r[target]);
        } else {
            assert(g1[i] == g[i]);
            assert(ge[i] == g2[i]);
            if cam_enabled(g[i]) {
                assert(g2[i] == with_enabled(g[i], false));
                assert(exists|j: int|
                    0 <= j < la.len() && (#[trigger] la[j]).index as int == i);
                assert(g1r[i] == with_enabled(ge[i], true));
                lemma_with_enabled_twice(g[i], false, true);
                lemma_with_enabled_identity(g[i]);
                assert(gr[i] == g1r[i]);
            } else {
                assert(forall|j: int| 0 <= j < la.len() ==> (#[trigger] la[j]).index as int != i);
                assert(g2[i] == g[i]);
                assert(g1r[i] == ge[i]);
                assert(gr[i] == g1r[i]);
            }
        }
    }
    assert(gr =~= g);
}

/// Round trip of the property-edit command, stated over the graph model:
/// setting a camera field and then writing the captured old value back
/// restores every slot exactly.
pub proof fn lemma_property_round_trip(g: Seq<Node>, target: int, p: CameraProperty, v: u32)
    requires
        0 <= target < g.len(),
        is_camera_node(g[target]),
    ensures
        property_set_graph(
            property_set_graph(g, target, p, v),
            target,
            p,
            cam_property(g[target], p),
        ) == g,
{
    let ge = property_set_graph(g, target, p, v);
    let gr = property_set_graph(ge, target, p, cam_property(g[target], p));
    assert(ge[target] == with_property(g[target], p, v));
    assert(gr[target] == g[target]);
    assert(gr =~= g);
}

/// Round trip for every command type: a command executed against a graph and
/// then reverted (with the state it captured during that execute) restores
/// the graph exactly, cascading side effects included. For the cascading
/// preview command this needs the target to differ from the editor camera
/// and the editor camera's flag to be the negation of the target's.
pub proof fn lemma_execute_revert_round_trip(
    cmd: SceneCommand,
    post: SceneCommand,
    g: Seq<Node>,
    editor: Handle,
)
    requires
        g.len() <= usize::MAX,
        cmd.executable(g, editor),
        cmd.executed_as(g, post),
        cmd matches SceneCommand::SetCameraPreview(c) ==> {
            &&& c.node != editor
            &&& cam_enabled(g[editor.index as int]) == !cam_enabled(g[c.node.index as int])
        },
    ensures
        post.revert_graph(cmd.exec_graph(g, editor), editor) == g,
{
    match cmd {
        SceneCommand::SetCameraProperty(c) => {
            lemma_property_round_trip(g, c.node.index as int, c.property, c.value);
        },
        SceneCommand::SetCameraPreview(c) => {
            lemma_preview_round_trip(
                g,
                c.node.index as int,
                c.value,
                editor.index as int,
            );
        },
    }
}

/// Cascading invariant: enabling preview on one camera leaves exactly that
/// camera enabled in the whole graph — every sibling camera and the editor
/// camera end up disabled.
pub proof fn lemma_preview_exclusive(g: Seq<Node>, target: int, editor: int)
    requires
        0 <= target < g.len(),
        0 <= editor < g.len(),
        target != editor,
        is_camera_node(g[target]),
        is_camera_node(g[editor]),
    ensures
        forall|i: int|
            0 <= i < g.len() ==> (cam_enabled(
                #[trigger] preview_execute_graph(g, target, true, editor)[i],
            ) <==> i == target),
{
    let ge = preview_execute_graph(g, target, true, editor);
    let g1 = g.update(target, with_enabled(g[target], true));
    let g2 = disable_others(g1, target);
    assert forall|i: int| 0 <= i < g.len() implies (cam_enabled(ge[i]) <==> i == target) by {
        if i == target {
            assert(ge[target] == with_enabled(g[target], true));
        } else if i == editor {
            assert(ge[editor] == with_enabled(g2[editor], false));
        } else {
            assert(ge[i] == g2[i]);
        }
    }
}

/// Executing a command neither adds nor removes entities and never changes
/// which slots hold cameras — only camera fields change.
pub proof fn lemma_exec_preserves_cameras(cmd: SceneCommand, g: Seq<Node>, editor: Handle)
    requires
        cmd.executable(g, editor),
    ensures
        cmd.exec_graph(g, editor).len() == g.len(),
        forall|i: int|
            0 <= i < g.len() ==> is_camera_node(#[trigger] cmd.exec_graph(g, editor)[i])
                == is_camera_node(g[i]),
{
    let ge = cmd.exec_graph(g, editor);
    match cmd {
        SceneCommand::SetCameraProperty(c) => {
            assert forall|i: int|
                0 <= i < g.len() implies is_camera_node(ge[i]) == is_camera_node(g[i]) by {
                if i == c.node.index as int {
                    assert(ge[i] == with_property(g[i], c.property, c.value));
                }
            }
        },
        SceneCommand::SetCameraPreview(c) => {
            let t = c.node.index as int;
            let e = editor.index as int;
            let g1 = g.update(t, with_enabled(g[t], c.value));
            let g2 = disable_others(g1, t);
            assert forall|i: int|
                0 <= i < g.len() implies is_camera_node(ge[i]) == is_camera_node(g[i]) by {
                assert(is_camera_node(g1[i]) == is_camera_node(g[i]));
                assert(is_camera_node(g2[i]) == is_camera_node(g1[i]));
                if i == e {
                    assert(ge[i] == with_enabled(g2[i], !c.value));
                } else {
                    assert(ge[i] == g2[i]);
                }
            }
        },
    }
}

/// Reverting a command neither adds nor removes entities and never changes
/// which slots hold cameras — only camera fields change.
pub proof fn lemma_revert_preserves_cameras(cmd: SceneCommand, g: Seq<Node>, editor: Handle)
    requires
        cmd.revertible(g, editor),
    ensures
        cmd.revert_graph(g, editor).len() == g.len(),
        forall|i: int|
            0 <= i < g.len() ==> is_camera_node(#[trigger] cmd.revert_graph(g, editor)[i])
                == is_camera_node(g[i]),
{
    let gr = cmd.revert_graph(g, editor);
    match cmd {
        SceneCommand::SetCameraProperty(c) => {
            assert forall|i: int|
                0 <= i < g.len() implies is_camera_node(gr[i]) == is_camera_node(g[i]) by {
                if i == c.node.index as int {
                    assert(gr[i] == with_property(g[i], c.property, c.old_value));
                }
            }
        },
        SceneCommand::SetCameraPreview(c) => {
            let t = c.node.index as int;
            let e = editor.index as int;
            let la = c.last_active@;
            let g1 = enable_all(g, la);
            let g2 = g1.update(t, with_enabled(g1[t], c.old_value));
            lemma_enable_all_len(g, la);
            assert forall|i: int|
                0 <= i < g.len() implies is_camera_node(gr[i]) == is_camera_node(g[i]) by {
                lemma_enable_all_at(g, la, i);
                assert(is_camera_node(g1[i]) == is_camera_node(g[i]));
                assert(is_camera_node(g2[i]) == is_camera_node(g1[i]));
                if i == e {
                    assert(gr[i] == with_enabled(g2[i], !c.old_value));
                } else {
                    assert(gr[i] == g2[i]);
                }
            }
        },
    }
}

/// A command that has just been reverted can be executed again — a redo is
/// always possible right after an undo.
pub proof fn lemma_reverted_executable(cmd: SceneCommand, g: Seq<Node>, editor: Handle)
    requires
        cmd.revertible(g, editor),
    ensures
        cmd.executable(cmd.revert_graph(g, editor), editor),
{
    lemma_revert_preserves_cameras(cmd, g, editor);
}

/// A command that has just been executed can be reverted against the graph
/// it produced: every handle it captured still resolves to a live camera.
pub proof fn lemma_executed_revertible(
    cmd: SceneCommand,
    post: SceneCommand,
    g: Seq<Node>,
    editor: Handle,
)
    requires
        g.len() <= usize::MAX,
        cmd.executable(g, editor),
        cmd.executed_as(g, post),
    ensures
        post.revertible(cmd.exec_graph(g, editor), editor),
{
    let ge = cmd.exec_graph(g, editor);
    lemma_exec_preserves_cameras(cmd, g, editor);
    match cmd {
        SceneCommand::SetCameraProperty(_) => {},
        SceneCommand::SetCameraPreview(c) => {
            let t = c.node.index as int;
            lemma_active_others_upto(g, t, g.len() as int);
            let la = active_others(g, t);
            assert forall|j: int|
                0 <= j < la.len() implies {
                &&& (#[trigger] la[j]).index < ge.len()
                &&& is_camera_node(ge[la[j].index as int])
            } by {
                assert(cam_enabled(g[la[j].index as int]));
            }
        },
    }
}

} // verus!
