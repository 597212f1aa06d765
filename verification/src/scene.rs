//! The mutable aggregate that commands operate on: an arena of entities
//! addressed by stable handles, plus editor-only auxiliary state.

use vstd::prelude::*;

verus! {

/// Opaque, copyable identifier for an entity slot in a [`Graph`].
///
/// A handle is never dereferenced directly; it is resolved through the graph
/// that owns the entity. It stays valid as long as the entity exists.
#[derive(Clone, Copy, PartialEq, Eq, Structural, Debug)]
pub struct Handle {
    pub index: usize,
}

/// The camera state that editing commands read and write.
#[derive(Clone, Copy, PartialEq, Eq, Structural, Debug)]
pub struct Camera {
    pub enabled: bool,
    pub fov: u32,
    pub z_near: u32,
    pub z_far: u32,
}

/// An entity slot in the graph. The commands in this crate only distinguish
/// cameras from everything else.
#[derive(Clone, Copy, PartialEq, Eq, Structural, Debug)]
pub enum Node {
    Camera(Camera),
    Other,
}

/// Whether a node is a camera.
pub open spec fn is_camera_node(n: Node) -> bool {
    n is Camera
}

/// Whether a node is a camera whose enabled flag is set.
pub open spec fn cam_enabled(n: Node) -> bool {
    n matches Node::Camera(c) && c.enabled
}

/// The node with its enabled flag replaced by `v`; non-cameras are unchanged.
pub open spec fn with_enabled(n: Node, v: bool) -> Node {
    match n {
        Node::Camera(c) => Node::Camera(Camera { enabled: v, ..c }),
        Node::Other => Node::Other,
    }
}

/// A scalar camera field that a property-edit command can target.
#[derive(Clone, Copy, PartialEq, Eq, Structural, Debug)]
pub enum CameraProperty {
    Fov,
    ZNear,
    ZFar,
}

/// The value a camera node holds for property `p`; 0 for non-cameras.
pub open spec fn cam_property(n: Node, p: CameraProperty) -> u32 {
    match n {
        Node::Camera(c) => match p {
            CameraProperty::Fov => c.fov,
            CameraProperty::ZNear => c.z_near,
            CameraProperty::ZFar => c.z_far,
        },
        Node::Other => 0,
    }
}

/// The node with property `p` replaced by `v`; non-cameras are unchanged.
pub open spec fn with_property(n: Node, p: CameraProperty, v: u32) -> Node {
    match n {
        Node::Camera(c) => match p {
            CameraProperty::Fov => Node::Camera(Camera { fov: v, ..c }),
            CameraProperty::ZNear => Node::Camera(Camera { z_near: v, ..c }),
            CameraProperty::ZFar => Node::Camera(Camera { z_far: v, ..c }),
        },
        Node::Other => Node::Other,
    }
}

/// Arena of entities with O(1) handle resolution. The graph owns every
/// entity; commands hold only handles into it, never references.
pub struct Graph {
    nodes: Vec<Node>,
}

impl View for Graph {
    type V = Seq<Node>;

    closed spec fn view(&self) -> Seq<Node> {
        self.nodes@
    }
}

impl Graph {
    /// An empty graph.
    pub fn new() -> (g: Graph)
        ensures
            g@ == Seq::<Node>::empty(),
    {
        Graph { nodes: Vec::new() }
    }

    /// Appends an entity and returns the handle of its slot.
    pub fn add_node(&mut self, node: Node) -> (h: Handle)
        ensures
            final(self)@ == old(self)@.push(node),
            h.index == old(self)@.len(),
    {
        let h = Handle { index: self.nodes.len() };
        self.nodes.push(node);
        h
    }

    /// Number of entity slots.
    pub fn len(&self) -> (n: usize)
        ensures
            n == self@.len(),
    {
        self.nodes.len()
    }

    /// A handle is valid while it names a slot of this graph.
    pub open spec fn valid(self, h: Handle) -> bool {
        h.index < self@.len()
    }

    /// The entity behind a handle.
    pub fn node(&self, h: Handle) -> (n: Node)
        requires
            self.valid(h),
        ensures
            n == self@[h.index as int],
    {
        self.nodes[h.index]
    }

    /// Whether the entity behind `h` is a camera.
    pub fn is_camera(&self, h: Handle) -> (r: bool)
        requires
            self.valid(h),
        ensures
            r == is_camera_node(self@[h.index as int]),
    {
        match self.nodes[h.index] {
            Node::Camera(_) => true,
            Node::Other => false,
        }
    }

    /// Whether the entity behind `h` is a camera with its enabled flag set.
    pub fn is_enabled_camera(&self, h: Handle) -> (r: bool)
        requires
            self.valid(h),
        ensures
            r == cam_enabled(self@[h.index as int]),
    {
        match self.nodes[h.index] {
            Node::Camera(c) => c.enabled,
            Node::Other => false,
        }
    }

    /// The enabled flag of the camera behind `h`.
    pub fn camera_enabled(&self, h: Handle) -> (r: bool)
        requires
            self.valid(h),
            is_camera_node(self@[h.index as int]),
        ensures
            r == cam_enabled(self@[h.index as int]),
    {
        match self.nodes[h.index] {
            Node::Camera(c) => c.enabled,
            Node::Other => false,
        }
    }

    /// Sets the enabled flag of the camera behind `h`.
    pub fn set_camera_enabled(&mut self, h: Handle, v: bool)
        requires
            old(self).valid(h),
            is_camera_node(old(self)@[h.index as int]),
        ensures
            final(self)@ == old(self)@.update(
                h.index as int,
                with_enabled(old(self)@[h.index as int], v),
            ),
    {
        let updated = match self.nodes[h.index] {
            Node::Camera(c) => Node::Camera(Camera { enabled: v, ..c }),
            Node::Other => Node::Other,
        };
        self.nodes[h.index] = updated;
    }

    /// The value of property `p` on the camera behind `h`.
    pub fn camera_property(&self, h: Handle, p: CameraProperty) -> (r: u32)
        requires
            self.valid(h),
            is_camera_node(self@[h.index as int]),
        ensures
            r == cam_property(self@[h.index as int], p),
    {
        match self.nodes[h.index] {
            Node::Camera(c) => match p {
                CameraProperty::Fov => c.fov,
                CameraProperty::ZNear => c.z_near,
                CameraProperty::ZFar => c.z_far,
            },
            Node::Other => 0,
        }
    }

    /// Sets property `p` on the camera behind `h` to `v`.
    pub fn set_camera_property(&mut self, h: Handle, p: CameraProperty, v: u32)
        requires
            old(self).valid(h),
            is_camera_node(old(self)@[h.index as int]),
        ensures
            final(self)@ == old(self)@.update(
                h.index as int,
                with_property(old(self)@[h.index as int], p, v),
            ),
    {
        let updated = match self.nodes[h.index] {
            Node::Camera(c) => match p {
                CameraProperty::Fov => Node::Camera(Camera { fov: v, ..c }),
                CameraProperty::ZNear => Node::Camera(Camera { z_near: v, ..c }),
                CameraProperty::ZFar => Node::Camera(Camera { z_far: v, ..c }),
            },
            Node::Other => Node::Other,
        };
        self.nodes[h.index] = updated;
    }
}

/// Editor-only auxiliary state: the controller that owns the editor's own
/// orbit camera. Its handle is part of the editing session, not scene content.
#[derive(Clone, Copy, PartialEq, Eq, Structural, Debug)]
pub struct CameraController {
    pub camera: Handle,
}

/// The mutable aggregate passed to every command: the entity graph plus the
/// editor-only auxiliary state. It is borrowed exclusively for the duration
/// of one `execute` or `revert` call and never retained by a command.
pub struct SceneContext {
    pub graph: Graph,
    pub camera_controller: CameraController,
}

} // verus!
