//! The values that cross the boundary between a model and its host.

use vstd::prelude::*;

verus! {

/// What a model says of itself when it is loaded.
#[derive(Debug, PartialEq, Eq)]
pub struct Metadata {
    pub name: String,
    pub description: String,
    pub version: String,
}

/// The text of a [`Metadata`].
pub struct MetadataView {
    pub name: Seq<char>,
    pub description: Seq<char>,
    pub version: Seq<char>,
}

impl View for Metadata {
    type V = MetadataView;

    open spec fn view(&self) -> MetadataView {
        MetadataView { name: self.name@, description: self.description@, version: self.version@ }
    }
}

impl Clone for Metadata {
    fn clone(&self) -> (copy: Self)
        ensures
            copy == *self,
    {
        Metadata {
            name: self.name.clone(),
            description: self.description.clone(),
            version: self.version.clone(),
        }
    }
}

/// A point in space. Each coordinate is held as the bit pattern of an
/// IEEE 754 single-precision number: the host carries coordinates from a
/// model to its caller and never computes with them.
#[derive(Clone, Copy, Debug, PartialEq, Eq, Structural)]
pub struct Vertex {
    pub x: u32,
    pub y: u32,
    pub z: u32,
}

impl Vertex {
    /// A vertex from the bit patterns of its three coordinates.
    pub fn new(x: u32, y: u32, z: u32) -> (vertex: Self)
        ensures
            vertex == (Vertex { x, y, z }),
    {
        Vertex { x, y, z }
    }
}

/// A triangle, as three positions in a shape's list of vertices.
pub type Face = (u32, u32, u32);

/// A triangle mesh as a model returns it.
#[derive(Debug, PartialEq, Eq)]
pub struct Shape {
    pub vertices: Vec<Vertex>,
    pub faces: Vec<Face>,
}

/// The vertices and faces of a [`Shape`], in order.
pub struct ShapeView {
    pub vertices: Seq<Vertex>,
    pub faces: Seq<Face>,
}

impl ShapeView {
    /// Whether the face at `i` names only vertices that exist.
    pub open spec fn face_in_range(self, i: int) -> bool {
        &&& self.faces[i].0 < self.vertices.len()
        &&& self.faces[i].1 < self.vertices.len()
        &&& self.faces[i].2 < self.vertices.len()
    }

    /// Whether every face names only vertices that exist.
    pub open spec fn well_formed(self) -> bool {
        forall|i: int| 0 <= i < self.faces.len() ==> self.face_in_range(i)
    }
}

impl View for Shape {
    type V = ShapeView;

    open spec fn view(&self) -> ShapeView {
        ShapeView { vertices: self.vertices@, faces: self.faces@ }
    }
}

impl Shape {
    /// The first face that names a vertex that does not exist, if any.
    pub fn first_bad_face(&self) -> (bad: Option<usize>)
        ensures
            match bad {
                Some(i) => {
                    &&& i < self@.faces.len()
                    &&& !self@.face_in_range(i as int)
                    &&& forall|j: int| 0 <= j < i ==> self@.face_in_range(j)
                },
                None => self@.well_formed(),
            },
    {
        let count: usize = self.vertices.len();
        let mut i: usize = 0;
        while i < self.faces.len()
            invariant
                count == self@.vertices.len(),
                i <= self@.faces.len(),
                forall|j: int| 0 <= j < i ==> self@.face_in_range(j),
            decreases self@.faces.len() - i,
        {
            let face: Face = self.faces[i];
            let in_range = (face.0 as usize) < count && (face.1 as usize) < count && (
            face.2 as usize) < count;
            if !in_range {
                return Some(i);
            }
            i += 1;
        }
        None
    }

    /// Whether every face names only vertices that exist.
    pub fn is_well_formed(&self) -> (ok: bool)
        ensures
            ok == self@.well_formed(),
    {
        self.first_bad_face().is_none()
    }
}

/// A model's own report that it could not make a shape. To the host this is
/// a value like any other, not a failure of the sandbox.
#[derive(Debug, PartialEq, Eq)]
pub struct ModelError {
    pub message: String,
}

impl View for ModelError {
    type V = Seq<char>;

    open spec fn view(&self) -> Seq<char> {
        self.message@
    }
}

/// A fault of the sandbox while a model ran: the call did not return.
#[derive(Debug, PartialEq, Eq)]
pub struct Trap {
    pub message: String,
}

impl Clone for Trap {
    fn clone(&self) -> (copy: Self)
        ensures
            copy == *self,
    {
        Trap { message: self.message.clone() }
    }
}

impl View for Trap {
    type V = Seq<char>;

    open spec fn view(&self) -> Seq<char> {
        self.message@
    }
}

} // verus!
