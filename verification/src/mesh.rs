use vstd::prelude::*;
use crate::selection::{next_cursor, previous_cursor, StateList, STRIDE};

verus! {

/// Why a mesh was not taken over.
#[derive(Clone, Copy, Debug, PartialEq, Eq, Structural)]
pub enum LoadError {
    /// The file could not be read or understood.
    Unreadable,
    /// The file had to be converted first, and the conversion failed.
    ConversionFailed,
    /// The vertex buffer does not consist of whole coordinate triples.
    RaggedVertices { len: usize },
    /// The index buffer does not consist of whole faces.
    RaggedIndices { len: usize },
    /// The index at `position` of the index buffer names a vertex that the
    /// vertex buffer does not hold.
    IndexOutOfRange { position: usize, index: u32 },
}

/// Every index of `indices` before `end` names one of `vertex_count` vertices.
pub open spec fn indices_below(indices: Seq<u32>, end: int, vertex_count: nat) -> bool {
    forall|i: int| 0 <= i < end && i < indices.len() ==> (#[trigger] indices[i]) < vertex_count
}

/// A vertex buffer of `vertex_len` scalars and an index buffer form a mesh:
/// both consist of whole triples, and every index names a vertex.
pub open spec fn mesh_ok(vertex_len: nat, indices: Seq<u32>) -> bool {
    &&& vertex_len % (STRIDE as nat) == 0
    &&& indices.len() % (STRIDE as nat) == 0
    &&& indices_below(indices, indices.len() as int, vertex_len / (STRIDE as nat))
}

/// What `check_mesh` reports: the first of the three conditions of `mesh_ok`
/// that fails, and for an index out of range the first such index.
pub open spec fn check_outcome(
    vertex_len: nat,
    indices: Seq<u32>,
    outcome: Result<(), LoadError>,
) -> bool {
    match outcome {
        Ok(()) => mesh_ok(vertex_len, indices),
        Err(LoadError::RaggedVertices { len }) => len == vertex_len && vertex_len % (STRIDE as nat)
            != 0,
        Err(LoadError::RaggedIndices { len }) => {
            &&& vertex_len % (STRIDE as nat) == 0
            &&& len == indices.len()
            &&& indices.len() % (STRIDE as nat) != 0
        },
        Err(LoadError::IndexOutOfRange { position, index }) => {
            &&& vertex_len % (STRIDE as nat) == 0
            &&& indices.len() % (STRIDE as nat) == 0
            &&& position < indices.len()
            &&& indices[position as int] == index
            &&& index >= vertex_len / (STRIDE as nat)
            &&& indices_below(indices, position as int, vertex_len / (STRIDE as nat))
        },
        Err(_) => false,
    }
}

/// Checks that a vertex buffer of `vertex_len` scalars and `indices` form a
/// mesh, so that no index is followed outside the vertex buffer later on.
pub fn check_mesh(vertex_len: usize, indices: &Vec<u32>) -> (outcome: Result<(), LoadError>)
    ensures
        check_outcome(vertex_len as nat, indices@, outcome),
        outcome is Ok <==> mesh_ok(vertex_len as nat, indices@),
{
    if vertex_len % STRIDE != 0 {
        return Err(LoadError::RaggedVertices { len: vertex_len });
    }
    if indices.len() % STRIDE != 0 {
        return Err(LoadError::RaggedIndices { len: indices.len() });
    }
    let vertex_count: usize = vertex_len / STRIDE;
    let mut position: usize = 0;
    while position < indices.len()
        invariant
            position <= indices.len(),
            vertex_len % STRIDE == 0,
            indices.len() % STRIDE == 0,
            vertex_count == vertex_len / STRIDE,
            indices_below(indices@, position as int, vertex_count as nat),
        decreases indices.len() - position,
    {
        let index: u32 = indices[position];
        if index as usize >= vertex_count {
            return Err(LoadError::IndexOutOfRange { position, index });
        }
        position += 1;
    }
    Ok(())
}

/// A triangle mesh with a cursor over its vertices and a cursor over its
/// faces. The two buffers always form a mesh, so every index can be followed
/// into the vertex buffer.
pub struct Mesh<V> {
    vertices: StateList<V>,
    faces: StateList<u32>,
}

impl<V> Mesh<V> {
    /// The vertex list as a value.
    pub closed spec fn vertex_list(&self) -> StateList<V> {
        self.vertices
    }

    /// The face list as a value.
    pub closed spec fn face_list(&self) -> StateList<u32> {
        self.faces
    }

    /// The vertex buffer: three scalars for each vertex.
    pub open spec fn positions(&self) -> Seq<V> {
        self.vertex_list()@
    }

    /// The index buffer: three vertex numbers for each face.
    pub open spec fn indices(&self) -> Seq<u32> {
        self.face_list()@
    }

    /// The selected vertex, if any.
    pub open spec fn vertex_cursor(&self) -> Option<nat> {
        self.vertex_list().cursor()
    }

    /// The selected face, if any.
    pub open spec fn face_cursor(&self) -> Option<nat> {
        self.face_list().cursor()
    }

    /// The buffers form a mesh and each cursor names an item of its list.
    #[verifier::type_invariant]
    pub open spec fn wf(&self) -> bool {
        &&& mesh_ok(self.positions().len(), self.indices())
        &&& self.vertex_list().wf()
        &&& self.face_list().wf()
    }

    /// The mesh made of `positions` and `indices` with nothing selected, or
    /// the reason why the two do not form a mesh.
    pub fn new(positions: Vec<V>, indices: Vec<u32>) -> (made: Result<Mesh<V>, LoadError>)
        ensures
            match made {
                Ok(mesh) => {
                    &&& mesh.positions() == positions@
                    &&& mesh.indices() == indices@
                    &&& mesh.vertex_cursor() == None::<nat>
                    &&& mesh.face_cursor() == None::<nat>
                    &&& mesh.wf()
                },
                Err(error) => check_outcome(positions@.len(), indices@, Err(error)),
            },
            made is Ok <==> mesh_ok(positions@.len(), indices@),
    {
        match check_mesh(positions.len(), &indices) {
            Ok(()) => Ok(
                Mesh {
                    vertices: StateList::with_items(positions),
                    faces: StateList::with_items(indices),
                },
            ),
            Err(error) => Err(error),
        }
    }

    /// The vertex list.
    pub fn vertices(&self) -> (list: &StateList<V>)
        ensures
            *list == self.vertex_list(),
            self.wf(),
    {
        proof {
            use_type_invariant(self);
        }
        &self.vertices
    }

    /// The face list.
    pub fn faces(&self) -> (list: &StateList<u32>)
        ensures
            *list == self.face_list(),
            self.wf(),
    {
        proof {
            use_type_invariant(self);
        }
        &self.faces
    }

    /// Moves the vertex cursor one vertex forward.
    pub fn next_vertex(&mut self)
        ensures
            final(self).positions() == old(self).positions(),
            final(self).face_list() == old(self).face_list(),
            final(self).vertex_cursor() == next_cursor(
                old(self).vertex_cursor(),
                old(self).vertex_list().item_count(),
            ),
            final(self).wf(),
    {
        proof {
            use_type_invariant(&*self);
        }
        self.vertices.next();
    }

    /// Moves the vertex cursor one vertex backward.
    pub fn previous_vertex(&mut self)
        ensures
            final(self).positions() == old(self).positions(),
            final(self).face_list() == old(self).face_list(),
            final(self).vertex_cursor() == previous_cursor(
                old(self).vertex_cursor(),
                old(self).vertex_list().item_count(),
            ),
            final(self).wf(),
    {
        proof {
            use_type_invariant(&*self);
        }
        self.vertices.previous();
    }

    /// Moves the face cursor one face forward.
    pub fn next_face(&mut self)
        ensures
            final(self).indices() == old(self).indices(),
            final(self).vertex_list() == old(self).vertex_list(),
            final(self).face_cursor() == next_cursor(
                old(self).face_cursor(),
                old(self).face_list().item_count(),
            ),
            final(self).wf(),
    {
        proof {
            use_type_invariant(&*self);
        }
        self.faces.next();
    }

    /// Moves the face cursor one face backward.
    pub fn previous_face(&mut self)
        ensures
            final(self).indices() == old(self).indices(),
            final(self).vertex_list() == old(self).vertex_list(),
            final(self).face_cursor() == previous_cursor(
                old(self).face_cursor(),
                old(self).face_list().item_count(),
            ),
            final(self).wf(),
    {
        proof {
            use_type_invariant(&*self);
        }
        self.faces.previous();
    }
}

} // verus!
