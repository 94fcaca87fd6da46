//! Triangle meshes without an index buffer.

use vstd::prelude::*;
use crate::error::Error;

verus! {

/// The components of the corners of all triangles, in the order of the
/// indices: for each index the three components of the vertex it names.
pub open spec fn expanded<T>(components: Seq<T>, indices: Seq<u32>) -> Seq<T> {
    Seq::new(3 * indices.len(), |k: int| components[3 * indices[k / 3] + k % 3])
}

/// Whether every index names a vertex that has all three of its components.
pub open spec fn indices_within<T>(components: Seq<T>, indices: Seq<u32>) -> bool {
    forall|k: int| 0 <= k < indices.len() ==> 3 * #[trigger] indices[k] + 2 < components.len()
}

/// The first index that names no whole vertex in either buffer.
pub open spec fn first_missing(vertices: int, normals: int, indices: Seq<u32>) -> int
    decreases indices.len(),
{
    if indices.len() == 0 {
        0
    } else if first_missing(vertices, normals, indices.drop_last()) < indices.len() - 1 {
        first_missing(vertices, normals, indices.drop_last())
    } else if 3 * indices.last() + 2 < vertices && 3 * indices.last() + 2 < normals {
        indices.len() as int
    } else {
        indices.len() - 1
    }
}

/// Why an indexed mesh cannot be expanded, if it cannot.
pub open spec fn refusal(vertices: int, normals: int, indices: Seq<u32>) -> Option<Error> {
    if indices.len() % 3 != 0 {
        Some(Error::IndexCount { count: indices.len() as usize })
    } else if first_missing(vertices, normals, indices) < indices.len() {
        Some(
            Error::IndexOutOfRange {
                position: first_missing(vertices, normals, indices) as usize,
            },
        )
    } else {
        None
    }
}

/// A triangle mesh that holds the corners of its triangles one after the other:
/// three components of the position for each corner, and three of the normal.
#[derive(Debug)]
pub struct Mesh<T> {
    vertices: Vec<T>,
    normals: Vec<T>,
}

impl<T> Mesh<T> {
    #[verifier::type_invariant]
    spec fn buffers_agree(self) -> bool {
        self.vertices.len() == self.normals.len() && self.vertices.len() % 9 == 0
    }

    /// The components of the positions of all corners.
    pub closed spec fn vertices_view(self) -> Seq<T> {
        self.vertices@
    }

    /// The components of the normals of all corners.
    pub closed spec fn normals_view(self) -> Seq<T> {
        self.normals@
    }

    /// The components of the positions of all corners.
    pub fn vertices(&self) -> (vertices: &Vec<T>)
        ensures
            vertices@ == self.vertices_view(),
    {
        &self.vertices
    }

    /// The components of the normals of all corners.
    pub fn normals(&self) -> (normals: &Vec<T>)
        ensures
            normals@ == self.normals_view(),
            normals.len() == self.vertices_view().len(),
    {
        proof {
            use_type_invariant(self);
        }
        &self.normals
    }
}

impl<T: Copy> Mesh<T> {
    /// Expands an indexed mesh. `vertices` and `normals` hold three components
    /// for each vertex, and `indices` three indices of vertices for each
    /// triangle. The number of indices has to be a multiple of three, and each
    /// index has to name a vertex of both buffers; the first index that does
    /// not is reported.
    pub fn new(vertices: &[T], normals: &[T], indices: &[u32]) -> (r: Result<Mesh<T>, Error>)
        ensures
            match r {
                Ok(mesh) => refusal(vertices.len() as int, normals.len() as int, indices@)
                    is None && mesh.vertices_view() == expanded(vertices@, indices@)
                    && mesh.normals_view() == expanded(normals@, indices@),
                Err(e) => refusal(vertices.len() as int, normals.len() as int, indices@)
                    == Some(e),
            },
    {
        if indices.len() % 3 != 0 {
            return Err(Error::IndexCount { count: indices.len() });
        }
        let mut corners: Vec<T> = Vec::new();
        let mut directions: Vec<T> = Vec::new();
        let mut k: usize = 0;
        while k < indices.len()
            invariant
                k <= indices.len(),
                indices.len() % 3 == 0,
                first_missing(
                    vertices.len() as int,
                    normals.len() as int,
                    indices@.take(k as int),
                ) == k,
                corners@ == expanded(vertices@, indices@.take(k as int)),
                directions@ == expanded(normals@, indices@.take(k as int)),
            decreases indices.len() - k,
        {
            let ghost done = indices@.take(k as int);
            let ghost next = indices@.take(k + 1);
            assert(next.drop_last() =~= done);
            assert(next.last() == indices@[k as int]);
            let base: u64 = 3 * (indices[k] as u64);
            if base + 2 >= vertices.len() as u64 || base + 2 >= normals.len() as u64 {
                proof {
                    assert(first_missing(vertices.len() as int, normals.len() as int, next)
                        == k);
                    lemma_first_missing_stays(
                        vertices.len() as int,
                        normals.len() as int,
                        indices@,
                        k + 1,
                    );
                }
                return Err(Error::IndexOutOfRange { position: k });
            }
            let at: usize = base as usize;
            corners.push(vertices[at]);
            corners.push(vertices[at + 1]);
            corners.push(vertices[at + 2]);
            directions.push(normals[at]);
            directions.push(normals[at + 1]);
            directions.push(normals[at + 2]);
            assert(corners@ =~= expanded(vertices@, next));
            assert(directions@ =~= expanded(normals@, next));
            k += 1;
        }
        assert(indices@.take(k as int) =~= indices@);
        Ok(Mesh { vertices: corners, normals: directions })
    }
}

/// Once an index is missing among the first `n`, it is the first missing one
/// of the whole sequence.
proof fn lemma_first_missing_stays(vertices: int, normals: int, indices: Seq<u32>, n: int)
    requires
        0 < n <= indices.len(),
        first_missing(vertices, normals, indices.take(n)) < n,
    ensures
        first_missing(vertices, normals, indices) == first_missing(
            vertices,
            normals,
            indices.take(n),
        ),
    decreases indices.len() - n,
{
    if n < indices.len() {
        assert(indices.take(n + 1).drop_last() =~= indices.take(n));
        lemma_first_missing_stays(vertices, normals, indices, n + 1);
    } else {
        assert(indices.take(n) =~= indices);
    }
}

} // verus!
