//! The geometry of a model: the meshes as they are loaded, and the block of
//! bytes that the model keeps of them.
//!
//! A number of a mesh is kept as the 32 bits that make it up. Nothing here
//! computes with the numbers; they are only laid out.

use vstd::prelude::*;

verus! {

/// How many 32-bit words a vertex takes: three of its position, two of its
/// texture coordinate, three of its normal.
pub const VERTEX_WORDS: usize = 8;

/// One mesh of a model.
#[derive(Clone, Debug, PartialEq, Eq)]
pub struct Mesh {
    /// The positions of the vertices, three numbers each.
    pub positions: Vec<u32>,
    /// The texture coordinates of the vertices, two numbers each.
    pub texcoords: Vec<u32>,
    /// The normals of the vertices, three numbers each.
    pub normals: Vec<u32>,
    /// The indices of the vertices of the triangles.
    pub indices: Vec<u32>,
}

impl Mesh {
    /// How many vertices the mesh has.
    pub open spec fn vertex_count(self) -> int {
        self.positions@.len() as int / 3
    }

    /// Whether the mesh has normals and texture coordinates, and has them
    /// for each of its vertices.
    pub open spec fn complete(self) -> bool {
        &&& self.normals@.len() > 0
        &&& self.texcoords@.len() > 0
        &&& self.texcoords@.len() >= 2 * self.vertex_count()
        &&& self.normals@.len() >= 3 * self.vertex_count()
    }

    /// The word at `k` of the vertices of the mesh: the vertices follow one
    /// another, each as its position, its texture coordinate and its normal.
    pub open spec fn vertex_word(self, k: int) -> u32 {
        let vertex = k / 8;
        let part = k % 8;
        if part < 3 {
            self.positions@[3 * vertex + part]
        } else if part < 5 {
            self.texcoords@[2 * vertex + (part - 3)]
        } else {
            self.normals@[3 * vertex + (part - 5)]
        }
    }

    /// The vertices of the mesh as words.
    pub open spec fn vertex_words(self) -> Seq<u32> {
        Seq::new((8 * self.vertex_count()) as nat, |k: int| self.vertex_word(k))
    }

    /// Whether the mesh is complete: see [`Mesh::complete`].
    pub fn is_complete(&self) -> (yes: bool)
        ensures
            yes == self.complete(),
    {
        let vertex_count = self.positions.len() / 3;
        self.normals.len() > 0 && self.texcoords.len() > 0 && self.texcoords.len() / 2
            >= vertex_count && self.normals.len() / 3 >= vertex_count
    }
}

/// The vertices of all meshes as words, mesh after mesh.
pub open spec fn all_vertex_words(meshes: Seq<Mesh>) -> Seq<u32>
    decreases meshes.len(),
{
    if meshes.len() == 0 {
        Seq::empty()
    } else {
        all_vertex_words(meshes.drop_last()) + meshes.last().vertex_words()
    }
}

/// The indices of all meshes, mesh after mesh, each as the mesh has it.
pub open spec fn all_indices(meshes: Seq<Mesh>) -> Seq<u32>
    decreases meshes.len(),
{
    if meshes.len() == 0 {
        Seq::empty()
    } else {
        all_indices(meshes.drop_last()) + meshes.last().indices@
    }
}

/// The byte at `place` of a word, the lowest first.
pub open spec fn word_byte(word: u32, place: int) -> u8 {
    if place == 0 {
        (word & 0xff) as u8
    } else if place == 1 {
        ((word >> 8) & 0xff) as u8
    } else if place == 2 {
        ((word >> 16) & 0xff) as u8
    } else {
        ((word >> 24) & 0xff) as u8
    }
}

/// The bytes of a sequence of words, four for each, the lowest first.
pub open spec fn word_bytes(words: Seq<u32>) -> Seq<u8> {
    Seq::new(4 * words.len(), |k: int| word_byte(words[k / 4], k % 4))
}

/// The bytes that a model keeps of its meshes: the vertices of all meshes,
/// then the indices of all meshes.
pub open spec fn model_bytes(meshes: Seq<Mesh>) -> Seq<u8> {
    word_bytes(all_vertex_words(meshes)) + word_bytes(all_indices(meshes))
}

/// Appends the bytes of `words` to `data`.
pub fn append_words(data: &mut Vec<u8>, words: &Vec<u32>)
    ensures
        final(data)@ == old(data)@ + word_bytes(words@),
{
    let ghost before = data@;
    let mut i: usize = 0;
    proof {
        assert(data@ =~= before + word_bytes(words@.take(0)));
    }
    while i < words.len()
        invariant
            i <= words@.len(),
            data@ == before + word_bytes(words@.take(i as int)),
        decreases words.len() - i,
    {
        let word = words[i];
        data.push((word & 0xff) as u8);
        data.push(((word >> 8) & 0xff) as u8);
        data.push(((word >> 16) & 0xff) as u8);
        data.push(((word >> 24) & 0xff) as u8);
        i += 1;
        proof {
            let now = words@.take(i as int);
            let prior = words@.take(i - 1);
            let want = before + word_bytes(now);
            assert(data@.len() == want.len());
            assert forall|m: int| 0 <= m < data@.len() implies #[trigger] data@[m] == want[m] by {
                let k = m - before.len();
                if k < 0 {
                } else if k < 4 * prior.len() {
                    assert(now[k / 4] == prior[k / 4]);
                    assert(data@[m] == (before + word_bytes(prior))[m]);
                } else {
                    assert(k / 4 == i - 1);
                    assert(now[k / 4] == word);
                }
            }
            assert(data@ =~= before + word_bytes(now));
        }
    }
    proof {
        assert(words@.take(i as int) =~= words@);
    }
}

/// Appends the vertices of a mesh to `words`.
pub fn append_vertices(words: &mut Vec<u32>, mesh: &Mesh)
    requires
        mesh.complete(),
    ensures
        final(words)@ == old(words)@ + mesh.vertex_words(),
{
    let ghost before = words@;
    let vertex_count = mesh.positions.len() / 3;
    let mut i: usize = 0;
    proof {
        assert(words@ =~= before + mesh.vertex_words().take(0));
    }
    while i < vertex_count
        invariant
            i <= vertex_count,
            vertex_count == mesh.vertex_count(),
            mesh.complete(),
            words@ == before + mesh.vertex_words().take(8 * i),
        decreases vertex_count - i,
    {
        assert(3 * i + 2 < mesh.positions.len());
        assert(2 * i + 1 < mesh.texcoords.len());
        assert(3 * i + 2 < mesh.normals.len());
        words.push(mesh.positions[i * 3]);
        words.push(mesh.positions[i * 3 + 1]);
        words.push(mesh.positions[i * 3 + 2]);
        words.push(mesh.texcoords[i * 2]);
        words.push(mesh.texcoords[i * 2 + 1]);
        words.push(mesh.normals[i * 3]);
        words.push(mesh.normals[i * 3 + 1]);
        words.push(mesh.normals[i * 3 + 2]);
        i += 1;
        proof {
            let all = mesh.vertex_words();
            let want = before + all.take(8 * i);
            assert(words@.len() == want.len());
            assert forall|m: int| 0 <= m < words@.len() implies #[trigger] words@[m] == want[m] by {
                let k = m - before.len();
                if k < 0 {
                } else if k < 8 * (i - 1) {
                    assert(words@[m] == (before + all.take(8 * (i - 1)))[m]);
                } else {
                    assert(k / 8 == i - 1);
                }
            }
            assert(words@ =~= before + all.take(8 * i));
        }
    }
    proof {
        assert(mesh.vertex_words().take(8 * i) =~= mesh.vertex_words());
    }
}

/// Lays out the meshes of a model: the vertices of all meshes in one block,
/// each vertex as its position, its texture coordinate and its normal; then
/// the indices of all meshes. Returns the bytes, and how many of them are
/// vertices.
pub fn merge_meshes(meshes: &Vec<Mesh>) -> (merged: (Vec<u8>, usize))
    requires
        forall|i: int| 0 <= i < meshes@.len() ==> (#[trigger] meshes@[i]).complete(),
    ensures
        merged.0@ == model_bytes(meshes@),
        merged.1 == word_bytes(all_vertex_words(meshes@)).len(),
{
    let mut all_vertices: Vec<u32> = Vec::new();
    let mut all_indexes: Vec<u32> = Vec::new();
    let mut i: usize = 0;
    proof {
        assert(meshes@.take(0) =~= Seq::<Mesh>::empty());
    }
    while i < meshes.len()
        invariant
            i <= meshes@.len(),
            forall|k: int| 0 <= k < meshes@.len() ==> (#[trigger] meshes@[k]).complete(),
            all_vertices@ == all_vertex_words(meshes@.take(i as int)),
            all_indexes@ == all_indices(meshes@.take(i as int)),
        decreases meshes.len() - i,
    {
        proof {
            assert(meshes@.take(i + 1).drop_last() =~= meshes@.take(i as int));
        }
        append_vertices(&mut all_vertices, &meshes[i]);
        let indices = &meshes[i].indices;
        let mut j: usize = 0;
        let ghost start = all_indexes@;
        proof {
            assert(all_indexes@ =~= start + indices@.take(0));
        }
        while j < indices.len()
            invariant
                j <= indices@.len(),
                all_indexes@ == start + indices@.take(j as int),
            decreases indices.len() - j,
        {
            all_indexes.push(indices[j]);
            j += 1;
            proof {
                assert(all_indexes@ =~= start + indices@.take(j as int));
            }
        }
        proof {
            assert(indices@.take(j as int) =~= indices@);
        }
        i += 1;
    }
    proof {
        assert(meshes@.take(i as int) =~= meshes@);
    }
    let mut data: Vec<u8> = Vec::new();
    append_words(&mut data, &all_vertices);
    let vertices_size = data.len();
    append_words(&mut data, &all_indexes);
    proof {
        assert(data@ =~= model_bytes(meshes@));
    }
    (data, vertices_size)
}

} // verus!
