//! Turning the corners of a triangle mesh into a vertex buffer without
//! repeated vertices and an index buffer into it.
//!
//! Coordinates are carried as the bit patterns of the 32-bit floating-point
//! numbers they stand for; two vertices are the same vertex exactly when all
//! their bit patterns agree.

use vstd::prelude::*;

verus! {

/// The bit pattern of the number one.
pub const ONE: u32 = 0x3f80_0000;

/// A vertex: position, color and texture coordinate.
#[derive(Clone, Copy, Debug, PartialEq, Eq, Hash)]
pub struct Vertex {
    pub pos: (u32, u32, u32),
    pub color: (u32, u32, u32),
    pub tex_coord: (u32, u32),
}

/// A triangle mesh as read from a model file.
#[derive(Clone, Debug)]
pub struct Mesh {
    /// Three coordinates for each point of the mesh.
    pub positions: Vec<u32>,
    /// Two texture coordinates for each point of the mesh, the second
    /// measured downward from the top edge of the texture.
    pub texcoords: Vec<u32>,
    /// For each corner of each triangle, the point it lies on.
    pub indices: Vec<u32>,
}

/// Vertices and the indices that make triangles of them.
#[derive(Clone, Debug)]
pub struct Model {
    pub vertices: Vec<Vertex>,
    pub indices: Vec<u32>,
}

/// Why a model cannot be built.
#[derive(Clone, Copy, Debug, PartialEq, Eq)]
pub enum MeshError {
    /// A corner names a point for which the mesh has no position or no
    /// texture coordinate.
    IndexOutOfRange,
    /// There are more distinct vertices than a 32-bit index can tell apart.
    TooManyVertices,
}

/// The mesh has a position and a texture coordinate for the point.
pub open spec fn point_exists(mesh: Mesh, point: u32) -> bool {
    3 * point + 2 < mesh.positions.len() && 2 * point + 1 < mesh.texcoords.len()
}

/// The vertex at a point of the mesh. Every vertex is white.
pub open spec fn vertex_at(mesh: Mesh, point: u32) -> Vertex {
    Vertex {
        pos: (
            mesh.positions@[3 * point],
            mesh.positions@[3 * point + 1],
            mesh.positions@[3 * point + 2],
        ),
        color: (ONE, ONE, ONE),
        tex_coord: (mesh.texcoords@[2 * point], mesh.texcoords@[2 * point + 1]),
    }
}

/// Every corner of the mesh names a point that exists.
pub open spec fn mesh_valid(mesh: Mesh) -> bool {
    forall|k: int| 0 <= k < mesh.indices@.len() ==> point_exists(mesh, #[trigger] mesh.indices@[k])
}

/// Every mesh is valid.
pub open spec fn meshes_valid(meshes: Seq<Mesh>) -> bool {
    forall|m: int| 0 <= m < meshes.len() ==> mesh_valid(#[trigger] meshes[m])
}

/// The vertices at the corners of a mesh, corner by corner.
pub open spec fn mesh_corners(mesh: Mesh) -> Seq<Vertex> {
    Seq::new(mesh.indices@.len(), |k: int| vertex_at(mesh, mesh.indices@[k]))
}

/// The vertices at the corners of all meshes, mesh by mesh.
pub open spec fn corners(meshes: Seq<Mesh>) -> Seq<Vertex>
    decreases meshes.len(),
{
    if meshes.len() == 0 {
        Seq::empty()
    } else {
        corners(meshes.drop_last()) + mesh_corners(meshes.last())
    }
}

/// The distinct vertices of a sequence, each at the place of its first
/// occurrence.
pub open spec fn unique(vertices: Seq<Vertex>) -> Seq<Vertex>
    decreases vertices.len(),
{
    if vertices.len() == 0 {
        Seq::empty()
    } else {
        let front = unique(vertices.drop_last());
        if front.contains(vertices.last()) {
            front
        } else {
            front.push(vertices.last())
        }
    }
}

/// `unique` keeps every vertex that occurs, keeps nothing else, and keeps
/// nothing twice.
pub proof fn lemma_unique(vertices: Seq<Vertex>)
    ensures
        unique(vertices).no_duplicates(),
        unique(vertices).len() <= vertices.len(),
        forall|v: Vertex| unique(vertices).contains(v) <==> vertices.contains(v),
    decreases vertices.len(),
{
    if vertices.len() > 0 {
        let front = vertices.drop_last();
        let last = vertices.last();
        lemma_unique(front);
        assert forall|v: Vertex| unique(vertices).contains(v) <==> vertices.contains(v) by {
            assert(unique(front).contains(v) <==> front.contains(v));
            if vertices.contains(v) {
                let i = vertices.index_of(v);
                if i < front.len() {
                    assert(front[i] == v);
                }
                if unique(front).contains(v) {
                    let j = unique(front).index_of(v);
                    assert(unique(vertices)[j] == v);
                } else {
                    assert(unique(vertices)[unique(front).len() as int] == v);
                }
            }
            if unique(vertices).contains(v) {
                let j = unique(vertices).index_of(v);
                if j < unique(front).len() {
                    assert(unique(front)[j] == v);
                    let i = front.index_of(v);
                    assert(vertices[i] == v);
                } else {
                    assert(vertices[vertices.len() - 1] == v);
                }
            }
        }
    }
}

/// Adding vertices never removes a distinct vertex: what was found in a
/// part of the corners is found, in the same place, in the whole.
pub proof fn lemma_unique_grows(front: Seq<Vertex>, back: Seq<Vertex>)
    ensures
        unique(front).len() <= unique(front + back).len(),
        unique(front) =~= unique(front + back).take(unique(front).len() as int),
    decreases back.len(),
{
    if back.len() == 0 {
        assert(front + back =~= front);
    } else {
        lemma_unique_grows(front, back.drop_last());
        assert((front + back).drop_last() =~= front + back.drop_last());
    }
}

fn check_mesh(mesh: &Mesh) -> (valid: bool)
    ensures
        valid == mesh_valid(*mesh),
{
    let positions = mesh.positions.len() as u64;
    let texcoords = mesh.texcoords.len() as u64;
    let mut k: usize = 0;
    while k < mesh.indices.len()
        invariant
            k <= mesh.indices.len(),
            positions == mesh.positions@.len(),
            texcoords == mesh.texcoords@.len(),
            forall|j: int| 0 <= j < k ==> point_exists(*mesh, #[trigger] mesh.indices@[j]),
        decreases mesh.indices.len() - k,
    {
        let point = mesh.indices[k] as u64;
        if 3 * point + 2 >= positions || 2 * point + 1 >= texcoords {
            return false;
        }
        k += 1;
    }
    true
}

fn check_meshes(meshes: &Vec<Mesh>) -> (valid: bool)
    ensures
        valid == meshes_valid(meshes@),
{
    let mut m: usize = 0;
    while m < meshes.len()
        invariant
            m <= meshes.len(),
            forall|j: int| 0 <= j < m ==> mesh_valid(#[trigger] meshes@[j]),
        decreases meshes.len() - m,
    {
        if !check_mesh(&meshes[m]) {
            return false;
        }
        m += 1;
    }
    true
}

fn read_vertex(mesh: &Mesh, point: u32) -> (vertex: Vertex)
    requires
        point_exists(*mesh, point),
    ensures
        vertex == vertex_at(*mesh, point),
{
    let p = 3 * (point as usize);
    let t = 2 * (point as usize);
    Vertex {
        pos: (mesh.positions[p], mesh.positions[p + 1], mesh.positions[p + 2]),
        color: (ONE, ONE, ONE),
        tex_coord: (mesh.texcoords[t], mesh.texcoords[t + 1]),
    }
}

fn same_vertex(a: &Vertex, b: &Vertex) -> (same: bool)
    ensures
        same == (*a == *b),
{
    a.pos.0 == b.pos.0 && a.pos.1 == b.pos.1 && a.pos.2 == b.pos.2 && a.color.0 == b.color.0
        && a.color.1 == b.color.1 && a.color.2 == b.color.2 && a.tex_coord.0 == b.tex_coord.0
        && a.tex_coord.1 == b.tex_coord.1
}

fn find_vertex(vertices: &Vec<Vertex>, vertex: &Vertex) -> (found: Option<usize>)
    ensures
        found matches Some(i) ==> i < vertices.len() && vertices[i as int] == *vertex,
        found is None ==> !vertices@.contains(*vertex),
{
    let mut i: usize = 0;
    while i < vertices.len()
        invariant
            i <= vertices.len(),
            forall|k: int| 0 <= k < i ==> vertices[k] != *vertex,
        decreases vertices.len() - i,
    {
        if same_vertex(&vertices[i], vertex) {
            return Some(i);
        }
        i += 1;
    }
    None
}

/// What a model must be for the given corners: its vertices are the
/// distinct corners in the order of their first occurrence, and its
/// indices say, corner by corner, where the corner's vertex stands.
pub open spec fn models(model: Model, all: Seq<Vertex>) -> bool {
    &&& model.vertices@ == unique(all)
    &&& model.indices@.len() == all.len()
    &&& forall|k: int|
        0 <= k < all.len() ==> (#[trigger] model.indices@[k]) < model.vertices@.len()
            && model.vertices@[model.indices@[k] as int] == all[k]
}

/// Builds the vertex and index buffers of the given meshes. Fails exactly
/// when a corner names a point that its mesh does not have, or, failing
/// that, when there are too many distinct vertices for 32-bit indices.
pub fn load_model(meshes: &Vec<Mesh>) -> (r: Result<Model, MeshError>)
    ensures
        r matches Ok(model) ==> models(model, corners(meshes@)),
        r is Ok <==> meshes_valid(meshes@) && unique(corners(meshes@)).len() <= u32::MAX + 1,
        r matches Err(e) ==> e == if meshes_valid(meshes@) {
            MeshError::TooManyVertices
        } else {
            MeshError::IndexOutOfRange
        },
{
    if !check_meshes(meshes) {
        return Err(MeshError::IndexOutOfRange);
    }
    let mut model = Model { vertices: Vec::new(), indices: Vec::new() };
    let mut m: usize = 0;
    while m < meshes.len()
        invariant
            m <= meshes.len(),
            meshes_valid(meshes@),
            models(model, corners(meshes@.take(m as int))),
            model.vertices@.len() <= u32::MAX + 1,
        decreases meshes.len() - m,
    {
        let mesh = &meshes[m];
        let ghost before = corners(meshes@.take(m as int));
        let mut k: usize = 0;
        while k < mesh.indices.len()
            invariant
                m < meshes.len(),
                meshes_valid(meshes@),
                *mesh == meshes@[m as int],
                mesh_valid(*mesh),
                k <= mesh.indices.len(),
                before == corners(meshes@.take(m as int)),
                models(model, before + mesh_corners(*mesh).take(k as int)),
                model.vertices@.len() <= u32::MAX + 1,
            decreases mesh.indices.len() - k,
        {
            let ghost seen = before + mesh_corners(*mesh).take(k as int);
            let vertex = read_vertex(mesh, mesh.indices[k]);
            proof {
                let next = before + mesh_corners(*mesh).take(k + 1);
                assert(next =~= seen.push(vertex));
                assert(next.drop_last() =~= seen);
            }
            match find_vertex(&model.vertices, &vertex) {
                Some(i) => {
                    model.indices.push(i as u32);
                },
                None => {
                    let i = model.vertices.len();
                    if i > u32::MAX as usize {
                        proof {
                            let next = seen.push(vertex);
                            let rest = mesh_corners(*mesh).skip(k + 1);
                            let tail = corners(meshes@.skip(m + 1));
                            lemma_corners_split(meshes@, m as int);
                            assert(corners(meshes@) =~= next + (rest + tail)) by {
                                assert(mesh_corners(*mesh) =~= mesh_corners(*mesh).take(k + 1)
                                    + rest);
                            }
                            lemma_unique_grows(next, rest + tail);
                        }
                        return Err(MeshError::TooManyVertices);
                    }
                    model.indices.push(i as u32);
                    model.vertices.push(vertex);
                },
            }
            k += 1;
        }
        proof {
            assert(mesh_corners(*mesh).take(k as int) =~= mesh_corners(*mesh));
            assert(meshes@.take(m + 1).drop_last() =~= meshes@.take(m as int));
        }
        m += 1;
    }
    assert(meshes@.take(m as int) =~= meshes@);
    Ok(model)
}

/// The corners of a list of meshes are the corners of the meshes before
/// one of them, then its own, then those of the meshes after it.
pub proof fn lemma_corners_split(meshes: Seq<Mesh>, m: int)
    requires
        0 <= m < meshes.len(),
    ensures
        corners(meshes) =~= corners(meshes.take(m)) + (mesh_corners(meshes[m]) + corners(
            meshes.skip(m + 1),
        )),
    decreases meshes.len(),
{
    let front = meshes.drop_last();
    if m == meshes.len() - 1 {
        assert(meshes.take(m) =~= front);
        assert(meshes.skip(m + 1) =~= Seq::<Mesh>::empty());
    } else {
        lemma_corners_split(front, m);
        assert(front.take(m) =~= meshes.take(m));
        assert(meshes.skip(m + 1).drop_last() =~= front.skip(m + 1));
        assert(meshes.skip(m + 1).last() == meshes.last());
    }
}

} // verus!
