//! Geometry: vertices, their layout in a buffer, meshes and their upload.

use crate::bytes::{lemma_word_at, lemma_word_bytes_concat, word_at, word_bytes, words_to_bytes};
use vstd::endian::{endianness, Endian};
use vstd::prelude::*;
use vstd::string::*;

verus! {

/// One corner of a mesh: a position and a colour of three components each.
///
/// A component is stored as the bit pattern of an IEEE 754 single-precision
/// number, which is what the device reads from the vertex buffer.
#[derive(Clone, Copy, Debug, Default, PartialEq, Eq)]
pub struct Vertex {
    pub position: [u32; 3],
    pub color: [u32; 3],
}

/// The type of one vertex attribute.
#[derive(Clone, Copy, Debug, PartialEq, Eq, Structural)]
pub enum VertexFormat {
    Float32,
    Float32x2,
    Float32x3,
    Float32x4,
}

/// Whether a vertex buffer advances once per vertex or once per instance.
#[derive(Clone, Copy, Debug, PartialEq, Eq, Structural)]
pub enum VertexStepMode {
    Vertex,
    Instance,
}

/// One attribute of a vertex record: its type, where it starts in the
/// record, and the shader input it feeds.
#[derive(Clone, Copy, Debug, PartialEq, Eq, Structural)]
pub struct VertexAttribute {
    pub format: VertexFormat,
    pub offset: u64,
    pub shader_location: u32,
}

/// How the records of a vertex buffer are laid out.
#[derive(Debug, PartialEq, Eq)]
pub struct VertexBufferLayout {
    pub array_stride: u64,
    pub step_mode: VertexStepMode,
    pub attributes: Vec<VertexAttribute>,
}

impl VertexFormat {
    /// The number of bytes that an attribute of this type occupies.
    pub open spec fn spec_size(self) -> nat {
        match self {
            VertexFormat::Float32 => 4,
            VertexFormat::Float32x2 => 8,
            VertexFormat::Float32x3 => 12,
            VertexFormat::Float32x4 => 16,
        }
    }

    /// The number of bytes that an attribute of this type occupies.
    pub fn size(self) -> (n: u64)
        ensures
            n == self.spec_size(),
    {
        match self {
            VertexFormat::Float32 => 4,
            VertexFormat::Float32x2 => 8,
            VertexFormat::Float32x3 => 12,
            VertexFormat::Float32x4 => 16,
        }
    }
}

/// The number of bytes that the first `n` attributes occupy together.
pub open spec fn size_before(attributes: Seq<VertexAttribute>, n: int) -> nat
    decreases n,
{
    if n <= 0 {
        0
    } else {
        size_before(attributes, n - 1) + attributes[n - 1].format.spec_size()
    }
}

/// The attributes lie back to back from byte 0, in order, and fill the
/// record exactly.
pub open spec fn packed(array_stride: u64, attributes: Seq<VertexAttribute>) -> bool {
    &&& forall|i: int|
        0 <= i < attributes.len() ==> (#[trigger] attributes[i]).offset == size_before(
            attributes,
            i,
        )
    &&& array_stride == size_before(attributes, attributes.len() as int)
}

impl VertexBufferLayout {
    /// The layout is that of a buffer of vertices: one record of 24 bytes
    /// per vertex, holding the attributes of a vertex.
    pub open spec fn describes_vertices(self) -> bool {
        &&& self.array_stride == 24
        &&& self.step_mode == VertexStepMode::Vertex
        &&& self.attributes@ == Vertex::attributes()
    }
}

impl Vertex {
    /// The six words of the record in buffer order: position, then colour.
    pub open spec fn words(self) -> Seq<u32> {
        self.position@ + self.color@
    }

    /// The attributes of a vertex record: the position at shader input 0 and
    /// the colour at shader input 1, three single-precision numbers each.
    pub open spec fn attributes() -> Seq<VertexAttribute> {
        seq![
            VertexAttribute { format: VertexFormat::Float32x3, offset: 0, shader_location: 0 },
            VertexAttribute { format: VertexFormat::Float32x3, offset: 12, shader_location: 1 },
        ]
    }

    /// The layout of a buffer of vertices: one record of 24 bytes per vertex,
    /// the position at byte 0 and the colour at byte 12.
    pub fn desc() -> (layout: VertexBufferLayout)
        ensures
            layout.describes_vertices(),
    {
        let attributes = vec![
            VertexAttribute { format: VertexFormat::Float32x3, offset: 0, shader_location: 0 },
            VertexAttribute { format: VertexFormat::Float32x3, offset: 12, shader_location: 1 },
        ];
        assert(attributes@ =~= Vertex::attributes());
        VertexBufferLayout { array_stride: 24, step_mode: VertexStepMode::Vertex, attributes }
    }

    /// The layout that `desc` gives leaves no gap and no overlap: the
    /// attributes follow one another from byte 0 and end at the stride.
    pub proof fn lemma_layout_packed()
        ensures
            packed(24, Vertex::attributes()),
    {
        let a = Vertex::attributes();
        reveal_with_fuel(size_before, 3);
        assert(size_before(a, 0) == 0);
        assert(size_before(a, 1) == 12);
        assert(size_before(a, 2) == 24);
    }

    /// The record of a vertex in memory is what the layout says: 24 bytes,
    /// of which the first 12 are the position and the last 12 the colour.
    pub proof fn lemma_record_bytes(self, endian: Endian)
        ensures
            word_bytes(endian, self.words()).len() == 24,
            word_bytes(endian, self.words()).subrange(0, 12) == word_bytes(endian, self.position@),
            word_bytes(endian, self.words()).subrange(12, 24) == word_bytes(endian, self.color@),
    {
        lemma_word_bytes_concat(endian, self.position@, self.color@);
        let p = word_bytes(endian, self.position@);
        let c = word_bytes(endian, self.color@);
        assert((p + c).subrange(0, 12) =~= p);
        assert((p + c).subrange(12, 24) =~= c);
    }
}

/// The words of a sequence of vertices in buffer order: six per vertex.
pub open spec fn vertex_words(verts: Seq<Vertex>) -> Seq<u32> {
    Seq::new(6 * verts.len(), |i: int| verts[i / 6].words()[i % 6])
}

/// In a vertex buffer the record of vertex `i` starts at byte `24 * i`.
pub proof fn lemma_vertex_record(endian: Endian, verts: Seq<Vertex>, i: int)
    requires
        0 <= i < verts.len(),
    ensures
        word_bytes(endian, vertex_words(verts)).len() == 24 * verts.len(),
        word_bytes(endian, vertex_words(verts)).subrange(24 * i, 24 * i + 24) == word_bytes(
            endian,
            verts[i].words(),
        ),
{
    let all = word_bytes(endian, vertex_words(verts));
    let one = word_bytes(endian, verts[i].words());
    let part = all.subrange(24 * i, 24 * i + 24);
    assert(part.len() == one.len());
    assert forall|k: int| 0 <= k < 24 implies part[k] == one[k] by {
        let j = 24 * i + k;
        assert(j / 4 == 6 * i + k / 4);
        assert(j % 4 == k % 4);
        assert((6 * i + k / 4) / 6 == i);
        assert((6 * i + k / 4) % 6 == k / 4);
        assert(vertex_words(verts)[j / 4] == verts[i].words()[k / 4]);
    }
    assert(part =~= one);
}

/// Lays the vertices out as words, six per vertex.
fn flatten(verts: &Vec<Vertex>) -> (words: Vec<u32>)
    ensures
        words@ == vertex_words(verts@),
{
    let mut words: Vec<u32> = Vec::new();
    let mut i: usize = 0;
    while i < verts.len()
        invariant
            i <= verts.len(),
            words@ == vertex_words(verts@.take(i as int)),
        decreases verts.len() - i,
    {
        let v = verts[i];
        let ghost before = words@;
        words.push(v.position[0]);
        words.push(v.position[1]);
        words.push(v.position[2]);
        words.push(v.color[0]);
        words.push(v.color[1]);
        words.push(v.color[2]);
        proof {
            let next = vertex_words(verts@.take(i + 1));
            assert(words@.len() == next.len());
            assert forall|k: int| 0 <= k < next.len() implies words@[k] == next[k] by {
                if k < 6 * i {
                    assert(verts@.take(i + 1)[k / 6] == verts@.take(i as int)[k / 6]);
                    assert(words@[k] == before[k]);
                } else {
                    assert(k / 6 == i);
                    assert(verts@.take(i + 1)[k / 6] == v);
                }
            }
            assert(words@ =~= next);
        }
        i += 1;
    }
    assert(verts@.take(i as int) =~= verts@);
    words
}

/// How a mesh names the vertices to draw.
#[derive(Debug, PartialEq, Eq)]
pub enum Indexing {
    /// The vertices are drawn in the order of these indices.
    Index(Vec<u32>),
    /// The vertices are drawn once each, in the order they are declared.
    Count(u32),
}

/// What an `Indexing` holds.
pub enum IndexingView {
    Index(Seq<u32>),
    Count(u32),
}

impl View for Indexing {
    type V = IndexingView;

    open spec fn view(&self) -> IndexingView {
        match self {
            Indexing::Index(indices) => IndexingView::Index(indices@),
            Indexing::Count(count) => IndexingView::Count(*count),
        }
    }
}

/// What a buffer is used for.
#[derive(Clone, Copy, Debug, PartialEq, Eq, Structural)]
pub enum BufferUsage {
    Vertex,
    Index,
}

/// A device buffer to be created: its label, the bytes it starts out with,
/// and its use.
#[derive(Debug, PartialEq, Eq)]
pub struct Buffer {
    pub label: String,
    pub contents: Vec<u8>,
    pub usage: BufferUsage,
}

/// What a `Buffer` holds.
pub struct BufferView {
    pub label: Seq<char>,
    pub contents: Seq<u8>,
    pub usage: BufferUsage,
}

impl View for Buffer {
    type V = BufferView;

    open spec fn view(&self) -> BufferView {
        BufferView { label: self.label@, contents: self.contents@, usage: self.usage }
    }
}

/// What a buffer that may be absent holds.
pub open spec fn optional_view(buffer: Option<Buffer>) -> Option<BufferView> {
    match buffer {
        Some(b) => Some(b@),
        None => None,
    }
}

/// What a `Mesh` holds.
pub struct MeshView {
    pub name: Seq<char>,
    pub verts: Seq<Vertex>,
    pub index: IndexingView,
}

impl MeshView {
    /// A mesh has at least one vertex; every index names one of its
    /// vertices; a bare count is the number of its vertices; and both the
    /// vertices and the indices can be counted in 32 bits.
    pub open spec fn wf(self) -> bool {
        &&& 0 < self.verts.len() <= u32::MAX
        &&& match self.index {
            IndexingView::Index(indices) => {
                &&& indices.len() <= u32::MAX
                &&& forall|i: int|
                    0 <= i < indices.len() ==> (#[trigger] indices[i]) < self.verts.len()
            },
            IndexingView::Count(count) => count == self.verts.len(),
        }
    }

    /// The number of vertices that the pipeline processes for the mesh: the
    /// number of indices where it has indices, else the number of vertices.
    pub open spec fn effective_count(self) -> nat {
        match self.index {
            IndexingView::Index(indices) => indices.len(),
            IndexingView::Count(_) => self.verts.len(),
        }
    }

    /// The vertex buffer of the mesh, written on a machine of the given
    /// byte order.
    pub open spec fn vertex_buffer(self, endian: Endian) -> BufferView {
        BufferView {
            label: self.name,
            contents: word_bytes(endian, vertex_words(self.verts)),
            usage: BufferUsage::Vertex,
        }
    }

    /// The index buffer of the mesh, if it has indices, written on a machine
    /// of the given byte order.
    pub open spec fn index_buffer(self, endian: Endian) -> Option<BufferView> {
        match self.index {
            IndexingView::Index(indices) => Some(
                BufferView {
                    label: self.name + "_indeces"@,
                    contents: word_bytes(endian, indices),
                    usage: BufferUsage::Index,
                },
            ),
            IndexingView::Count(_) => None,
        }
    }
}

/// The effective count of a mesh is the number of its indices where it has
/// indices, else the number of its vertices, which is the bare count that
/// the mesh holds.
pub proof fn lemma_effective_count(mesh: MeshView)
    requires
        mesh.wf(),
    ensures
        mesh.index matches IndexingView::Index(indices) ==> mesh.effective_count()
            == indices.len(),
        mesh.index matches IndexingView::Count(count) ==> mesh.effective_count()
            == mesh.verts.len() && mesh.effective_count() == count,
        mesh.effective_count() <= u32::MAX,
{
}

/// Why a mesh cannot be made of the parts given.
#[derive(Clone, Copy, Debug, PartialEq, Eq, Structural)]
pub enum MeshError {
    /// There is no vertex.
    NoVertices,
    /// There are more vertices than 32 bits can count.
    TooManyVertices,
    /// There are more indices than 32 bits can count.
    TooManyIndices,
    /// The index at this place names no vertex.
    IndexOutOfRange(usize),
    /// The bare count is not the number of vertices.
    CountMismatch,
}

/// The first place in `indices` whose index names no vertex among `len`.
pub open spec fn first_bad_index(indices: Seq<u32>, len: nat, at: int) -> bool {
    &&& 0 <= at < indices.len()
    &&& indices[at] >= len
    &&& forall|i: int| 0 <= i < at ==> (#[trigger] indices[i]) < len
}

/// The error, if any, that keeps the parts from being a mesh. Where more
/// than one thing is wrong, the first in the order of `MeshError` is named.
pub open spec fn mesh_error(verts: Seq<Vertex>, index: IndexingView) -> Option<MeshError> {
    if verts.len() == 0 {
        Some(MeshError::NoVertices)
    } else if verts.len() > u32::MAX {
        Some(MeshError::TooManyVertices)
    } else {
        match index {
            IndexingView::Index(indices) => {
                if indices.len() > u32::MAX {
                    Some(MeshError::TooManyIndices)
                } else if exists|at: int| first_bad_index(indices, verts.len(), at) {
                    Some(
                        MeshError::IndexOutOfRange(
                            (choose|at: int| first_bad_index(indices, verts.len(), at)) as usize,
                        ),
                    )
                } else {
                    None
                }
            },
            IndexingView::Count(count) => {
                if count != verts.len() {
                    Some(MeshError::CountMismatch)
                } else {
                    None
                }
            },
        }
    }
}

/// Where some index names no vertex, there is a first such index.
proof fn lemma_first_bad_index(indices: Seq<u32>, len: nat, k: int)
    requires
        0 <= k < indices.len(),
        indices[k] >= len,
    ensures
        exists|at: int| first_bad_index(indices, len, at),
    decreases k,
{
    if forall|i: int| 0 <= i < k ==> (#[trigger] indices[i]) < len {
        assert(first_bad_index(indices, len, k));
    } else {
        let j = choose|i: int| 0 <= i < k && (#[trigger] indices[i]) >= len;
        lemma_first_bad_index(indices, len, j);
    }
}

/// Parts are free of error exactly where they are the parts of a mesh.
pub proof fn lemma_mesh_error(name: Seq<char>, verts: Seq<Vertex>, index: IndexingView)
    ensures
        mesh_error(verts, index) is None <==> (MeshView { name, verts, index }).wf(),
{
    if let IndexingView::Index(indices) = index {
        if exists|at: int| first_bad_index(indices, verts.len(), at) {
            let at = choose|at: int| first_bad_index(indices, verts.len(), at);
            assert(indices[at] >= verts.len());
        } else {
            assert forall|i: int| 0 <= i < indices.len() implies (#[trigger] indices[i])
                < verts.len() by {
                if indices[i] >= verts.len() {
                    lemma_first_bad_index(indices, verts.len(), i);
                }
            }
        }
    }
}

/// Looks for the first index that names no vertex among `len`.
fn find_bad_index(indices: &Vec<u32>, len: usize) -> (found: Option<usize>)
    ensures
        match found {
            Some(at) => first_bad_index(indices@, len as nat, at as int),
            None => forall|i: int| 0 <= i < indices.len() ==> (#[trigger] indices[i]) < len,
        },
{
    let mut i: usize = 0;
    while i < indices.len()
        invariant
            i <= indices.len(),
            forall|k: int| 0 <= k < i ==> (#[trigger] indices[k]) < len,
        decreases indices.len() - i,
    {
        if indices[i] as usize >= len {
            return Some(i);
        }
        i += 1;
    }
    None
}

/// A named shape: its vertices and how they are drawn.
#[derive(Debug)]
pub struct Mesh {
    name: String,
    verts: Vec<Vertex>,
    index: Indexing,
}

impl View for Mesh {
    type V = MeshView;

    closed spec fn view(&self) -> MeshView {
        MeshView { name: self.name@, verts: self.verts@, index: self.index@ }
    }
}

impl Mesh {
    #[verifier::type_invariant]
    spec fn inv(self) -> bool {
        self@.wf()
    }

    /// The vertices of the triangle.
    pub open spec fn triangle_vertices() -> Seq<Vertex> {
        seq![
            Vertex { position: [0, 0x3f00_0000, 0], color: [0x3f80_0000, 0, 0x3f80_0000] },
            Vertex { position: [0xbf00_0000, 0xbf00_0000, 0], color: [0, 0x3f80_0000, 0] },
            Vertex { position: [0x3f00_0000, 0xbf00_0000, 0], color: [0, 0, 0x3f80_0000] },
        ]
    }

    /// The vertices of the pentagon.
    pub open spec fn pentagon_vertices() -> Seq<Vertex> {
        seq![
            Vertex {
                position: [0xbdb1_d0d5, 0x3efc_1c5c, 0],
                color: [0x3f00_0000, 0x3f66_6666, 0x3dcc_cccd],
            },
            Vertex {
                position: [0xbefd_8236, 0x3d8e_835a, 0],
                color: [0x3f00_0000, 0x3dcc_cccd, 0x3e4c_cccd],
            },
            Vertex {
                position: [0xbe60_7229, 0xbee6_175f, 0],
                color: [0x3f00_0000, 0x3f4c_cccd, 0x3e99_999a],
            },
            Vertex {
                position: [0x3eb8_26aa, 0xbeb1_d51f, 0],
                color: [0x3f00_0000, 0x3e4c_cccd, 0x3ecc_cccd],
            },
            Vertex {
                position: [0x3ee2_08d8, 0x3e70_5e9c, 0],
                color: [0x3f00_0000, 0x3f19_999a, 0x3f00_0000],
            },
        ]
    }

    /// The indices of the pentagon.
    pub open spec fn pentagon_indices() -> Seq<u32> {
        seq![0, 1, 4, 1, 2, 4, 2, 3, 4, 0]
    }

    /// What the triangle holds.
    pub open spec fn triangle_view() -> MeshView {
        MeshView {
            name: "Triangle"@,
            verts: Mesh::triangle_vertices(),
            index: IndexingView::Count(3),
        }
    }

    /// What the pentagon holds.
    pub open spec fn pentagon_view() -> MeshView {
        MeshView {
            name: "PENTAGON"@,
            verts: Mesh::pentagon_vertices(),
            index: IndexingView::Index(Mesh::pentagon_indices()),
        }
    }

    /// Makes a mesh of the parts given, if they are the parts of a mesh.
    pub fn new(name: String, verts: Vec<Vertex>, index: Indexing) -> (made: Result<Mesh, MeshError>)
        ensures
            match made {
                Ok(mesh) => {
                    &&& mesh_error(verts@, index@) is None
                    &&& mesh@ == MeshView { name: name@, verts: verts@, index: index@ }
                    &&& mesh@.wf()
                },
                Err(error) => mesh_error(verts@, index@) == Some(error),
            },
    {
        if verts.len() == 0 {
            return Err(MeshError::NoVertices);
        }
        if verts.len() > u32::MAX as usize {
            return Err(MeshError::TooManyVertices);
        }
        match &index {
            Indexing::Index(indices) => {
                if indices.len() > u32::MAX as usize {
                    return Err(MeshError::TooManyIndices);
                }
                match find_bad_index(indices, verts.len()) {
                    Some(at) => {
                        proof {
                            let n = verts@.len();
                            let chosen = choose|c: int| first_bad_index(indices@, n, c);
                            assert(first_bad_index(indices@, n, at as int));
                            assert(first_bad_index(indices@, n, chosen));
                            assert(chosen == at) by {
                                if chosen < at {
                                    assert(indices@[chosen] < n);
                                }
                                if at < chosen {
                                    assert(indices@[at as int] < n);
                                }
                            }
                        }
                        return Err(MeshError::IndexOutOfRange(at));
                    },
                    None => {},
                }
            },
            Indexing::Count(count) => {
                if *count as usize != verts.len() {
                    return Err(MeshError::CountMismatch);
                }
            },
        }
        Ok(Mesh { name, verts, index })
    }

    /// The triangle: three vertices, drawn in order.
    pub fn triangle() -> (mesh: Mesh)
        ensures
            mesh@ == Mesh::triangle_view(),
            mesh@.wf(),
    {
        let verts = vec![
            Vertex { position: [0, 0x3f00_0000, 0], color: [0x3f80_0000, 0, 0x3f80_0000] },
            Vertex { position: [0xbf00_0000, 0xbf00_0000, 0], color: [0, 0x3f80_0000, 0] },
            Vertex { position: [0x3f00_0000, 0xbf00_0000, 0], color: [0, 0, 0x3f80_0000] },
        ];
        assert(verts@ =~= Mesh::triangle_vertices());
        Mesh { name: String::from_str("Triangle"), verts, index: Indexing::Count(3) }
    }

    /// The pentagon: five vertices, drawn by ten indices.
    pub fn pentagon() -> (mesh: Mesh)
        ensures
            mesh@ == Mesh::pentagon_view(),
            mesh@.wf(),
    {
        let verts = vec![
            Vertex {
                position: [0xbdb1_d0d5, 0x3efc_1c5c, 0],
                color: [0x3f00_0000, 0x3f66_6666, 0x3dcc_cccd],
            },
            Vertex {
                position: [0xbefd_8236, 0x3d8e_835a, 0],
                color: [0x3f00_0000, 0x3dcc_cccd, 0x3e4c_cccd],
            },
            Vertex {
                position: [0xbe60_7229, 0xbee6_175f, 0],
                color: [0x3f00_0000, 0x3f4c_cccd, 0x3e99_999a],
            },
            Vertex {
                position: [0x3eb8_26aa, 0xbeb1_d51f, 0],
                color: [0x3f00_0000, 0x3e4c_cccd, 0x3ecc_cccd],
            },
            Vertex {
                position: [0x3ee2_08d8, 0x3e70_5e9c, 0],
                color: [0x3f00_0000, 0x3f19_999a, 0x3f00_0000],
            },
        ];
        let indices: Vec<u32> = vec![0, 1, 4, 1, 2, 4, 2, 3, 4, 0];
        assert(verts@ =~= Mesh::pentagon_vertices());
        assert(indices@ =~= Mesh::pentagon_indices());
        Mesh { name: String::from_str("PENTAGON"), verts, index: Indexing::Index(indices) }
    }

    /// The name of the mesh.
    pub fn name(&self) -> (name: &String)
        ensures
            name@ == self@.name,
    {
        &self.name
    }

    /// The vertices of the mesh, in the order they were declared.
    pub fn verts(&self) -> (verts: &Vec<Vertex>)
        ensures
            verts@ == self@.verts,
    {
        &self.verts
    }

    /// How the vertices of the mesh are drawn.
    pub fn index(&self) -> (index: &Indexing)
        ensures
            index@ == self@.index,
    {
        &self.index
    }

    /// The number of vertices that the pipeline processes for the mesh: the
    /// number of indices where it has indices, else the number of vertices.
    pub fn count(&self) -> (count: u32)
        ensures
            count == self@.effective_count(),
            self@.wf(),
    {
        proof {
            use_type_invariant(self);
        }
        match &self.index {
            Indexing::Index(indices) => indices.len() as u32,
            Indexing::Count(count) => *count,
        }
    }

    /// The vertex buffer of the mesh: labelled with its name, holding the
    /// records of its vertices in order.
    pub fn to_vertex_buffer(&self) -> (buffer: Buffer)
        ensures
            buffer@ == self@.vertex_buffer(endianness()),
    {
        let words = flatten(&self.verts);
        Buffer {
            label: self.name.clone(),
            contents: words_to_bytes(&words),
            usage: BufferUsage::Vertex,
        }
    }

    /// The index buffer of the mesh, which a mesh has if and only if it has
    /// indices: labelled with the name of the mesh and `_indeces`, holding
    /// the indices in order.
    pub fn to_index_buffer(&self) -> (buffer: Option<Buffer>)
        ensures
            optional_view(buffer) == self@.index_buffer(endianness()),
    {
        let indices = match &self.index {
            Indexing::Index(indices) => indices,
            Indexing::Count(_) => {
                return None;
            },
        };
        let label = self.name.clone().concat("_indeces");
        Some(Buffer { label, contents: words_to_bytes(indices), usage: BufferUsage::Index })
    }
}

/// A mesh as the device holds it: its buffers and the number of vertices
/// to draw.
#[derive(Debug, PartialEq, Eq)]
pub struct RenderObject {
    pub vertex_buffer: Buffer,
    pub index_buffer: Option<Buffer>,
    /// The number of indices where there is an index buffer, else the number
    /// of vertices.
    pub count: u32,
}

impl RenderObject {
    /// The object was made of `mesh` on a machine of the given byte order:
    /// its buffers are those of the mesh and its count is the effective
    /// count of the mesh.
    pub open spec fn uploaded(self, mesh: MeshView, endian: Endian) -> bool {
        &&& self.vertex_buffer@ == mesh.vertex_buffer(endian)
        &&& optional_view(self.index_buffer) == mesh.index_buffer(endian)
        &&& self.count == mesh.effective_count()
    }

    /// An object made of a mesh without indices has no index buffer. An
    /// object made of a mesh with indices has one: it holds the memory
    /// image of the indices, four bytes to an index, and every index can be
    /// read back from it.
    pub proof fn lemma_index_buffer(self, mesh: MeshView, endian: Endian)
        requires
            self.uploaded(mesh, endian),
        ensures
            mesh.index is Count <==> self.index_buffer is None,
            mesh.index matches IndexingView::Index(indices) ==> {
                &&& self.index_buffer matches Some(buffer)
                &&& buffer.usage == BufferUsage::Index
                &&& buffer.contents@ == word_bytes(endian, indices)
                &&& buffer.contents@.len() == 4 * indices.len()
                &&& forall|j: int|
                    0 <= j < indices.len() ==> word_at(endian, buffer.contents@, j)
                        == #[trigger] indices[j]
            },
    {
        match mesh.index {
            IndexingView::Index(indices) => {
                assert forall|j: int| 0 <= j < indices.len() implies word_at(
                    endian,
                    word_bytes(endian, indices),
                    j,
                ) == #[trigger] indices[j] by {
                    lemma_word_at(endian, indices, j);
                }
            },
            IndexingView::Count(_) => {},
        }
    }

    /// The count of an object is the effective count of the mesh that it
    /// was made of: the number of indices where the mesh has indices, else
    /// the number of vertices.
    pub proof fn lemma_count(self, mesh: MeshView, endian: Endian)
        requires
            self.uploaded(mesh, endian),
        ensures
            self.count == mesh.effective_count(),
            mesh.index matches IndexingView::Index(indices) ==> self.count == indices.len(),
            mesh.index is Count ==> self.count == mesh.verts.len(),
    {
    }

    /// Uploads a mesh: makes its vertex buffer, its index buffer where it
    /// has indices, and records how many vertices are to be drawn.
    pub fn from_mesh(mesh: Mesh) -> (object: RenderObject)
        ensures
            object.uploaded(mesh@, endianness()),
            mesh@.wf(),
    {
        RenderObject {
            vertex_buffer: mesh.to_vertex_buffer(),
            index_buffer: mesh.to_index_buffer(),
            count: mesh.count(),
        }
    }
}

} // verus!
