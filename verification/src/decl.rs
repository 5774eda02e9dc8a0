use crate::status::AddMeshError;
use vstd::prelude::*;

verus! {

/// Number of bytes in one 32-bit scalar component of a vertex stream.
pub const SCALAR_BYTES: u32 = 4;

/// Layout of a caller-owned vertex data stream.
///
/// The scalar values themselves never cross this layer: the engine reads them
/// straight out of the caller's buffer, which the unverified rim pairs back
/// with the declaration. Everything the marshaller derives from a stream --
/// record counts and byte strides -- depends only on the layout held here.
#[derive(Clone, Copy, Debug)]
pub enum MeshData {
    /// Tightly packed 32-bit scalar records; `scalar_count` is the number of
    /// scalar components in the buffer.
    Contiguous { scalar_count: usize },
    /// Records laid out at an explicit byte stride; `byte_count` is the
    /// buffer length in bytes.
    WithStride { byte_count: usize, stride: u32 },
}

impl MeshData {
    /// Limits the engine's 32-bit count fields and its stride arithmetic
    /// impose on a stream layout.
    pub open spec fn wf(&self) -> bool {
        match *self {
            MeshData::Contiguous { scalar_count } => scalar_count <= u32::MAX,
            MeshData::WithStride { byte_count, stride } => stride > 0 && byte_count
                <= u32::MAX,
        }
    }

    /// Number of whole records in the stream, for records `num` scalars wide.
    pub open spec fn spec_count(&self, num: u32) -> int
        recommends
            self.wf(),
            num > 0,
    {
        match *self {
            MeshData::Contiguous { scalar_count } => scalar_count as int / num as int,
            MeshData::WithStride { byte_count, stride } => byte_count as int / stride as int,
        }
    }

    /// Byte stride between records, for records `num` scalars wide.
    pub open spec fn spec_stride(&self, num: u32) -> int {
        match *self {
            MeshData::Contiguous { .. } => num * SCALAR_BYTES,
            MeshData::WithStride { stride, .. } => stride as int,
        }
    }

    /// Derives the record count the fixed-layout declaration carries.
    pub fn count(&self, num: u32) -> (r: u32)
        requires
            self.wf(),
            num > 0,
        ensures
            r == self.spec_count(num),
    {
        match *self {
            MeshData::Contiguous { scalar_count } => (scalar_count as u32) / num,
            MeshData::WithStride { byte_count, stride } => (byte_count as u32) / stride,
        }
    }

    /// Derives the byte stride the fixed-layout declaration carries.
    pub fn stride(&self, num: u32) -> (r: u32)
        requires
            num * SCALAR_BYTES <= u32::MAX,
        ensures
            r == self.spec_stride(num),
    {
        match *self {
            MeshData::Contiguous { .. } => num * SCALAR_BYTES,
            MeshData::WithStride { stride, .. } => stride,
        }
    }
}

/// Caller-owned index data, either 16-bit or 32-bit per index.
#[derive(Clone, Copy, Debug)]
pub enum IndexData<'a> {
    U16(&'a [u16]),
    U32(&'a [u32]),
}

impl<'a> IndexData<'a> {
    /// The index values, widened to one integer sequence.
    pub open spec fn spec_indices(&self) -> Seq<int> {
        match *self {
            IndexData::U16(d) => d@.map_values(|x: u16| x as int),
            IndexData::U32(d) => d@.map_values(|x: u32| x as int),
        }
    }

    /// Limit the engine's 32-bit index-count field imposes.
    pub open spec fn wf(&self) -> bool {
        self.spec_indices().len() <= u32::MAX
    }

    /// Number of indices in the data.
    pub fn count(&self) -> (r: u32)
        requires
            self.wf(),
        ensures
            r == self.spec_indices().len(),
    {
        let n = match *self {
            IndexData::U16(d) => d.len(),
            IndexData::U32(d) => d.len(),
        };
        n as u32
    }

    /// Number of indices, kept at the machine's word size.
    fn len(&self) -> (r: usize)
        ensures
            r == self.spec_indices().len(),
    {
        match *self {
            IndexData::U16(d) => d.len(),
            IndexData::U32(d) => d.len(),
        }
    }

    /// The index at position `i`, widened to 32 bits.
    fn get(&self, i: usize) -> (r: u32)
        requires
            i < self.spec_indices().len(),
        ensures
            r == self.spec_indices()[i as int],
    {
        match *self {
            IndexData::U16(d) => d[i] as u32,
            IndexData::U32(d) => d[i],
        }
    }
}

/// A structured mesh declaration for the 3-D submission path.
///
/// The welding epsilon the engine also takes is a fractional value this layer
/// never reads; the unverified rim supplies it alongside the buffers.
#[derive(Clone, Copy, Debug)]
pub struct MeshDecl<'a> {
    pub vertex_position_data: MeshData,
    pub vertex_normal_data: Option<MeshData>,
    /// The input UVs are provided as a hint to the chart generator.
    pub vertex_uv_data: Option<MeshData>,
    pub face_ignore_data: Option<bool>,
    /// Per-face material tags; only faces with the same material are assigned
    /// to the same chart.
    pub face_material_data: Option<&'a [u32]>,
    /// Per-face vertex counts for polygon support; faces are assumed to be
    /// triangles when absent.
    pub face_vertex_count: Option<&'a [u8]>,
    pub index_data: Option<IndexData<'a>>,
    /// Caller-declared face count. The marshaller derives the face count from
    /// the declaration itself, so this field is never read; it is kept so a
    /// declaration states every field of the boundary structure.
    pub face_count: u32,
}

impl<'a> MeshDecl<'a> {
    /// Limits the engine's 32-bit count fields impose on a declaration.
    pub open spec fn wf(&self) -> bool {
        &&& self.vertex_position_data.wf()
        &&& (self.vertex_normal_data matches Some(d) ==> d.wf())
        &&& (self.vertex_uv_data matches Some(d) ==> d.wf())
        &&& (self.index_data matches Some(d) ==> d.wf())
        &&& (self.face_vertex_count matches Some(f) ==> f@.len() <= u32::MAX)
    }

    /// Vertex count derived from the position stream: three scalars per
    /// position record.
    pub open spec fn spec_vertex_count(&self) -> int {
        self.vertex_position_data.spec_count(3)
    }

    /// The explicitly declared index values; empty when the caller already
    /// triangulated and lets the engine use implicit sequential indices.
    pub open spec fn spec_indices(&self) -> Seq<int> {
        match self.index_data {
            Some(d) => d.spec_indices(),
            None => Seq::empty(),
        }
    }

    /// The index count the engine works from. A declaration without index
    /// data is marshalled with an index count of zero, which the engine reads
    /// as implicit sequential indices over all vertices, so the effective
    /// count is then the vertex count.
    pub open spec fn spec_index_count(&self) -> int {
        if self.spec_indices().len() == 0 {
            self.spec_vertex_count()
        } else {
            self.spec_indices().len() as int
        }
    }

    /// Whether some declared per-face vertex count is below 3.
    pub open spec fn spec_has_small_face(&self) -> bool {
        match self.face_vertex_count {
            Some(f) => exists|i: int| 0 <= i < f@.len() && (#[trigger] f@[i]) < 3,
            None => false,
        }
    }

    /// Whether some declared index reaches at or past the vertex count.
    pub open spec fn spec_has_out_of_range_index(&self) -> bool {
        exists|i: int|
            0 <= i < self.spec_indices().len() && (#[trigger] self.spec_indices()[i])
                >= self.spec_vertex_count()
    }

    /// The outcome submitting this declaration is owed: accepted exactly when
    /// no validation rule rejects it. The rules are checked in a fixed order:
    /// triangle divisibility first, then per-face vertex counts, then index
    /// range, so a declaration breaking several rules reports the first.
    pub open spec fn spec_submission_error(&self) -> Option<AddMeshError> {
        if self.face_vertex_count is None && self.spec_index_count() % 3 != 0 {
            Some(AddMeshError::InvalidIndexCount)
        } else if self.spec_has_small_face() {
            Some(AddMeshError::InvalidFaceVertexCount)
        } else if self.spec_has_out_of_range_index() {
            Some(AddMeshError::IndexOutOfRange)
        } else {
            None
        }
    }

    /// Face count derived from the declaration: the number of per-face vertex
    /// counts when polygons are declared, otherwise one face per three
    /// indices.
    pub open spec fn spec_face_count(&self) -> int {
        match self.face_vertex_count {
            Some(f) => f@.len() as int,
            None => self.spec_index_count() / 3,
        }
    }
}

impl<'a> Default for MeshDecl<'a> {
    /// An empty declaration: a zero-length contiguous position stream, every
    /// optional buffer absent. (The engine's default welding epsilon stays
    /// with the unverified rim, beside the buffers.)
    fn default() -> (r: Self)
        ensures
            r == (MeshDecl {
                vertex_position_data: MeshData::Contiguous { scalar_count: 0 },
                vertex_normal_data: None,
                vertex_uv_data: None,
                face_ignore_data: None,
                face_material_data: None,
                face_vertex_count: None,
                index_data: None,
                face_count: 0,
            }),
            r.wf(),
    {
        MeshDecl {
            vertex_position_data: MeshData::Contiguous { scalar_count: 0 },
            vertex_normal_data: None,
            vertex_uv_data: None,
            face_ignore_data: None,
            face_material_data: None,
            face_vertex_count: None,
            index_data: None,
            face_count: 0,
        }
    }
}

/// The result a submission reports for a given validation outcome.
pub open spec fn submission_result(e: Option<AddMeshError>) -> Result<(), AddMeshError> {
    match e {
        None => Ok(()),
        Some(k) => Err(k),
    }
}

/// Decides a mesh submission, in the order `spec_submission_error` states.
pub fn check_mesh_decl(decl: &MeshDecl) -> (r: Option<AddMeshError>)
    requires
        decl.wf(),
    ensures
        r == decl.spec_submission_error(),
{
    let vertex_count = decl.vertex_position_data.count(3);
    let explicit_count = match &decl.index_data {
        Some(d) => d.count(),
        None => 0,
    };
    let index_count = if explicit_count == 0 {
        vertex_count
    } else {
        explicit_count
    };
    assert(index_count == decl.spec_index_count());
    if decl.face_vertex_count.is_none() && index_count % 3 != 0 {
        return Some(AddMeshError::InvalidIndexCount);
    }
    if let Some(fvc) = decl.face_vertex_count {
        let n = fvc.len();
        let mut i: usize = 0;
        while i < n
            invariant
                decl.face_vertex_count == Some(fvc),
                n == fvc@.len(),
                i <= n,
                forall|j: int| 0 <= j < i ==> #[trigger] fvc@[j] >= 3,
            decreases n - i,
        {
            if fvc[i] < 3 {
                proof {
                    assert(exists|j: int| 0 <= j < fvc@.len() && (#[trigger] fvc@[j]) < 3);
                    assert(decl.face_vertex_count matches Some(f) && exists|j: int|
                        0 <= j < f@.len() && (#[trigger] f@[j]) < 3);
                }
                return Some(AddMeshError::InvalidFaceVertexCount);
            }
            i += 1;
        }
    }
    if let Some(idx) = &decl.index_data {
        let n = idx.len();
        let mut i: usize = 0;
        while i < n
            invariant
                decl.index_data == Some(*idx),
                n == idx.spec_indices().len(),
                i <= n,
                vertex_count == decl.spec_vertex_count(),
                decl.face_vertex_count is None ==> decl.spec_index_count() % 3 == 0,
                !decl.spec_has_small_face(),
                forall|j: int|
                    0 <= j < i ==> #[trigger] idx.spec_indices()[j] < decl.spec_vertex_count(),
            decreases n - i,
        {
            if idx.get(i) >= vertex_count {
                proof {
                    assert(decl.spec_indices() == idx.spec_indices());
                    assert(decl.spec_indices()[i as int] >= decl.spec_vertex_count());
                    assert(decl.spec_has_out_of_range_index());
                }
                return Some(AddMeshError::IndexOutOfRange);
            }
            i += 1;
        }
    }
    None
}

/// Index encodings the engine accepts.
#[derive(Clone, Copy, Debug, PartialEq, Eq, Structural)]
pub enum IndexFormat {
    UInt16,
    UInt32,
}

/// The index format a declaration's index data marshals to. Without index
/// data the field is immaterial; the 16-bit encoding is passed.
pub open spec fn spec_index_format(d: Option<IndexData>) -> IndexFormat {
    match d {
        Some(IndexData::U16(_)) => IndexFormat::UInt16,
        Some(IndexData::U32(_)) => IndexFormat::UInt32,
        None => IndexFormat::UInt16,
    }
}

/// The fixed-layout mesh declaration the engine's entry point consumes, with
/// every derived field computed from the structured declaration. Each
/// caller-owned buffer is reduced to its presence: an absent option is handed
/// to the engine as a null sentinel, never as a dangling or zero-length
/// pointer, and the unverified rim pairs each present flag back with the
/// caller's pointer.
#[derive(Clone, Copy, Debug)]
pub struct NativeMeshDecl {
    pub has_vertex_normal_data: bool,
    pub has_vertex_uv_data: bool,
    pub has_index_data: bool,
    pub has_face_ignore_data: bool,
    pub has_face_material_data: bool,
    pub has_face_vertex_count: bool,
    pub vertex_count: u32,
    pub vertex_position_stride: u32,
    pub vertex_normal_stride: u32,
    pub vertex_uv_stride: u32,
    pub index_count: u32,
    pub index_offset: u32,
    pub face_count: u32,
    pub index_format: IndexFormat,
}

/// The fixed-layout structure a mesh declaration marshals to.
pub open spec fn spec_marshal_mesh_decl(decl: MeshDecl) -> NativeMeshDecl {
    NativeMeshDecl {
        has_vertex_normal_data: decl.vertex_normal_data is Some,
        has_vertex_uv_data: decl.vertex_uv_data is Some,
        has_index_data: decl.index_data is Some,
        has_face_ignore_data: decl.face_ignore_data is Some,
        has_face_material_data: decl.face_material_data is Some,
        has_face_vertex_count: decl.face_vertex_count is Some,
        vertex_count: decl.spec_vertex_count() as u32,
        vertex_position_stride: decl.vertex_position_data.spec_stride(3) as u32,
        vertex_normal_stride: (match decl.vertex_normal_data {
            Some(d) => d.spec_stride(3),
            None => 0,
        }) as u32,
        vertex_uv_stride: (match decl.vertex_uv_data {
            Some(d) => d.spec_stride(2),
            None => 0,
        }) as u32,
        index_count: decl.spec_indices().len() as u32,
        index_offset: 0,
        face_count: decl.spec_face_count() as u32,
        index_format: spec_index_format(decl.index_data),
    }
}

/// Marshals a structured mesh declaration into the fixed-layout structure,
/// deriving vertex count, strides, index count, face count and index format
/// from the declaration itself.
pub fn marshal_mesh_decl(decl: &MeshDecl) -> (r: NativeMeshDecl)
    requires
        decl.wf(),
    ensures
        r == spec_marshal_mesh_decl(*decl),
{
    let vertex_count = decl.vertex_position_data.count(3);
    let index_count = match &decl.index_data {
        Some(d) => d.count(),
        None => 0,
    };
    let face_count = match &decl.face_vertex_count {
        Some(f) => f.len() as u32,
        None => {
            let effective = if index_count == 0 {
                vertex_count
            } else {
                index_count
            };
            effective / 3
        },
    };
    let index_format = match &decl.index_data {
        Some(IndexData::U16(_)) => IndexFormat::UInt16,
        Some(IndexData::U32(_)) => IndexFormat::UInt32,
        None => IndexFormat::UInt16,
    };
    NativeMeshDecl {
        has_vertex_normal_data: decl.vertex_normal_data.is_some(),
        has_vertex_uv_data: decl.vertex_uv_data.is_some(),
        has_index_data: decl.index_data.is_some(),
        has_face_ignore_data: decl.face_ignore_data.is_some(),
        has_face_material_data: decl.face_material_data.is_some(),
        has_face_vertex_count: decl.face_vertex_count.is_some(),
        vertex_count,
        vertex_position_stride: decl.vertex_position_data.stride(3),
        vertex_normal_stride: match &decl.vertex_normal_data {
            Some(d) => d.stride(3),
            None => 0,
        },
        vertex_uv_stride: match &decl.vertex_uv_data {
            Some(d) => d.stride(2),
            None => 0,
        },
        index_count,
        index_offset: 0,
        face_count,
        index_format,
    }
}

/// A structured declaration for the UV-only submission path, used when only
/// 2-D overlap resolution is wanted; the engine does not reprocess 3-D
/// geometry for it.
#[derive(Clone, Copy, Debug)]
pub struct UvMeshDecl<'a> {
    pub vertex_uv_data: Option<MeshData>,
    /// Per-face-triple material tags; overlapping UVs should be assigned
    /// different materials.
    pub face_material_data: Option<&'a [u32]>,
    pub index_data: Option<IndexData<'a>>,
}

impl<'a> UvMeshDecl<'a> {
    /// Limits the engine's 32-bit count fields impose on a declaration.
    pub open spec fn wf(&self) -> bool {
        &&& (self.vertex_uv_data matches Some(d) ==> d.wf())
        &&& (self.index_data matches Some(d) ==> d.wf())
    }

    /// Vertex count derived from the UV stream: two scalars per UV record.
    /// Zero when no UV data is declared.
    pub open spec fn spec_vertex_count(&self) -> int {
        match self.vertex_uv_data {
            Some(d) => d.spec_count(2),
            None => 0,
        }
    }

    /// The explicitly declared index values.
    pub open spec fn spec_indices(&self) -> Seq<int> {
        match self.index_data {
            Some(d) => d.spec_indices(),
            None => Seq::empty(),
        }
    }

    /// The index count the engine works from; as for the 3-D path, an index
    /// count of zero means implicit sequential indices over all vertices.
    pub open spec fn spec_index_count(&self) -> int {
        if self.spec_indices().len() == 0 {
            self.spec_vertex_count()
        } else {
            self.spec_indices().len() as int
        }
    }

    /// Whether some declared index reaches at or past the vertex count.
    pub open spec fn spec_has_out_of_range_index(&self) -> bool {
        exists|i: int|
            0 <= i < self.spec_indices().len() && (#[trigger] self.spec_indices()[i])
                >= self.spec_vertex_count()
    }

    /// The outcome submitting this declaration is owed. UV meshes are always
    /// triangles, so only the divisibility and index-range rules apply, in
    /// that order.
    pub open spec fn spec_submission_error(&self) -> Option<AddMeshError> {
        if self.spec_index_count() % 3 != 0 {
            Some(AddMeshError::InvalidIndexCount)
        } else if self.spec_has_out_of_range_index() {
            Some(AddMeshError::IndexOutOfRange)
        } else {
            None
        }
    }
}

/// Decides a UV-mesh submission, in the order `spec_submission_error` states.
pub fn check_uv_mesh_decl(decl: &UvMeshDecl) -> (r: Option<AddMeshError>)
    requires
        decl.wf(),
    ensures
        r == decl.spec_submission_error(),
{
    let vertex_count = match &decl.vertex_uv_data {
        Some(d) => d.count(2),
        None => 0,
    };
    let explicit_count = match &decl.index_data {
        Some(d) => d.count(),
        None => 0,
    };
    let index_count = if explicit_count == 0 {
        vertex_count
    } else {
        explicit_count
    };
    assert(index_count == decl.spec_index_count());
    if index_count % 3 != 0 {
        return Some(AddMeshError::InvalidIndexCount);
    }
    if let Some(idx) = &decl.index_data {
        let n = idx.len();
        let mut i: usize = 0;
        while i < n
            invariant
                decl.index_data == Some(*idx),
                n == idx.spec_indices().len(),
                i <= n,
                vertex_count == decl.spec_vertex_count(),
                decl.spec_index_count() % 3 == 0,
                forall|j: int|
                    0 <= j < i ==> #[trigger] idx.spec_indices()[j] < decl.spec_vertex_count(),
            decreases n - i,
        {
            if idx.get(i) >= vertex_count {
                proof {
                    assert(decl.spec_indices() == idx.spec_indices());
                    assert(decl.spec_indices()[i as int] >= decl.spec_vertex_count());
                    assert(decl.spec_has_out_of_range_index());
                }
                return Some(AddMeshError::IndexOutOfRange);
            }
            i += 1;
        }
    }
    None
}

/// The fixed-layout UV-mesh declaration the engine's entry point consumes.
#[derive(Clone, Copy, Debug)]
pub struct NativeUvMeshDecl {
    pub has_vertex_uv_data: bool,
    pub has_index_data: bool,
    pub has_face_material_data: bool,
    pub vertex_count: u32,
    pub vertex_stride: u32,
    pub index_count: u32,
    pub index_offset: u32,
    pub index_format: IndexFormat,
}

/// The fixed-layout structure a UV-mesh declaration marshals to.
pub open spec fn spec_marshal_uv_mesh_decl(decl: UvMeshDecl) -> NativeUvMeshDecl {
    NativeUvMeshDecl {
        has_vertex_uv_data: decl.vertex_uv_data is Some,
        has_index_data: decl.index_data is Some,
        has_face_material_data: decl.face_material_data is Some,
        vertex_count: decl.spec_vertex_count() as u32,
        vertex_stride: (match decl.vertex_uv_data {
            Some(d) => d.spec_stride(2),
            None => 0,
        }) as u32,
        index_count: decl.spec_indices().len() as u32,
        index_offset: 0,
        index_format: spec_index_format(decl.index_data),
    }
}

/// Marshals a structured UV-mesh declaration into the fixed-layout
/// structure, deriving vertex count, stride, index count and index format
/// from the declaration itself.
pub fn marshal_uv_mesh_decl(decl: &UvMeshDecl) -> (r: NativeUvMeshDecl)
    requires
        decl.wf(),
    ensures
        r == spec_marshal_uv_mesh_decl(*decl),
{
    NativeUvMeshDecl {
        has_vertex_uv_data: decl.vertex_uv_data.is_some(),
        has_index_data: decl.index_data.is_some(),
        has_face_material_data: decl.face_material_data.is_some(),
        vertex_count: match &decl.vertex_uv_data {
            Some(d) => d.count(2),
            None => 0,
        },
        vertex_stride: match &decl.vertex_uv_data {
            Some(d) => d.stride(2),
            None => 0,
        },
        index_count: match &decl.index_data {
            Some(d) => d.count(),
            None => 0,
        },
        index_offset: 0,
        index_format: match &decl.index_data {
            Some(IndexData::U16(_)) => IndexFormat::UInt16,
            Some(IndexData::U32(_)) => IndexFormat::UInt32,
            None => IndexFormat::UInt16,
        },
    }
}

/// Law: a triangle-only mesh declaration (no per-face vertex counts) whose
/// effective index count is evenly divisible by three and whose every index
/// lies below the vertex count is accepted.
pub proof fn lemma_valid_triangles_accepted(decl: MeshDecl)
    requires
        decl.face_vertex_count is None,
        decl.spec_index_count() % 3 == 0,
        forall|i: int|
            0 <= i < decl.spec_indices().len() ==> #[trigger] decl.spec_indices()[i]
                < decl.spec_vertex_count(),
    ensures
        decl.spec_submission_error() is None,
{
}

/// Law: a mesh declaration without per-face vertex counts whose effective
/// index count is not evenly divisible by three is rejected with the
/// invalid-index-count kind.
pub proof fn lemma_indivisible_index_count_rejected(decl: MeshDecl)
    requires
        decl.face_vertex_count is None,
        decl.spec_index_count() % 3 != 0,
    ensures
        decl.spec_submission_error() == Some(AddMeshError::InvalidIndexCount),
{
}

/// Law: a mesh declaration with a per-face vertex count below 3 (at witness
/// position `i`) is rejected with the invalid-face-vertex-count kind.
pub proof fn lemma_small_face_vertex_count_rejected(decl: MeshDecl, i: int)
    requires
        decl.face_vertex_count matches Some(f) && 0 <= i < f@.len() && f@[i] < 3,
    ensures
        decl.spec_submission_error() == Some(AddMeshError::InvalidFaceVertexCount),
{
}

/// Law: a mesh declaration with an index at or past the vertex count (at
/// witness position `i`) is rejected with the index-out-of-range kind,
/// provided no rule checked earlier rejects it first: its index count must
/// pass the triangle-divisibility rule and its per-face vertex counts, if
/// declared, must all be at least 3.
pub proof fn lemma_out_of_range_index_rejected(decl: MeshDecl, i: int)
    requires
        0 <= i < decl.spec_indices().len(),
        decl.spec_indices()[i] >= decl.spec_vertex_count(),
        decl.face_vertex_count is None ==> decl.spec_index_count() % 3 == 0,
        !decl.spec_has_small_face(),
    ensures
        decl.spec_submission_error() == Some(AddMeshError::IndexOutOfRange),
{
}

/// Law: a UV-mesh declaration whose effective index count is evenly
/// divisible by three and whose every index lies below the vertex count is
/// accepted.
pub proof fn lemma_uv_valid_triangles_accepted(decl: UvMeshDecl)
    requires
        decl.spec_index_count() % 3 == 0,
        forall|i: int|
            0 <= i < decl.spec_indices().len() ==> #[trigger] decl.spec_indices()[i]
                < decl.spec_vertex_count(),
    ensures
        decl.spec_submission_error() is None,
{
}

/// Law: a UV-mesh declaration whose effective index count is not evenly
/// divisible by three is rejected with the invalid-index-count kind.
pub proof fn lemma_uv_indivisible_index_count_rejected(decl: UvMeshDecl)
    requires
        decl.spec_index_count() % 3 != 0,
    ensures
        decl.spec_submission_error() == Some(AddMeshError::InvalidIndexCount),
{
}

/// Law: a UV-mesh declaration with an index at or past the vertex count (at
/// witness position `i`) is rejected with the index-out-of-range kind,
/// provided its index count passes the divisibility rule checked first.
pub proof fn lemma_uv_out_of_range_index_rejected(decl: UvMeshDecl, i: int)
    requires
        0 <= i < decl.spec_indices().len(),
        decl.spec_indices()[i] >= decl.spec_vertex_count(),
        decl.spec_index_count() % 3 == 0,
    ensures
        decl.spec_submission_error() == Some(AddMeshError::IndexOutOfRange),
{
}

} // verus!
