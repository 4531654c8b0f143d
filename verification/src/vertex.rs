//! Vertex data as the pipelines read it: the layout of one record, and the
//! buffer of records that a frame draws.

use vstd::prelude::*;

verus! {

/// The shape of one vertex attribute: a vector of 32-bit floats.
#[derive(Clone, Copy, Debug, PartialEq, Eq, Structural)]
pub enum VertexFormat {
    Float,
    Float2,
    Float3,
    Float4,
}

impl VertexFormat {
    /// The bytes that one attribute of this format takes.
    pub open spec fn bytes(self) -> nat {
        match self {
            VertexFormat::Float => 4,
            VertexFormat::Float2 => 8,
            VertexFormat::Float3 => 12,
            VertexFormat::Float4 => 16,
        }
    }

    /// The bytes that one attribute of this format takes.
    pub fn size(self) -> (bytes: u64)
        ensures
            bytes == self.bytes(),
    {
        match self {
            VertexFormat::Float => 4,
            VertexFormat::Float2 => 8,
            VertexFormat::Float3 => 12,
            VertexFormat::Float4 => 16,
        }
    }
}

/// How often the pipeline steps to the next record of a buffer.
#[derive(Clone, Copy, Debug, PartialEq, Eq, Structural)]
pub enum StepMode {
    Vertex,
    Instance,
}

/// One attribute of a vertex record: where it starts, what it holds, and the
/// shader input that receives it.
#[derive(Clone, Copy, Debug, PartialEq, Eq, Structural)]
pub struct VertexAttribute {
    pub offset: u64,
    pub shader_location: u32,
    pub format: VertexFormat,
}

impl VertexAttribute {
    /// The attribute lies within a record of the given stride.
    pub open spec fn fits(self, stride: u64) -> bool {
        self.offset + self.format.bytes() <= stride
    }
}

/// Whether every attribute lies within the stride and no two of them feed the
/// same shader input.
pub open spec fn attributes_consistent(stride: u64, attributes: Seq<VertexAttribute>) -> bool {
    &&& forall|i: int| 0 <= i < attributes.len() ==> (#[trigger] attributes[i]).fits(stride)
    &&& forall|i: int, j: int|
        0 <= i < j < attributes.len() ==> (#[trigger] attributes[i]).shader_location != (
        #[trigger] attributes[j]).shader_location
}

/// The record of position and colour, three floats each: position at shader
/// input 0, colour behind it at shader input 1.
pub open spec fn position_color_attributes() -> Seq<VertexAttribute> {
    seq![
        VertexAttribute { offset: 0, shader_location: 0, format: VertexFormat::Float3 },
        VertexAttribute { offset: 12, shader_location: 1, format: VertexFormat::Float3 },
    ]
}

/// How a vertex buffer is laid out in memory.
#[derive(Clone, Debug)]
pub struct VertexLayout {
    pub array_stride: u64,
    pub step_mode: StepMode,
    pub attributes: Vec<VertexAttribute>,
}

impl VertexLayout {
    /// A layout that a pipeline can be built with: records are not empty, and
    /// the attributes are consistent with the stride.
    pub open spec fn well_formed(&self) -> bool {
        &&& self.array_stride > 0
        &&& attributes_consistent(self.array_stride, self.attributes@)
    }

    /// The layout of the position-and-colour record: 24 bytes a vertex.
    pub fn desc() -> (layout: VertexLayout)
        ensures
            layout.array_stride == 24,
            layout.step_mode == StepMode::Vertex,
            layout.attributes@ == position_color_attributes(),
            layout.well_formed(),
    {
        let mut attributes: Vec<VertexAttribute> = Vec::new();
        attributes.push(
            VertexAttribute { offset: 0, shader_location: 0, format: VertexFormat::Float3 },
        );
        attributes.push(
            VertexAttribute {
                offset: VertexFormat::Float3.size(),
                shader_location: 1,
                format: VertexFormat::Float3,
            },
        );
        assert(attributes@ =~= position_color_attributes());
        VertexLayout { array_stride: 24, step_mode: StepMode::Vertex, attributes }
    }

    /// Whether the layout is well formed.
    pub fn is_well_formed(&self) -> (yes: bool)
        ensures
            yes == self.well_formed(),
    {
        if self.array_stride == 0 {
            return false;
        }
        let n = self.attributes.len();
        let mut i: usize = 0;
        while i < n
            invariant
                n == self.attributes.len(),
                i <= n,
                self.array_stride > 0,
                forall|k: int| 0 <= k < i ==> (#[trigger] self.attributes@[k]).fits(
                    self.array_stride,
                ),
                forall|k: int, l: int|
                    0 <= k < l < i ==> (#[trigger] self.attributes@[k]).shader_location != (
                    #[trigger] self.attributes@[l]).shader_location,
            decreases n - i,
        {
            let attribute = self.attributes[i];
            let size = attribute.format.size();
            if attribute.offset > self.array_stride || self.array_stride - attribute.offset
                < size {
                return false;
            }
            let mut j: usize = 0;
            while j < i
                invariant
                    n == self.attributes.len(),
                    j <= i < n,
                    attribute == self.attributes@[i as int],
                    forall|k: int|
                        0 <= k < j ==> (#[trigger] self.attributes@[k]).shader_location
                            != attribute.shader_location,
                decreases i - j,
            {
                if self.attributes[j].shader_location == attribute.shader_location {
                    return false;
                }
                j += 1;
            }
            i += 1;
        }
        true
    }
}

/// Why bytes cannot serve as a vertex buffer.
#[derive(Clone, Copy, Debug, PartialEq, Eq, Structural)]
pub enum VertexDataError {
    /// The layout has records of no bytes.
    EmptyRecord,
    /// The bytes end in the middle of a record.
    PartialRecord,
    /// There are more records than one draw call can cover.
    TooManyVertices,
}

/// The number of records in a buffer of the given length, or why the bytes are
/// no whole buffer of such records.
pub open spec fn record_count(byte_len: u64, stride: u64) -> Result<u32, VertexDataError> {
    if stride == 0 {
        Err(VertexDataError::EmptyRecord)
    } else if byte_len % stride != 0 {
        Err(VertexDataError::PartialRecord)
    } else if byte_len / stride > u32::MAX {
        Err(VertexDataError::TooManyVertices)
    } else {
        Ok((byte_len / stride) as u32)
    }
}

/// Vertex records resident on the device. The buffer is filled once, when it is
/// made, and offers no way to change it afterwards.
#[derive(Clone, Copy, Debug)]
pub struct VertexBuffer {
    vertex_count: u32,
    byte_len: u64,
}

impl VertexBuffer {
    /// The number of records in the buffer.
    pub closed spec fn count(&self) -> u32 {
        self.vertex_count
    }

    /// The bytes that the records take.
    pub closed spec fn len(&self) -> u64 {
        self.byte_len
    }

    /// Accepts the bytes of an array of records of the given layout.
    pub fn upload(byte_len: u64, layout: &VertexLayout) -> (result: Result<
        VertexBuffer,
        VertexDataError,
    >)
        ensures
            match record_count(byte_len, layout.array_stride) {
                Ok(count) => result is Ok && result->Ok_0.count() == count && result->Ok_0.len()
                    == byte_len,
                Err(error) => result == Err::<VertexBuffer, VertexDataError>(error),
            },
    {
        let stride = layout.array_stride;
        if stride == 0 {
            return Err(VertexDataError::EmptyRecord);
        }
        if byte_len % stride != 0 {
            return Err(VertexDataError::PartialRecord);
        }
        let records = byte_len / stride;
        if records > 0xffff_ffff {
            return Err(VertexDataError::TooManyVertices);
        }
        Ok(VertexBuffer { vertex_count: records as u32, byte_len })
    }

    /// The number of records in the buffer.
    pub fn vertex_count(&self) -> (count: u32)
        ensures
            count == self.count(),
    {
        self.vertex_count
    }

    /// The bytes that the records take.
    pub fn byte_len(&self) -> (len: u64)
        ensures
            len == self.len(),
    {
        self.byte_len
    }
}

} // verus!
