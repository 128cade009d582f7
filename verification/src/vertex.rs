//! Vertex records, attribute layouts and buffers.
//!
//! A record carries its position and, optionally, a color and a texture
//! coordinate. Flattening a record is a pure, order-preserving transform
//! into 4-byte components; the attribute layout derives offsets and the
//! shared stride from the declared field list alone, without any API
//! call. Components are held as raw 32-bit words — the bit patterns of
//! the caller's scalars. The layout logic concerns their number, order
//! and bytes; the attribute binding's type tag tells the API how to
//! read them.

use vstd::prelude::*;
use crate::raw::AsRaw;

verus! {

/// The meaning of one vertex attribute.
#[derive(Clone, Copy, Debug, PartialEq, Eq, Structural)]
pub enum Semantic {
    Position,
    Color,
    TexCoord,
}

/// One field of an attribute layout: its semantic, how many 4-byte
/// components it has, and its byte offset within one record.
#[derive(Clone, Copy, Debug, PartialEq, Eq, Structural)]
pub struct LayoutField {
    pub semantic: Semantic,
    pub components: u32,
    pub byte_offset: u32,
}

/// Which optional attributes a record carries; the position is always
/// present.
#[derive(Clone, Copy, Debug, PartialEq, Eq, Structural)]
pub struct RecordShape {
    pub has_color: bool,
    pub has_texture: bool,
}

impl RecordShape {
    /// Number of 4-byte components of one flattened record of this
    /// shape: three for the position, three more with a color, two more
    /// with a texture coordinate.
    pub open spec fn flat_len_spec(self) -> usize {
        (3int + (if self.has_color { 3int } else { 0int }) + (if self.has_texture { 2int } else { 0int })) as usize
    }

    /// Number of 4-byte components of one flattened record.
    #[verifier::when_used_as_spec(flat_len_spec)]
    pub fn flat_len(self) -> (r: usize)
        ensures
            r == self.flat_len_spec(),
    {
        let color: usize = if self.has_color { 3 } else { 0 };
        let texture: usize = if self.has_texture { 2 } else { 0 };
        3 + color + texture
    }
}

/// A fixed, ordered sequence of attribute fields sharing one record
/// stride.
pub struct AttributeLayout {
    pub fields: Vec<LayoutField>,
    pub byte_stride: u32,
}

/// The field list a record shape declares: the position first, then the
/// color if present, then the texture coordinate if present, each field
/// offset by the bytes of the fields before it.
pub open spec fn layout_fields_spec(shape: RecordShape) -> Seq<LayoutField> {
    let position = LayoutField { semantic: Semantic::Position, components: 3, byte_offset: 0 };
    if shape.has_color && shape.has_texture {
        seq![
            position,
            LayoutField { semantic: Semantic::Color, components: 3, byte_offset: 12 },
            LayoutField { semantic: Semantic::TexCoord, components: 2, byte_offset: 24 },
        ]
    } else if shape.has_color {
        seq![
            position,
            LayoutField { semantic: Semantic::Color, components: 3, byte_offset: 12 },
        ]
    } else if shape.has_texture {
        seq![
            position,
            LayoutField { semantic: Semantic::TexCoord, components: 2, byte_offset: 12 },
        ]
    } else {
        seq![position]
    }
}

/// Whether `layout` is exactly the layout that `shape` declares.
pub open spec fn matches_shape(layout: AttributeLayout, shape: RecordShape) -> bool {
    layout.fields@ == layout_fields_spec(shape) && layout.byte_stride == 4 * shape.flat_len_spec()
}

/// Derive the attribute layout of a record shape: offsets and stride
/// come from the declared field list alone, without any API call.
pub fn compute_layout(shape: RecordShape) -> (r: AttributeLayout)
    ensures
        matches_shape(r, shape),
{
    let mut fields: Vec<LayoutField> = Vec::new();
    fields.push(LayoutField { semantic: Semantic::Position, components: 3, byte_offset: 0 });
    let mut offset: u32 = 12;
    if shape.has_color {
        fields.push(LayoutField { semantic: Semantic::Color, components: 3, byte_offset: offset });
        offset = offset + 12;
    }
    if shape.has_texture {
        fields.push(LayoutField { semantic: Semantic::TexCoord, components: 2, byte_offset: offset });
        offset = offset + 8;
    }
    proof {
        assert(fields@ =~= layout_fields_spec(shape));
    }
    AttributeLayout { fields, byte_stride: offset }
}

/// The well-formedness invariant of a layout: at least one field, two
/// or three components each, offsets starting at zero and rising by
/// exactly the bytes of the field before (monotone, non-overlapping),
/// and a stride equal to the whole record's bytes.
pub open spec fn layout_wf(layout: AttributeLayout) -> bool {
    &&& layout.fields@.len() >= 1
    &&& forall|i: int|
        0 <= i < layout.fields@.len() ==> ((#[trigger] layout.fields@[i]).components == 2
            || layout.fields@[i].components == 3)
    &&& layout.fields@[0].byte_offset == 0
    &&& forall|i: int|
        1 <= i < layout.fields@.len() ==> (#[trigger] layout.fields@[i]).byte_offset
            == layout.fields@[i - 1].byte_offset + 4 * layout.fields@[i - 1].components
    &&& layout.byte_stride == layout.fields@.last().byte_offset + 4
        * layout.fields@.last().components
}

/// Law: every layout a record shape declares is well-formed.
pub proof fn lemma_layout_wf(layout: AttributeLayout, shape: RecordShape)
    requires
        matches_shape(layout, shape),
    ensures
        layout_wf(layout),
{
}

/// One vertex record: a position and, optionally, a color and a texture
/// coordinate, each component one 4-byte word.
#[derive(Clone, Copy, Debug, PartialEq, Eq)]
pub struct Vertex {
    pub position: [u32; 3],
    pub color: Option<[u32; 3]>,
    pub texture: Option<[u32; 2]>,
}

impl Vertex {
    /// The shape this record carries.
    pub open spec fn shape_spec(self) -> RecordShape {
        RecordShape { has_color: self.color is Some, has_texture: self.texture is Some }
    }

    /// The flattening of this record: position components first, then
    /// the color's if present, then the texture coordinate's, in
    /// declared order with nothing reordered and nothing inserted.
    pub open spec fn flat_spec(self) -> Seq<u32> {
        self.position@ + (match self.color {
            Some(c) => c@,
            None => Seq::empty(),
        }) + (match self.texture {
            Some(t) => t@,
            None => Seq::empty(),
        })
    }

    /// A full record with all three attributes.
    pub fn new(position: [u32; 3], color: [u32; 3], texture: [u32; 2]) -> (r: Vertex)
        ensures
            r.position == position,
            r.color == Some(color),
            r.texture == Some(texture),
    {
        Vertex { position, color: Some(color), texture: Some(texture) }
    }

    /// A record carrying only its position.
    pub fn position_only(position: [u32; 3]) -> (r: Vertex)
        ensures
            r.position == position,
            r.color is None,
            r.texture is None,
    {
        Vertex { position, color: None, texture: None }
    }

    /// The shape this record carries.
    pub fn shape(&self) -> (r: RecordShape)
        ensures
            r == self.shape_spec(),
    {
        RecordShape { has_color: self.color.is_some(), has_texture: self.texture.is_some() }
    }

    /// Flatten this record to its 4-byte components, order-preserving.
    pub fn flatten(&self) -> (r: Vec<u32>)
        ensures
            r@ == self.flat_spec(),
            r@.len() == self.shape_spec().flat_len_spec(),
    {
        let mut out: Vec<u32> = Vec::new();
        out.push(self.position[0]);
        out.push(self.position[1]);
        out.push(self.position[2]);
        match &self.color {
            Some(c) => {
                out.push(c[0]);
                out.push(c[1]);
                out.push(c[2]);
            },
            None => {},
        }
        match &self.texture {
            Some(t) => {
                out.push(t[0]);
                out.push(t[1]);
            },
            None => {},
        }
        proof {
            assert(out@ =~= self.flat_spec());
        }
        out
    }

    /// The serialized byte size of this record.
    pub fn size(&self) -> (r: usize)
        ensures
            r == 4 * self.shape_spec().flat_len_spec(),
    {
        4 * self.shape().flat_len()
    }
}

impl AsRaw<u32> for Vertex {
    /// One record flattens to its own component sequence.
    open spec fn raw_spec(&self) -> Seq<u32> {
        self.flat_spec()
    }

    fn as_raw(self) -> (r: Vec<u32>)
        ensures
            r@ == self.flat_spec(),
    {
        self.flatten()
    }
}

/// The flattening of a whole sequence of records: each record's
/// components in input order, concatenated, never interleaved.
pub open spec fn flat_records_spec(records: Seq<Vertex>) -> Seq<u32>
    decreases records.len(),
{
    if records.len() == 0 {
        Seq::empty()
    } else {
        flat_records_spec(records.drop_last()) + records.last().flat_spec()
    }
}

/// Flatten every record in input order into one contiguous array.
pub fn flatten_records(records: &Vec<Vertex>) -> (r: Vec<u32>)
    ensures
        r@ == flat_records_spec(records@),
{
    let mut out: Vec<u32> = Vec::new();
    let mut i: usize = 0;
    while i < records.len()
        invariant
            i <= records@.len(),
            out@ == flat_records_spec(records@.take(i as int)),
        decreases records@.len() - i,
    {
        let mut flat = records[i].flatten();
        out.append(&mut flat);
        i = i + 1;
        proof {
            assert(records@.take(i as int).drop_last() =~= records@.take(i - 1));
            assert(records@.take(i as int).last() == records@[i - 1]);
        }
    }
    proof {
        assert(records@.take(records@.len() as int) =~= records@);
    }
    out
}

impl AsRaw<u32> for Vec<Vertex> {
    /// A vector of records flattens to the concatenation of each
    /// record's components, in input order.
    open spec fn raw_spec(&self) -> Seq<u32> {
        flat_records_spec(self@)
    }

    fn as_raw(self) -> (r: Vec<u32>)
        ensures
            r@ == flat_records_spec(self@),
    {
        flatten_records(&self)
    }
}

/// A vertex-array object handle; binding and unbinding it is pure API
/// state and is performed by the caller.
pub struct VertexArray {
    pub id: u32,
}

impl VertexArray {
    /// Wrap the handle the API allocated for a vertex-array object.
    pub fn new(id: u32) -> (r: VertexArray)
        ensures
            r.id == id,
    {
        VertexArray { id }
    }
}

/// What a buffer holds, fixed at creation: vertex data or index data.
/// The API target a buffer binds to is derived from this kind and never
/// settable independently.
#[derive(Clone, Copy, Debug, PartialEq, Eq, Structural)]
pub enum BufferType {
    Vertex,
    Element,
}

/// The API's buffer-target enumeration value a buffer kind binds to.
pub open spec fn target_spec(type_: BufferType) -> u32 {
    match type_ {
        BufferType::Vertex => 0x8892u32,
        BufferType::Element => 0x8893u32,
    }
}

/// One upload the caller must perform: the derived target, the static
/// usage hint, and the byte length of the contents.
#[derive(Clone, Copy, Debug, PartialEq, Eq, Structural)]
pub struct BufferUploadDesc {
    pub target: u32,
    pub usage: u32,
    pub byte_len: usize,
}

/// A buffer object: an owned handle, its fixed kind, and the words its
/// one-shot upload holds.
pub struct Buffer {
    pub id: u32,
    pub type_: BufferType,
    pub contents: Vec<u32>,
}

impl Buffer {
    /// Wrap the handle the API allocated, as a buffer of the given kind,
    /// with nothing uploaded yet.
    pub fn new(id: u32, type_: BufferType) -> (r: Buffer)
        ensures
            r.id == id,
            r.type_ == type_,
            r.contents@.len() == 0,
    {
        Buffer { id, type_, contents: Vec::new() }
    }

    /// A vertex-data buffer.
    pub fn new_vertex(id: u32) -> (r: Buffer)
        ensures
            r.id == id,
            r.type_ == BufferType::Vertex,
            r.contents@.len() == 0,
    {
        Buffer::new(id, BufferType::Vertex)
    }

    /// An index-data buffer.
    pub fn new_element(id: u32) -> (r: Buffer)
        ensures
            r.id == id,
            r.type_ == BufferType::Element,
            r.contents@.len() == 0,
    {
        Buffer::new(id, BufferType::Element)
    }

    /// The API target this buffer binds to, derived from its kind.
    pub fn target(&self) -> (r: u32)
        ensures
            r == target_spec(self.type_),
    {
        match self.type_ {
            BufferType::Vertex => crate::glconst::gl_array_buffer(),
            BufferType::Element => crate::glconst::gl_element_array_buffer(),
        }
    }

    /// One-shot static upload: replace the whole contents with `words`
    /// and say what the caller must transfer — the derived target, the
    /// static usage hint, and the full byte length.
    pub fn data(&mut self, words: Vec<u32>) -> (r: BufferUploadDesc)
        requires
            4 * words@.len() <= usize::MAX,
        ensures
            final(self).id == old(self).id,
            final(self).type_ == old(self).type_,
            final(self).contents@ == words@,
            r.target == target_spec(old(self).type_),
            r.usage == 0x88E4u32,
            r.byte_len == 4 * words@.len(),
    {
        let byte_len: usize = 4 * words.len();
        let target = self.target();
        self.contents = words;
        BufferUploadDesc { target, usage: crate::glconst::gl_static_draw(), byte_len }
    }

    /// The byte size of the uploaded contents, as the API would report
    /// it back.
    pub fn size_bytes(&self) -> (r: usize)
        requires
            4 * self.contents@.len() <= usize::MAX,
        ensures
            r == 4 * self.contents@.len(),
    {
        4 * self.contents.len()
    }
}

/// One attribute binding to register against the currently bound
/// vertex-array object: attribute index, component count, the API's
/// component type tag, the shared stride, and the field's offset.
#[derive(Clone, Copy, Debug, PartialEq, Eq, Structural)]
pub struct AttribBinding {
    pub index: u32,
    pub components: u32,
    pub type_: u32,
    pub byte_stride: u32,
    pub byte_offset: u32,
}

/// Flatten every record in input order, upload the concatenation into
/// the buffer as one contiguous static transfer, and derive one
/// attribute binding per layout field. The caller must have a
/// vertex-array object bound when it registers the bindings; that is a
/// documented precondition of the API, not a runtime check here.
pub fn upload_and_bind(
    buffer: &mut Buffer,
    records: &Vec<Vertex>,
    layout: &AttributeLayout,
    shape: RecordShape,
) -> (r: (BufferUploadDesc, Vec<AttribBinding>))
    requires
        old(buffer).type_ == BufferType::Vertex,
        matches_shape(*layout, shape),
        forall|i: int| 0 <= i < records@.len() ==> (#[trigger] records@[i]).shape_spec() == shape,
        4 * records@.len() * shape.flat_len_spec() <= usize::MAX,
    ensures
        final(buffer).id == old(buffer).id,
        final(buffer).type_ == old(buffer).type_,
        final(buffer).contents@ == flat_records_spec(records@),
        r.0.target == 0x8892u32,
        r.0.usage == 0x88E4u32,
        r.0.byte_len == 4 * records@.len() * shape.flat_len_spec(),
        r.1@.len() == layout.fields@.len(),
        forall|i: int|
            0 <= i < r.1@.len() ==> #[trigger] r.1@[i] == (AttribBinding {
                index: i as u32,
                components: layout.fields@[i].components,
                type_: 0x1406u32,
                byte_stride: layout.byte_stride,
                byte_offset: layout.fields@[i].byte_offset,
            }),
{
    proof {
        lemma_flat_records_len(records@, shape);
        assert(4 * records@.len() * shape.flat_len_spec() == 4 * (records@.len()
            * shape.flat_len_spec())) by (nonlinear_arith);
    }
    let flat = flatten_records(records);
    let desc = buffer.data(flat);
    let gl_float_tag = crate::glconst::gl_float();
    proof {
        assert(layout.fields@.len() <= 3);
    }
    let mut binds: Vec<AttribBinding> = Vec::new();
    let mut i: usize = 0;
    while i < layout.fields.len()
        invariant
            i <= layout.fields@.len(),
            layout.fields@.len() <= 3,
            gl_float_tag == 0x1406u32,
            binds@.len() == i,
            forall|j: int|
                0 <= j < i ==> #[trigger] binds@[j] == (AttribBinding {
                    index: j as u32,
                    components: layout.fields@[j].components,
                    type_: 0x1406u32,
                    byte_stride: layout.byte_stride,
                    byte_offset: layout.fields@[j].byte_offset,
                }),
        decreases layout.fields@.len() - i,
    {
        let f = layout.fields[i];
        binds.push(
            AttribBinding {
                index: i as u32,
                components: f.components,
                type_: gl_float_tag,
                byte_stride: layout.byte_stride,
                byte_offset: f.byte_offset,
            },
        );
        i = i + 1;
    }
    (desc, binds)
}

/// Law: flattening N records of one shape yields exactly N times the
/// shape's component count — no record adds or loses components.
pub proof fn lemma_flat_records_len(records: Seq<Vertex>, shape: RecordShape)
    requires
        forall|i: int| 0 <= i < records.len() ==> (#[trigger] records[i]).shape_spec() == shape,
    ensures
        flat_records_spec(records).len() == records.len() * shape.flat_len_spec(),
    decreases records.len(),
{
    if records.len() == 0 {
    } else {
        lemma_flat_records_len(records.drop_last(), shape);
        assert(records[records.len() - 1].shape_spec() == shape);
        assert(records.last().flat_spec().len() == shape.flat_len_spec());
        assert((records.len() - 1) * shape.flat_len_spec() + shape.flat_len_spec()
            == records.len() * shape.flat_len_spec()) by (nonlinear_arith);
    }
}

} // verus!
