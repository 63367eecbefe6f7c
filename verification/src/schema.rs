//! Vertex schema: immutable descriptors of per-vertex attribute layout.
//! A format is an ordered list of elements; its stride and per-element byte
//! offsets are computed once at construction and are read-only afterwards.

use vstd::prelude::*;

verus! {

/// Scalar component type of one attribute.
#[derive(Debug, Clone, Copy, PartialEq, Eq, Structural)]
pub enum DataType {
    Float,
    UByte,
    Byte,
    UShort,
    Short,
    UInt,
    Int,
}

impl DataType {
    pub open spec fn spec_length(self) -> int {
        match self {
            DataType::UByte | DataType::Byte => 1,
            DataType::UShort | DataType::Short => 2,
            DataType::UInt | DataType::Int | DataType::Float => 4,
        }
    }

    /// Byte size of one component of this type.
    pub fn length(&self) -> (r: usize)
        ensures
            r == self.spec_length(),
    {
        match self {
            DataType::UByte | DataType::Byte => 1,
            DataType::UShort | DataType::Short => 2,
            DataType::UInt | DataType::Int | DataType::Float => 4,
        }
    }

    pub open spec fn spec_name(self) -> Seq<char> {
        match self {
            DataType::Float => "float"@,
            DataType::UByte => "unsigned byte"@,
            DataType::Byte => "byte"@,
            DataType::UShort => "unsigned short"@,
            DataType::Short => "short"@,
            DataType::UInt => "unsigned int"@,
            DataType::Int => "int"@,
        }
    }

    /// Human-readable name of the component type.
    pub fn name(&self) -> (r: &'static str)
        ensures
            r@ == self.spec_name(),
    {
        match self {
            DataType::Float => "float",
            DataType::UByte => "unsigned byte",
            DataType::Byte => "byte",
            DataType::UShort => "unsigned short",
            DataType::Short => "short",
            DataType::UInt => "unsigned int",
            DataType::Int => "int",
        }
    }
}

/// Semantic of one attribute slot. `Padding` contributes to the stride but is
/// never written by a vertex and never bound as an attribute.
#[derive(Debug, Clone, Copy, PartialEq, Eq, Structural)]
pub enum ElementKind {
    Position,
    Normal,
    Color,
    UV,
    Padding,
}

/// One attribute slot of a vertex format.
#[derive(Debug, Clone, Copy, PartialEq, Eq, Structural)]
pub struct VertexFormatElement {
    /// Texture unit the attribute belongs to (0 for non-texture attributes).
    pub texture_index: u8,
    pub data_type: DataType,
    pub kind: ElementKind,
    /// Component count of the attribute.
    pub size: u32,
}

/// How a non-padding attribute is bound on the device before a draw.
#[derive(Debug, Clone, Copy, PartialEq, Eq, Structural)]
pub struct AttributeBinding {
    pub components: u32,
    pub data_type: DataType,
    /// Fixed-point values are normalized into [0, 1] / [-1, 1] on upload.
    pub normalized: bool,
    /// Bound through the integer attribute pointer instead of the float one.
    pub integer_pointer: bool,
}

impl VertexFormatElement {
    pub fn new(texture_index: u8, data_type: DataType, kind: ElementKind, size: u32) -> (r:
        VertexFormatElement)
        ensures
            r == (VertexFormatElement { texture_index, data_type, kind, size }),
    {
        VertexFormatElement { texture_index, data_type, kind, size }
    }

    pub open spec fn spec_byte_length(self) -> int {
        match self.data_type {
            DataType::UByte | DataType::Byte => self.size as int,
            DataType::UShort | DataType::Short => 2 * self.size,
            DataType::UInt | DataType::Int | DataType::Float => 4 * self.size,
        }
    }

    /// Bytes this element occupies in one vertex:
    /// `component size * component count`.
    pub fn byte_length(&self) -> (r: usize)
        requires
            self.spec_byte_length() <= usize::MAX,
        ensures
            r == self.spec_byte_length(),
    {
        match self.data_type {
            DataType::UByte | DataType::Byte => self.size as usize,
            DataType::UShort | DataType::Short => 2 * (self.size as usize),
            DataType::UInt | DataType::Int | DataType::Float => 4 * (self.size as usize),
        }
    }

    pub open spec fn spec_binding(self) -> Option<AttributeBinding> {
        match self.kind {
            ElementKind::Position => Some(
                AttributeBinding {
                    components: self.size,
                    data_type: self.data_type,
                    normalized: false,
                    integer_pointer: false,
                },
            ),
            ElementKind::Normal | ElementKind::Color => Some(
                AttributeBinding {
                    components: self.size,
                    data_type: self.data_type,
                    normalized: true,
                    integer_pointer: false,
                },
            ),
            ElementKind::UV => Some(
                AttributeBinding {
                    components: self.size,
                    data_type: self.data_type,
                    normalized: false,
                    integer_pointer: !(self.data_type is Float),
                },
            ),
            ElementKind::Padding => None,
        }
    }

    /// How this element is bound before a draw: positions and float texture
    /// coordinates go through the plain attribute pointer, normals and colors
    /// are normalized fixed-point, integer texture coordinates go through the
    /// integer pointer, and padding is never bound at all.
    pub fn binding(&self) -> (r: Option<AttributeBinding>)
        ensures
            r == self.spec_binding(),
    {
        match self.kind {
            ElementKind::Position => Some(
                AttributeBinding {
                    components: self.size,
                    data_type: self.data_type,
                    normalized: false,
                    integer_pointer: false,
                },
            ),
            ElementKind::Normal | ElementKind::Color => Some(
                AttributeBinding {
                    components: self.size,
                    data_type: self.data_type,
                    normalized: true,
                    integer_pointer: false,
                },
            ),
            ElementKind::UV => Some(
                AttributeBinding {
                    components: self.size,
                    data_type: self.data_type,
                    normalized: false,
                    integer_pointer: !matches!(self.data_type, DataType::Float),
                },
            ),
            ElementKind::Padding => None,
        }
    }
}

/// Sum of the byte lengths of the first `i` elements.
pub open spec fn prefix_byte_len(elems: Seq<VertexFormatElement>, i: int) -> int
    decreases i,
{
    if i <= 0 {
        0
    } else {
        prefix_byte_len(elems, i - 1) + elems[i - 1].spec_byte_length()
    }
}

/// Prefix sums only grow when every element is at least one byte wide.
pub proof fn lemma_prefix_byte_len_monotone(elems: Seq<VertexFormatElement>, i: int, j: int)
    requires
        0 <= i <= j,
        forall|k: int| 0 <= k < elems.len() ==> (#[trigger] elems[k]).spec_byte_length() >= 0,
        j <= elems.len(),
    ensures
        prefix_byte_len(elems, i) <= prefix_byte_len(elems, j),
    decreases j - i,
{
    if i < j {
        lemma_prefix_byte_len_monotone(elems, i, j - 1);
    }
}

/// Identity tag of a catalogued format. Flags such as `has_overlay` are
/// recomputed by comparing these tags, preserving the identity-comparison
/// semantics of a constant catalogue.
#[derive(Debug, Clone, Copy, PartialEq, Eq, Structural)]
pub enum FormatId {
    BlitScreen,
    PositionColorTextureLightNormal,
    PositionColorTextureOverlayLightNormal,
    PositionTextureColorLight,
    Position,
    PositionTexture,
    PositionTextureColor,
    PositionColorTexture,
    PositionColor,
    PositionColorLight,
    PositionColorTextureLight,
    PositionTextureLightColor,
    PositionTextureColorNormal,
}

/// Abstract content of a vertex format.
#[verifier::ext_equal]
pub struct FormatView {
    pub id: FormatId,
    pub attr_names: Seq<&'static str>,
    pub elements: Seq<VertexFormatElement>,
    pub size: usize,
    pub offsets: Seq<usize>,
}

impl FormatView {
    /// Well-formedness: at least one element, every element at least one byte
    /// wide, and stride and offsets are exactly the prefix sums of the
    /// element byte lengths.
    pub open spec fn wf(self) -> bool {
        &&& self.elements.len() > 0
        &&& self.attr_names.len() == self.elements.len()
        &&& self.offsets.len() == self.elements.len()
        &&& forall|k: int|
            0 <= k < self.elements.len() ==> (#[trigger] self.elements[k]).spec_byte_length() >= 1
        &&& forall|k: int|
            0 <= k < self.offsets.len() ==> self.offsets[k] == prefix_byte_len(self.elements, k)
        &&& self.size == prefix_byte_len(self.elements, self.elements.len() as int)
    }
}

/// An ordered sequence of attribute elements with parallel human-readable
/// names, plus the derived stride and per-element byte offsets.
#[derive(Debug)]
pub struct VertexFormat {
    pub id: FormatId,
    pub attr_names: Vec<&'static str>,
    pub elements: Vec<VertexFormatElement>,
    /// Stride: total byte size of one vertex.
    pub size: usize,
    /// `offsets[i]` is the byte offset of element `i` within one vertex.
    pub offsets: Vec<usize>,
}

impl View for VertexFormat {
    type V = FormatView;

    open spec fn view(&self) -> FormatView {
        FormatView {
            id: self.id,
            attr_names: self.attr_names@,
            elements: self.elements@,
            size: self.size,
            offsets: self.offsets@,
        }
    }
}

impl Clone for VertexFormat {
    /// A copy with the same identity tag and the same layout.
    fn clone(&self) -> (r: VertexFormat)
        ensures
            r@ =~= self@,
    {
        VertexFormat {
            id: self.id,
            attr_names: self.attr_names.clone(),
            elements: self.elements.clone(),
            size: self.size,
            offsets: self.offsets.clone(),
        }
    }
}

impl VertexFormat {
    /// Well-formedness of the format's content.
    pub open spec fn wf(self) -> bool {
        self@.wf()
    }

    /// Constructs a format: `offsets[i]` is the byte sum of elements `0..i`
    /// and `size` (the stride) the byte sum of all elements, computed once.
    /// Constructing a format with zero elements is a programmer error and is
    /// excluded outright.
    pub fn new(id: FormatId, names: Vec<&'static str>, values: Vec<VertexFormatElement>) -> (r:
        VertexFormat)
        requires
            values@.len() > 0,
            names@.len() == values@.len(),
            forall|k: int|
                0 <= k < values@.len() ==> (#[trigger] values@[k]).spec_byte_length() >= 1,
            prefix_byte_len(values@, values@.len() as int) <= usize::MAX,
        ensures
            r.wf(),
            r.id == id,
            r.attr_names == names,
            r.elements == values,
    {
        let mut offsets: Vec<usize> = Vec::new();
        let mut size: usize = 0;
        let n = values.len();
        let mut x: usize = 0;
        while x < n
            invariant
                n == values@.len(),
                0 <= x <= n,
                offsets@.len() == x,
                forall|k: int|
                    0 <= k < values@.len() ==> (#[trigger] values@[k]).spec_byte_length() >= 1,
                prefix_byte_len(values@, n as int) <= usize::MAX,
                size == prefix_byte_len(values@, x as int),
                forall|k: int| 0 <= k < x ==> offsets@[k] == prefix_byte_len(values@, k),
            decreases n - x,
        {
            offsets.push(size);
            proof {
                lemma_prefix_byte_len_monotone(values@, x + 1, n as int);
            }
            size = size + values[x].byte_length();
            x = x + 1;
        }
        VertexFormat { id, attr_names: names, elements: values, size, offsets }
    }

    /// Stride in 32-bit units; positions are 32-bit floats, so this is the
    /// distance between consecutive vertices when the buffer is read as an
    /// array of floats.
    pub fn get_vertex_size_integer(&self) -> (r: usize)
        ensures
            r == self.size / 4,
    {
        self.size / 4
    }
}

/// Offsets of a well-formed format are strictly increasing, and each lies
/// below the stride.
pub proof fn lemma_offsets_strictly_increasing(f: VertexFormat)
    requires
        f.wf(),
    ensures
        forall|i: int, j: int|
            0 <= i < j < f.offsets@.len() ==> f.offsets@[i] < f.offsets@[j],
        forall|i: int| 0 <= i < f.offsets@.len() ==> #[trigger] f.offsets@[i] < f.size,
{
    assert forall|i: int, j: int| 0 <= i < j < f.offsets@.len() implies f.offsets@[i]
        < f.offsets@[j] by {
        lemma_prefix_byte_len_monotone(f.elements@, i + 1, j);
    }
    assert forall|i: int| 0 <= i < f.offsets@.len() implies #[trigger] f.offsets@[i]
        < f.size by {
        lemma_prefix_byte_len_monotone(f.elements@, i + 1, f.elements@.len() as int);
    }
}

// The element catalogue: position is three floats, color four unsigned
// bytes, the base texture coordinate two floats, the overlay and light
// coordinates two shorts on texture units 1 and 2, the normal three signed
// bytes, and padding a single byte.
pub open spec fn spec_position_element() -> VertexFormatElement {
    VertexFormatElement {
        texture_index: 0u8,
        data_type: DataType::Float,
        kind: ElementKind::Position,
        size: 3u32,
    }
}

pub fn position_element() -> (r: VertexFormatElement)
    ensures
        r == spec_position_element(),
{
    VertexFormatElement::new(0, DataType::Float, ElementKind::Position, 3)
}

pub open spec fn spec_color_element() -> VertexFormatElement {
    VertexFormatElement {
        texture_index: 0u8,
        data_type: DataType::UByte,
        kind: ElementKind::Color,
        size: 4u32,
    }
}

pub fn color_element() -> (r: VertexFormatElement)
    ensures
        r == spec_color_element(),
{
    VertexFormatElement::new(0, DataType::UByte, ElementKind::Color, 4)
}

pub open spec fn spec_texture_element() -> VertexFormatElement {
    VertexFormatElement {
        texture_index: 0u8,
        data_type: DataType::Float,
        kind: ElementKind::UV,
        size: 2u32,
    }
}

pub fn texture_element() -> (r: VertexFormatElement)
    ensures
        r == spec_texture_element(),
{
    VertexFormatElement::new(0, DataType::Float, ElementKind::UV, 2)
}

pub open spec fn spec_overlay_element() -> VertexFormatElement {
    VertexFormatElement {
        texture_index: 1u8,
        data_type: DataType::Short,
        kind: ElementKind::UV,
        size: 2u32,
    }
}

pub fn overlay_element() -> (r: VertexFormatElement)
    ensures
        r == spec_overlay_element(),
{
    VertexFormatElement::new(1, DataType::Short, ElementKind::UV, 2)
}

pub open spec fn spec_light_element() -> VertexFormatElement {
    VertexFormatElement {
        texture_index: 2u8,
        data_type: DataType::Short,
        kind: ElementKind::UV,
        size: 2u32,
    }
}

pub fn light_element() -> (r: VertexFormatElement)
    ensures
        r == spec_light_element(),
{
    VertexFormatElement::new(2, DataType::Short, ElementKind::UV, 2)
}

pub open spec fn spec_normal_element() -> VertexFormatElement {
    VertexFormatElement {
        texture_index: 0u8,
        data_type: DataType::Byte,
        kind: ElementKind::Normal,
        size: 3u32,
    }
}

pub fn normal_element() -> (r: VertexFormatElement)
    ensures
        r == spec_normal_element(),
{
    VertexFormatElement::new(0, DataType::Byte, ElementKind::Normal, 3)
}

pub open spec fn spec_padding_element() -> VertexFormatElement {
    VertexFormatElement {
        texture_index: 0u8,
        data_type: DataType::Byte,
        kind: ElementKind::Padding,
        size: 1u32,
    }
}

pub fn padding_element() -> (r: VertexFormatElement)
    ensures
        r == spec_padding_element(),
{
    VertexFormatElement::new(0, DataType::Byte, ElementKind::Padding, 1)
}


/// The elements of a catalogued format, by identity tag.
pub open spec fn spec_catalogue_elements(id: FormatId) -> Seq<VertexFormatElement> {
    match id {
        FormatId::BlitScreen => seq![spec_position_element(), spec_texture_element(), spec_color_element()],
        FormatId::PositionColorTextureLightNormal => seq![spec_position_element(), spec_color_element(), spec_texture_element(), spec_light_element(), spec_normal_element(), spec_padding_element()],
        FormatId::PositionColorTextureOverlayLightNormal => seq![spec_position_element(), spec_color_element(), spec_texture_element(), spec_overlay_element(), spec_light_element(), spec_normal_element(), spec_padding_element()],
        FormatId::PositionTextureColorLight => seq![spec_position_element(), spec_texture_element(), spec_color_element(), spec_light_element()],
        FormatId::Position => seq![spec_position_element()],
        FormatId::PositionTexture => seq![spec_position_element(), spec_texture_element()],
        FormatId::PositionTextureColor => seq![spec_position_element(), spec_texture_element(), spec_color_element()],
        FormatId::PositionColorTexture => seq![spec_position_element(), spec_color_element(), spec_texture_element()],
        FormatId::PositionColor => seq![spec_position_element(), spec_color_element()],
        FormatId::PositionColorLight => seq![spec_position_element(), spec_color_element(), spec_light_element()],
        FormatId::PositionColorTextureLight => seq![spec_position_element(), spec_color_element(), spec_texture_element(), spec_light_element()],
        FormatId::PositionTextureLightColor => seq![spec_position_element(), spec_texture_element(), spec_light_element(), spec_color_element()],
        FormatId::PositionTextureColorNormal => seq![spec_position_element(), spec_texture_element(), spec_color_element(), spec_normal_element(), spec_padding_element()],
    }
}

pub fn blit_screen_format() -> (r: VertexFormat)
    ensures
        r.wf(),
        r.id == FormatId::BlitScreen,
        r.elements@ =~= spec_catalogue_elements(FormatId::BlitScreen),
{
    let names: Vec<&'static str> = vec!["Position", "UV", "Color"];
    let values: Vec<VertexFormatElement> = vec![position_element(), texture_element(), color_element()];
    proof {
        reveal_with_fuel(prefix_byte_len, 9);
        assert(prefix_byte_len(values@, values@.len() as int) <= usize::MAX);
    }
    VertexFormat::new(FormatId::BlitScreen, names, values)
}

pub fn position_color_texture_light_normal_format() -> (r: VertexFormat)
    ensures
        r.wf(),
        r.id == FormatId::PositionColorTextureLightNormal,
        r.elements@ =~= spec_catalogue_elements(FormatId::PositionColorTextureLightNormal),
{
    let names: Vec<&'static str> = vec!["Position", "Color", "UV0", "UV2", "Normal", "Padding"];
    let values: Vec<VertexFormatElement> = vec![position_element(), color_element(), texture_element(), light_element(), normal_element(), padding_element()];
    proof {
        reveal_with_fuel(prefix_byte_len, 9);
        assert(prefix_byte_len(values@, values@.len() as int) <= usize::MAX);
    }
    VertexFormat::new(FormatId::PositionColorTextureLightNormal, names, values)
}

pub fn position_color_texture_overlay_light_normal_format() -> (r: VertexFormat)
    ensures
        r.wf(),
        r.id == FormatId::PositionColorTextureOverlayLightNormal,
        r.elements@ =~= spec_catalogue_elements(FormatId::PositionColorTextureOverlayLightNormal),
{
    let names: Vec<&'static str> = vec!["Position", "Color", "UV0", "UV1", "UV2", "Normal", "Padding"];
    let values: Vec<VertexFormatElement> = vec![position_element(), color_element(), texture_element(), overlay_element(), light_element(), normal_element(), padding_element()];
    proof {
        reveal_with_fuel(prefix_byte_len, 9);
        assert(prefix_byte_len(values@, values@.len() as int) <= usize::MAX);
    }
    VertexFormat::new(FormatId::PositionColorTextureOverlayLightNormal, names, values)
}

pub fn position_texture_color_light_format() -> (r: VertexFormat)
    ensures
        r.wf(),
        r.id == FormatId::PositionTextureColorLight,
        r.elements@ =~= spec_catalogue_elements(FormatId::PositionTextureColorLight),
{
    let names: Vec<&'static str> = vec!["Position", "UV0", "Color", "UV2"];
    let values: Vec<VertexFormatElement> = vec![position_element(), texture_element(), color_element(), light_element()];
    proof {
        reveal_with_fuel(prefix_byte_len, 9);
        assert(prefix_byte_len(values@, values@.len() as int) <= usize::MAX);
    }
    VertexFormat::new(FormatId::PositionTextureColorLight, names, values)
}

pub fn position_format() -> (r: VertexFormat)
    ensures
        r.wf(),
        r.id == FormatId::Position,
        r.elements@ =~= spec_catalogue_elements(FormatId::Position),
{
    let names: Vec<&'static str> = vec!["Position"];
    let values: Vec<VertexFormatElement> = vec![position_element()];
    proof {
        reveal_with_fuel(prefix_byte_len, 9);
        assert(prefix_byte_len(values@, values@.len() as int) <= usize::MAX);
    }
    VertexFormat::new(FormatId::Position, names, values)
}

pub fn position_texture_format() -> (r: VertexFormat)
    ensures
        r.wf(),
        r.id == FormatId::PositionTexture,
        r.elements@ =~= spec_catalogue_elements(FormatId::PositionTexture),
{
    let names: Vec<&'static str> = vec!["Position", "UV0"];
    let values: Vec<VertexFormatElement> = vec![position_element(), texture_element()];
    proof {
        reveal_with_fuel(prefix_byte_len, 9);
        assert(prefix_byte_len(values@, values@.len() as int) <= usize::MAX);
    }
    VertexFormat::new(FormatId::PositionTexture, names, values)
}

pub fn position_texture_color_format() -> (r: VertexFormat)
    ensures
        r.wf(),
        r.id == FormatId::PositionTextureColor,
        r.elements@ =~= spec_catalogue_elements(FormatId::PositionTextureColor),
{
    let names: Vec<&'static str> = vec!["Position", "UV0", "Color"];
    let values: Vec<VertexFormatElement> = vec![position_element(), texture_element(), color_element()];
    proof {
        reveal_with_fuel(prefix_byte_len, 9);
        assert(prefix_byte_len(values@, values@.len() as int) <= usize::MAX);
    }
    VertexFormat::new(FormatId::PositionTextureColor, names, values)
}

pub fn position_color_texture_format() -> (r: VertexFormat)
    ensures
        r.wf(),
        r.id == FormatId::PositionColorTexture,
        r.elements@ =~= spec_catalogue_elements(FormatId::PositionColorTexture),
{
    let names: Vec<&'static str> = vec!["Position", "Color", "UV0"];
    let values: Vec<VertexFormatElement> = vec![position_element(), color_element(), texture_element()];
    proof {
        reveal_with_fuel(prefix_byte_len, 9);
        assert(prefix_byte_len(values@, values@.len() as int) <= usize::MAX);
    }
    VertexFormat::new(FormatId::PositionColorTexture, names, values)
}

pub fn position_color_format() -> (r: VertexFormat)
    ensures
        r.wf(),
        r.id == FormatId::PositionColor,
        r.elements@ =~= spec_catalogue_elements(FormatId::PositionColor),
{
    let names: Vec<&'static str> = vec!["Position", "Color"];
    let values: Vec<VertexFormatElement> = vec![position_element(), color_element()];
    proof {
        reveal_with_fuel(prefix_byte_len, 9);
        assert(prefix_byte_len(values@, values@.len() as int) <= usize::MAX);
    }
    VertexFormat::new(FormatId::PositionColor, names, values)
}

pub fn position_color_light_format() -> (r: VertexFormat)
    ensures
        r.wf(),
        r.id == FormatId::PositionColorLight,
        r.elements@ =~= spec_catalogue_elements(FormatId::PositionColorLight),
{
    let names: Vec<&'static str> = vec!["Position", "Color", "UV2"];
    let values: Vec<VertexFormatElement> = vec![position_element(), color_element(), light_element()];
    proof {
        reveal_with_fuel(prefix_byte_len, 9);
        assert(prefix_byte_len(values@, values@.len() as int) <= usize::MAX);
    }
    VertexFormat::new(FormatId::PositionColorLight, names, values)
}

pub fn position_color_texture_light_format() -> (r: VertexFormat)
    ensures
        r.wf(),
        r.id == FormatId::PositionColorTextureLight,
        r.elements@ =~= spec_catalogue_elements(FormatId::PositionColorTextureLight),
{
    let names: Vec<&'static str> = vec!["Position", "Color", "UV0", "UV2"];
    let values: Vec<VertexFormatElement> = vec![position_element(), color_element(), texture_element(), light_element()];
    proof {
        reveal_with_fuel(prefix_byte_len, 9);
        assert(prefix_byte_len(values@, values@.len() as int) <= usize::MAX);
    }
    VertexFormat::new(FormatId::PositionColorTextureLight, names, values)
}

pub fn position_texture_light_color_format() -> (r: VertexFormat)
    ensures
        r.wf(),
        r.id == FormatId::PositionTextureLightColor,
        r.elements@ =~= spec_catalogue_elements(FormatId::PositionTextureLightColor),
{
    let names: Vec<&'static str> = vec!["Position", "UV0", "UV2", "Color"];
    let values: Vec<VertexFormatElement> = vec![position_element(), texture_element(), light_element(), color_element()];
    proof {
        reveal_with_fuel(prefix_byte_len, 9);
        assert(prefix_byte_len(values@, values@.len() as int) <= usize::MAX);
    }
    VertexFormat::new(FormatId::PositionTextureLightColor, names, values)
}

pub fn position_texture_color_normal_format() -> (r: VertexFormat)
    ensures
        r.wf(),
        r.id == FormatId::PositionTextureColorNormal,
        r.elements@ =~= spec_catalogue_elements(FormatId::PositionTextureColorNormal),
{
    let names: Vec<&'static str> = vec!["Position", "UV0", "Color", "Normal", "Padding"];
    let values: Vec<VertexFormatElement> = vec![position_element(), texture_element(), color_element(), normal_element(), padding_element()];
    proof {
        reveal_with_fuel(prefix_byte_len, 9);
        assert(prefix_byte_len(values@, values@.len() as int) <= usize::MAX);
    }
    VertexFormat::new(FormatId::PositionTextureColorNormal, names, values)
}


} // verus!
