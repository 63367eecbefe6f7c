//! Buffer builder: a stateful accumulator that packs per-vertex attribute
//! writes into a growable byte buffer according to the active vertex format,
//! tracks completed draws, and orders translucent quads back to front.
//!
//! Floats cross this boundary as IEEE-754 bit patterns: positions, the
//! camera reference point, and per-quad distance keys are all `u32` bit
//! patterns, so the encoding is bit-exact. Averaging corner positions into a
//! centroid and measuring its distance from the camera are floating-point
//! work the embedder does; everything around those two steps is here.

use vstd::prelude::*;

use crate::codec::{
    grow_to, get_u32_be_at, put_u8_at, put_u16_be_at, put_u32_be_at, u16_be_byte, u32_be_byte,
    u32_from_be,
};
use crate::schema::{ElementKind, FormatId, FormatView, VertexFormat, VertexFormatElement};
use crate::sort::{is_sorted_quad_order, sorted_quad_order, spec_sorted_quad_order};
use crate::topology::{DrawMode, IntType};

verus! {

/// A 3D vector as three IEEE-754 bit patterns.
#[derive(Debug, Clone, Copy, PartialEq, Eq, Structural)]
pub struct Vec3Bits {
    pub x: u32,
    pub y: u32,
    pub z: u32,
}

/// The two diagonal corner positions of one quad (its first and third
/// vertex); their component-wise midpoint is the quad's sort centroid.
#[derive(Debug, Clone, Copy, PartialEq, Eq, Structural)]
pub struct QuadCorners {
    pub first: Vec3Bits,
    pub third: Vec3Bits,
}

/// A misuse of the builder that the caller must not commit.
#[derive(Debug, Clone, Copy, PartialEq, Eq, Structural)]
pub enum BuildError {
    /// `begin` was called while a build session was already open.
    AlreadyBuilding,
}

/// Rounds `value` up to the next multiple of `multiple`.
pub open spec fn spec_round_up(value: int, multiple: int) -> int {
    ((value + multiple - 1) / multiple) * multiple
}

/// A value rounded up to a positive multiple lands on a multiple, at or
/// above the value and less than one multiple beyond it.
pub proof fn lemma_round_up(value: int, multiple: int)
    requires
        value >= 0,
        multiple > 0,
    ensures
        spec_round_up(value, multiple) % multiple == 0,
        value <= spec_round_up(value, multiple) < value + multiple,
{
    let q = (value + multiple - 1) / multiple;
    assert(q * multiple % multiple == 0 && value <= q * multiple < value + multiple)
        by (nonlinear_arith)
        requires
            value >= 0,
            multiple > 0,
            q == (value + multiple - 1) / multiple,
    ;
}

pub fn round_up_to_multiple(value: usize, multiple: usize) -> (r: usize)
    requires
        multiple > 0,
        value + multiple - 1 <= usize::MAX,
    ensures
        r == spec_round_up(value as int, multiple as int),
{
    proof {
        lemma_round_up(value as int, multiple as int);
    }
    (value + (multiple - 1)) / multiple * multiple
}

/// One completed draw not yet consumed: what was written and how the device
/// must interpret it.
#[derive(Debug)]
pub struct DrawArrayParameters {
    pub vertex_format: VertexFormat,
    /// Entries to draw: the index count `draw_mode.get_size(primitive_count)`.
    pub vertex_count: usize,
    /// Vertices actually written into the vertex region.
    pub primitive_count: usize,
    pub draw_mode: DrawMode,
    pub index_element_type: IntType,
    pub camera_offset: bool,
    pub textured: bool,
}

/// Abstract content of one completed draw's parameters.
#[verifier::ext_equal]
pub struct ParamsView {
    pub vertex_format: FormatView,
    pub vertex_count: usize,
    pub primitive_count: usize,
    pub draw_mode: DrawMode,
    pub index_element_type: IntType,
    pub camera_offset: bool,
    pub textured: bool,
}

impl ParamsView {
    /// Byte size of the draw's vertex region.
    pub open spec fn spec_limit(self) -> int {
        self.primitive_count * self.vertex_format.size
    }

    /// Byte size of the draw's index region: textured-only draws carry no
    /// index region.
    pub open spec fn spec_draw_length(self) -> int {
        if self.textured {
            0
        } else {
            self.vertex_count * self.index_element_type.spec_size()
        }
    }

    /// Byte size of the whole draw region: vertex data followed by the
    /// optional index data.
    pub open spec fn spec_draw_start(self) -> int {
        self.spec_limit() + self.spec_draw_length()
    }

    /// The draw region was laid out within the machine's address range.
    pub open spec fn wf(self) -> bool {
        &&& self.vertex_format.wf()
        &&& self.spec_draw_start() + 3 <= usize::MAX
    }
}

impl View for DrawArrayParameters {
    type V = ParamsView;

    open spec fn view(&self) -> ParamsView {
        ParamsView {
            vertex_format: self.vertex_format@,
            vertex_count: self.vertex_count,
            primitive_count: self.primitive_count,
            draw_mode: self.draw_mode,
            index_element_type: self.index_element_type,
            camera_offset: self.camera_offset,
            textured: self.textured,
        }
    }
}

impl Clone for DrawArrayParameters {
    fn clone(&self) -> (r: DrawArrayParameters)
        ensures
            r@ =~= self@,
    {
        DrawArrayParameters {
            vertex_format: self.vertex_format.clone(),
            vertex_count: self.vertex_count,
            primitive_count: self.primitive_count,
            draw_mode: self.draw_mode,
            index_element_type: self.index_element_type,
            camera_offset: self.camera_offset,
            textured: self.textured,
        }
    }
}

impl DrawArrayParameters {
    /// Byte size of the draw's vertex region:
    /// `vertices written * stride`.
    pub fn get_limit(&self) -> (r: usize)
        requires
            self@.spec_limit() <= usize::MAX,
        ensures
            r == self@.spec_limit(),
    {
        self.primitive_count * self.vertex_format.size
    }

    /// Byte size of the draw's index region, zero for textured-only draws.
    pub fn get_draw_length(&self) -> (r: usize)
        requires
            self@.spec_draw_length() <= usize::MAX,
        ensures
            r == self@.spec_draw_length(),
    {
        if self.textured {
            0
        } else {
            self.vertex_count * self.index_element_type.size()
        }
    }

    /// Byte size of the whole draw region.
    pub fn get_draw_start(&self) -> (r: usize)
        requires
            self@.spec_draw_start() <= usize::MAX,
        ensures
            r == self@.spec_draw_start(),
    {
        proof {
            assert(self@.spec_limit() >= 0 && self@.spec_draw_length() >= 0) by (nonlinear_arith);
        }
        self.get_limit() + self.get_draw_length()
    }
}


/// The two formats that declare extra texture units (overlay and light)
/// gate which attributes later per-vertex writes must supply.
pub open spec fn spec_format_has_texture(id: FormatId) -> bool {
    id == FormatId::PositionColorTextureOverlayLightNormal || id
        == FormatId::PositionColorTextureLightNormal
}

/// Only the overlay-bearing format has the overlay attribute.
pub open spec fn spec_format_has_overlay(id: FormatId) -> bool {
    id == FormatId::PositionColorTextureOverlayLightNormal
}

/// Byte length of the draw regions still queued from `from` on, each
/// rounded up to a four-byte boundary.
pub open spec fn region_sum(params: Seq<ParamsView>, from: int) -> int
    decreases params.len() - from,
{
    if from < 0 || from >= params.len() {
        0
    } else {
        spec_round_up(params[from].spec_draw_start(), 4) + region_sum(params, from + 1)
    }
}

pub proof fn lemma_region_sum_nonneg(params: Seq<ParamsView>, from: int)
    requires
        forall|i: int| from <= i < params.len() ==> (#[trigger] params[i]).wf(),
    ensures
        region_sum(params, from) >= 0,
    decreases params.len() - from,
{
    if 0 <= from < params.len() {
        lemma_round_up(params[from].spec_draw_start(), 4);
        lemma_region_sum_nonneg(params, from + 1);
    }
}

/// `buf` zero-extended to at least `len` bytes.
pub open spec fn spec_grown(buf: Seq<u8>, len: int) -> Seq<u8> {
    if buf.len() >= len {
        buf
    } else {
        buf + Seq::new((len - buf.len()) as nat, |i: int| 0u8)
    }
}

/// `buf`, zero-extended so the write fits, with `bytes` placed at `pos`.
pub open spec fn spec_put(buf: Seq<u8>, pos: int, bytes: Seq<u8>) -> Seq<u8> {
    spec_grown(buf, pos + bytes.len()).map(
        |i: int, b: u8|
            if pos <= i < pos + bytes.len() {
                bytes[i - pos]
            } else {
                b
            },
    )
}

/// The 32-bit value at float index `index`: the buffer read as an array of
/// big-endian 32-bit fields.
pub open spec fn spec_float_bits_at(buf: Seq<u8>, index: int) -> u32 {
    u32_from_be(buf[4 * index], buf[4 * index + 1], buf[4 * index + 2], buf[4 * index + 3])
}

/// The index of the next element at or after `from` that is not padding;
/// padding is never written, so the write cursor skips it.
pub open spec fn next_non_padding(elems: Seq<VertexFormatElement>, from: int) -> int
    decreases elems.len() - from,
{
    if from < 0 || from >= elems.len() {
        elems.len() as int
    } else if elems[from].kind is Padding {
        next_non_padding(elems, from + 1)
    } else {
        from
    }
}

/// Overwrites every byte of `buf` with zero, keeping its length.
fn zero_fill(buf: &mut Vec<u8>)
    ensures
        final(buf)@ =~= Seq::new(old(buf)@.len(), |i: int| 0u8),
{
    let n = buf.len();
    let mut i: usize = 0;
    while i < n
        invariant
            n == buf@.len(),
            n == old(buf)@.len(),
            i <= n,
            forall|k: int| 0 <= k < i ==> buf@[k] == 0u8,
            forall|k: int| i <= k < n ==> buf@[k] == old(buf)@[k],
        decreases n - i,
    {
        buf.set(i, 0u8);
        i = i + 1;
    }
}

/// Snapshot of everything needed to suspend one build and resume it later:
/// draw mode, vertex count, cached sort-key sources and camera reference.
#[derive(Debug)]
pub struct State {
    pub draw_mode: Option<DrawMode>,
    pub vertex_count: usize,
    pub sort_keys: Option<Vec<QuadCorners>>,
    pub camera: Option<Vec3Bits>,
}

/// Abstract content of a saved builder state.
#[verifier::ext_equal]
pub struct StateView {
    pub draw_mode: Option<DrawMode>,
    pub vertex_count: usize,
    pub sort_keys: Option<Seq<QuadCorners>>,
    pub camera: Option<Vec3Bits>,
}

impl View for State {
    type V = StateView;

    open spec fn view(&self) -> StateView {
        StateView {
            draw_mode: self.draw_mode,
            vertex_count: self.vertex_count,
            sort_keys: match self.sort_keys {
                Some(v) => Some(v@),
                None => None,
            },
            camera: self.camera,
        }
    }
}

/// Abstract state of the buffer builder.
#[verifier::ext_equal]
pub struct BuilderView {
    /// The backing byte buffer.
    pub buffer: Seq<u8>,
    /// Byte offset where the current draw's data begins.
    pub build_start: usize,
    /// Index of the oldest unconsumed entry of `parameters`.
    pub last_parameter_index: usize,
    /// Byte offset the next consumed draw region starts at.
    pub next_draw_start: usize,
    /// Which element of the format the next write must supply.
    pub current_element_id: usize,
    /// Whether the active format declares the extra texture units.
    pub textures: bool,
    /// Whether the active format declares the overlay attribute.
    pub has_overlay: bool,
    /// True between `begin` and the session's `end`.
    pub building: bool,
    /// Whether a camera reference point applies to the current draw.
    pub camera_offset: bool,
    /// Byte offset of the vertex currently being written.
    pub element_offset: usize,
    /// Vertices written in the current draw.
    pub vertex_count: usize,
    pub format: Option<FormatView>,
    pub draw_mode: Option<DrawMode>,
    /// Cached per-quad corner positions for the distance sort.
    pub sort_keys: Option<Seq<QuadCorners>>,
    /// Camera reference point for the distance sort.
    pub camera: Option<Vec3Bits>,
    /// Completed draws not yet consumed.
    pub parameters: Seq<ParamsView>,
}

impl BuilderView {
    pub open spec fn fmt(self) -> FormatView {
        self.format->0
    }

    pub open spec fn wf(self) -> bool {
        &&& self.building ==> self.format is Some && self.draw_mode is Some
        &&& self.format matches Some(f) ==> f.wf() && self.textures == spec_format_has_texture(
            f.id,
        ) && self.has_overlay == spec_format_has_overlay(f.id)
        &&& self.building ==> self.current_element_id <= self.fmt().elements.len()
        &&& self.build_start % 4 == 0
        &&& self.next_draw_start % 4 == 0
        &&& self.last_parameter_index <= self.parameters.len()
        &&& forall|i: int|
            self.last_parameter_index <= i < self.parameters.len() ==> (
            #[trigger] self.parameters[i]).wf()
        &&& self.build_start == self.next_draw_start + region_sum(
            self.parameters,
            self.last_parameter_index as int,
        )
        &&& self.buffer.len() >= self.build_start
    }
}

/// The builder: writes vertices of the active format into the backing
/// buffer, one attribute at a time in declaration order, and queues one
/// `DrawArrayParameters` per completed draw.
pub struct BufferBuilder {
    buffer: Vec<u8>,
    build_start: usize,
    last_parameter_index: usize,
    next_draw_start: usize,
    current_element_id: usize,
    textures: bool,
    has_overlay: bool,
    building: bool,
    camera_offset: bool,
    element_offset: usize,
    vertex_count: usize,
    format: Option<VertexFormat>,
    draw_mode: Option<DrawMode>,
    sort_keys: Option<Vec<QuadCorners>>,
    camera: Option<Vec3Bits>,
    parameters: Vec<DrawArrayParameters>,
}

impl View for BufferBuilder {
    type V = BuilderView;

    closed spec fn view(&self) -> BuilderView {
        BuilderView {
            buffer: self.buffer@,
            build_start: self.build_start,
            last_parameter_index: self.last_parameter_index,
            next_draw_start: self.next_draw_start,
            current_element_id: self.current_element_id,
            textures: self.textures,
            has_overlay: self.has_overlay,
            building: self.building,
            camera_offset: self.camera_offset,
            element_offset: self.element_offset,
            vertex_count: self.vertex_count,
            format: match self.format {
                Some(ref f) => Some(f@),
                None => None,
            },
            draw_mode: self.draw_mode,
            sort_keys: match self.sort_keys {
                Some(ref v) => Some(v@),
                None => None,
            },
            camera: self.camera,
            parameters: Seq::new(self.parameters@.len(), |i: int| self.parameters@[i]@),
        }
    }
}

impl BufferBuilder {
    /// A fresh builder: empty buffer, no session open, no camera reference.
    pub fn new(initial_capacity: usize) -> (r: BufferBuilder)
        requires
            initial_capacity * 6 <= usize::MAX,
        ensures
            r@ =~= (BuilderView {
                buffer: Seq::empty(),
                build_start: 0usize,
                last_parameter_index: 0usize,
                next_draw_start: 0usize,
                current_element_id: 0usize,
                textures: false,
                has_overlay: false,
                building: false,
                camera_offset: false,
                element_offset: 0usize,
                vertex_count: 0usize,
                format: None,
                draw_mode: None,
                sort_keys: None,
                camera: None,
                parameters: Seq::empty(),
            }),
            r@.wf(),
    {
        BufferBuilder {
            buffer: Vec::with_capacity(initial_capacity * 6),
            build_start: 0,
            last_parameter_index: 0,
            next_draw_start: 0,
            current_element_id: 0,
            textures: false,
            has_overlay: false,
            building: false,
            camera_offset: false,
            element_offset: 0,
            vertex_count: 0,
            format: None,
            draw_mode: None,
            sort_keys: None,
            camera: None,
            parameters: Vec::new(),
        }
    }

    /// Installs the format for the session. A format with the identity tag
    /// already active is kept as it is; otherwise the new format is recorded
    /// and the texture and overlay flags are recomputed from its tag.
    fn set_format(&mut self, format: &VertexFormat)
        requires
            format@.wf(),
            old(self)@.format matches Some(f) ==> old(self)@.textures
                == spec_format_has_texture(f.id) && old(self)@.has_overlay
                == spec_format_has_overlay(f.id),
        ensures
            final(self)@ =~= (BuilderView {
                format: Some(
                    if old(self)@.format matches Some(f) && f.id == format@.id {
                        old(self)@.fmt()
                    } else {
                        format@
                    },
                ),
                textures: spec_format_has_texture(format@.id),
                has_overlay: spec_format_has_overlay(format@.id),
                ..old(self)@
            }),
    {
        let same = match self.format {
            Some(ref f) => f.id == format.id,
            None => false,
        };
        if !same {
            self.format = Some(format.clone());
            self.textures = format.id == FormatId::PositionColorTextureOverlayLightNormal
                || format.id == FormatId::PositionColorTextureLightNormal;
            self.has_overlay = format.id == FormatId::PositionColorTextureOverlayLightNormal;
        }
    }

    /// Opens a build session. A second `begin` without an intervening
    /// session close is a misuse and is reported, both times, without
    /// touching the builder. On success the write cursor returns to
    /// `build_start`, the mode and format are installed, the session's
    /// vertex count restarts at zero, the texture and overlay flags are
    /// recomputed from the format's identity tag, and the buffer is zeroed.
    pub fn begin(&mut self, mode: DrawMode, format: &VertexFormat) -> (r: Result<(), BuildError>)
        requires
            old(self)@.wf(),
            format@.wf(),
        ensures
            final(self)@.wf(),
            old(self)@.building ==> r == Err::<(), BuildError>(BuildError::AlreadyBuilding)
                && final(self)@ =~= old(self)@,
            !old(self)@.building ==> r == Ok::<(), BuildError>(()) && final(self)@ =~= (
            BuilderView {
                building: true,
                draw_mode: Some(mode),
                format: Some(
                    if old(self)@.format matches Some(f) && f.id == format@.id {
                        old(self)@.fmt()
                    } else {
                        format@
                    },
                ),
                textures: spec_format_has_texture(format@.id),
                has_overlay: spec_format_has_overlay(format@.id),
                current_element_id: 0usize,
                vertex_count: 0usize,
                element_offset: old(self)@.build_start,
                buffer: Seq::new(old(self)@.buffer.len(), |i: int| 0u8),
                ..old(self)@
            }),
    {
        if self.building {
            return Err(BuildError::AlreadyBuilding);
        }
        self.building = true;
        self.draw_mode = Some(mode);
        self.set_format(format);
        self.current_element_id = 0;
        self.vertex_count = 0;
        self.element_offset = self.build_start;
        zero_fill(&mut self.buffer);
        Ok(())
    }

    /// Rewinds all position bookkeeping and the sort-key cache to the start
    /// of the buffer, zero-fills it, and drops the queue of completed draws;
    /// used between frames.
    pub fn reset(&mut self)
        ensures
            final(self)@ =~= (BuilderView {
                buffer: Seq::new(old(self)@.buffer.len(), |i: int| 0u8),
                build_start: 0usize,
                next_draw_start: 0usize,
                element_offset: 0usize,
                sort_keys: None,
                last_parameter_index: 0usize,
                parameters: Seq::empty(),
                ..old(self)@
            }),
            old(self)@.wf() ==> final(self)@.wf(),
    {
        zero_fill(&mut self.buffer);
        self.build_start = 0;
        self.next_draw_start = 0;
        self.element_offset = 0;
        self.sort_keys = None;
        self.last_parameter_index = 0;
        self.parameters.clear();
    }

    /// Whether a build session is currently open.
    pub fn is_building(&self) -> (r: bool)
        ensures
            r == self@.building,
    {
        self.building
    }

    /// Snapshot of the suspendable part of the build: draw mode, vertex
    /// count, sort-key cache and camera reference.
    pub fn pop_state(&self) -> (r: State)
        ensures
            r@ =~= (StateView {
                draw_mode: self@.draw_mode,
                vertex_count: self@.vertex_count,
                sort_keys: self@.sort_keys,
                camera: self@.camera,
            }),
    {
        State {
            draw_mode: self.draw_mode,
            vertex_count: self.vertex_count,
            sort_keys: match self.sort_keys {
                Some(ref v) => Some(copy_corners(v)),
                None => None,
            },
            camera: self.camera,
        }
    }

    /// Resumes a suspended build: the whole buffer is re-zeroed, the write
    /// cursor returns to `build_start`, and draw mode, vertex count, sort
    /// keys and camera come back from the snapshot. Prior bytes do not
    /// persist across a restore.
    pub fn restore_state(&mut self, state: State)
        requires
            old(self)@.wf(),
            old(self)@.building ==> state@.draw_mode is Some,
        ensures
            final(self)@.wf(),
            final(self)@ =~= (BuilderView {
                buffer: Seq::new(old(self)@.buffer.len(), |i: int| 0u8),
                draw_mode: state@.draw_mode,
                vertex_count: state@.vertex_count,
                element_offset: old(self)@.build_start,
                sort_keys: state@.sort_keys,
                camera: state@.camera,
                camera_offset: true,
                ..old(self)@
            }),
    {
        zero_fill(&mut self.buffer);
        self.draw_mode = state.draw_mode;
        self.vertex_count = state.vertex_count;
        self.element_offset = self.build_start;
        self.sort_keys = state.sort_keys;
        self.camera = state.camera;
        self.camera_offset = true;
    }

    /// Byte position the next write of the current attribute goes to, at
    /// intra-attribute offset `index`.
    pub open spec fn spec_write_pos(self, index: int) -> int {
        self@.element_offset + self@.fmt().offsets[self@.current_element_id as int] + index
    }

    /// Places one byte of the current attribute at intra-attribute offset
    /// `index`; a write beyond the attribute's declared byte length is a
    /// misuse and is excluded outright.
    pub fn put_byte(&mut self, index: usize, value: u8)
        requires
            old(self)@.wf(),
            old(self)@.building,
            old(self)@.current_element_id < old(self)@.fmt().elements.len(),
            !(old(self)@.fmt().elements[old(self)@.current_element_id as int].kind is Padding),
            index + 1 <= old(self)@.fmt().elements[old(self)@.current_element_id
                as int].spec_byte_length(),
            old(self).spec_write_pos(index as int) + 1 <= usize::MAX,
        ensures
            final(self)@ =~= (BuilderView {
                buffer: spec_put(old(self)@.buffer, old(self).spec_write_pos(index as int), seq![value]),
                ..old(self)@
            }),
            final(self)@.wf(),
    {
        let pos = self.write_pos(index);
        grow_to(&mut self.buffer, pos + 1);
        put_u8_at(&mut self.buffer, pos, value);
        proof {
            assert(self@.buffer =~= spec_put(
                old(self)@.buffer,
                old(self).spec_write_pos(index as int),
                seq![value],
            ));
        }
    }

    /// Places a 16-bit value of the current attribute at intra-attribute
    /// offset `index`, big-endian.
    pub fn put_short(&mut self, index: usize, value: u16)
        requires
            old(self)@.wf(),
            old(self)@.building,
            old(self)@.current_element_id < old(self)@.fmt().elements.len(),
            !(old(self)@.fmt().elements[old(self)@.current_element_id as int].kind is Padding),
            index + 2 <= old(self)@.fmt().elements[old(self)@.current_element_id
                as int].spec_byte_length(),
            old(self).spec_write_pos(index as int) + 2 <= usize::MAX,
        ensures
            final(self)@ =~= (BuilderView {
                buffer: spec_put(
                    old(self)@.buffer,
                    old(self).spec_write_pos(index as int),
                    seq![u16_be_byte(value, 0), u16_be_byte(value, 1)],
                ),
                ..old(self)@
            }),
            final(self)@.wf(),
    {
        let pos = self.write_pos(index);
        grow_to(&mut self.buffer, pos + 2);
        put_u16_be_at(&mut self.buffer, pos, value);
        proof {
            assert(self@.buffer =~= spec_put(
                old(self)@.buffer,
                old(self).spec_write_pos(index as int),
                seq![u16_be_byte(value, 0), u16_be_byte(value, 1)],
            ));
        }
    }

    /// Places a 32-bit float, given as its IEEE-754 bit pattern, of the
    /// current attribute at intra-attribute offset `index`, big-endian.
    pub fn put_float(&mut self, index: usize, bits: u32)
        requires
            old(self)@.wf(),
            old(self)@.building,
            old(self)@.current_element_id < old(self)@.fmt().elements.len(),
            !(old(self)@.fmt().elements[old(self)@.current_element_id as int].kind is Padding),
            index + 4 <= old(self)@.fmt().elements[old(self)@.current_element_id
                as int].spec_byte_length(),
            old(self).spec_write_pos(index as int) + 4 <= usize::MAX,
        ensures
            final(self)@ =~= (BuilderView {
                buffer: spec_put(
                    old(self)@.buffer,
                    old(self).spec_write_pos(index as int),
                    seq![
                        u32_be_byte(bits, 0),
                        u32_be_byte(bits, 1),
                        u32_be_byte(bits, 2),
                        u32_be_byte(bits, 3),
                    ],
                ),
                ..old(self)@
            }),
            final(self)@.wf(),
    {
        let pos = self.write_pos(index);
        grow_to(&mut self.buffer, pos + 4);
        put_u32_be_at(&mut self.buffer, pos, bits);
        proof {
            assert(self@.buffer =~= spec_put(
                old(self)@.buffer,
                old(self).spec_write_pos(index as int),
                seq![
                    u32_be_byte(bits, 0),
                    u32_be_byte(bits, 1),
                    u32_be_byte(bits, 2),
                    u32_be_byte(bits, 3),
                ],
            ));
        }
    }

    fn write_pos(&self, index: usize) -> (r: usize)
        requires
            self@.wf(),
            self@.building,
            self@.current_element_id < self@.fmt().elements.len(),
            self.spec_write_pos(index as int) <= usize::MAX,
        ensures
            r == self.spec_write_pos(index as int),
    {
        let f = self.format.as_ref().unwrap();
        self.element_offset + f.offsets[self.current_element_id] + index
    }

    /// Moves on to the next attribute of the vertex, skipping padding
    /// elements, which are never written.
    pub fn next_element(&mut self)
        requires
            old(self)@.wf(),
            old(self)@.building,
            old(self)@.current_element_id < old(self)@.fmt().elements.len(),
        ensures
            final(self)@ =~= (BuilderView {
                current_element_id: final(self)@.current_element_id,
                ..old(self)@
            }),
            final(self)@.current_element_id == next_non_padding(
                old(self)@.fmt().elements,
                old(self)@.current_element_id + 1,
            ),
            final(self)@.wf(),
    {
        let f = self.format.as_ref().unwrap();
        let n = f.elements.len();
        let mut cur = self.current_element_id + 1;
        while cur < n && matches!(f.elements[cur].kind, ElementKind::Padding)
            invariant
                cur <= n,
                n == f@.elements.len(),
                next_non_padding(f@.elements, cur as int) == next_non_padding(
                    f@.elements,
                    old(self)@.current_element_id + 1,
                ),
            decreases n - cur,
        {
            cur = cur + 1;
        }
        self.current_element_id = cur;
    }

    /// Closes the current vertex: the padding tail of the vertex is
    /// materialized as zero bytes, the cursor advances by the stride, the
    /// vertex count grows by one and the next vertex starts at its first
    /// attribute. Attributes must have been supplied in declaration order,
    /// so the element cursor must have run through the whole format.
    pub fn end_vertex(&mut self)
        requires
            old(self)@.wf(),
            old(self)@.building,
            old(self)@.current_element_id == old(self)@.fmt().elements.len(),
            old(self)@.element_offset + old(self)@.fmt().size <= usize::MAX,
            old(self)@.vertex_count < usize::MAX,
        ensures
            final(self)@ =~= (BuilderView {
                buffer: spec_grown(
                    old(self)@.buffer,
                    old(self)@.element_offset + old(self)@.fmt().size,
                ),
                element_offset: (old(self)@.element_offset + old(self)@.fmt().size) as usize,
                vertex_count: (old(self)@.vertex_count + 1) as usize,
                current_element_id: 0usize,
                ..old(self)@
            }),
            final(self)@.wf(),
    {
        let stride = self.format.as_ref().unwrap().size;
        grow_to(&mut self.buffer, self.element_offset + stride);
        proof {
            assert(self.buffer@ =~= spec_grown(
                old(self)@.buffer,
                old(self)@.element_offset + old(self)@.fmt().size,
            ));
        }
        self.element_offset = self.element_offset + stride;
        self.vertex_count = self.vertex_count + 1;
        self.current_element_id = 0;
    }

    /// Reads back the 32-bit field at float index `index`: the buffer seen
    /// as an array of big-endian 32-bit values, as the distance sort reads
    /// positions.
    pub fn get_float(&self, index: usize) -> (r: u32)
        requires
            4 * index + 4 <= self@.buffer.len(),
        ensures
            r == spec_float_bits_at(self@.buffer, index as int),
    {
        let n = self.buffer.len();
        proof {
            assert(4 * index + 4 <= n);
        }
        get_u32_be_at(&self.buffer, 4 * index)
    }

    /// The diagonal corner positions of quad `m` in the current draw: the
    /// position of its first vertex and of its third, read from the buffer
    /// as big-endian float bit patterns.
    pub open spec fn spec_quad_corners(buf: Seq<u8>, build_start: int, stride: int, m: int) -> QuadCorners {
        let i = build_start / 4;
        let j = stride / 4;
        let k = 4 * j;
        QuadCorners {
            first: Vec3Bits {
                x: spec_float_bits_at(buf, i + m * k),
                y: spec_float_bits_at(buf, i + m * k + 1),
                z: spec_float_bits_at(buf, i + m * k + 2),
            },
            third: Vec3Bits {
                x: spec_float_bits_at(buf, i + m * k + 2 * j),
                y: spec_float_bits_at(buf, i + m * k + 2 * j + 1),
                z: spec_float_bits_at(buf, i + m * k + 2 * j + 2),
            },
        }
    }

    /// One corner pair per quad of the current draw, in insertion order.
    /// The embedder averages each pair into a centroid and measures its
    /// distance from the camera; that floating-point step happens outside.
    pub fn get_parameter_vec(&self) -> (r: Vec<QuadCorners>)
        requires
            self@.wf(),
            self@.format is Some,
            self@.draw_mode == Some(DrawMode::Quads),
            self@.fmt().size % 4 == 0,
            self@.fmt().size >= 12,
            self@.buffer.len() >= self@.build_start + self@.vertex_count * self@.fmt().size,
        ensures
            r@.len() == self@.vertex_count / 4,
            forall|m: int|
                0 <= m < r@.len() ==> r@[m] == Self::spec_quad_corners(
                    self@.buffer,
                    self@.build_start as int,
                    self@.fmt().size as int,
                    m,
                ),
    {
        let f = self.format.as_ref().unwrap();
        let stride = f.size;
        let i = self.build_start / 4;
        let j = stride / 4;
        let l = self.vertex_count / 4;
        let ghost bs = self@.build_start as int;
        let ghost vc = self@.vertex_count as int;
        let ghost blen = self@.buffer.len() as int;
        proof {
            assert(4 * (bs / 4) == bs && 4 * ((stride as int) / 4) == stride && (vc / 4) * 4
                <= vc)
                by (nonlinear_arith)
                requires
                    bs % 4 == 0,
                    (stride as int) % 4 == 0,
                    bs >= 0,
                    vc >= 0,
            ;
        }
        let buf_len = self.buffer.len();
        proof {
            assert(blen == buf_len as int);
        }
        let mut r: Vec<QuadCorners> = Vec::new();
        let mut m: usize = 0;
        while m < l
            invariant
                self@.wf(),
                self@.format is Some,
                self@.fmt().size % 4 == 0,
                self@.fmt().size >= 12,
                stride == self@.fmt().size,
                bs == self@.build_start as int,
                vc == self@.vertex_count as int,
                blen == self@.buffer.len() as int,
                blen >= bs + vc * stride,
                i == bs / 4,
                4 * (i as int) == bs,
                j == stride as int / 4,
                4 * (j as int) == stride,
                (j as int) >= 3,
                l == vc / 4,
                4 * (l as int) <= vc,
                blen <= usize::MAX,
                m <= l,
                r@.len() == m,
                forall|q: int|
                    0 <= q < m ==> r@[q] == Self::spec_quad_corners(
                        self@.buffer,
                        bs,
                        stride as int,
                        q,
                    ),
            decreases l - m,
        {
            proof {
                let ii = i as int;
                let ji = j as int;
                let mi = m as int;
                assert(mi * (4 * ji) <= usize::MAX && ii + mi * (4 * ji) + 2 * ji + 2
                    <= usize::MAX && 4 * (ii + mi * (4 * ji) + 2 * ji + 2) + 4 <= blen)
                    by (nonlinear_arith)
                    requires
                        blen >= bs + vc * stride,
                        4 * ii == bs,
                        4 * ji == stride,
                        ji >= 3,
                        mi < (l as int),
                        4 * (l as int) <= vc,
                        vc >= 0,
                        bs >= 0,
                        mi >= 0,
                        blen <= usize::MAX,
                ;
            }
            let base = i + m * (4 * j);
            let x1 = self.get_float(base);
            let y1 = self.get_float(base + 1);
            let z1 = self.get_float(base + 2);
            let x3 = self.get_float(base + 2 * j);
            let y3 = self.get_float(base + 2 * j + 1);
            let z3 = self.get_float(base + 2 * j + 2);
            r.push(
                QuadCorners {
                    first: Vec3Bits { x: x1, y: y1, z: z1 },
                    third: Vec3Bits { x: x3, y: y3, z: z3 },
                },
            );
            proof {
                assert(r@[m as int] == Self::spec_quad_corners(self@.buffer, bs, stride as int, m as int));
            }
            m = m + 1;
        }
        r
    }

    /// Records the camera reference point for back-to-front quad sorting.
    /// Distance sorting is only meaningful for quads: with any other active
    /// draw mode this does nothing. The per-quad corner pairs are computed
    /// once and cached; they are invalidated elsewhere whenever camera or
    /// geometry changes.
    pub fn set_camera_position(&mut self, camera: Vec3Bits)
        requires
            old(self)@.wf(),
            old(self)@.draw_mode == Some(DrawMode::Quads) ==> old(self)@.format is Some && old(
                self,
            )@.fmt().size % 4 == 0 && old(self)@.fmt().size >= 12 && old(self)@.buffer.len()
                >= old(self)@.build_start + old(self)@.vertex_count * old(self)@.fmt().size,
        ensures
            final(self)@.wf(),
            old(self)@.draw_mode != Some(DrawMode::Quads) ==> final(self)@ =~= old(self)@,
            old(self)@.draw_mode == Some(DrawMode::Quads) ==> final(self)@ =~= (BuilderView {
                camera: Some(camera),
                camera_offset: true,
                sort_keys: Some(
                    match old(self)@.sort_keys {
                        Some(sk) => sk,
                        None => Seq::new(
                            (old(self)@.vertex_count / 4) as nat,
                            |m: int|
                                Self::spec_quad_corners(
                                    old(self)@.buffer,
                                    old(self)@.build_start as int,
                                    old(self)@.fmt().size as int,
                                    m,
                                ),
                        ),
                    },
                ),
                ..old(self)@
            }),
    {
        let is_quads = match self.draw_mode {
            Some(DrawMode::Quads) => true,
            _ => false,
        };
        if !is_quads {
            return ;
        }
        self.camera = Some(camera);
        self.camera_offset = true;
        if self.sort_keys.is_none() {
            let corners = self.get_parameter_vec();
            proof {
                assert(corners@ =~= Seq::new(
                    (self@.vertex_count / 4) as nat,
                    |m: int|
                        Self::spec_quad_corners(
                            self@.buffer,
                            self@.build_start as int,
                            self@.fmt().size as int,
                            m,
                        ),
                ));
            }
            self.sort_keys = Some(corners);
        }
    }

    /// The parameters a session close records for the current draw.
    pub open spec fn spec_end_params(o: BuilderView) -> ParamsView {
        ParamsView {
            vertex_format: o.fmt(),
            vertex_count: (o.draw_mode->0).spec_get_size(o.vertex_count) as usize,
            primitive_count: o.vertex_count,
            draw_mode: o.draw_mode->0,
            index_element_type: IntType::spec_smallest_for(o.vertex_count),
            camera_offset: o.camera_offset,
            textured: o.textures,
        }
    }

    /// Where the next draw's data begins after this session closes: past the
    /// vertex and index regions, rounded to a four-byte boundary.
    pub open spec fn spec_end_build_start(o: BuilderView) -> int {
        o.build_start + spec_round_up(Self::spec_end_params(o).spec_draw_start(), 4)
    }

    /// The buffer after a session close: grown to the new build start, with
    /// the index region written after the vertex data unless the draw is
    /// textured-only.
    pub open spec fn spec_end_buffer(o: BuilderView, keys: Option<Seq<u32>>) -> Seq<u8> {
        let p = Self::spec_end_params(o);
        let vend = o.build_start + p.spec_limit();
        let w = p.index_element_type.spec_size() as int;
        let icount = p.vertex_count as int;
        let grown = spec_grown(o.buffer, Self::spec_end_build_start(o));
        if o.textures {
            grown
        } else {
            grown.map(
                |i: int, b: u8|
                    if vend <= i < vend + icount * w {
                        spec_index_byte(
                            o.draw_mode->0,
                            spec_draw_order(keys, o.vertex_count as int / 4),
                            w,
                            i - vend,
                        )
                    } else {
                        b
                    },
            )
        }
    }

    /// Closes the build session: the draw's parameters are queued, the index
    /// region is written after the vertex data (narrowest element width that
    /// seats every index; quads expand to two triangles apiece, in the
    /// back-to-front order of the given distance keys or in insertion order
    /// without them), and the builder is ready for the next session at the
    /// following four-byte boundary. The distance keys come from the camera
    /// reference point and the cached corner pairs; computing them takes
    /// floating point, which the embedder supplies.
    pub fn end(&mut self, quad_distance_keys: Option<&Vec<u32>>) -> (r: DrawArrayParameters)
        requires
            old(self)@.wf(),
            old(self)@.building,
            old(self)@.vertex_count <= u32::MAX,
            quad_distance_keys matches Some(k) ==> old(self)@.draw_mode == Some(DrawMode::Quads)
                && k@.len() == old(self)@.vertex_count / 4,
            (old(self)@.draw_mode->0).spec_get_size(old(self)@.vertex_count) <= usize::MAX,
            Self::spec_end_build_start(old(self)@) <= usize::MAX,
        ensures
            final(self)@.wf(),
            r@ =~= Self::spec_end_params(old(self)@),
            final(self)@ =~= (BuilderView {
                building: false,
                vertex_count: 0usize,
                current_element_id: 0usize,
                element_offset: Self::spec_end_build_start(old(self)@) as usize,
                build_start: Self::spec_end_build_start(old(self)@) as usize,
                parameters: old(self)@.parameters.push(Self::spec_end_params(old(self)@)),
                buffer: Self::spec_end_buffer(
                    old(self)@,
                    match quad_distance_keys {
                        Some(k) => Some(k@),
                        None => None,
                    },
                ),
                ..old(self)@
            }),
    {
        let ghost o = old(self)@;
        let vc = self.vertex_count;
        let mode = self.draw_mode.unwrap();
        let stride = self.format.as_ref().unwrap().size;
        let textured = self.textures;
        proof {
            lemma_round_up(Self::spec_end_params(o).spec_draw_start(), 4);
            assert(vc * stride >= 0) by (nonlinear_arith);
            assert(Self::spec_end_params(o).spec_draw_length() >= 0) by (nonlinear_arith);
            assert(Self::spec_end_params(o).spec_draw_start() <= usize::MAX);
            assert(Self::spec_end_params(o).spec_draw_length() <= usize::MAX);
        }
        let icount = mode.get_size(vc);
        let itype = IntType::get_smallest_for(vc);
        let vbytes = vc * stride;
        let ibytes: usize = if textured {
            0
        } else {
            match itype {
                IntType::Byte => icount,
                IntType::Short => 2 * icount,
                IntType::Int => 4 * icount,
            }
        };
        proof {
            assert(ibytes == Self::spec_end_params(o).spec_draw_length());
        }
        let draw_len = vbytes + ibytes;
        let rounded = round_up_to_multiple(draw_len, 4);
        let new_bs = self.build_start + rounded;
        let vend = self.build_start + vbytes;
        grow_to(&mut self.buffer, new_bs);
        if !textured {
            let order_vec: Option<Vec<usize>> = match quad_distance_keys {
                Some(k) => Some(sorted_quad_order(k)),
                None => None,
            };
            let order_ref: Option<&Vec<usize>> = match order_vec {
                Some(ref ov) => Some(ov),
                None => None,
            };
            proof {
                assert(self.buffer@.len() >= vend + icount * itype.spec_size());
                if mode is Quads {
                    match order_ref {
                        Some(ov) => {
                            assert(is_sorted_quad_order(
                                quad_distance_keys->0@,
                                ov@,
                            ));
                        },
                        None => {},
                    }
                }
                assert(spec_order_arg(order_ref, vc) == spec_draw_order(
                    match quad_distance_keys {
                        Some(k) => Some(k@),
                        None => None,
                    },
                    vc as int / 4,
                ));
            }
            write_index_region(&mut self.buffer, vend, icount, itype, mode, order_ref, vc);
        }
        proof {
            assert(self.buffer@ =~= Self::spec_end_buffer(
                o,
                match quad_distance_keys {
                    Some(k) => Some(k@),
                    None => None,
                },
            ));
        }
        let format_copy = self.format.as_ref().unwrap().clone();
        let param = DrawArrayParameters {
            vertex_format: format_copy,
            vertex_count: icount,
            primitive_count: vc,
            draw_mode: mode,
            index_element_type: itype,
            camera_offset: self.camera_offset,
            textured,
        };
        let result = param.clone();
        self.parameters.push(param);
        self.building = false;
        self.vertex_count = 0;
        self.current_element_id = 0;
        self.element_offset = new_bs;
        self.build_start = new_bs;
        proof {
            assert(self@.parameters =~= o.parameters.push(Self::spec_end_params(o)));
            lemma_region_sum_push(o.parameters, Self::spec_end_params(o), o.last_parameter_index as int);
            assert(self@.build_start % 4 == 0) by {
                assert(o.build_start % 4 == 0);
                assert((rounded as int) % 4 == 0);
            }
            assert(final(self)@.wf());
        }
        result
    }

    /// Finalizes the oldest unconsumed draw: slices its region (vertex bytes
    /// plus index bytes, four-byte aligned) out of the backing buffer and
    /// hands both back. Once the last queued draw is consumed and no
    /// vertices are pending, the whole buffer is zero-filled so stale data
    /// cannot leak into the next session.
    pub fn pop_data(&mut self) -> (r: (DrawArrayParameters, Vec<u8>))
        requires
            old(self)@.wf(),
            old(self)@.last_parameter_index < old(self)@.parameters.len(),
        ensures
            final(self)@.wf(),
            r.0@ =~= old(self)@.parameters[old(self)@.last_parameter_index as int],
            r.1@ =~= old(self)@.buffer.subrange(
                old(self)@.next_draw_start as int,
                old(self)@.next_draw_start + spec_round_up(
                    old(self)@.parameters[old(self)@.last_parameter_index as int].spec_draw_start(),
                    4,
                ),
            ),
            final(self)@ =~= (BuilderView {
                last_parameter_index: (old(self)@.last_parameter_index + 1) as usize,
                next_draw_start: (old(self)@.next_draw_start + spec_round_up(
                    old(self)@.parameters[old(self)@.last_parameter_index as int].spec_draw_start(),
                    4,
                )) as usize,
                buffer: if old(self)@.last_parameter_index + 1 == old(self)@.parameters.len()
                    && old(self)@.vertex_count == 0 {
                    Seq::new(old(self)@.buffer.len(), |i: int| 0u8)
                } else {
                    old(self)@.buffer
                },
                ..old(self)@
            }),
    {
        let ghost o = old(self)@;
        let ghost pv = o.parameters[o.last_parameter_index as int];
        proof {
            assert(pv.wf());
            lemma_round_up(pv.spec_draw_start(), 4);
            lemma_region_sum_nonneg(o.parameters, o.last_parameter_index + 1);
            assert(region_sum(o.parameters, o.last_parameter_index as int) == spec_round_up(
                pv.spec_draw_start(),
                4,
            ) + region_sum(o.parameters, o.last_parameter_index + 1));
            assert(pv.spec_limit() >= 0 && pv.spec_draw_length() >= 0) by (nonlinear_arith);
        }
        let param = self.parameters[self.last_parameter_index].clone();
        let total = self.parameters.len();
        let start = self.next_draw_start;
        let region = round_up_to_multiple(param.get_draw_start(), 4);
        proof {
            assert(start + region <= o.build_start);
            assert(o.build_start <= o.buffer.len());
        }
        let stop = start + region;
        let mut values: Vec<u8> = Vec::new();
        let mut i: usize = start;
        while i < stop
            invariant
                start <= i <= stop,
                stop <= self@.buffer.len(),
                values@ =~= self@.buffer.subrange(start as int, i as int),
                self@ == o,
            decreases stop - i,
        {
            let b = self.get_byte(i);
            values.push(b);
            proof {
                assert(values@ =~= self@.buffer.subrange(start as int, i + 1));
            }
            i = i + 1;
        }
        self.last_parameter_index = self.last_parameter_index + 1;
        self.next_draw_start = stop;
        if self.last_parameter_index == total && self.vertex_count == 0 {
            zero_fill(&mut self.buffer);
        }
        (param, values)
    }

    /// Reads one byte of the backing buffer.
    pub fn get_byte(&self, index: usize) -> (r: u8)
        requires
            index < self@.buffer.len(),
        ensures
            r == self@.buffer[index as int],
    {
        self.buffer[index]
    }
}

/// Copies a vector of quad corner pairs.
fn copy_corners(v: &Vec<QuadCorners>) -> (r: Vec<QuadCorners>)
    ensures
        r@ =~= v@,
{
    let mut r: Vec<QuadCorners> = Vec::new();
    let n = v.len();
    let mut i: usize = 0;
    while i < n
        invariant
            n == v@.len(),
            i <= n,
            r@ =~= v@.subrange(0, i as int),
        decreases n - i,
    {
        r.push(v[i]);
        proof {
            assert(r@ =~= v@.subrange(0, i + 1));
        }
        i = i + 1;
    }
    r
}


/// The vertex index the `k`-th entry of one expanded quad names, relative
/// to the quad's first vertex: the two triangles 0-1-2 and 0-2-3.
pub open spec fn quad_vertex_pattern(k: int) -> int {
    if k == 0 {
        0
    } else if k == 1 {
        1
    } else if k == 2 {
        2
    } else if k == 3 {
        0
    } else if k == 4 {
        2
    } else {
        3
    }
}

/// The vertex index entry `t` of the index region holds: quads are expanded
/// six entries apiece around the quad order; every other mode indexes its
/// vertices one to one.
pub open spec fn spec_index_value(mode: DrawMode, order: Seq<usize>, t: int) -> int {
    if mode is Quads {
        4 * (order[t / 6] as int) + quad_vertex_pattern(t % 6)
    } else {
        t
    }
}

/// Quad expansion, spelt out: the six index-region entries of quad `q`
/// name, relative to the quad's first vertex `4 * order[q]`, exactly the
/// two triangles 0-1-2 and 0-2-3.
pub proof fn lemma_quad_expansion_two_triangles(order: Seq<usize>, q: int)
    requires
        0 <= q < order.len(),
    ensures
        spec_index_value(DrawMode::Quads, order, 6 * q) == 4 * order[q],
        spec_index_value(DrawMode::Quads, order, 6 * q + 1) == 4 * order[q] + 1,
        spec_index_value(DrawMode::Quads, order, 6 * q + 2) == 4 * order[q] + 2,
        spec_index_value(DrawMode::Quads, order, 6 * q + 3) == 4 * order[q],
        spec_index_value(DrawMode::Quads, order, 6 * q + 4) == 4 * order[q] + 2,
        spec_index_value(DrawMode::Quads, order, 6 * q + 5) == 4 * order[q] + 3,
{
    assert((6 * q + 0) / 6 == q && (6 * q + 0) % 6 == 0) by (nonlinear_arith);
    assert((6 * q + 1) / 6 == q && (6 * q + 1) % 6 == 1) by (nonlinear_arith);
    assert((6 * q + 2) / 6 == q && (6 * q + 2) % 6 == 2) by (nonlinear_arith);
    assert((6 * q + 3) / 6 == q && (6 * q + 3) % 6 == 3) by (nonlinear_arith);
    assert((6 * q + 4) / 6 == q && (6 * q + 4) % 6 == 4) by (nonlinear_arith);
    assert((6 * q + 5) / 6 == q && (6 * q + 5) % 6 == 5) by (nonlinear_arith);
}

/// Byte `off` of the index region, for index elements `w` bytes wide,
/// multi-byte entries big-endian.
pub open spec fn spec_index_byte(mode: DrawMode, order: Seq<usize>, w: int, off: int) -> u8 {
    let v = spec_index_value(mode, order, off / w);
    if w == 1 {
        v as u8
    } else if w == 2 {
        u16_be_byte(v as u16, off % 2)
    } else {
        u32_be_byte(v as u32, off % 4)
    }
}

/// The quad draw order a session close uses: the back-to-front order of the
/// given distance keys, or insertion order when no camera sort applies.
pub open spec fn spec_draw_order(keys: Option<Seq<u32>>, quad_count: int) -> Seq<usize> {
    match keys {
        Some(k) => spec_sorted_quad_order(k),
        None => Seq::new(quad_count as nat, |m: int| m as usize),
    }
}

/// Appending one completed draw extends the queued-region sum by exactly
/// that draw's rounded region.
pub proof fn lemma_region_sum_push(params: Seq<ParamsView>, p: ParamsView, from: int)
    requires
        0 <= from <= params.len(),
    ensures
        region_sum(params.push(p), from) == region_sum(params, from) + spec_round_up(
            p.spec_draw_start(),
            4,
        ),
    decreases params.len() - from,
{
    if from < params.len() {
        assert(params.push(p)[from] == params[from]);
        lemma_region_sum_push(params, p, from + 1);
    } else {
        assert(params.push(p)[from] == p);
        assert(region_sum(params.push(p), from + 1) == 0);
    }
}

/// Writes the index region for one draw: `icount` entries of the given
/// width starting at `vend`, each the big-endian encoding of the entry's
/// vertex index under the given quad order.
fn write_index_region(
    buf: &mut Vec<u8>,
    vend: usize,
    icount: usize,
    itype: IntType,
    mode: DrawMode,
    order: Option<&Vec<usize>>,
    vc: usize,
)
    requires
        itype == IntType::spec_smallest_for(vc),
        vc <= u32::MAX,
        mode is Quads ==> icount == vc / 4 * 6 && (match order {
            Some(o) => o@.len() == vc / 4 && forall|q: int|
                0 <= q < o@.len() ==> (#[trigger] o@[q]) < vc / 4,
            None => true,
        }),
        !(mode is Quads) ==> icount == vc && order is None,
        old(buf).len() >= vend + icount * itype.spec_size(),
    ensures
        final(buf)@ =~= old(buf)@.map(
            |i: int, b: u8|
                if vend <= i < vend + icount * itype.spec_size() {
                    spec_index_byte(
                        mode,
                        spec_order_arg(order, vc),
                        itype.spec_size() as int,
                        i - vend,
                    )
                } else {
                    b
                },
        ),
{
    let ghost w = itype.spec_size() as int;
    let ghost ord = spec_order_arg(order, vc);
    let ghost target = old(buf)@.map(
        |i: int, b: u8|
            if vend <= i < vend + icount * w {
                spec_index_byte(mode, ord, w, i - vend)
            } else {
                b
            },
    );
    let mut t: usize = 0;
    while t < icount
        invariant
            w == itype.spec_size() as int,
            itype == IntType::spec_smallest_for(vc),
            vc <= u32::MAX,
            mode is Quads ==> icount == vc / 4 * 6 && (match order {
                Some(o) => o@.len() == vc / 4 && forall|q: int|
                    0 <= q < o@.len() ==> (#[trigger] o@[q]) < vc / 4,
                None => true,
            }),
            !(mode is Quads) ==> icount == vc && order is None,
            ord == spec_order_arg(order, vc),
            buf@.len() == old(buf)@.len(),
            old(buf).len() >= vend + icount * w,
            target == old(buf)@.map(
                |i: int, b: u8|
                    if vend <= i < vend + icount * w {
                        spec_index_byte(mode, ord, w, i - vend)
                    } else {
                        b
                    },
            ),
            t <= icount,
            forall|i: int| 0 <= i < vend + t * w ==> buf@[i] == target[i],
            forall|i: int| vend + t * w <= i < buf@.len() ==> buf@[i] == old(buf)@[i],
        decreases icount - t,
    {
        let ghost ti = t as int;
        let val: usize = if matches!(mode, DrawMode::Quads) {
            let q = t / 6;
            let k = t % 6;
            proof {
                assert(ti / 6 < vc / 4 && 0 <= ti / 6) by (nonlinear_arith)
                    requires
                        0 <= ti < icount,
                        icount == vc / 4 * 6,
                        vc >= 0,
                ;
            }
            let oq: usize = match order {
                Some(o) => o[q],
                None => q,
            };
            let pat: usize = match k {
                0 => 0,
                1 => 1,
                2 => 2,
                3 => 0,
                4 => 2,
                _ => 3,
            };
            proof {
                assert(4 * (oq as int) + 3 < vc) by (nonlinear_arith)
                    requires
                        (oq as int) < vc / 4,
                        oq >= 0,
                        vc >= 0,
                ;
            }
            4 * oq + pat
        } else {
            t
        };
        proof {
            assert(val == spec_index_value(mode, ord, ti));
            assert((val as int) < vc || (!(mode is Quads) && val == ti && ti < icount));
        }
        match itype {
            IntType::Byte => {
                proof {
                    assert(vend + ti + 1 <= vend + icount * w) by (nonlinear_arith)
                        requires
                            w == 1,
                            ti < icount,
                            vend >= 0,
                            icount >= 0,
                    ;
                }
                put_u8_at(buf, vend + t, val as u8);
                proof {
                    assert((ti * 1) / 1 == ti && (ti * 1) % 1 == 0);
                    assert(buf@[vend + ti] == spec_index_byte(mode, ord, w, ti));
                }
            },
            IntType::Short => {
                proof {
                    assert(vend + 2 * ti + 2 <= vend + icount * w) by (nonlinear_arith)
                        requires
                            w == 2,
                            ti < icount,
                            vend >= 0,
                            icount >= 0,
                    ;
                }
                put_u16_be_at(buf, vend + 2 * t, val as u16);
                proof {
                    assert((2 * ti) / 2 == ti && (2 * ti) % 2 == 0 && (2 * ti + 1) / 2 == ti && (2
                        * ti + 1) % 2 == 1);
                    assert(buf@[vend + 2 * ti] == spec_index_byte(mode, ord, w, 2 * ti));
                    assert(buf@[vend + 2 * ti + 1] == spec_index_byte(mode, ord, w, 2 * ti + 1));
                }
            },
            IntType::Int => {
                proof {
                    assert(vend + 4 * ti + 4 <= vend + icount * w) by (nonlinear_arith)
                        requires
                            w == 4,
                            ti < icount,
                            vend >= 0,
                            icount >= 0,
                    ;
                }
                put_u32_be_at(buf, vend + 4 * t, val as u32);
                proof {
                    assert forall|j: int| 0 <= j < 4 implies #[trigger] buf@[vend + 4 * ti + j]
                        == spec_index_byte(mode, ord, w, 4 * ti + j) by {
                        assert((4 * ti + j) / 4 == ti && (4 * ti + j) % 4 == j);
                    }
                }
            },
        }
        proof {
            assert forall|i: int| 0 <= i < vend + (ti + 1) * w implies buf@[i] == target[i] by {
                assert((ti + 1) * w == ti * w + w) by (nonlinear_arith);
                if i < vend + ti * w {
                } else {
                    assert(vend + ti * w <= i < vend + ti * w + w);
                }
            }
            assert((ti + 1) * w == ti * w + w) by (nonlinear_arith);
        }
        t = t + 1;
    }
    proof {
        assert(buf@ =~= target);
    }
}

/// The quad order handed to the index writer: the supplied order, or
/// insertion order when none is.
pub open spec fn spec_order_arg(order: Option<&Vec<usize>>, vc: usize) -> Seq<usize> {
    match order {
        Some(o) => o@,
        None => Seq::new((vc / 4) as nat, |m: int| m as usize),
    }
}

} // verus!
