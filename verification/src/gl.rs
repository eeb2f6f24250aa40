//! The V3D scene: construction of the binning and render control lists.
//!
//! The scene owns the bookkeeping for one fixed piece of test geometry: a
//! vertex buffer, an index buffer, a shader block with its shader record,
//! the render control list (tile render-mode config plus one
//! coordinates/branch/store triple per tile) and the binning configuration
//! list.  Each buffer lives in GPU memory that the firmware allocated and
//! locked; the methods here take those locked GPU-space addresses, record
//! them, and return the exact bytes to be copied into each region.  The
//! hardware submission sequence is produced as an explicit operation list
//! (`render_ops`) that a thin register-access layer replays.

use vstd::arithmetic::div_mod::{
    lemma_div_by_multiple, lemma_div_is_ordered, lemma_fundamental_div_mod_converse,
};
use vstd::bytes::{spec_u16_to_le_bytes, spec_u32_to_le_bytes};
use vstd::prelude::*;

use crate::addr::{GpuHandle, Vc4Addr};
use crate::v3d::buffer::Writer;
use crate::v3d::message::{MailboxTagMessage, spec_response_of};
use crate::v3d::registers::V3DRegisters;

verus! {

/// Bit pattern of the 32-bit float `1.0`, used for the fixed vertex
/// colors; the library stores colors as raw bit patterns.
pub const F32_ONE_BITS: u32 = 0x3F80_0000;

/// Bit pattern of the 32-bit float `0.0`.
pub const F32_ZERO_BITS: u32 = 0;

/// Tiles are 32 pixels on a side; a render dimension is covered by its
/// dimension divided by 32, rounded up.
pub open spec fn spec_bin_dim(dim: u16) -> u32 {
    ((dim + 31) / 32) as u32
}

/// Round a render dimension up to whole 32-pixel tiles.  This is exact
/// ceiling division: for a positive dimension the result covers it with
/// the fewest tiles, and a dimension that is a multiple of 32 adds none.
pub fn bin_dim(dim: u16) -> (r: u32)
    ensures
        r == spec_bin_dim(dim),
        r <= 0x800,
        dim > 0 ==> 32 * r >= dim && 32 * (r - 1) < dim,
        dim == 0 ==> r == 0,
{
    let r: u32 = (dim as u32 + 31) >> 5;
    proof {
        let d = dim as u32;
        assert(((d + 31) as u32) >> 5 == ((d + 31) as u32) / 32 && ((d + 31) as u32) >> 5
            <= 0x800) by (bit_vector)
            requires
                d <= 0xFFFF,
        ;
    }
    r
}

/// Size in bytes of the render control list for a tile grid: twenty bytes
/// per tile plus the fixed prologue allowance.
pub open spec fn spec_render_control_size(bw: u32, bh: u32) -> u32 {
    ((bw * bh * 20 + 37) as u32)
}

/// Size in bytes the render control list allocation must have.
pub fn render_control_size(bw: u32, bh: u32) -> (r: u32)
    requires
        bw <= 0x800,
        bh <= 0x800,
    ensures
        r == spec_render_control_size(bw, bh),
{
    proof {
        assert(bw * bh * 20 + 37 <= 0x800 * 0x800 * 20 + 37) by (nonlinear_arith)
            requires
                bw <= 0x800 && bh <= 0x800,
        ;
    }
    bw * bh * 20 + 37
}

/// One interleaved vertex: screen-space position shifted left four bits to
/// encode sub-pixel precision in V3D's fixed-point format, two constant
/// `1.0` words, and three color component words, all little-endian.
pub open spec fn spec_vertex(x: u32, y: u32, red: u32, green: u32, blue: u32) -> Seq<u8> {
    spec_u32_to_le_bytes(x << 4u32) + spec_u32_to_le_bytes(y << 4u32) + spec_u32_to_le_bytes(
        F32_ONE_BITS,
    ) + spec_u32_to_le_bytes(F32_ONE_BITS) + spec_u32_to_le_bytes(red) + spec_u32_to_le_bytes(
        green,
    ) + spec_u32_to_le_bytes(blue)
}

/// The fixed test geometry: seven vertices forming two triangle groups (a
/// lower diamond and an upper strip), positioned from the render
/// dimensions with exact fixed-point arithmetic.
pub open spec fn spec_vertex_bytes(w: u16, h: u16) -> Seq<u8> {
    let cx = w as int / 2;
    let h2 = h as int / 2;
    let cy1 = 4 * h2 / 10;
    let hw = 4 * cx / 10;
    let hh = 3 * h2 / 10;
    let cy2 = 27 * h2 / 20;
    spec_vertex(cx as u32, (cy1 - hh) as u32, F32_ONE_BITS, F32_ZERO_BITS, F32_ZERO_BITS)
        + spec_vertex(
        (cx - hw) as u32,
        (cy1 + hh) as u32,
        F32_ZERO_BITS,
        F32_ZERO_BITS,
        F32_ONE_BITS,
    ) + spec_vertex(
        (cx + hw) as u32,
        (cy1 + hh) as u32,
        F32_ZERO_BITS,
        F32_ONE_BITS,
        F32_ZERO_BITS,
    ) + spec_vertex(
        (cx - hw) as u32,
        (cy2 - hh) as u32,
        F32_ZERO_BITS,
        F32_ZERO_BITS,
        F32_ONE_BITS,
    ) + spec_vertex(
        (cx - hw) as u32,
        (cy2 + hh) as u32,
        F32_ZERO_BITS,
        F32_ONE_BITS,
        F32_ZERO_BITS,
    ) + spec_vertex(
        (cx + hw) as u32,
        (cy2 - hh) as u32,
        F32_ONE_BITS,
        F32_ZERO_BITS,
        F32_ZERO_BITS,
    ) + spec_vertex(
        (cx + hw) as u32,
        (cy2 - hh) as u32,
        F32_ZERO_BITS,
        F32_ONE_BITS,
        F32_ONE_BITS,
    )
}

/// The index list: nine entries describing two triangles that share a
/// vertex with a third, fan-like triangle.
pub open spec fn spec_index_bytes() -> Seq<u8> {
    seq![0u8, 1u8, 2u8, 3u8, 4u8, 5u8, 4u8, 6u8, 5u8]
}

/// A word sequence serialized little-endian, word after word.
pub open spec fn spec_u32s_le_bytes(s: Seq<u32>) -> Seq<u8>
    decreases s.len(),
{
    if s.len() == 0 {
        Seq::empty()
    } else {
        spec_u32s_le_bytes(s.drop_last()) + spec_u32_to_le_bytes(s.last())
    }
}

/// The hand-assembled QPU fragment shader that shades the test triangles
/// from their varyings.  An opaque instruction blob: the pipeline only
/// needs its exact words.
pub open spec fn spec_vertex_shader() -> Seq<u32> {
    seq![
        0x958e0dbfu32,
        0xd1724823u32,
        0x818e7176u32,
        0x40024821u32,
        0x818e7376u32,
        0x10024862u32,
        0x819e7540u32,
        0x114248a3u32,
        0x809e7009u32,
        0x115049e3u32,
        0x809e7012u32,
        0x116049e3u32,
        0x159e76c0u32,
        0x30020ba7u32,
        0x009e7000u32,
        0x100009e7u32,
        0x009e7000u32,
        0x500009e7u32,
    ]
}

/// The shader record: header byte quadruple (flags, stride, fragment
/// shader flags, varying count), the shader block's GPU address, a zero
/// uniform count, and the vertex buffer's GPU address.
pub open spec fn spec_shader_record_bytes(shader_addr: u32, vertex_addr: u32) -> Seq<u8> {
    seq![0x01u8, 24u8, 0xccu8, 3u8] + spec_u32_to_le_bytes(shader_addr) + spec_u32_to_le_bytes(
        0u32,
    ) + spec_u32_to_le_bytes(vertex_addr)
}

/// The instruction words of the built-in test shader.
pub fn vertex_shader_instructions() -> (v: Vec<u32>)
    ensures
        v@ == spec_vertex_shader(),
{
    let mut v: Vec<u32> = Vec::new();
    v.push(0x958e0dbf);
    v.push(0xd1724823);
    v.push(0x818e7176);
    v.push(0x40024821);
    v.push(0x818e7376);
    v.push(0x10024862);
    v.push(0x819e7540);
    v.push(0x114248a3);
    v.push(0x809e7009);
    v.push(0x115049e3);
    v.push(0x809e7012);
    v.push(0x116049e3);
    v.push(0x159e76c0);
    v.push(0x30020ba7);
    v.push(0x009e7000);
    v.push(0x100009e7);
    v.push(0x009e7000);
    v.push(0x500009e7);
    proof {
        assert(v@ =~= spec_vertex_shader());
    }
    v
}

/// Write one interleaved vertex at the writer's cursor.
fn write_vertex(w: &mut Writer, x: u32, y: u32, red: u32, green: u32, blue: u32)
    requires
        old(w)@.len() + 28 <= old(w).spec_capacity(),
    ensures
        final(w)@ == old(w)@ + spec_vertex(x, y, red, green, blue),
        final(w)@.len() == old(w)@.len() + 28,
        final(w).spec_base() == old(w).spec_base(),
        final(w).spec_capacity() == old(w).spec_capacity(),
{
    w.write_u32(x << 4);
    w.write_u32(y << 4);
    w.write_u32(F32_ONE_BITS);
    w.write_u32(F32_ONE_BITS);
    w.write_u32(red);
    w.write_u32(green);
    w.write_u32(blue);
    proof {
        assert(w@ =~= old(w)@ + spec_vertex(x, y, red, green, blue));
    }
}

/// The fixed head of the render control list: a clear-colors record
/// (command 114), the tile render-mode configuration for the target
/// framebuffer (pixel format 4), and a priming tile-coordinates record
/// followed by a store-tile-buffer placeholder.  Forty bytes.
pub open spec fn spec_rc_prologue(w: u16, h: u16, fb_addr: u32) -> Seq<u8> {
    seq![114u8] + spec_u32_to_le_bytes(0u32) + spec_u32_to_le_bytes(0u32) + spec_u32_to_le_bytes(
        0u32,
    ) + seq![0u8] + (TileRenderModeConfig {
        cmd: 113u8,
        render_width: w,
        render_height: h,
        format: 4u32,
        other: 0u8,
        fb_ptr: fb_addr,
    }).spec_bytes() + seq![115u8, 0u8, 0u8, 28u8] + spec_u16_to_le_bytes(0u16)
        + spec_u32_to_le_bytes(0u32) + seq![1u8, 1u8]
}

/// The sublist address of the tile at column `x`, row `y`: a 32-byte slot
/// in the tile data buffer.  The slot index is `y + x * bin_width`, with
/// the row added before the column is scaled — the traversal order the
/// hardware lists were written against, reproduced exactly.
pub open spec fn spec_tile_addr(tile_buf: u32, x: u32, y: u32, bw: u32) -> u32 {
    ((tile_buf + (y + x * bw) * 32) as u32)
}

/// One tile's entry in the render control list: its coordinates record,
/// a branch to its sublist slot, and a store-multisample command — the
/// ending variant (25) on the last tile, the plain one (24) elsewhere.
pub open spec fn spec_tile_record(tile_buf: u32, x: u32, y: u32, bw: u32, last: bool) -> Seq<u8> {
    seq![115u8, x as u8, y as u8, 17u8] + spec_u32_to_le_bytes(spec_tile_addr(tile_buf, x, y, bw))
        + seq![if last { 25u8 } else { 24u8 }]
}

/// The tile entry at traversal position `k` (row-major: row `k / bw`,
/// column `k % bw`).
pub open spec fn spec_tile_record_at(tile_buf: u32, bw: u32, bh: u32, k: int) -> Seq<u8>
    recommends
        bw > 0,
        0 <= k < bw * bh,
{
    spec_tile_record(
        tile_buf,
        (k % (bw as int)) as u32,
        (k / (bw as int)) as u32,
        bw,
        k == bw * bh - 1,
    )
}

/// The first `k` tile entries of the traversal, concatenated.
pub open spec fn spec_tiles_prefix(tile_buf: u32, bw: u32, bh: u32, k: int) -> Seq<u8>
    decreases k,
{
    if k <= 0 {
        Seq::empty()
    } else {
        spec_tiles_prefix(tile_buf, bw, bh, k - 1) + spec_tile_record_at(tile_buf, bw, bh, k - 1)
    }
}

/// The whole render control list: the prologue followed by one entry per
/// tile of the `bin_width` by `bin_height` grid, in traversal order.
pub open spec fn spec_render_control_bytes(w: u16, h: u16, fb_addr: u32, tile_buf: u32) -> Seq<
    u8,
> {
    spec_rc_prologue(w, h, fb_addr) + spec_tiles_prefix(
        tile_buf,
        spec_bin_dim(w),
        spec_bin_dim(h),
        spec_bin_dim(w) * spec_bin_dim(h),
    )
}

/// The whole binning configuration list: the tile binning configuration,
/// start-tile-binning, the primitive list format, the clip window, the
/// fixed config-state bytes, the viewport offset, the no-vertex-shader
/// shader state pointing at the shader record, the indexed primitive list
/// (triangles) over the index buffer, and the flush/nop/halt trailer.
/// Sixty-five bytes.
pub open spec fn spec_binning_config_bytes(
    w: u16,
    h: u16,
    tile_data_addr: u32,
    tile_state_addr: u32,
    frag_rec_addr: u32,
    index_addr: u32,
    index_cnt: u32,
    max_index: u32,
) -> Seq<u8> {
    let bw = spec_bin_dim(w);
    let bh = spec_bin_dim(h);
    (TileBinningConfig {
        cmd: 112u8,
        bin_width: bw,
        bin_height: bh,
        buffer_ptr: tile_data_addr,
        mem_size: ((bw * bh * 64) as u32),
        state_data_ptr: tile_state_addr,
        some_tag_thing: 4u8,
    }).spec_bytes() + seq![6u8] + seq![56u8, 0x12u8] + (ClipWindowConfig {
        cmd: 102u8,
        arg0: 0u16,
        arg1: 0u16,
        width: w,
        height: h,
    }).spec_bytes() + seq![96u8, 0x03u8, 0x00u8, 0x02u8] + (ViewportOffset {
        cmd: 103u8,
        x_probably: 0u16,
        y_probably: 0u16,
    }).spec_bytes() + seq![65u8] + spec_u32_to_le_bytes(frag_rec_addr) + seq![32u8, 4u8]
        + spec_u32_to_le_bytes(index_cnt) + spec_u32_to_le_bytes(index_addr)
        + spec_u32_to_le_bytes(max_index) + seq![5u8, 1u8, 0u8]
}

/// The tile section grows nine bytes per entry.
pub proof fn lemma_tiles_prefix_len(tile_buf: u32, bw: u32, bh: u32, k: int)
    requires
        0 <= k,
    ensures
        spec_tiles_prefix(tile_buf, bw, bh, k).len() == 9 * k,
    decreases k,
{
    if k > 0 {
        lemma_tiles_prefix_len(tile_buf, bw, bh, k - 1);
        vstd::bytes::lemma_auto_spec_u32_to_from_le_bytes();
    }
}

/// Entry `j` of the tile section sits at byte offset `9 * j` and is the
/// record of traversal position `j`.
pub proof fn lemma_tiles_prefix_entry(tile_buf: u32, bw: u32, bh: u32, k: int, j: int)
    requires
        0 <= j < k,
    ensures
        spec_tiles_prefix(tile_buf, bw, bh, k).subrange(9 * j, 9 * j + 9) == spec_tile_record_at(
            tile_buf,
            bw,
            bh,
            j,
        ),
    decreases k,
{
    lemma_tiles_prefix_len(tile_buf, bw, bh, k - 1);
    vstd::bytes::lemma_auto_spec_u32_to_from_le_bytes();
    if j == k - 1 {
        assert(spec_tiles_prefix(tile_buf, bw, bh, k).subrange(9 * j, 9 * j + 9)
            =~= spec_tile_record_at(tile_buf, bw, bh, j));
    } else {
        lemma_tiles_prefix_entry(tile_buf, bw, bh, k - 1, j);
        assert(spec_tiles_prefix(tile_buf, bw, bh, k).subrange(9 * j, 9 * j + 9)
            =~= spec_tiles_prefix(tile_buf, bw, bh, k - 1).subrange(9 * j, 9 * j + 9));
    }
}

/// Tile traversal completeness.  For a positive render size the render
/// control list is the forty-byte prologue followed by exactly
/// `bin_width * bin_height` nine-byte tile entries.  Entry `k` is the
/// record of the tile in column `k % bin_width` of row `k / bin_width`:
/// it opens with the tile-coordinates command (115), branches to the
/// tile's sublist (17), and closes with the store-multisample opcode —
/// the ending variant 25 exactly on the last entry of the traversal, the
/// plain 24 on every other.
pub proof fn lemma_render_control_tile_traversal(
    w: u16,
    h: u16,
    fb_addr: u32,
    tile_buf: u32,
    k: int,
)
    requires
        w > 0,
        h > 0,
        0 <= k < spec_bin_dim(w) * spec_bin_dim(h),
    ensures
        spec_render_control_bytes(w, h, fb_addr, tile_buf).len() == 40 + 9 * (spec_bin_dim(w)
            * spec_bin_dim(h)),
        spec_render_control_bytes(w, h, fb_addr, tile_buf).subrange(40 + 9 * k, 40 + 9 * k + 9)
            == spec_tile_record_at(tile_buf, spec_bin_dim(w), spec_bin_dim(h), k),
        spec_render_control_bytes(w, h, fb_addr, tile_buf)[40 + 9 * k] == 115u8,
        spec_render_control_bytes(w, h, fb_addr, tile_buf)[40 + 9 * k + 3] == 17u8,
        spec_render_control_bytes(w, h, fb_addr, tile_buf)[40 + 9 * k + 8] == (if k
            == spec_bin_dim(w) * spec_bin_dim(h) - 1 {
            25u8
        } else {
            24u8
        }),
{
    let bw = spec_bin_dim(w);
    let bh = spec_bin_dim(h);
    let n = bw * bh;
    let bytes = spec_render_control_bytes(w, h, fb_addr, tile_buf);
    vstd::bytes::lemma_auto_spec_u16_to_from_le_bytes();
    vstd::bytes::lemma_auto_spec_u32_to_from_le_bytes();
    assert(spec_rc_prologue(w, h, fb_addr).len() == 40);
    lemma_tiles_prefix_len(tile_buf, bw, bh, n);
    lemma_tiles_prefix_entry(tile_buf, bw, bh, n, k);
    assert(bytes.subrange(40 + 9 * k, 40 + 9 * k + 9) =~= spec_tiles_prefix(
        tile_buf,
        bw,
        bh,
        n,
    ).subrange(9 * k, 9 * k + 9));
    let record = spec_tile_record_at(tile_buf, bw, bh, k);
    assert(record[0] == 115u8 && record[3] == 17u8 && record[8] == (if k == n - 1 {
        25u8
    } else {
        24u8
    }));
    assert(bytes[40 + 9 * k] == record[0]);
    assert(bytes[40 + 9 * k + 3] == record[3]);
    assert(bytes[40 + 9 * k + 8] == record[8]);
}

/// Failures of scene construction.
#[derive(Debug, Clone, Copy, PartialEq, Eq, Structural)]
pub enum SceneError {
    /// The allocate-memory exchange failed or returned a null handle.
    AllocMemory,
    /// The lock-memory exchange failed.
    LockMemory,
    /// Reserved; not raised by the current logic.
    Trash,
}

impl SceneError {
    /// A human-readable description of the failure.
    pub fn message(&self) -> (r: &'static str)
        ensures
            *self is AllocMemory ==> r@ == "Failed to allocate GPU memory!"@,
            *self is LockMemory ==> r@ == "Lock Blocked (failed to lock GPU memory)"@,
    {
        match self {
            SceneError::AllocMemory => "Failed to allocate GPU memory!",
            SceneError::LockMemory => "Lock Blocked (failed to lock GPU memory)",
            SceneError::Trash => "scene bookkeeping failure",
        }
    }
}

/// The firmware's reply to an allocate-memory message: the handle sits in
/// the third payload word.  Success requires both a success status and a
/// non-null handle; everything else is an allocation failure.
pub fn mem_alloc_result(reply: &MailboxTagMessage) -> (r: Result<GpuHandle, SceneError>)
    requires
        reply.payload@.len() >= 3,
    ensures
        r is Ok <==> spec_response_of(reply.status) is Success && reply.payload@[2] != 0,
        r is Ok ==> r->Ok_0 == reply.payload@[2],
        r is Err ==> r->Err_0 == SceneError::AllocMemory,
{
    match reply.response() {
        crate::v3d::message::MailboxResponse::Success => {
            let handle = reply.payload[2];
            if handle == 0 {
                Err(SceneError::AllocMemory)
            } else {
                Ok(handle)
            }
        },
        _ => Err(SceneError::AllocMemory),
    }
}

/// The firmware's reply to a lock-memory message: the locked GPU-space bus
/// address sits in the third payload word.
pub fn mem_lock_result(reply: &MailboxTagMessage) -> (r: Result<Vc4Addr, SceneError>)
    requires
        reply.payload@.len() >= 3,
    ensures
        r is Ok <==> spec_response_of(reply.status) is Success,
        r is Ok ==> r->Ok_0 == reply.payload@[2],
        r is Err ==> r->Err_0 == SceneError::LockMemory,
{
    match reply.response() {
        crate::v3d::message::MailboxResponse::Success => Ok(reply.payload[2]),
        _ => Err(SceneError::LockMemory),
    }
}

/// Tile render-mode configuration record (command 113).
pub struct TileRenderModeConfig {
    pub cmd: u8,
    pub render_width: u16,
    pub render_height: u16,
    pub format: u32,
    pub other: u8,
    pub fb_ptr: u32,
}

impl TileRenderModeConfig {
    /// The record's wire image: command byte, dimensions, pixel format,
    /// flags byte, and the target framebuffer address, little-endian.
    pub open spec fn spec_bytes(&self) -> Seq<u8> {
        seq![self.cmd] + spec_u16_to_le_bytes(self.render_width) + spec_u16_to_le_bytes(
            self.render_height,
        ) + spec_u32_to_le_bytes(self.format) + seq![self.other] + spec_u32_to_le_bytes(
            self.fb_ptr,
        )
    }

    pub fn new(render_width: u16, render_height: u16, format: u32, other: u8, fb_ptr: u32) -> (c:
        TileRenderModeConfig)
        ensures
            c == (TileRenderModeConfig {
                cmd: 113u8,
                render_width,
                render_height,
                format,
                other,
                fb_ptr,
            }),
    {
        TileRenderModeConfig { cmd: 113, render_width, render_height, format, other, fb_ptr }
    }

    /// Serialize the record at the writer's cursor.
    pub fn write_to(&self, w: &mut Writer)
        requires
            old(w)@.len() + 14 <= old(w).spec_capacity(),
        ensures
            final(w)@ == old(w)@ + self.spec_bytes(),
            final(w)@.len() == old(w)@.len() + 14,
            final(w).spec_base() == old(w).spec_base(),
            final(w).spec_capacity() == old(w).spec_capacity(),
    {
        w.write_u8(self.cmd);
        w.write_u16(self.render_width);
        w.write_u16(self.render_height);
        w.write_u32(self.format);
        w.write_u8(self.other);
        w.write_u32(self.fb_ptr);
        proof {
            vstd::bytes::lemma_auto_spec_u16_to_from_le_bytes();
            vstd::bytes::lemma_auto_spec_u32_to_from_le_bytes();
            assert(w@ =~= old(w)@ + self.spec_bytes());
        }
    }
}

/// Tile coordinates record (command 115).
pub struct TileCoords {
    pub cmd: u8,
    pub arg1: u8,
    pub arg2: u8,
}

impl TileCoords {
    /// The record's wire image.
    pub open spec fn spec_bytes(&self) -> Seq<u8> {
        seq![self.cmd, self.arg1, self.arg2]
    }

    pub fn new(arg1: u8, arg2: u8) -> (c: TileCoords)
        ensures
            c == (TileCoords { cmd: 115u8, arg1, arg2 }),
    {
        TileCoords { cmd: 115, arg1, arg2 }
    }

    /// Serialize the record at the writer's cursor.
    pub fn write_to(&self, w: &mut Writer)
        requires
            old(w)@.len() + 3 <= old(w).spec_capacity(),
        ensures
            final(w)@ == old(w)@ + self.spec_bytes(),
            final(w)@.len() == old(w)@.len() + 3,
            final(w).spec_base() == old(w).spec_base(),
            final(w).spec_capacity() == old(w).spec_capacity(),
    {
        w.write_u8(self.cmd);
        w.write_u8(self.arg1);
        w.write_u8(self.arg2);
        proof {
            assert(w@ =~= old(w)@ + self.spec_bytes());
        }
    }
}

/// Store-tile-buffer record (command 28).
pub struct TileBuffer {
    pub cmd: u8,
    pub arg1: u16,
    pub arg2: u32,
}

impl TileBuffer {
    /// The record's wire image.
    pub open spec fn spec_bytes(&self) -> Seq<u8> {
        seq![self.cmd] + spec_u16_to_le_bytes(self.arg1) + spec_u32_to_le_bytes(self.arg2)
    }

    pub fn new(arg1: u16, arg2: u32) -> (c: TileBuffer)
        ensures
            c == (TileBuffer { cmd: 28u8, arg1, arg2 }),
    {
        TileBuffer { cmd: 28, arg1, arg2 }
    }
}

/// Tile binning configuration record (command 112).
pub struct TileBinningConfig {
    pub cmd: u8,
    pub bin_width: u32,
    pub bin_height: u32,
    pub buffer_ptr: u32,
    pub mem_size: u32,
    pub state_data_ptr: u32,
    pub some_tag_thing: u8,
}

impl TileBinningConfig {
    /// The record's wire image.
    pub open spec fn spec_bytes(&self) -> Seq<u8> {
        seq![self.cmd] + spec_u32_to_le_bytes(self.bin_width) + spec_u32_to_le_bytes(
            self.bin_height,
        ) + spec_u32_to_le_bytes(self.buffer_ptr) + spec_u32_to_le_bytes(self.mem_size)
            + spec_u32_to_le_bytes(self.state_data_ptr) + seq![self.some_tag_thing]
    }

    pub fn new(
        bin_width: u32,
        bin_height: u32,
        buffer_ptr: u32,
        mem_size: u32,
        state_data_ptr: u32,
        some_tag_thing: u8,
    ) -> (c: TileBinningConfig)
        ensures
            c == (TileBinningConfig {
                cmd: 112u8,
                bin_width,
                bin_height,
                buffer_ptr,
                mem_size,
                state_data_ptr,
                some_tag_thing,
            }),
    {
        TileBinningConfig {
            cmd: 112,
            bin_width,
            bin_height,
            buffer_ptr,
            mem_size,
            state_data_ptr,
            some_tag_thing,
        }
    }

    /// Serialize the record at the writer's cursor.
    pub fn write_to(&self, w: &mut Writer)
        requires
            old(w)@.len() + 22 <= old(w).spec_capacity(),
        ensures
            final(w)@ == old(w)@ + self.spec_bytes(),
            final(w)@.len() == old(w)@.len() + 22,
            final(w).spec_base() == old(w).spec_base(),
            final(w).spec_capacity() == old(w).spec_capacity(),
    {
        w.write_u8(self.cmd);
        w.write_u32(self.bin_width);
        w.write_u32(self.bin_height);
        w.write_u32(self.buffer_ptr);
        w.write_u32(self.mem_size);
        w.write_u32(self.state_data_ptr);
        w.write_u8(self.some_tag_thing);
        proof {
            vstd::bytes::lemma_auto_spec_u32_to_from_le_bytes();
            assert(w@ =~= old(w)@ + self.spec_bytes());
        }
    }
}

/// Clip window record (command 102).
pub struct ClipWindowConfig {
    pub cmd: u8,
    pub arg0: u16,
    pub arg1: u16,
    pub width: u16,
    pub height: u16,
}

impl ClipWindowConfig {
    /// The record's wire image.
    pub open spec fn spec_bytes(&self) -> Seq<u8> {
        seq![self.cmd] + spec_u16_to_le_bytes(self.arg0) + spec_u16_to_le_bytes(self.arg1)
            + spec_u16_to_le_bytes(self.width) + spec_u16_to_le_bytes(self.height)
    }

    pub fn new(arg0: u16, arg1: u16, width: u16, height: u16) -> (c: ClipWindowConfig)
        ensures
            c == (ClipWindowConfig { cmd: 102u8, arg0, arg1, width, height }),
    {
        ClipWindowConfig { cmd: 102, arg0, arg1, width, height }
    }

    /// Serialize the record at the writer's cursor.
    pub fn write_to(&self, w: &mut Writer)
        requires
            old(w)@.len() + 9 <= old(w).spec_capacity(),
        ensures
            final(w)@ == old(w)@ + self.spec_bytes(),
            final(w)@.len() == old(w)@.len() + 9,
            final(w).spec_base() == old(w).spec_base(),
            final(w).spec_capacity() == old(w).spec_capacity(),
    {
        w.write_u8(self.cmd);
        w.write_u16(self.arg0);
        w.write_u16(self.arg1);
        w.write_u16(self.width);
        w.write_u16(self.height);
        proof {
            vstd::bytes::lemma_auto_spec_u16_to_from_le_bytes();
            assert(w@ =~= old(w)@ + self.spec_bytes());
        }
    }
}

/// Viewport offset record (command 103).
pub struct ViewportOffset {
    pub cmd: u8,
    pub x_probably: u16,
    pub y_probably: u16,
}

impl ViewportOffset {
    /// The record's wire image.
    pub open spec fn spec_bytes(&self) -> Seq<u8> {
        seq![self.cmd] + spec_u16_to_le_bytes(self.x_probably) + spec_u16_to_le_bytes(
            self.y_probably,
        )
    }

    pub fn new(x_probably: u16, y_probably: u16) -> (c: ViewportOffset)
        ensures
            c == (ViewportOffset { cmd: 103u8, x_probably, y_probably }),
    {
        ViewportOffset { cmd: 103, x_probably, y_probably }
    }

    /// Serialize the record at the writer's cursor.
    pub fn write_to(&self, w: &mut Writer)
        requires
            old(w)@.len() + 5 <= old(w).spec_capacity(),
        ensures
            final(w)@ == old(w)@ + self.spec_bytes(),
            final(w)@.len() == old(w)@.len() + 5,
            final(w).spec_base() == old(w).spec_base(),
            final(w).spec_capacity() == old(w).spec_capacity(),
    {
        w.write_u8(self.cmd);
        w.write_u16(self.x_probably);
        w.write_u16(self.y_probably);
        proof {
            vstd::bytes::lemma_auto_spec_u16_to_from_le_bytes();
            assert(w@ =~= old(w)@ + self.spec_bytes());
        }
    }
}

/// One step of the hardware submission sequence: a plain register write, a
/// poll until a mask clears, or a poll until a register reads zero.
#[derive(Debug, Clone, Copy, PartialEq, Eq, Structural)]
pub enum V3dOp {
    /// Write `value` to the register at `reg`.
    Write { reg: u32, value: u32 },
    /// Spin until the register at `reg` reads with all `mask` bits clear.
    WaitMaskClear { reg: u32, mask: u32 },
    /// Spin until the register at `reg` reads zero.
    WaitZero { reg: u32 },
}

/// A raw reading of the registers that the status report covers.
#[derive(Debug, Clone, Copy, PartialEq, Eq, Structural)]
pub struct V3dStatusSnapshot {
    pub ct0_status: u32,
    pub ct1_status: u32,
    pub perf_counter0: u32,
    pub perf_counter1: u32,
    pub perf_counter2: u32,
    pub perf_counter3: u32,
    pub ident0: u32,
    pub ident1: u32,
    pub ident2: u32,
    pub l2_cache_ctrl: u32,
    pub slice_cache_ctrl: u32,
    pub binning_flush_count: u32,
    pub render_frame_count: u32,
}

/// The decoded status report: the error bits of both control-list threads
/// and the completion state of the two pipeline stages, beside the raw
/// counter and identifier values.
#[derive(Debug, Clone, Copy, PartialEq, Eq, Structural)]
pub struct V3dStatusReport {
    pub ct0_status: u32,
    pub ct0_out_of_memory: bool,
    pub ct0_queue_full: bool,
    pub ct0_dma_overflow: bool,
    pub ct1_status: u32,
    pub ct1_out_of_memory: bool,
    pub ct1_queue_full: bool,
    pub ct1_dma_overflow: bool,
    pub perf_counter0: u32,
    pub perf_counter1: u32,
    pub perf_counter2: u32,
    pub perf_counter3: u32,
    pub ident0: u32,
    pub ident1: u32,
    pub ident2: u32,
    pub l2_cache_ctrl: u32,
    pub slice_cache_ctrl: u32,
    pub binning_flush_count: u32,
    pub binning_complete: bool,
    pub render_frame_count: u32,
    pub render_complete: bool,
}

/// Decode a register snapshot into the status report.  Purely
/// observational: bit `0x200` is out-of-memory, `0x400` queue-full,
/// `0x800` DMA-overflow, and a stage is complete when its counter is zero.
pub fn check_v3d_status(s: &V3dStatusSnapshot) -> (r: V3dStatusReport)
    ensures
        r.ct0_status == s.ct0_status,
        r.ct0_out_of_memory == (s.ct0_status & 0x200 != 0),
        r.ct0_queue_full == (s.ct0_status & 0x400 != 0),
        r.ct0_dma_overflow == (s.ct0_status & 0x800 != 0),
        r.ct1_status == s.ct1_status,
        r.ct1_out_of_memory == (s.ct1_status & 0x200 != 0),
        r.ct1_queue_full == (s.ct1_status & 0x400 != 0),
        r.ct1_dma_overflow == (s.ct1_status & 0x800 != 0),
        r.perf_counter0 == s.perf_counter0,
        r.perf_counter1 == s.perf_counter1,
        r.perf_counter2 == s.perf_counter2,
        r.perf_counter3 == s.perf_counter3,
        r.ident0 == s.ident0,
        r.ident1 == s.ident1,
        r.ident2 == s.ident2,
        r.l2_cache_ctrl == s.l2_cache_ctrl,
        r.slice_cache_ctrl == s.slice_cache_ctrl,
        r.binning_flush_count == s.binning_flush_count,
        r.binning_complete == (s.binning_flush_count == 0),
        r.render_frame_count == s.render_frame_count,
        r.render_complete == (s.render_frame_count == 0),
{
    V3dStatusReport {
        ct0_status: s.ct0_status,
        ct0_out_of_memory: s.ct0_status & 0x200 != 0,
        ct0_queue_full: s.ct0_status & 0x400 != 0,
        ct0_dma_overflow: s.ct0_status & 0x800 != 0,
        ct1_status: s.ct1_status,
        ct1_out_of_memory: s.ct1_status & 0x200 != 0,
        ct1_queue_full: s.ct1_status & 0x400 != 0,
        ct1_dma_overflow: s.ct1_status & 0x800 != 0,
        perf_counter0: s.perf_counter0,
        perf_counter1: s.perf_counter1,
        perf_counter2: s.perf_counter2,
        perf_counter3: s.perf_counter3,
        ident0: s.ident0,
        ident1: s.ident1,
        ident2: s.ident2,
        l2_cache_ctrl: s.l2_cache_ctrl,
        slice_cache_ctrl: s.slice_cache_ctrl,
        binning_flush_count: s.binning_flush_count,
        binning_complete: s.binning_flush_count == 0,
        render_frame_count: s.render_frame_count,
        render_complete: s.render_frame_count == 0,
    }
}

/// The V3D scene: the recorded GPU addresses and sizes of every buffer the
/// pipeline consumes.
pub struct Scene {
    /// Render-control allocation handle.
    pub render_handle: GpuHandle,
    /// Renderer data locked address (reserved; unused by the current flow).
    pub render_data: Vc4Addr,
    /// Render width in pixels.
    pub render_width: u16,
    /// Render height in pixels.
    pub render_height: u16,
    /// GPU address where the shader code starts.
    pub shader_start: Vc4Addr,
    /// GPU address of the fragment shader record.
    pub frag_shader_rec_start: Vc4Addr,
    /// Tile columns.
    pub bin_width: u32,
    /// Tile rows.
    pub bin_height: u32,
    /// GPU address of the render control list.
    pub render_control: Vc4Addr,
    /// GPU address just past the render control list.
    pub render_control_end: Vc4Addr,
    /// GPU address of the vertex data.
    pub vertex_vc4: Vc4Addr,
    /// Number of vertices.
    pub num_verts: u32,
    /// GPU address of the index data.
    pub index_vertex: Vc4Addr,
    /// Number of indices.
    pub index_vertex_cnt: u32,
    /// Largest index referenced.
    pub max_index_vertex: u32,
    /// Tile memory allocation handle.
    pub tile_handle: GpuHandle,
    /// Tile memory size in bytes.
    pub tile_mem_size: u32,
    /// Tile state allocation handle.
    pub tile_state_handle: GpuHandle,
    /// Tile state locked address.
    pub tile_state_data: Vc4Addr,
    /// Tile state size in bytes.
    pub tile_state_size: u32,
    /// Tile data buffer locked address.
    pub tile_data_buffer: Vc4Addr,
    /// Binning allocation handle.
    pub binning_handle: GpuHandle,
    /// Binning configuration list locked address.
    pub binning_data: Vc4Addr,
    /// GPU address just past the binning configuration list.
    pub binning_cfg_end: Vc4Addr,
}

impl Scene {
    /// Create a scene for the given render dimensions.  Everything else
    /// starts at zero and is filled in by the construction steps.
    pub fn init(render_width: u16, render_height: u16) -> (r: Result<Scene, SceneError>)
        ensures
            r is Ok,
            r->Ok_0 == (Scene {
                render_handle: 0u32,
                render_data: 0u32,
                render_width,
                render_height,
                shader_start: 0u32,
                frag_shader_rec_start: 0u32,
                bin_width: 0u32,
                bin_height: 0u32,
                render_control: 0u32,
                render_control_end: 0u32,
                vertex_vc4: 0u32,
                num_verts: 0u32,
                index_vertex: 0u32,
                index_vertex_cnt: 0u32,
                max_index_vertex: 0u32,
                tile_handle: 0u32,
                tile_mem_size: 0u32,
                tile_state_handle: 0u32,
                tile_state_data: 0u32,
                tile_state_size: 0u32,
                tile_data_buffer: 0u32,
                binning_handle: 0u32,
                binning_data: 0u32,
                binning_cfg_end: 0u32,
            }),
    {
        Ok(
            Scene {
                render_handle: 0,
                render_data: 0,
                render_width,
                render_height,
                shader_start: 0,
                frag_shader_rec_start: 0,
                bin_width: 0,
                bin_height: 0,
                render_control: 0,
                render_control_end: 0,
                vertex_vc4: 0,
                num_verts: 0,
                index_vertex: 0,
                index_vertex_cnt: 0,
                max_index_vertex: 0,
                tile_handle: 0,
                tile_mem_size: 0,
                tile_state_handle: 0,
                tile_state_data: 0,
                tile_state_size: 0,
                tile_data_buffer: 0,
                binning_handle: 0,
                binning_data: 0,
                binning_cfg_end: 0,
            },
        )
    }

    /// Build the fixed test geometry.  `vertex_addr` and `index_addr` are
    /// the locked GPU addresses of the two data regions (each allocated
    /// with 0x1000 bytes); the returned writers hold the exact vertex and
    /// index bytes destined for them.
    pub fn add_vertices(&mut self, vertex_addr: Vc4Addr, index_addr: Vc4Addr) -> (r: Result<
        (Writer, Writer),
        SceneError,
    >)
        ensures
            r is Ok,
            r->Ok_0.0@ == spec_vertex_bytes(old(self).render_width, old(self).render_height),
            r->Ok_0.0.spec_base() == crate::addr::spec_gpu_to_arm(vertex_addr),
            r->Ok_0.0.spec_capacity() == 0x1000usize,
            r->Ok_0.1@ == spec_index_bytes(),
            r->Ok_0.1.spec_base() == crate::addr::spec_gpu_to_arm(index_addr),
            r->Ok_0.1.spec_capacity() == 9usize,
            *final(self) == (Scene {
                vertex_vc4: vertex_addr,
                num_verts: 7u32,
                index_vertex: index_addr,
                index_vertex_cnt: 9u32,
                max_index_vertex: 6u32,
                ..*old(self)
            }),
    {
        self.vertex_vc4 = vertex_addr;
        let mut vw = Writer::new(vertex_addr, 0x1000);

        let cx: u32 = (self.render_width / 2) as u32;
        let h2: u32 = (self.render_height / 2) as u32;
        let cy1: u32 = 4 * h2 / 10;
        let hw: u32 = 4 * cx / 10;
        let hh: u32 = 3 * h2 / 10;
        proof {
            lemma_div_is_ordered(3 * h2, 4 * h2, 10);
            lemma_div_is_ordered(4 * cx, 10 * cx, 10);
            lemma_div_by_multiple(cx as int, 10);
            assert(cx * 10 == 10 * cx) by (nonlinear_arith);
        }

        // Vertex: top, red.
        write_vertex(&mut vw, cx, cy1 - hh, F32_ONE_BITS, F32_ZERO_BITS, F32_ZERO_BITS);
        // Vertex: bottom left, blue.
        write_vertex(&mut vw, cx - hw, cy1 + hh, F32_ZERO_BITS, F32_ZERO_BITS, F32_ONE_BITS);
        // Vertex: bottom right, green.
        write_vertex(&mut vw, cx + hw, cy1 + hh, F32_ZERO_BITS, F32_ONE_BITS, F32_ZERO_BITS);

        let cy2: u32 = 27 * h2 / 20;
        proof {
            lemma_div_is_ordered(3 * h2, 10 * h2, 10);
            lemma_div_by_multiple(h2 as int, 10);
            lemma_div_is_ordered(20 * h2, 27 * h2, 20);
            lemma_div_by_multiple(h2 as int, 20);
            assert(h2 * 10 == 10 * h2 && h2 * 20 == 20 * h2) by (nonlinear_arith);
        }

        // Vertex: top left, blue.
        write_vertex(&mut vw, cx - hw, cy2 - hh, F32_ZERO_BITS, F32_ZERO_BITS, F32_ONE_BITS);
        // Vertex: bottom left, green.
        write_vertex(&mut vw, cx - hw, cy2 + hh, F32_ZERO_BITS, F32_ONE_BITS, F32_ZERO_BITS);
        // Vertex: top right, red.
        write_vertex(&mut vw, cx + hw, cy2 - hh, F32_ONE_BITS, F32_ZERO_BITS, F32_ZERO_BITS);
        // Vertex: bottom right, yellow.
        write_vertex(&mut vw, cx + hw, cy2 - hh, F32_ZERO_BITS, F32_ONE_BITS, F32_ONE_BITS);
        proof {
            assert(vw@ =~= spec_vertex_bytes(self.render_width, self.render_height));
        }
        self.num_verts = 7;

        let mut index_data: Vec<u8> = Vec::new();
        index_data.push(0);
        index_data.push(1);
        index_data.push(2);
        index_data.push(3);
        index_data.push(4);
        index_data.push(5);
        index_data.push(4);
        index_data.push(6);
        index_data.push(5);
        proof {
            assert(index_data@ =~= spec_index_bytes());
        }

        self.index_vertex = index_addr;
        let mut iw = Writer::new(index_addr, index_data.len());
        iw.write(index_data.as_slice());

        self.index_vertex_cnt = index_data.len() as u32;
        self.max_index_vertex = 6;

        Ok((vw, iw))
    }

    /// Install the built-in test shader.
    pub fn add_test_shaders(&mut self, shader_addr: Vc4Addr, record_addr: Vc4Addr) -> (r: Result<
        (Writer, Writer),
        SceneError,
    >)
        ensures
            r is Ok,
            r->Ok_0.0@ == spec_u32s_le_bytes(spec_vertex_shader()),
            r->Ok_0.0.spec_base() == crate::addr::spec_gpu_to_arm(shader_addr),
            r->Ok_0.1@ == spec_shader_record_bytes(shader_addr, old(self).vertex_vc4),
            r->Ok_0.1.spec_base() == crate::addr::spec_gpu_to_arm(record_addr),
            *final(self) == (Scene {
                shader_start: shader_addr,
                frag_shader_rec_start: record_addr,
                ..*old(self)
            }),
    {
        let code = vertex_shader_instructions();
        self.add_shader(code.as_slice(), shader_addr, record_addr)
    }

    /// Install a shader: serialize its raw instruction words into the code
    /// region at `shader_addr` and build the shader record, which embeds
    /// the shader block's GPU address and the vertex buffer's GPU address,
    /// destined for `record_addr`.
    pub fn add_shader(&mut self, shader: &[u32], shader_addr: Vc4Addr, record_addr: Vc4Addr) -> (r:
        Result<(Writer, Writer), SceneError>)
        requires
            shader@.len() * 4 <= usize::MAX,
        ensures
            r is Ok,
            r->Ok_0.0@ == spec_u32s_le_bytes(shader@),
            r->Ok_0.0.spec_base() == crate::addr::spec_gpu_to_arm(shader_addr),
            r->Ok_0.0.spec_capacity() == shader@.len() * 4,
            r->Ok_0.1@ == spec_shader_record_bytes(shader_addr, old(self).vertex_vc4),
            r->Ok_0.1.spec_base() == crate::addr::spec_gpu_to_arm(record_addr),
            r->Ok_0.1.spec_capacity() == 16usize,
            *final(self) == (Scene {
                shader_start: shader_addr,
                frag_shader_rec_start: record_addr,
                ..*old(self)
            }),
    {
        self.shader_start = shader_addr;
        let mut cw = Writer::new(shader_addr, shader.len() * 4);
        let mut i: usize = 0;
        while i < shader.len()
            invariant
                i <= shader@.len(),
                shader@.len() * 4 <= usize::MAX,
                cw@ == spec_u32s_le_bytes(shader@.subrange(0, i as int)),
                cw@.len() == 4 * i,
                cw.spec_base() == crate::addr::spec_gpu_to_arm(shader_addr),
                cw.spec_capacity() == shader@.len() * 4,
            decreases shader@.len() - i,
        {
            cw.write_u32(shader[i]);
            i = i + 1;
            proof {
                vstd::bytes::lemma_auto_spec_u32_to_from_le_bytes();
                let pre = shader@.subrange(0, i as int);
                assert(pre.drop_last() =~= shader@.subrange(0, i - 1));
                assert(pre.last() == shader@[i - 1]);
            }
        }
        proof {
            assert(shader@.subrange(0, shader@.len() as int) =~= shader@);
        }

        self.frag_shader_rec_start = record_addr;
        let mut rw = Writer::new(record_addr, 16);
        rw.write_u8(0x01);
        rw.write_u8(24);
        rw.write_u8(0xcc);
        rw.write_u8(3);
        rw.write_u32(shader_addr);
        rw.write_u32(0);
        rw.write_u32(self.vertex_vc4);
        proof {
            assert(rw@ =~= spec_shader_record_bytes(shader_addr, self.vertex_vc4));
        }

        Ok((cw, rw))
    }

    /// Build the render control list.  `render_addr` is the locked GPU
    /// address of a region of `render_control_size` bytes allocated for
    /// it, under the handle `render_handle`.  The list targets the
    /// framebuffer at `fb_addr` and branches into the tile data buffer the
    /// scene currently records (still zero when the binning configuration
    /// has not run yet, which the construction order of this pipeline
    /// accepts).
    pub fn setup_render_control(
        &mut self,
        fb_addr: u32,
        render_handle: GpuHandle,
        render_addr: Vc4Addr,
    ) -> (r: Result<Writer, SceneError>)
        requires
            old(self).render_width > 0,
            old(self).render_height > 0,
            old(self).tile_data_buffer <= 0xF7FF_FFFFu32,
            render_addr + spec_render_control_size(
                spec_bin_dim(old(self).render_width),
                spec_bin_dim(old(self).render_height),
            ) <= 0xFFFF_FFFF,
        ensures
            r is Ok,
            r->Ok_0@ == spec_render_control_bytes(
                old(self).render_width,
                old(self).render_height,
                fb_addr,
                old(self).tile_data_buffer,
            ),
            r->Ok_0.spec_base() == crate::addr::spec_gpu_to_arm(render_addr),
            r->Ok_0.spec_capacity() == spec_render_control_size(
                spec_bin_dim(old(self).render_width),
                spec_bin_dim(old(self).render_height),
            ),
            final(self).bin_width == spec_bin_dim(old(self).render_width),
            final(self).bin_height == spec_bin_dim(old(self).render_height),
            final(self).render_handle == render_handle,
            final(self).render_control == render_addr,
            final(self).render_control_end == render_addr + 40 + 9 * (spec_bin_dim(
                old(self).render_width,
            ) * spec_bin_dim(old(self).render_height)),
            final(self).render_data == old(self).render_data,
            final(self).render_width == old(self).render_width,
            final(self).render_height == old(self).render_height,
            final(self).shader_start == old(self).shader_start,
            final(self).frag_shader_rec_start == old(self).frag_shader_rec_start,
            final(self).vertex_vc4 == old(self).vertex_vc4,
            final(self).num_verts == old(self).num_verts,
            final(self).index_vertex == old(self).index_vertex,
            final(self).index_vertex_cnt == old(self).index_vertex_cnt,
            final(self).max_index_vertex == old(self).max_index_vertex,
            final(self).tile_handle == old(self).tile_handle,
            final(self).tile_mem_size == old(self).tile_mem_size,
            final(self).tile_state_handle == old(self).tile_state_handle,
            final(self).tile_state_data == old(self).tile_state_data,
            final(self).tile_state_size == old(self).tile_state_size,
            final(self).tile_data_buffer == old(self).tile_data_buffer,
            final(self).binning_handle == old(self).binning_handle,
            final(self).binning_data == old(self).binning_data,
            final(self).binning_cfg_end == old(self).binning_cfg_end,
    {
        let w = self.render_width;
        let h = self.render_height;
        let tb = self.tile_data_buffer;
        let bw = bin_dim(w);
        let bh = bin_dim(h);
        self.bin_width = bw;
        self.bin_height = bh;
        let size = render_control_size(bw, bh);
        self.render_handle = render_handle;

        let tile_render_config = TileRenderModeConfig::new(w, h, 0x04, 0, fb_addr);

        self.render_control = render_addr;
        let mut writer = Writer::new(render_addr, size as usize);
        proof {
            assert(1 <= bw * bh <= 0x400000) by (nonlinear_arith)
                requires
                    1 <= bw <= 0x800 && 1 <= bh <= 0x800,
            ;
        }

        writer.write_u8(114);
        writer.write_u32(0);
        writer.write_u32(0);
        writer.write_u32(0);
        writer.write_u8(0);
        tile_render_config.write_to(&mut writer);
        writer.write_u8(115);
        writer.write_u8(0);
        writer.write_u8(0);
        writer.write_u8(28);
        writer.write_u16(0);
        writer.write_u32(0);
        writer.write_u8(1);
        writer.write_u8(1);
        proof {
            assert(writer@ =~= spec_rc_prologue(w, h, fb_addr));
        }

        let mut y: u32 = 0;
        while y < bh
            invariant
                y <= bh,
                1 <= bw <= 0x800,
                1 <= bh <= 0x800,
                tb <= 0xF7FF_FFFFu32,
                writer@ == spec_rc_prologue(w, h, fb_addr) + spec_tiles_prefix(
                    tb,
                    bw,
                    bh,
                    y as int * bw as int,
                ),
                writer@.len() == 40 + 9 * (y as int * bw as int),
                writer.spec_base() == crate::addr::spec_gpu_to_arm(render_addr),
                writer.spec_capacity() == size as usize,
                size as int == 20 * (bw as int * bh as int) + 37,
            decreases bh - y,
        {
            let mut x: u32 = 0;
            while x < bw
                invariant
                    x <= bw,
                    y < bh,
                    1 <= bw <= 0x800,
                    1 <= bh <= 0x800,
                    tb <= 0xF7FF_FFFFu32,
                    writer@ == spec_rc_prologue(w, h, fb_addr) + spec_tiles_prefix(
                        tb,
                        bw,
                        bh,
                        y as int * bw as int + x as int,
                    ),
                    writer@.len() == 40 + 9 * (y as int * bw as int + x as int),
                    writer.spec_base() == crate::addr::spec_gpu_to_arm(render_addr),
                    writer.spec_capacity() == size as usize,
                    size as int == 20 * (bw as int * bh as int) + 37,
                decreases bw - x,
            {
                let ghost k: int = y as int * bw as int + x as int;
                proof {
                    assert((y as int * bw as int + x as int) < (bw as int * bh as int) && (x as int
                        * bw as int) <= 0x7FF * 0x800) by (nonlinear_arith)
                        requires
                            0 <= x < bw && 0 <= y < bh && bw <= 0x800 && bh <= 0x800,
                    ;
                }
                let coords = TileCoords::new(
                    #[verifier::truncate] (x as u8),
                    #[verifier::truncate] (y as u8),
                );
                coords.write_to(&mut writer);
                writer.write_u8(17);
                let idx: u32 = y + x * bw;
                writer.write_u32(tb + idx * 32);
                if x == bw - 1 && y == bh - 1 {
                    writer.write_u8(25);
                } else {
                    writer.write_u8(24);
                }
                proof {
                    lemma_fundamental_div_mod_converse(k, bw as int, y as int, x as int);
                    assert((y as int * bw as int + x as int == bw as int * bh as int - 1) <==> (x
                        == bw - 1 && y == bh - 1)) by (nonlinear_arith)
                        requires
                            0 <= x < bw && 0 <= y < bh,
                    ;
                    assert(writer@ =~= spec_rc_prologue(w, h, fb_addr) + spec_tiles_prefix(
                        tb,
                        bw,
                        bh,
                        k + 1,
                    ));
                }
                x = x + 1;
            }
            proof {
                assert((y as int + 1) * bw as int == y as int * bw as int + bw as int)
                    by (nonlinear_arith);
            }
            y = y + 1;
        }
        proof {
            assert(bh as int * bw as int == bw as int * bh as int) by (nonlinear_arith);
            assert(writer@ =~= spec_render_control_bytes(w, h, fb_addr, tb));
        }
        let written = writer.bytes_written();
        self.render_control_end = render_addr + (written as u32);
        Ok(writer)
    }

    /// Build the binning configuration list and record the tile scratch
    /// regions.  The tile memory takes 64 bytes per tile and the tile
    /// state 48; the binning list itself goes into a 4096-byte region at
    /// `binning_addr`.  The three handles and three locked addresses come
    /// from the firmware's allocate and lock calls for the tile data, the
    /// tile state, and the binning list.
    pub fn setup_binning_config(
        &mut self,
        tile_handle: GpuHandle,
        tile_state_handle: GpuHandle,
        binning_handle: GpuHandle,
        tile_data_addr: Vc4Addr,
        tile_state_addr: Vc4Addr,
        binning_addr: Vc4Addr,
    ) -> (r: Result<Writer, SceneError>)
        requires
            binning_addr + 65 <= 0xFFFF_FFFF,
        ensures
            r is Ok,
            r->Ok_0@ == spec_binning_config_bytes(
                old(self).render_width,
                old(self).render_height,
                tile_data_addr,
                tile_state_addr,
                old(self).frag_shader_rec_start,
                old(self).index_vertex,
                old(self).index_vertex_cnt,
                old(self).max_index_vertex,
            ),
            r->Ok_0.spec_base() == crate::addr::spec_gpu_to_arm(binning_addr),
            r->Ok_0.spec_capacity() == 4096usize,
            final(self).bin_width == spec_bin_dim(old(self).render_width),
            final(self).bin_height == spec_bin_dim(old(self).render_height),
            final(self).tile_mem_size == 64 * (spec_bin_dim(old(self).render_width) * spec_bin_dim(
                old(self).render_height,
            )),
            final(self).tile_state_size == 48 * (spec_bin_dim(old(self).render_width)
                * spec_bin_dim(old(self).render_height)),
            final(self).tile_handle == tile_handle,
            final(self).tile_state_handle == tile_state_handle,
            final(self).binning_handle == binning_handle,
            final(self).tile_data_buffer == tile_data_addr,
            final(self).tile_state_data == tile_state_addr,
            final(self).binning_data == binning_addr,
            final(self).binning_cfg_end == binning_addr + 65,
            final(self).render_handle == old(self).render_handle,
            final(self).render_data == old(self).render_data,
            final(self).render_width == old(self).render_width,
            final(self).render_height == old(self).render_height,
            final(self).shader_start == old(self).shader_start,
            final(self).frag_shader_rec_start == old(self).frag_shader_rec_start,
            final(self).render_control == old(self).render_control,
            final(self).render_control_end == old(self).render_control_end,
            final(self).vertex_vc4 == old(self).vertex_vc4,
            final(self).num_verts == old(self).num_verts,
            final(self).index_vertex == old(self).index_vertex,
            final(self).index_vertex_cnt == old(self).index_vertex_cnt,
            final(self).max_index_vertex == old(self).max_index_vertex,
    {
        let bw = bin_dim(self.render_width);
        let bh = bin_dim(self.render_height);
        self.bin_width = bw;
        self.bin_height = bh;
        proof {
            assert(bw * bh <= 0x400000) by (nonlinear_arith)
                requires
                    bw <= 0x800 && bh <= 0x800,
            ;
        }
        let tiles = bw * bh;
        self.tile_mem_size = tiles * 64;
        self.tile_state_size = tiles * 48;

        self.tile_handle = tile_handle;
        self.tile_state_handle = tile_state_handle;
        self.binning_handle = binning_handle;
        self.tile_data_buffer = tile_data_addr;
        self.tile_state_data = tile_state_addr;
        self.binning_data = binning_addr;

        let mut writer = Writer::new(binning_addr, 4096);

        // Flags byte: auto-initialise tile state (bit 2), 32-byte tile
        // allocation blocks.
        TileBinningConfig::new(
            bw,
            bh,
            tile_data_addr,
            self.tile_mem_size,
            tile_state_addr,
            4,
        ).write_to(&mut writer);

        // Start tile binning.
        writer.write_u8(6);

        // Primitive list format.
        writer.write_u8(56);
        writer.write_u8(0x12);

        ClipWindowConfig::new(0, 0, self.render_width, self.render_height).write_to(&mut writer);

        // Config state: the fixed bytes this pipeline was brought up with.
        writer.write_u8(96);
        writer.write_u8(0x03);
        writer.write_u8(0x00);
        writer.write_u8(0x02);

        ViewportOffset::new(0, 0).write_to(&mut writer);

        // "No vertex shader" shader state: pre-transformed vertices, so
        // only the fragment shader record is referenced.
        writer.write_u8(65);
        writer.write_u32(self.frag_shader_rec_start);

        // Indexed primitive list: triangles.
        writer.write_u8(32);
        writer.write_u8(4);
        writer.write_u32(self.index_vertex_cnt);
        writer.write_u32(self.index_vertex);
        writer.write_u32(self.max_index_vertex);

        // End of the bin list: flush all state, nop, halt.
        writer.write_u8(5);
        writer.write_u8(1);
        writer.write_u8(0);
        proof {
            assert(writer@ =~= spec_binning_config_bytes(
                self.render_width,
                self.render_height,
                tile_data_addr,
                tile_state_addr,
                self.frag_shader_rec_start,
                self.index_vertex,
                self.index_vertex_cnt,
                self.max_index_vertex,
            ));
        }

        let written = writer.bytes_written();
        self.binning_cfg_end = binning_addr + written as u32;

        Ok(writer)
    }

    /// Placeholder for a record-address bump allocator that this pipeline
    /// does not use: every buffer is allocated through the property
    /// mailbox instead, so nothing should reach for an address this way.
    pub fn new_record_addr(&self) -> (r: u32)
        ensures
            r == 42069u32,
    {
        42069
    }

    /// The exact register sequence of one frame submission: clear the
    /// caches, stop the binning thread and wait until it has stopped, run
    /// the binning list and wait for the flush counter, stop the render
    /// thread, then run the render list and wait for the frame counter.
    /// The polls spin with no timeout; an unresponsive GPU hangs the
    /// replaying loop, which is the accepted behavior of this bring-up
    /// environment.
    pub fn render_ops(&self) -> (ops: Vec<V3dOp>)
        ensures
            ops@ == seq![
                V3dOp::Write { reg: V3DRegisters::L2_CACHE_CTRL, value: 4u32 },
                V3dOp::Write { reg: V3DRegisters::SLICE_CACHE_CTRL, value: 0x0f0f0f0fu32 },
                V3dOp::Write { reg: V3DRegisters::CONTROL_LIST0_CS, value: 0x20u32 },
                V3dOp::WaitMaskClear { reg: V3DRegisters::CONTROL_LIST0_CS, mask: 0x20u32 },
                V3dOp::Write { reg: V3DRegisters::BINNING_FLUSH_CNT, value: 1u32 },
                V3dOp::Write { reg: V3DRegisters::CONTROL_LIST0_CA, value: self.binning_data },
                V3dOp::Write { reg: V3DRegisters::CONTROL_LIST0_EA, value: self.binning_cfg_end },
                V3dOp::WaitZero { reg: V3DRegisters::BINNING_FLUSH_CNT },
                V3dOp::Write { reg: V3DRegisters::CONTROL_LIST1_CS, value: 0x20u32 },
                V3dOp::Write { reg: V3DRegisters::RENDER_FRAME_CNT, value: 1u32 },
                V3dOp::Write { reg: V3DRegisters::CONTROL_LIST1_CA, value: self.render_control },
                V3dOp::Write { reg: V3DRegisters::CONTROL_LIST1_EA, value: self.render_control_end },
                V3dOp::WaitZero { reg: V3DRegisters::RENDER_FRAME_CNT },
            ],
    {
        let mut ops: Vec<V3dOp> = Vec::new();
        ops.push(V3dOp::Write { reg: V3DRegisters::L2_CACHE_CTRL, value: 4 });
        ops.push(V3dOp::Write { reg: V3DRegisters::SLICE_CACHE_CTRL, value: 0x0f0f0f0f });
        ops.push(V3dOp::Write { reg: V3DRegisters::CONTROL_LIST0_CS, value: 0x20 });
        ops.push(V3dOp::WaitMaskClear { reg: V3DRegisters::CONTROL_LIST0_CS, mask: 0x20 });
        ops.push(V3dOp::Write { reg: V3DRegisters::BINNING_FLUSH_CNT, value: 1 });
        ops.push(V3dOp::Write { reg: V3DRegisters::CONTROL_LIST0_CA, value: self.binning_data });
        ops.push(V3dOp::Write { reg: V3DRegisters::CONTROL_LIST0_EA, value: self.binning_cfg_end });
        ops.push(V3dOp::WaitZero { reg: V3DRegisters::BINNING_FLUSH_CNT });
        ops.push(V3dOp::Write { reg: V3DRegisters::CONTROL_LIST1_CS, value: 0x20 });
        ops.push(V3dOp::Write { reg: V3DRegisters::RENDER_FRAME_CNT, value: 1 });
        ops.push(V3dOp::Write { reg: V3DRegisters::CONTROL_LIST1_CA, value: self.render_control });
        ops.push(
            V3dOp::Write { reg: V3DRegisters::CONTROL_LIST1_EA, value: self.render_control_end },
        );
        ops.push(V3dOp::WaitZero { reg: V3DRegisters::RENDER_FRAME_CNT });
        proof {
            assert(ops@ =~= seq![
                V3dOp::Write { reg: V3DRegisters::L2_CACHE_CTRL, value: 4u32 },
                V3dOp::Write { reg: V3DRegisters::SLICE_CACHE_CTRL, value: 0x0f0f0f0fu32 },
                V3dOp::Write { reg: V3DRegisters::CONTROL_LIST0_CS, value: 0x20u32 },
                V3dOp::WaitMaskClear { reg: V3DRegisters::CONTROL_LIST0_CS, mask: 0x20u32 },
                V3dOp::Write { reg: V3DRegisters::BINNING_FLUSH_CNT, value: 1u32 },
                V3dOp::Write { reg: V3DRegisters::CONTROL_LIST0_CA, value: self.binning_data },
                V3dOp::Write { reg: V3DRegisters::CONTROL_LIST0_EA, value: self.binning_cfg_end },
                V3dOp::WaitZero { reg: V3DRegisters::BINNING_FLUSH_CNT },
                V3dOp::Write { reg: V3DRegisters::CONTROL_LIST1_CS, value: 0x20u32 },
                V3dOp::Write { reg: V3DRegisters::RENDER_FRAME_CNT, value: 1u32 },
                V3dOp::Write { reg: V3DRegisters::CONTROL_LIST1_CA, value: self.render_control },
                V3dOp::Write { reg: V3DRegisters::CONTROL_LIST1_EA, value: self.render_control_end },
                V3dOp::WaitZero { reg: V3DRegisters::RENDER_FRAME_CNT },
            ]);
        }
        ops
    }
}

} // verus!
