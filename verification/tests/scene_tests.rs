use vc4::addr::gpu_to_arm_addr;
use vc4::gl::{
    bin_dim, check_v3d_status, mem_alloc_result, mem_lock_result, render_control_size,
    ClipWindowConfig, Scene, SceneError, TileBinningConfig, TileBuffer, TileCoords,
    TileRenderModeConfig, V3dOp, V3dStatusSnapshot, ViewportOffset,
};
use vc4::v3d::buffer::Writer;
use vc4::v3d::flags::MemAllocFlags;
use vc4::v3d::message::{MailboxMessage, MailboxResponse, MailboxTagMessage};
use vc4::v3d::registers::V3DRegisters;
use vc4::v3d::{check_v3d_ident0, V3DError};

#[test]
fn bin_dimension_rounding() {
    assert_eq!(bin_dim(480), 15); // exact multiple of 32
    assert_eq!(bin_dim(481), 16); // one past rounds up
    assert_eq!(bin_dim(1), 1);
    assert_eq!(bin_dim(32), 1);
    assert_eq!(bin_dim(33), 2);
    assert_eq!(bin_dim(0), 0);
    assert_eq!(bin_dim(65535), 2048);
}

#[test]
fn render_control_size_formula() {
    assert_eq!(render_control_size(15, 15), 15 * 15 * 20 + 37);
    assert_eq!(render_control_size(1, 1), 57);
}

#[test]
fn scene_init_records_dimensions() {
    let scene = Scene::init(480, 480).unwrap();
    assert_eq!(scene.render_width, 480);
    assert_eq!(scene.render_height, 480);
    assert_eq!(scene.bin_width, 0);
    assert_eq!(scene.tile_data_buffer, 0);
    assert_eq!(scene.new_record_addr(), 42069);
}

#[test]
fn alloc_and_lock_scenario() {
    // Allocate 4096 bytes, coherent and zeroed; the emulated firmware
    // answers with handle 0x1000; locking that handle yields the GPU
    // address 0xC0001000; its ARM view is 0x1000; two eight-byte writes
    // land back to back.
    let mut alloc = MailboxMessage::mem_alloc(
        4096,
        0x1000,
        MemAllocFlags::COHERENT | MemAllocFlags::ZERO,
    );
    assert_eq!(alloc.size, 40);
    assert_eq!(alloc.tag, 0x0003_000C);
    assert_eq!(alloc.payload, vec![12, 12, 4096, 0x1000, 0x18, 0, 0]);
    alloc.status = 0x8000_0000;
    alloc.payload[2] = 0x1000;
    let handle = mem_alloc_result(&alloc).unwrap();
    assert_eq!(handle, 0x1000);

    let mut lock = MailboxMessage::mem_lock(handle);
    assert_eq!(lock.tag, 0x0003_000D);
    lock.status = 0x8000_0000;
    lock.payload[2] = 0xC000_1000;
    let gpu_addr = mem_lock_result(&lock).unwrap();
    assert_eq!(gpu_addr, 0xC000_1000);
    assert_eq!(gpu_to_arm_addr(gpu_addr), 0x0000_1000);

    let mut w = Writer::new(gpu_addr, 4096);
    w.write(&[1, 2, 3, 4, 5, 6, 7, 8]);
    w.write(&[9, 10, 11, 12, 13, 14, 15, 16]);
    assert_eq!(w.bytes_written(), 16);
    assert_eq!(
        &w.data()[0..16],
        &[1u8, 2, 3, 4, 5, 6, 7, 8, 9, 10, 11, 12, 13, 14, 15, 16]
    );
}

#[test]
fn alloc_result_rejects_failure_and_null_handle() {
    let mut reply = MailboxTagMessage::mem_alloc(64, 16, 0);
    // Still a request: no success.
    assert_eq!(mem_alloc_result(&reply), Err(SceneError::AllocMemory));
    // Error status.
    reply.status = 0x8000_0001;
    reply.payload[2] = 0x1234;
    assert_eq!(mem_alloc_result(&reply), Err(SceneError::AllocMemory));
    // Success but null handle.
    reply.status = 0x8000_0000;
    reply.payload[2] = 0;
    assert_eq!(mem_alloc_result(&reply), Err(SceneError::AllocMemory));
    // Success.
    reply.payload[2] = 7;
    assert_eq!(mem_alloc_result(&reply), Ok(7));
}

#[test]
fn lock_result_follows_status() {
    let mut reply = MailboxTagMessage::mem_lock(7);
    assert_eq!(mem_lock_result(&reply), Err(SceneError::LockMemory));
    reply.status = 0x8000_0000;
    reply.payload[2] = 0xC000_4000;
    assert_eq!(mem_lock_result(&reply), Ok(0xC000_4000));
}

#[test]
fn vertex_buffer_bytes() {
    let mut scene = Scene::init(480, 480).unwrap();
    let (vw, iw) = scene.add_vertices(0xC000_2000, 0xC000_3000).unwrap();
    assert_eq!(scene.vertex_vc4, 0xC000_2000);
    assert_eq!(scene.index_vertex, 0xC000_3000);
    assert_eq!(scene.num_verts, 7);
    assert_eq!(scene.index_vertex_cnt, 9);
    assert_eq!(scene.max_index_vertex, 6);

    // Seven vertices, seven 4-byte words each.
    assert_eq!(vw.bytes_written(), 196);
    assert_eq!(iw.data().as_slice(), &[0u8, 1, 2, 3, 4, 5, 4, 6, 5]);

    // First vertex: x = 240 << 4, y = (96 - 72) << 4, then 1.0, 1.0 and
    // red (1.0, 0.0, 0.0).  480/2 = 240; 0.4 * 240 = 96; 0.3 * 240 = 72.
    let words: Vec<u32> = vw
        .data()
        .chunks(4)
        .map(|c| u32::from_le_bytes([c[0], c[1], c[2], c[3]]))
        .collect();
    assert_eq!(words[0], 240 << 4);
    assert_eq!(words[1], 24 << 4);
    assert_eq!(words[2], 0x3F80_0000);
    assert_eq!(words[3], 0x3F80_0000);
    assert_eq!(&words[4..7], &[0x3F80_0000, 0, 0]);
    // Second vertex: bottom left, blue; x = 240 - 96, y = 96 + 72.
    assert_eq!(words[7], (240 - 96) << 4);
    assert_eq!(words[8], (96 + 72) << 4);
    assert_eq!(&words[11..14], &[0, 0, 0x3F80_0000]);
}

#[test]
fn shader_blocks() {
    let mut scene = Scene::init(480, 480).unwrap();
    scene.add_vertices(0xC000_2000, 0xC000_3000).unwrap();
    let (cw, rw) = scene.add_test_shaders(0xC000_4000, 0xC000_5000).unwrap();
    assert_eq!(scene.shader_start, 0xC000_4000);
    assert_eq!(scene.frag_shader_rec_start, 0xC000_5000);

    // Eighteen instruction words.
    assert_eq!(cw.bytes_written(), 72);
    assert_eq!(&cw.data()[0..4], &0x958e0dbfu32.to_le_bytes());
    assert_eq!(&cw.data()[68..72], &0x500009e7u32.to_le_bytes());

    // The shader record embeds the shader block and vertex buffer
    // addresses after the header quadruple.
    assert_eq!(rw.bytes_written(), 16);
    assert_eq!(&rw.data()[0..4], &[0x01, 24, 0xcc, 3]);
    assert_eq!(&rw.data()[4..8], &0xC000_4000u32.to_le_bytes());
    assert_eq!(&rw.data()[8..12], &0u32.to_le_bytes());
    assert_eq!(&rw.data()[12..16], &0xC000_2000u32.to_le_bytes());
}

#[test]
fn render_control_list_store_opcodes() {
    // 480 x 480: a 15 x 15 tile grid, 225 tiles; store opcode 25 exactly
    // once, on the last tile, and 24 on the 224 others.
    let mut scene = Scene::init(480, 480).unwrap();
    let writer = scene
        .setup_render_control(0xDE00_0000, 0x99, 0xC010_0000)
        .unwrap();
    assert_eq!(scene.bin_width, 15);
    assert_eq!(scene.bin_height, 15);
    assert_eq!(scene.render_control, 0xC010_0000);

    let bytes = writer.data();
    assert_eq!(bytes.len(), 40 + 9 * 225);
    assert_eq!(scene.render_control_end, 0xC010_0000 + bytes.len() as u32);

    let mut store24: usize = 0;
    let mut store25: usize = 0;
    for k in 0..225usize {
        let record = &bytes[40 + 9 * k..40 + 9 * k + 9];
        assert_eq!(record[0], 115); // tile coordinates
        assert_eq!(record[1], (k % 15) as u8); // column
        assert_eq!(record[2], (k / 15) as u8); // row
        assert_eq!(record[3], 17); // branch to sublist
        match record[8] {
            24 => store24 += 1,
            25 => store25 += 1,
            other => panic!("unexpected store opcode {other}"),
        }
    }
    assert_eq!(store24, 224);
    assert_eq!(store25, 1);
    assert_eq!(bytes[40 + 9 * 224 + 8], 25); // the last tile stores-and-ends
}

#[test]
fn render_control_tile_sublist_addresses() {
    // The branch target of tile (x, y) is tile_data_buffer plus
    // (y + x * bin_width) * 32 — the traversal the lists were written
    // against.  With the binning configuration not yet run the recorded
    // tile data buffer is zero.
    let mut scene = Scene::init(64, 64).unwrap(); // 2 x 2 tiles
    let writer = scene.setup_render_control(0xDE00_0000, 1, 0xC010_0000).unwrap();
    let bytes = writer.data();
    assert_eq!(bytes.len(), 40 + 9 * 4);
    let branch_addr = |k: usize| {
        u32::from_le_bytes([
            bytes[40 + 9 * k + 4],
            bytes[40 + 9 * k + 5],
            bytes[40 + 9 * k + 6],
            bytes[40 + 9 * k + 7],
        ])
    };
    // Traversal order: (0,0), (1,0), (0,1), (1,1).
    assert_eq!(branch_addr(0), 0 * 32); // y=0, x=0
    assert_eq!(branch_addr(1), 2 * 32); // y=0, x=1: 0 + 1*2
    assert_eq!(branch_addr(2), 1 * 32); // y=1, x=0
    assert_eq!(branch_addr(3), 3 * 32); // y=1, x=1: 1 + 1*2
}

#[test]
fn render_control_prologue_layout() {
    let mut scene = Scene::init(480, 480).unwrap();
    let writer = scene.setup_render_control(0xDEAD_0000, 1, 0xC010_0000).unwrap();
    let bytes = writer.data();
    // Clear-colors record.
    assert_eq!(bytes[0], 114);
    assert_eq!(&bytes[1..13], &[0u8; 12]);
    assert_eq!(bytes[13], 0);
    // Tile render-mode config.
    assert_eq!(bytes[14], 113);
    assert_eq!(u16::from_le_bytes([bytes[15], bytes[16]]), 480);
    assert_eq!(u16::from_le_bytes([bytes[17], bytes[18]]), 480);
    assert_eq!(u32::from_le_bytes([bytes[19], bytes[20], bytes[21], bytes[22]]), 4);
    assert_eq!(bytes[23], 0);
    assert_eq!(
        u32::from_le_bytes([bytes[24], bytes[25], bytes[26], bytes[27]]),
        0xDEAD_0000
    );
    // Priming tile coordinates and store placeholder.
    assert_eq!(&bytes[28..32], &[115, 0, 0, 28]);
    assert_eq!(&bytes[32..38], &[0u8; 6]);
    assert_eq!(&bytes[38..40], &[1, 1]);
}

#[test]
fn binning_config_list_layout() {
    let mut scene = Scene::init(480, 480).unwrap();
    scene.add_vertices(0xC000_2000, 0xC000_3000).unwrap();
    scene.add_test_shaders(0xC000_4000, 0xC000_5000).unwrap();
    let writer = scene
        .setup_binning_config(0x11, 0x22, 0x33, 0xC020_0000, 0xC030_0000, 0xC040_0000)
        .unwrap();

    assert_eq!(scene.tile_mem_size, 225 * 64);
    assert_eq!(scene.tile_state_size, 225 * 48);
    assert_eq!(scene.tile_data_buffer, 0xC020_0000);
    assert_eq!(scene.tile_state_data, 0xC030_0000);
    assert_eq!(scene.binning_data, 0xC040_0000);
    assert_eq!(scene.binning_cfg_end, 0xC040_0000 + 65);

    let b = writer.data();
    assert_eq!(b.len(), 65);
    // Tile binning config record.
    assert_eq!(b[0], 112);
    assert_eq!(u32::from_le_bytes([b[1], b[2], b[3], b[4]]), 15);
    assert_eq!(u32::from_le_bytes([b[5], b[6], b[7], b[8]]), 15);
    assert_eq!(u32::from_le_bytes([b[9], b[10], b[11], b[12]]), 0xC020_0000);
    assert_eq!(u32::from_le_bytes([b[13], b[14], b[15], b[16]]), 225 * 64);
    assert_eq!(u32::from_le_bytes([b[17], b[18], b[19], b[20]]), 0xC030_0000);
    assert_eq!(b[21], 4);
    // Start tile binning; primitive list format.
    assert_eq!(b[22], 6);
    assert_eq!(&b[23..25], &[56, 0x12]);
    // Clip window.
    assert_eq!(b[25], 102);
    assert_eq!(u16::from_le_bytes([b[30], b[31]]), 480);
    assert_eq!(u16::from_le_bytes([b[32], b[33]]), 480);
    // Config state; viewport offset.
    assert_eq!(&b[34..38], &[96, 0x03, 0x00, 0x02]);
    assert_eq!(&b[38..43], &[103, 0, 0, 0, 0]);
    // Shader state referencing the shader record.
    assert_eq!(b[43], 65);
    assert_eq!(u32::from_le_bytes([b[44], b[45], b[46], b[47]]), 0xC000_5000);
    // Indexed primitive list: triangles, nine indices, the index buffer,
    // max index 6.
    assert_eq!(&b[48..50], &[32, 4]);
    assert_eq!(u32::from_le_bytes([b[50], b[51], b[52], b[53]]), 9);
    assert_eq!(u32::from_le_bytes([b[54], b[55], b[56], b[57]]), 0xC000_3000);
    assert_eq!(u32::from_le_bytes([b[58], b[59], b[60], b[61]]), 6);
    // Flush, nop, halt.
    assert_eq!(&b[62..65], &[5, 1, 0]);
}

#[test]
fn record_constructors() {
    let c = TileRenderModeConfig::new(480, 480, 4, 0, 0xDE00_0000);
    assert_eq!(c.cmd, 113);
    let c = TileCoords::new(3, 7);
    assert_eq!((c.cmd, c.arg1, c.arg2), (115, 3, 7));
    let c = TileBuffer::new(1, 2);
    assert_eq!((c.cmd, c.arg1, c.arg2), (28, 1, 2));
    let c = TileBinningConfig::new(15, 15, 1, 2, 3, 4);
    assert_eq!(c.cmd, 112);
    let c = ClipWindowConfig::new(0, 0, 480, 480);
    assert_eq!(c.cmd, 102);
    let c = ViewportOffset::new(0, 0);
    assert_eq!(c.cmd, 103);
}

#[test]
fn render_ops_sequence() {
    let mut scene = Scene::init(64, 64).unwrap();
    scene.setup_render_control(0xDE00_0000, 1, 0xC010_0000).unwrap();
    scene
        .setup_binning_config(2, 3, 4, 0xC020_0000, 0xC030_0000, 0xC040_0000)
        .unwrap();
    let ops = scene.render_ops();
    assert_eq!(ops.len(), 13);
    assert_eq!(ops[0], V3dOp::Write { reg: V3DRegisters::L2_CACHE_CTRL, value: 4 });
    assert_eq!(
        ops[1],
        V3dOp::Write { reg: V3DRegisters::SLICE_CACHE_CTRL, value: 0x0f0f_0f0f }
    );
    assert_eq!(ops[2], V3dOp::Write { reg: V3DRegisters::CONTROL_LIST0_CS, value: 0x20 });
    assert_eq!(
        ops[3],
        V3dOp::WaitMaskClear { reg: V3DRegisters::CONTROL_LIST0_CS, mask: 0x20 }
    );
    assert_eq!(ops[4], V3dOp::Write { reg: V3DRegisters::BINNING_FLUSH_CNT, value: 1 });
    assert_eq!(
        ops[5],
        V3dOp::Write { reg: V3DRegisters::CONTROL_LIST0_CA, value: scene.binning_data }
    );
    assert_eq!(
        ops[6],
        V3dOp::Write { reg: V3DRegisters::CONTROL_LIST0_EA, value: scene.binning_cfg_end }
    );
    assert_eq!(ops[7], V3dOp::WaitZero { reg: V3DRegisters::BINNING_FLUSH_CNT });
    assert_eq!(ops[8], V3dOp::Write { reg: V3DRegisters::CONTROL_LIST1_CS, value: 0x20 });
    assert_eq!(ops[9], V3dOp::Write { reg: V3DRegisters::RENDER_FRAME_CNT, value: 1 });
    assert_eq!(
        ops[10],
        V3dOp::Write { reg: V3DRegisters::CONTROL_LIST1_CA, value: scene.render_control }
    );
    assert_eq!(
        ops[11],
        V3dOp::Write { reg: V3DRegisters::CONTROL_LIST1_EA, value: scene.render_control_end }
    );
    assert_eq!(ops[12], V3dOp::WaitZero { reg: V3DRegisters::RENDER_FRAME_CNT });
}

#[test]
fn status_decode() {
    let snap = V3dStatusSnapshot {
        ct0_status: 0x200,
        ct1_status: 0xC00,
        perf_counter0: 1,
        perf_counter1: 2,
        perf_counter2: 3,
        perf_counter3: 4,
        ident0: 0x0244_3356,
        ident1: 0,
        ident2: 0,
        l2_cache_ctrl: 4,
        slice_cache_ctrl: 0x0f0f_0f0f,
        binning_flush_count: 0,
        render_frame_count: 2,
    };
    let report = check_v3d_status(&snap);
    assert!(report.ct0_out_of_memory);
    assert!(!report.ct0_queue_full);
    assert!(!report.ct0_dma_overflow);
    assert!(!report.ct1_out_of_memory);
    assert!(report.ct1_queue_full);
    assert!(report.ct1_dma_overflow);
    assert!(report.binning_complete);
    assert!(!report.render_complete);
    assert_eq!(report.perf_counter2, 3);
    assert_eq!(report.ident0, 0x0244_3356);
}

#[test]
fn ident_check() {
    assert!(check_v3d_ident0(0x0244_3356).is_ok());
    assert_eq!(check_v3d_ident0(0), Err(V3DError::Check));
    assert_eq!(check_v3d_ident0(0x0244_3357), Err(V3DError::Check));
}

#[test]
fn error_messages() {
    assert_eq!(SceneError::AllocMemory.message(), "Failed to allocate GPU memory!");
    assert_eq!(
        SceneError::LockMemory.message(),
        "Lock Blocked (failed to lock GPU memory)"
    );
    assert_eq!(V3DError::Init.message(), "V3D Core Initialization failed");
    assert_eq!(V3DError::Check.message(), "V3D Check Failed");
}
