use atlas_plan::gpu::{DevicePtr, ExpertPtrTable, KernelHandle, QuantizedWeight};
use atlas_plan::ops::{
    geometry, moe_expert_gate_up_shared_batch3, moe_expert_silu_down_shared_batch3,
    moe_topk_sigmoid, moe_weighted_sum_blend_batch3, Arg, Launch, LaunchError,
};
use atlas_plan::plan::Op;

const K: KernelHandle = KernelHandle(4);

fn p(x: u64) -> DevicePtr {
    DevicePtr(x)
}

fn launch(op: Op) -> Launch {
    match geometry(op) {
        Ok(Some(l)) => l,
        _ => panic!("launch"),
    }
}

fn ptrs(x: u64) -> ExpertPtrTable {
    ExpertPtrTable { packed_ptrs: p(x), scale_ptrs: p(x + 1), scale2_vals: p(x + 2) }
}

#[test]
fn selection_takes_one_block_per_row() {
    let l = launch(Op::MoeTopkSoftmax(K, p(1), p(2), p(3), 512, 10, true));
    assert_eq!((l.kernel, l.grid, l.block, l.shared_mem), (K, (1, 1, 1), (256, 1, 1), 0));
    assert_eq!(
        l.args,
        vec![
            Arg::Ptr(p(1)),
            Arg::Ptr(p(2)),
            Arg::Ptr(p(3)),
            Arg::U32(512),
            Arg::U32(10),
            Arg::U32(1),
        ]
    );
    let l = launch(
        Op::MoeTopkSigmoid(K, p(1), p(2), p(3), p(4), 512, 8, false, 9, 8, 4),
    );
    assert_eq!(l.args.len(), 10);
    assert_eq!(l.args[6], Arg::U32(0));
    assert_eq!(l.args[7], Arg::F32(9));
    assert_eq!(l.args[9], Arg::U32(4));
}

#[test]
fn per_channel_decay() {
    let l = launch(
        Op::KdaGates(K, p(1), p(2), p(3), p(4), p(5), p(6), 7, 16, 32, 128, 11),
    );
    assert_eq!((l.grid, l.block), ((7, 1, 1), (256, 1, 1)));
    let l = launch(
        Op::KdaDecode(K, p(1), p(2), p(3), p(4), p(5), p(6), p(7), 2, 16, 32, 128, 128),
    );
    assert_eq!((l.grid, l.block), ((32, 2, 1), (128, 1, 1)));
    let l = launch(
        Op::KdaPrefill(
            K, p(1), p(2), p(3), p(4), p(5), p(6), p(7), 1, 100, 16, 32, 64, 128, 1, 2, 3, 4,
        ),
    );
    assert_eq!((l.grid, l.block), ((32, 1, 1), (128, 1, 1)));
    assert_eq!(l.shared_mem, (128 * 64 + 3 * 64) * 4);
}

#[test]
fn expert_launches_cover_all_slots() {
    let w = QuantizedWeight::null();
    let l = launch(
        Op::MoeGateUpSharedBatch2(
            K, p(1), ptrs(10), p(2), ptrs(20), p(3), p(4), w, p(5), w, p(6), 513, 2048, 10, 256,
        ),
    );
    assert_eq!((l.grid, l.block), ((65, 22, 2), (256, 1, 1)));
    let l = launch(
        Op::MoeSiluDownSharedBatch2(
            K, p(1), p(2), ptrs(10), p(3), p(4), p(5), p(6), w, p(7), 2048, 512, 10, 128,
        ),
    );
    assert_eq!((l.grid, l.block), ((256, 22, 1), (128, 1, 1)));
    let l = moe_expert_gate_up_shared_batch3(
        K, p(1), ptrs(10), p(2), ptrs(20), p(3), p(4), w, p(5), w, p(6), 512, 2048, 10,
    );
    assert_eq!((l.grid, l.block), ((64, 33, 2), (128, 1, 1)));
    let l = moe_expert_silu_down_shared_batch3(
        K, p(1), p(2), ptrs(10), p(3), p(4), p(5), p(6), w, p(7), 2048, 512, 10,
    );
    assert_eq!(l.grid, (256, 33, 1));
    let l = launch(
        Op::MoeWeightedSumBlend(K, p(1), p(2), p(3), p(4), p(5), p(6), 7, 2049, 10, 2049),
    );
    assert_eq!((l.grid, l.block), ((9, 1, 1), (256, 1, 1)));
    assert_eq!(l.args[6], Arg::F32(7));
    let l = launch(
        Op::MoeWeightedSumBlendBatch2(K, p(1), p(2), p(3), p(4), p(5), p(6), 2048, 10, 2048),
    );
    assert_eq!(l.grid, (8, 2, 1));
    let l = moe_weighted_sum_blend_batch3(K, p(1), p(2), p(3), p(4), p(5), p(6), 2048, 10, 2048);
    assert_eq!(l.grid, (8, 3, 1));
}

#[test]
fn element_wise_launches_cover_all_elements() {
    for n in [1u32, 255, 256, 257, 4096] {
        let l = launch(Op::Relu2Elementwise(K, p(1), n));
        assert!(l.grid.0 * l.block.0 >= n && l.grid.0 * l.block.0 < n + 256);
    }
    let l = launch(Op::ClampBf16(K, p(1), 5, 600));
    assert_eq!(l.grid, (3, 1, 1));
    let l = launch(Op::ScaleInplace(K, p(1), 600, 5));
    assert_eq!(l.grid, (3, 1, 1));
    let l = launch(Op::WeightedSumScale(K, p(1), p(2), p(3), p(4), 1024, 8, 5));
    assert_eq!(l.grid, (4, 1, 1));
    let l = launch(Op::HeadwiseGate(K, p(1), p(2), 64));
    assert_eq!((l.grid, l.block), ((64, 1, 1), (128, 1, 1)));
}

#[test]
fn other_operations_have_no_geometry_here() {
    assert!(matches!(geometry(Op::Synchronize), Ok(None)));
    assert!(matches!(geometry(Op::Memset(p(1), 0, 4)), Ok(None)));
}

#[test]
fn a_missing_selection_kernel_is_refused_at_launch() {
    let none = KernelHandle(0);
    let op = |k| Op::MoeTopkSigmoid(k, p(1), p(2), p(3), p(4), 512, 8, false, 9, 8, 4);
    assert!(matches!(geometry(op(none)), Err(LaunchError::MissingKernel)));
    assert!(matches!(geometry(op(K)), Ok(Some(_))));
    let r = moe_topk_sigmoid(none, p(1), p(2), p(3), p(4), 512, 8, false, 9, 8, 4);
    assert!(matches!(r, Err(LaunchError::MissingKernel)));
}
