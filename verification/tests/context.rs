use marlu::context::{chunk_range, count_chunks};
use marlu::{RowCounter, VisContext, WritePlan};

fn context(timesteps: usize, chans: usize, avg_time: usize, avg_freq: usize) -> VisContext {
    VisContext {
        num_sel_timesteps: timesteps,
        num_sel_chans: chans,
        sel_baselines: vec![(0, 1), (0, 2), (1, 2)],
        avg_time,
        avg_freq,
        num_vis_pols: 4,
    }
}

#[test]
fn chunks_round_up() {
    assert_eq!(count_chunks(0, 3), 0);
    assert_eq!(count_chunks(1, 3), 1);
    assert_eq!(count_chunks(3, 3), 1);
    assert_eq!(count_chunks(4, 3), 2);
    assert_eq!(count_chunks(768, 4), 192);
    assert_eq!(count_chunks(usize::MAX, 1), usize::MAX);
    assert_eq!(count_chunks(usize::MAX, 2), usize::MAX / 2 + 1);
}

#[test]
fn chunks_cover_every_item_once() {
    for len in 0..40usize {
        for size in 1..9usize {
            let mut next = 0;
            for index in 0..count_chunks(len, size) {
                let chunk = chunk_range(len, size, index);
                assert_eq!(chunk.start, next);
                assert!(chunk.start < chunk.end);
                assert!(chunk.end - chunk.start <= size);
                next = chunk.end;
            }
            assert_eq!(next, len);
        }
    }
}

#[test]
fn last_chunk_is_short() {
    assert_eq!(chunk_range(10, 4, 0), 0..4);
    assert_eq!(chunk_range(10, 4, 1), 4..8);
    assert_eq!(chunk_range(10, 4, 2), 8..10);
}

#[test]
fn averaged_counts() {
    let ctx = context(5, 10, 2, 4);
    assert_eq!(ctx.sel_dims(), (5, 10, 3));
    assert_eq!(ctx.num_avg_timesteps(), 3);
    assert_eq!(ctx.num_avg_chans(), 3);
    assert_eq!(ctx.avg_dims(), (3, 3, 3));
    assert!(!ctx.trivial_averaging());
    assert_eq!(ctx.timestep_chunk(2), 4..5);
    assert_eq!(ctx.chan_chunk(1), 4..8);
    assert_eq!(ctx.chan_chunk(2), 8..10);
}

#[test]
fn trivial_averaging_keeps_every_cell() {
    let ctx = context(2, 3, 1, 1);
    assert!(ctx.trivial_averaging());
    assert_eq!(ctx.avg_dims(), ctx.sel_dims());
    for t in 0..2 {
        assert_eq!(ctx.timestep_chunk(t), t..t + 1);
    }
    for c in 0..3 {
        assert_eq!(ctx.chan_chunk(c), c..c + 1);
    }
    assert!(!context(2, 3, 1, 2).trivial_averaging());
    assert!(!context(2, 3, 2, 1).trivial_averaging());
}

#[test]
fn plan_of_a_write() {
    let ctx = context(4, 6, 2, 3);
    let counter = RowCounter::new(2, 3);
    let plan = ctx.plan_write(&counter, (4, 6, 3), (4, 6, 3)).unwrap();
    assert_eq!(
        plan,
        WritePlan {
            first_row: 0,
            num_avg_timesteps: 2,
            num_avg_chans: 2,
            num_avg_rows: 6,
            payload_len: 24,
        }
    );
}

#[test]
fn plan_of_a_later_chunk_starts_after_the_rows_written() {
    let ctx = context(1, 2, 1, 1);
    let mut counter = RowCounter::new(2, 3);
    for _ in 0..3 {
        counter.next_group().unwrap();
        counter.row_written();
    }
    let plan = ctx.plan_write(&counter, (1, 2, 3), (1, 2, 3)).unwrap();
    assert_eq!(plan.first_row, 3);
    assert_eq!(plan.num_avg_rows, 3);
    assert_eq!(plan.payload_len, 24);
}

#[test]
fn plan_refuses_a_wrong_vis_shape_first() {
    let ctx = context(4, 6, 2, 3);
    let counter = RowCounter::new(1, 1);
    match ctx.plan_write(&counter, (4, 6, 2), (9, 9, 9)) {
        Err(report) => {
            assert_eq!(report.argument, "vis");
            assert_eq!(report.function, "write_vis_marlu");
            assert_eq!(report.expected, "(4, 6, 3)");
            assert_eq!(report.received, "(4, 6, 2)");
        }
        Ok(plan) => panic!("unexpected {:?}", plan),
    }
}

#[test]
fn plan_refuses_a_wrong_weights_shape() {
    let ctx = context(4, 6, 2, 3);
    let counter = RowCounter::new(1, 1);
    match ctx.plan_write(&counter, (4, 6, 3), (4, 5, 3)) {
        Err(report) => {
            assert_eq!(report.argument, "weights");
            assert_eq!(report.function, "write_vis_marlu");
            assert_eq!(report.expected, "(4, 6, 3)");
            assert_eq!(report.received, "(4, 5, 3)");
        }
        Ok(plan) => panic!("unexpected {:?}", plan),
    }
}
