use vulkan_renderer::frame::{FrameAction, FrameEvent, FrameLoop, Phase};

/// Runs one whole frame for `image_i` whose flush leaves `fence`; reports
/// every wait as signaled.
fn present_frame(frames: &mut FrameLoop<u64>, image_i: u32, fence: u64) {
    assert_eq!(frames.step(FrameEvent::Tick), FrameAction::AcquireImage);
    let action = frames.step(FrameEvent::Acquired {
        image_i,
        suboptimal: false,
    });
    let action = match action {
        FrameAction::WaitForFence { image_i: slot } => {
            assert_eq!(slot, image_i);
            frames.step(FrameEvent::FenceSignaled)
        }
        other => other,
    };
    assert!(matches!(action, FrameAction::Submit { image_i: i, .. } if i == image_i));
    assert_eq!(
        frames.step(FrameEvent::Submitted),
        FrameAction::Present { image_i }
    );
    assert_eq!(
        frames.step(FrameEvent::Presented(fence)),
        FrameAction::Rest
    );
}

#[test]
fn new_loop_is_idle_with_empty_slots() {
    let frames: FrameLoop<u64> = FrameLoop::new(3);
    assert_eq!(frames.phase(), Phase::Idle);
    assert!(!frames.needs_recreate());
    assert_eq!(frames.image_count(), 3);
    assert_eq!(frames.previous_fence_i(), 0);
    for i in 0..3 {
        assert_eq!(frames.fence(i), None);
    }
    assert_eq!(frames.fence(3), None);
}

#[test]
fn first_frame_submits_without_waiting() {
    let mut frames: FrameLoop<u64> = FrameLoop::new(2);
    assert_eq!(frames.step(FrameEvent::Tick), FrameAction::AcquireImage);
    assert_eq!(frames.phase(), Phase::Acquiring);
    assert_eq!(
        frames.step(FrameEvent::Acquired {
            image_i: 1,
            suboptimal: false
        }),
        FrameAction::Submit {
            image_i: 1,
            after: None
        }
    );
    assert_eq!(frames.phase(), Phase::Submitting { image_i: 1 });
    assert_eq!(
        frames.step(FrameEvent::Submitted),
        FrameAction::Present { image_i: 1 }
    );
    assert_eq!(frames.phase(), Phase::Presenting { image_i: 1 });
    assert_eq!(frames.step(FrameEvent::Presented(41)), FrameAction::Rest);
    assert_eq!(frames.phase(), Phase::Idle);
    assert_eq!(frames.fence(1), Some(&41));
    assert_eq!(frames.fence(0), None);
    assert_eq!(frames.previous_fence_i(), 1);
    assert!(!frames.needs_recreate());
}

#[test]
fn next_submission_is_chained_after_the_last_flushed_one() {
    let mut frames: FrameLoop<u64> = FrameLoop::new(3);
    present_frame(&mut frames, 2, 100);
    assert_eq!(frames.step(FrameEvent::Tick), FrameAction::AcquireImage);
    assert_eq!(
        frames.step(FrameEvent::Acquired {
            image_i: 0,
            suboptimal: false
        }),
        FrameAction::Submit {
            image_i: 0,
            after: Some(2)
        }
    );
}

#[test]
fn reacquired_image_waits_for_its_marker() {
    let mut frames: FrameLoop<u64> = FrameLoop::new(2);
    present_frame(&mut frames, 0, 7);
    present_frame(&mut frames, 1, 8);
    assert_eq!(frames.step(FrameEvent::Tick), FrameAction::AcquireImage);
    assert_eq!(
        frames.step(FrameEvent::Acquired {
            image_i: 0,
            suboptimal: false
        }),
        FrameAction::WaitForFence { image_i: 0 }
    );
    assert_eq!(frames.phase(), Phase::Waiting { image_i: 0 });
    assert_eq!(frames.fence(0), Some(&7));
    assert_eq!(
        frames.step(FrameEvent::FenceSignaled),
        FrameAction::Submit {
            image_i: 0,
            after: Some(1)
        }
    );
}

#[test]
fn loop_blocks_on_a_fence_that_never_signals() {
    let image_count: u32 = 3;
    let mut frames: FrameLoop<u64> = FrameLoop::new(image_count as usize);
    for n in 0..image_count + 2 {
        present_frame(&mut frames, n % image_count, n as u64);
    }
    assert_eq!(frames.step(FrameEvent::Tick), FrameAction::AcquireImage);
    assert_eq!(
        frames.step(FrameEvent::Acquired {
            image_i: 2,
            suboptimal: false
        }),
        FrameAction::WaitForFence { image_i: 2 }
    );
    // The fence never signals: whatever else is reported, nothing is
    // submitted and nothing changes.
    for _ in 0..5 {
        assert_eq!(frames.step(FrameEvent::Submitted), FrameAction::OutOfTurn);
        assert_eq!(frames.step(FrameEvent::Tick), FrameAction::OutOfTurn);
        assert_eq!(
            frames.step(FrameEvent::Presented(99)),
            FrameAction::OutOfTurn
        );
        assert_eq!(
            frames.step(FrameEvent::Acquired {
                image_i: 0,
                suboptimal: false
            }),
            FrameAction::OutOfTurn
        );
        assert_eq!(frames.phase(), Phase::Waiting { image_i: 2 });
        assert_eq!(frames.fence(2), Some(&2));
    }
}

#[test]
fn out_of_date_acquire_sets_recreate_and_submits_nothing() {
    let mut frames: FrameLoop<u64> = FrameLoop::new(2);
    present_frame(&mut frames, 0, 5);
    assert_eq!(frames.step(FrameEvent::Tick), FrameAction::AcquireImage);
    assert_eq!(
        frames.step(FrameEvent::AcquireOutOfDate),
        FrameAction::Rest
    );
    assert!(frames.needs_recreate());
    assert_eq!(frames.phase(), Phase::Idle);
    assert_eq!(frames.fence(0), Some(&5));
    assert_eq!(frames.fence(1), None);
    assert_eq!(frames.step(FrameEvent::Submitted), FrameAction::OutOfTurn);
    assert_eq!(
        frames.step(FrameEvent::Tick),
        FrameAction::RecreateSwapchain {
            window_resized: false
        }
    );
    assert_eq!(frames.phase(), Phase::Recreating);
    assert!(!frames.needs_recreate());
    assert_eq!(
        frames.step(FrameEvent::Recreated { image_count: 2 }),
        FrameAction::AcquireImage
    );
    assert_eq!(frames.fence(0), Some(&5));
}

#[test]
fn suboptimal_frame_presents_and_recreates_next_time() {
    let mut frames: FrameLoop<u64> = FrameLoop::new(2);
    assert_eq!(frames.step(FrameEvent::Tick), FrameAction::AcquireImage);
    assert_eq!(
        frames.step(FrameEvent::Acquired {
            image_i: 0,
            suboptimal: true
        }),
        FrameAction::Submit {
            image_i: 0,
            after: None
        }
    );
    assert!(frames.needs_recreate());
    assert_eq!(
        frames.step(FrameEvent::Submitted),
        FrameAction::Present { image_i: 0 }
    );
    assert_eq!(frames.step(FrameEvent::Presented(1)), FrameAction::Rest);
    assert_eq!(frames.fence(0), Some(&1));
    assert_eq!(
        frames.step(FrameEvent::Tick),
        FrameAction::RecreateSwapchain {
            window_resized: false
        }
    );
}

#[test]
fn resize_recreates_before_the_next_acquisition() {
    let mut frames: FrameLoop<u64> = FrameLoop::new(2);
    frames.notify_resized();
    assert!(frames.needs_recreate());
    assert_eq!(
        frames.step(FrameEvent::Tick),
        FrameAction::RecreateSwapchain {
            window_resized: true
        }
    );
    assert_eq!(
        frames.step(FrameEvent::Recreated { image_count: 2 }),
        FrameAction::AcquireImage
    );
    assert_eq!(frames.phase(), Phase::Acquiring);
    assert!(!frames.needs_recreate());
}

#[test]
fn changed_image_count_reallocates_the_slots() {
    let mut frames: FrameLoop<u64> = FrameLoop::new(2);
    present_frame(&mut frames, 1, 9);
    frames.notify_resized();
    assert!(matches!(
        frames.step(FrameEvent::Tick),
        FrameAction::RecreateSwapchain { .. }
    ));
    assert_eq!(
        frames.step(FrameEvent::Recreated { image_count: 4 }),
        FrameAction::AcquireImage
    );
    assert_eq!(frames.image_count(), 4);
    assert_eq!(frames.previous_fence_i(), 0);
    for i in 0..4 {
        assert_eq!(frames.fence(i), None);
    }
    assert_eq!(
        frames.step(FrameEvent::Acquired {
            image_i: 3,
            suboptimal: false
        }),
        FrameAction::Submit {
            image_i: 3,
            after: None
        }
    );
}

#[test]
fn out_of_date_present_empties_the_slot_and_recreates() {
    let mut frames: FrameLoop<u64> = FrameLoop::new(2);
    present_frame(&mut frames, 0, 3);
    present_frame(&mut frames, 1, 4);
    assert_eq!(frames.step(FrameEvent::Tick), FrameAction::AcquireImage);
    assert_eq!(
        frames.step(FrameEvent::Acquired {
            image_i: 0,
            suboptimal: false
        }),
        FrameAction::WaitForFence { image_i: 0 }
    );
    frames.step(FrameEvent::FenceSignaled);
    frames.step(FrameEvent::Submitted);
    assert_eq!(
        frames.step(FrameEvent::PresentOutOfDate),
        FrameAction::Rest
    );
    assert_eq!(frames.fence(0), None);
    assert_eq!(frames.fence(1), Some(&4));
    assert_eq!(frames.previous_fence_i(), 1);
    assert!(frames.needs_recreate());
    assert_eq!(frames.phase(), Phase::Idle);
}

#[test]
fn failed_present_drops_the_frame_and_goes_on() {
    let mut frames: FrameLoop<u64> = FrameLoop::new(2);
    present_frame(&mut frames, 0, 3);
    frames.step(FrameEvent::Tick);
    frames.step(FrameEvent::Acquired {
        image_i: 1,
        suboptimal: false,
    });
    frames.step(FrameEvent::Submitted);
    assert_eq!(frames.step(FrameEvent::PresentFailed), FrameAction::Rest);
    assert_eq!(frames.fence(1), None);
    assert_eq!(frames.fence(0), Some(&3));
    assert_eq!(frames.previous_fence_i(), 0);
    assert!(!frames.needs_recreate());
    assert_eq!(frames.step(FrameEvent::Tick), FrameAction::AcquireImage);
    assert_eq!(
        frames.step(FrameEvent::Acquired {
            image_i: 1,
            suboptimal: false
        }),
        FrameAction::Submit {
            image_i: 1,
            after: Some(0)
        }
    );
}

#[test]
fn failed_acquire_is_fatal() {
    let mut frames: FrameLoop<u64> = FrameLoop::new(2);
    frames.step(FrameEvent::Tick);
    assert_eq!(frames.step(FrameEvent::AcquireFailed), FrameAction::Abort);
    assert_eq!(frames.phase(), Phase::Failed);
    assert_eq!(frames.step(FrameEvent::Tick), FrameAction::OutOfTurn);
    assert_eq!(frames.phase(), Phase::Failed);
}

#[test]
fn image_index_without_a_slot_is_fatal() {
    let mut frames: FrameLoop<u64> = FrameLoop::new(2);
    frames.step(FrameEvent::Tick);
    assert_eq!(
        frames.step(FrameEvent::Acquired {
            image_i: 2,
            suboptimal: true
        }),
        FrameAction::Abort
    );
    assert_eq!(frames.phase(), Phase::Failed);
    let mut none: FrameLoop<u64> = FrameLoop::new(0);
    none.step(FrameEvent::Tick);
    assert_eq!(
        none.step(FrameEvent::Acquired {
            image_i: 0,
            suboptimal: false
        }),
        FrameAction::Abort
    );
}

#[test]
fn events_out_of_turn_change_nothing() {
    let mut frames: FrameLoop<u64> = FrameLoop::new(2);
    assert_eq!(
        frames.step(FrameEvent::Acquired {
            image_i: 0,
            suboptimal: true
        }),
        FrameAction::OutOfTurn
    );
    assert_eq!(frames.step(FrameEvent::FenceSignaled), FrameAction::OutOfTurn);
    assert_eq!(
        frames.step(FrameEvent::Recreated { image_count: 5 }),
        FrameAction::OutOfTurn
    );
    assert_eq!(frames.step(FrameEvent::PresentOutOfDate), FrameAction::OutOfTurn);
    assert_eq!(frames.phase(), Phase::Idle);
    assert!(!frames.needs_recreate());
    assert_eq!(frames.image_count(), 2);
}

#[test]
fn resize_during_a_frame_is_kept_for_the_next_tick() {
    let mut frames: FrameLoop<u64> = FrameLoop::new(2);
    frames.step(FrameEvent::Tick);
    frames.notify_resized();
    assert_eq!(frames.phase(), Phase::Acquiring);
    frames.step(FrameEvent::Acquired {
        image_i: 0,
        suboptimal: false,
    });
    frames.step(FrameEvent::Submitted);
    frames.step(FrameEvent::Presented(1));
    assert_eq!(
        frames.step(FrameEvent::Tick),
        FrameAction::RecreateSwapchain {
            window_resized: true
        }
    );
}

#[test]
fn state_stays_well_formed() {
    let mut frames: FrameLoop<u64> = FrameLoop::new(2);
    assert!(frames.is_well_formed());
    let events = [
        FrameEvent::Tick,
        FrameEvent::Acquired {
            image_i: 1,
            suboptimal: false,
        },
        FrameEvent::Submitted,
        FrameEvent::Presented(3),
        FrameEvent::Tick,
        FrameEvent::Acquired {
            image_i: 1,
            suboptimal: true,
        },
        FrameEvent::FenceSignaled,
        FrameEvent::Submitted,
        FrameEvent::PresentOutOfDate,
        FrameEvent::Tick,
        FrameEvent::Recreated { image_count: 1 },
        FrameEvent::Acquired {
            image_i: 1,
            suboptimal: false,
        },
        FrameEvent::Tick,
    ];
    for event in events {
        frames.step(event);
        assert!(frames.is_well_formed());
    }
    assert_eq!(frames.phase(), Phase::Failed);
    let empty: FrameLoop<u64> = FrameLoop::new(0);
    assert!(empty.is_well_formed());
}
