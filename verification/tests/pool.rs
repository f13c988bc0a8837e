use mining_pool::pool::filter_found_block;
use mining_pool::pool::sum_hash_rates;
use mining_pool::ThreadPool;
use mining_pool::WorkerCommand;
use mining_pool::WorkerDisconnected;
use mining_pool::WorkerLaunch;

fn build_pool(core_ids: &[usize], thread_count: usize) -> (ThreadPool, Vec<WorkerLaunch>) {
    ThreadPool::with_core_ids(&core_ids.to_vec(), thread_count, 10_000, true)
}

#[test]
fn spawns_requested_count_on_highest_cores_descending() {
    let (_pool, launches) = build_pool(&[0, 1, 2, 3, 4, 5, 6, 7], 4);
    assert_eq!(launches.len(), 4);
    let assigned: Vec<usize> = launches.iter().map(|l| l.core_id).collect();
    assert_eq!(assigned, vec![7, 6, 5, 4]);
}

#[test]
fn spawns_capped_by_available_cores() {
    let (_pool, launches) = build_pool(&[0, 1, 2, 3], 10);
    assert_eq!(launches.len(), 4);
    let assigned: Vec<usize> = launches.iter().map(|l| l.core_id).collect();
    assert_eq!(assigned, vec![3, 2, 1, 0]);
}

#[test]
fn launches_carry_the_pool_parameters() {
    let (_pool, launches) = ThreadPool::with_core_ids(&vec![2, 5], 2, 777, false);
    assert_eq!(launches.len(), 2);
    for launch in &launches {
        assert_eq!(launch.thread_count, 2);
        assert_eq!(launch.batch_size, 777);
        assert!(!launch.cpu_affinity);
    }
    assert_eq!(launches[0].core_id, 5);
    assert_eq!(launches[1].core_id, 2);
}

#[test]
fn new_work_broadcasts_a_copy_to_every_worker_in_order() {
    let (mut pool, launches) = build_pool(&[0, 1], 2);
    pool.new_work(&[1, 2, 3], &[9, 9], 5).unwrap();
    for launch in &launches {
        match launch.commands.try_recv().unwrap() {
            WorkerCommand::NewWork { header_bytes, target, mining_request_id } => {
                assert_eq!(header_bytes, vec![1, 2, 3]);
                assert_eq!(target, vec![9, 9]);
                assert_eq!(mining_request_id, 5);
            }
            other => panic!("expected a work command, got {:?}", other),
        }
        assert!(launch.commands.try_recv().is_err());
    }
}

#[test]
fn stale_found_block_is_discarded() {
    let (mut pool, launches) = build_pool(&[0], 1);
    pool.new_work(&[1], &[2], 1).unwrap();
    launches[0].found_block_sender.send((42, 1)).unwrap();
    // The event tagged round 1 is still pending when round 2 supersedes it.
    pool.new_work(&[1], &[2], 2).unwrap();
    assert_eq!(pool.get_found_block(), None);
    // Dropped for good: it does not reappear on a later poll.
    assert_eq!(pool.get_found_block(), None);
    launches[0].found_block_sender.send((43, 2)).unwrap();
    assert_eq!(pool.get_found_block(), Some((43, 2)));
}

#[test]
fn one_event_is_consumed_per_poll() {
    let (mut pool, launches) = build_pool(&[0], 1);
    pool.new_work(&[1], &[2], 1).unwrap();
    launches[0].found_block_sender.send((9, 0)).unwrap();
    launches[0].found_block_sender.send((10, 1)).unwrap();
    // The first poll consumes and drops the stale event, returning nothing.
    assert_eq!(pool.get_found_block(), None);
    assert_eq!(pool.get_found_block(), Some((10, 1)));
    assert_eq!(pool.get_found_block(), None);
}

#[test]
fn found_block_before_any_work_carries_round_zero() {
    let (pool, launches) = build_pool(&[0], 1);
    launches[0].found_block_sender.send((5, 0)).unwrap();
    assert_eq!(pool.get_found_block(), Some((5, 0)));
}

#[test]
fn found_block_on_empty_channel_is_none() {
    let (pool, _launches) = build_pool(&[0], 1);
    assert_eq!(pool.get_found_block(), None);
}

#[test]
fn pause_then_new_work_keeps_current_round_retrievable() {
    let (mut pool, launches) = build_pool(&[0, 1], 2);
    pool.pause().unwrap();
    pool.new_work(&[4], &[5], 7).unwrap();
    for launch in &launches {
        match launch.commands.try_recv().unwrap() {
            WorkerCommand::Pause => {}
            other => panic!("expected a pause command, got {:?}", other),
        }
    }
    launches[1].found_block_sender.send((64, 7)).unwrap();
    assert_eq!(pool.get_found_block(), Some((64, 7)));
}

#[test]
fn hash_rate_submission_drains_fully_then_reports_zero() {
    let (pool, launches) = build_pool(&[0, 1], 2);
    launches[0].hash_rate_sender.send(3).unwrap();
    launches[1].hash_rate_sender.send(4).unwrap();
    launches[0].hash_rate_sender.send(5).unwrap();
    assert_eq!(pool.get_hash_rate_submission(), 12);
    assert_eq!(pool.get_hash_rate_submission(), 0);
}

#[test]
fn hash_rate_submission_is_zero_when_nothing_is_pending() {
    let (pool, _launches) = build_pool(&[0], 1);
    assert_eq!(pool.get_hash_rate_submission(), 0);
}

#[test]
fn hash_rate_samples_are_not_filtered_by_round() {
    let (mut pool, launches) = build_pool(&[0], 1);
    pool.new_work(&[1], &[2], 1).unwrap();
    launches[0].hash_rate_sender.send(11).unwrap();
    pool.new_work(&[1], &[2], 2).unwrap();
    // The sample was produced under round 1 but is summed all the same.
    assert_eq!(pool.get_hash_rate_submission(), 11);
}

#[test]
fn sum_hash_rates_gives_the_exact_sum() {
    assert_eq!(sum_hash_rates(&vec![]), 0);
    assert_eq!(sum_hash_rates(&vec![7]), 7);
    assert_eq!(sum_hash_rates(&vec![1, 2, 3, 4]), 10);
}

#[test]
fn sum_hash_rates_saturates_at_the_type_maximum() {
    assert_eq!(sum_hash_rates(&vec![u32::MAX, 1]), u32::MAX);
    assert_eq!(sum_hash_rates(&vec![u32::MAX - 1, 1]), u32::MAX);
    assert_eq!(sum_hash_rates(&vec![u32::MAX, u32::MAX, u32::MAX]), u32::MAX);
}

#[test]
fn filter_keeps_only_the_current_round() {
    assert_eq!(filter_found_block(Some((8, 3)), 3), Some((8, 3)));
    assert_eq!(filter_found_block(Some((8, 2)), 3), None);
    assert_eq!(filter_found_block(None, 3), None);
}

#[test]
fn stop_reaches_every_worker_and_may_be_repeated() {
    let (pool, launches) = build_pool(&[0, 1, 2], 3);
    pool.stop().unwrap();
    pool.stop().unwrap();
    for launch in &launches {
        for _ in 0..2 {
            match launch.commands.try_recv().unwrap() {
                WorkerCommand::Stop => {}
                other => panic!("expected a stop command, got {:?}", other),
            }
        }
    }
}

#[test]
fn broadcast_to_an_exited_worker_is_a_loud_failure() {
    let (mut pool, launches) = build_pool(&[0, 1], 2);
    // A worker that has exited has dropped its command receiver.
    drop(launches);
    assert_eq!(pool.stop(), Err(WorkerDisconnected));
    assert_eq!(pool.pause(), Err(WorkerDisconnected));
    assert_eq!(pool.new_work(&[1], &[2], 3), Err(WorkerDisconnected));
    // The round was recorded before the broadcast failed.
    pool.new_work(&[1], &[2], 4).ok();
    assert_eq!(pool.get_found_block(), None);
}

#[test]
fn new_enumerates_the_machine_cores() {
    match ThreadPool::new(2, 10_000, false) {
        Some((_pool, launches)) => {
            assert!(launches.len() <= 2);
            for launch in &launches {
                assert_eq!(launch.thread_count, 2);
                assert_eq!(launch.batch_size, 10_000);
                assert!(!launch.cpu_affinity);
            }
        }
        None => {
            // Core enumeration can be unavailable; then no pool can be built.
        }
    }
}

#[test]
fn zero_threads_requested_spawns_no_worker() {
    let (mut pool, launches) = build_pool(&[0, 1], 0);
    assert_eq!(launches.len(), 0);
    assert_eq!(pool.get_found_block(), None);
    assert_eq!(pool.get_hash_rate_submission(), 0);
    // With no worker there is no send that could fail.
    assert_eq!(pool.new_work(&[1], &[2], 3), Ok(()));
    assert_eq!(pool.stop(), Ok(()));
    assert_eq!(pool.pause(), Ok(()));
}
