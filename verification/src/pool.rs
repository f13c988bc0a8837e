//! The thread pool: worker-set construction, work broadcast, stale-result
//! rejection by round identifier, and hash-rate aggregation.

use crate::affinity::available_core_ids;
use crate::channels::channel_pair;
use crate::channels::clone_sender;
use crate::channels::drain_values;
use crate::channels::send_value;
use crate::channels::try_recv_value;
use std::sync::mpsc::Receiver;
use std::sync::mpsc::Sender;
use vstd::prelude::*;
use vstd::slice::slice_to_vec;

verus! {

/// One command broadcast by the pool to a worker over that worker's private
/// command channel.
#[derive(Debug)]
pub enum WorkerCommand {
    /// One full round of mining work: every worker receives its own copy.
    NewWork { header_bytes: Vec<u8>, target: Vec<u8>, mining_request_id: u32 },
    /// Cease active searching but stay alive for a later round.
    Pause,
    /// Exit for good.
    Stop,
}

/// The failure of a broadcast: a worker's command channel was closed, which
/// signals that the worker has exited. The pool treats this as fatal; it
/// neither retries nor goes on with a reduced worker set.
#[derive(Clone, Copy, Debug, PartialEq, Eq)]
pub struct WorkerDisconnected;

/// The pool's end of one worker: the core identifier the worker was assigned
/// and the sending half of its private command channel.
struct WorkerHandle {
    core_id: usize,
    commands: Sender<WorkerCommand>,
}

/// Everything needed to start one worker: the core identifier to bind when
/// affinity is enabled, the receiving half of the worker's private command
/// channel, the worker's own clones of the two shared event senders, and the
/// parameters the pool was built with. The pool starts no threads itself;
/// its caller starts one per launch.
pub struct WorkerLaunch {
    pub core_id: usize,
    pub commands: Receiver<WorkerCommand>,
    pub found_block_sender: Sender<(u64, u32)>,
    pub hash_rate_sender: Sender<u32>,
    pub thread_count: usize,
    pub batch_size: u32,
    pub cpu_affinity: bool,
}

/// How many workers a pool spawns: the requested thread count, capped by the
/// number of available core identifiers.
pub open spec fn spawn_count(available: nat, thread_count: nat) -> nat {
    if thread_count <= available {
        thread_count
    } else {
        available
    }
}

/// The core identifiers assigned to the workers, in worker order: the
/// available identifiers are consumed in reverse of their enumerated order,
/// one per worker, until the spawn count is reached.
pub open spec fn assigned_core_ids(available: Seq<usize>, thread_count: nat) -> Seq<usize> {
    Seq::new(
        spawn_count(available.len(), thread_count),
        |i: int| available[available.len() - 1 - i],
    )
}

/// What polling the found-block channel returns: a pending event survives if
/// and only if its round identifier equals the pool's current one; a stale
/// event is dropped, and nothing is returned in its place.
pub open spec fn found_block_filter(
    event: Option<(u64, u32)>,
    current_round: u32,
) -> Option<(u64, u32)> {
    match event {
        Some((randomness, round)) => if round == current_round {
            Some((randomness, round))
        } else {
            None
        },
        None => None,
    }
}

/// The mathematical sum of a batch of hash-rate samples.
pub open spec fn sample_total(samples: Seq<u32>) -> int
    decreases samples.len(),
{
    if samples.len() == 0 {
        0
    } else {
        sample_total(samples.drop_last()) + samples.last()
    }
}

/// Keeps a pending found-block event only if it belongs to `current_round`.
///
/// A stale event (one tagged with a superseded round) is discarded for good:
/// the caller sees nothing for it and must poll again to reach any further
/// pending event.
pub fn filter_found_block(event: Option<(u64, u32)>, current_round: u32) -> (r: Option<
    (u64, u32),
>)
    ensures
        r == found_block_filter(event, current_round),
{
    match event {
        Some((randomness, round)) => if round == current_round {
            Some((randomness, round))
        } else {
            None
        },
        None => None,
    }
}

/// Sums one drained batch of hash-rate samples, saturating at `u32::MAX`.
pub fn sum_hash_rates(samples: &Vec<u32>) -> (total: u32)
    ensures
        sample_total(samples@) <= u32::MAX ==> total == sample_total(samples@),
        sample_total(samples@) > u32::MAX ==> total == u32::MAX,
{
    let mut total: u32 = 0;
    let mut i: usize = 0;
    while i < samples.len()
        invariant
            i <= samples@.len(),
            sample_total(samples@.take(i as int)) <= u32::MAX ==> total == sample_total(
                samples@.take(i as int),
            ),
            sample_total(samples@.take(i as int)) > u32::MAX ==> total == u32::MAX,
            sample_total(samples@.take(i as int)) >= total,
        decreases samples@.len() - i,
    {
        let sample = samples[i];
        proof {
            assert(samples@.take(i + 1).drop_last() =~= samples@.take(i as int));
            assert(samples@.take(i + 1).last() == samples@[i as int]);
        }
        if sample > u32::MAX - total {
            total = u32::MAX;
        } else {
            total = total + sample;
        }
        i = i + 1;
    }
    proof {
        assert(samples@.take(samples@.len() as int) =~= samples@);
    }
    total
}

/// The pool: owns one handle per worker and the receiving ends of the two
/// shared event channels, and tracks the round identifier of the most recent
/// broadcast so that stale found-block events can be rejected.
pub struct ThreadPool {
    threads: Vec<WorkerHandle>,
    block_found_receiver: Receiver<(u64, u32)>,
    hash_rate_receiver: Receiver<u32>,
    mining_request_id: u32,
}

impl ThreadPool {
    /// The round identifier of the most recent `new_work` call, zero before
    /// the first one: a polled found-block event survives exactly when it
    /// carries this value.
    pub closed spec fn current_round(&self) -> u32 {
        self.mining_request_id
    }

    /// The core identifiers assigned to the pool's workers, in handle order.
    pub closed spec fn worker_ids(&self) -> Seq<usize> {
        self.threads@.map(|i: int, handle: WorkerHandle| handle.core_id)
    }

    /// How many workers the pool holds.
    pub open spec fn worker_count(&self) -> nat {
        self.worker_ids().len()
    }

    /// Builds a pool over a given list of available core identifiers.
    ///
    /// One worker handle is created per identifier, consuming the list in
    /// reverse of its order, until `thread_count` handles exist or the list
    /// is exhausted, whichever comes first. Each worker gets a private
    /// command channel and its own clones of the two shared event senders;
    /// the launches returned beside the pool carry the worker-side ends, in
    /// handle order.
    pub fn with_core_ids(
        core_ids: &Vec<usize>,
        thread_count: usize,
        batch_size: u32,
        cpu_affinity: bool,
    ) -> (r: (ThreadPool, Vec<WorkerLaunch>))
        ensures
            r.0.current_round() == 0,
            r.0.worker_ids() == assigned_core_ids(core_ids@, thread_count as nat),
            r.1@.len() == r.0.worker_count(),
            forall|i: int| 0 <= i < r.1@.len() ==> r.1@[i].core_id == r.0.worker_ids()[i],
            forall|i: int| 0 <= i < r.1@.len() ==> r.1@[i].thread_count == thread_count,
            forall|i: int| 0 <= i < r.1@.len() ==> r.1@[i].batch_size == batch_size,
            forall|i: int| 0 <= i < r.1@.len() ==> r.1@[i].cpu_affinity == cpu_affinity,
    {
        let (found_block_sender, block_found_receiver) = channel_pair::<(u64, u32)>();
        let (hash_rate_sender, hash_rate_receiver) = channel_pair::<u32>();

        let available: usize = core_ids.len();
        let count: usize = if thread_count <= available {
            thread_count
        } else {
            available
        };
        let mut threads: Vec<WorkerHandle> = Vec::new();
        let mut launches: Vec<WorkerLaunch> = Vec::new();
        let mut spawned: usize = 0;
        while spawned < count
            invariant
                available == core_ids@.len(),
                count == spawn_count(core_ids@.len(), thread_count as nat),
                count <= available,
                spawned <= count,
                threads@.len() == spawned,
                launches@.len() == spawned,
                forall|i: int|
                    0 <= i < spawned ==> threads@[i].core_id == core_ids@[available - 1 - i],
                forall|i: int|
                    0 <= i < spawned ==> launches@[i].core_id == core_ids@[available - 1 - i],
                forall|i: int| 0 <= i < spawned ==> launches@[i].thread_count == thread_count,
                forall|i: int| 0 <= i < spawned ==> launches@[i].batch_size == batch_size,
                forall|i: int| 0 <= i < spawned ==> launches@[i].cpu_affinity == cpu_affinity,
            decreases count - spawned,
        {
            let core_id: usize = core_ids[available - 1 - spawned];
            let (command_sender, command_receiver) = channel_pair::<WorkerCommand>();
            threads.push(WorkerHandle { core_id, commands: command_sender });
            launches.push(
                WorkerLaunch {
                    core_id,
                    commands: command_receiver,
                    found_block_sender: clone_sender(&found_block_sender),
                    hash_rate_sender: clone_sender(&hash_rate_sender),
                    thread_count,
                    batch_size,
                    cpu_affinity,
                },
            );
            spawned = spawned + 1;
        }

        let pool = ThreadPool {
            threads,
            block_found_receiver,
            hash_rate_receiver,
            mining_request_id: 0,
        };
        proof {
            assert(pool.worker_ids() =~= assigned_core_ids(core_ids@, thread_count as nat));
        }
        (pool, launches)
    }

    /// Builds a pool against the core identifiers enumerated by the affinity
    /// collaborator. Returns nothing when the enumeration is unavailable:
    /// there is no degraded no-affinity fallback.
    pub fn new(thread_count: usize, batch_size: u32, cpu_affinity: bool) -> (r: Option<
        (ThreadPool, Vec<WorkerLaunch>),
    >)
        ensures
            r matches Some(built) ==> built.0.current_round() == 0,
            r matches Some(built) ==> built.0.worker_count() <= thread_count,
            r matches Some(built) ==> built.1@.len() == built.0.worker_count(),
            r matches Some(built) ==> forall|i: int|
                0 <= i < built.1@.len() ==> built.1@[i].core_id == built.0.worker_ids()[i],
            r matches Some(built) ==> forall|i: int|
                0 <= i < built.1@.len() ==> built.1@[i].thread_count == thread_count,
            r matches Some(built) ==> forall|i: int|
                0 <= i < built.1@.len() ==> built.1@[i].batch_size == batch_size,
            r matches Some(built) ==> forall|i: int|
                0 <= i < built.1@.len() ==> built.1@[i].cpu_affinity == cpu_affinity,
    {
        match available_core_ids() {
            Some(core_ids) => Some(
                Self::with_core_ids(&core_ids, thread_count, batch_size, cpu_affinity),
            ),
            None => None,
        }
    }

    /// Records `mining_request_id` as the current round, superseding the
    /// previous one, then broadcasts an independent copy of the work to every
    /// worker in handle order, without waiting for any acknowledgement.
    ///
    /// The round identifier is recorded even when the broadcast fails
    /// partway: a failed send means a worker has exited, which is fatal for
    /// the pool as a whole.
    pub fn new_work(
        &mut self,
        header_bytes: &[u8],
        target: &[u8],
        mining_request_id: u32,
    ) -> (r: Result<(), WorkerDisconnected>)
        ensures
            final(self).current_round() == mining_request_id,
            final(self).worker_ids() == old(self).worker_ids(),
            old(self).worker_count() == 0 ==> r is Ok,
    {
        self.mining_request_id = mining_request_id;

        let n: usize = self.threads.len();
        let mut i: usize = 0;
        while i < n
            invariant
                i <= n,
                n == self.threads@.len(),
                self.mining_request_id == mining_request_id,
                self.threads@ == old(self).threads@,
            decreases n - i,
        {
            let command = WorkerCommand::NewWork {
                header_bytes: slice_to_vec(header_bytes),
                target: slice_to_vec(target),
                mining_request_id,
            };
            match send_value(&self.threads[i].commands, command) {
                Ok(_) => {},
                Err(_) => {
                    return Err(WorkerDisconnected);
                },
            }
            i = i + 1;
        }
        Ok(())
    }

    /// Broadcasts a stop command to every worker in handle order, without
    /// waiting for completion. Repeated calls are permitted; a send to a
    /// worker that has already exited fails, and the failure is fatal.
    /// Only a send can fail, so on a pool without workers the call succeeds.
    pub fn stop(&self) -> (r: Result<(), WorkerDisconnected>)
        ensures
            self.worker_count() == 0 ==> r is Ok,
    {
        let n: usize = self.threads.len();
        let mut i: usize = 0;
        while i < n
            invariant
                i <= n,
                n == self.threads@.len(),
            decreases n - i,
        {
            match send_value(&self.threads[i].commands, WorkerCommand::Stop) {
                Ok(_) => {},
                Err(_) => {
                    return Err(WorkerDisconnected);
                },
            }
            i = i + 1;
        }
        Ok(())
    }

    /// Broadcasts a pause command to every worker in handle order, without
    /// waiting. Workers are expected to cease searching but remain able to
    /// receive a later round or a stop.
    /// Only a send can fail, so on a pool without workers the call succeeds.
    pub fn pause(&self) -> (r: Result<(), WorkerDisconnected>)
        ensures
            self.worker_count() == 0 ==> r is Ok,
    {
        let n: usize = self.threads.len();
        let mut i: usize = 0;
        while i < n
            invariant
                i <= n,
                n == self.threads@.len(),
            decreases n - i,
        {
            match send_value(&self.threads[i].commands, WorkerCommand::Pause) {
                Ok(_) => {},
                Err(_) => {
                    return Err(WorkerDisconnected);
                },
            }
            i = i + 1;
        }
        Ok(())
    }

    /// Polls the found-block channel without blocking. At most one pending
    /// event is taken per call; it is returned exactly when its round
    /// identifier equals the current round, and is otherwise dropped for
    /// good. An event that does come back therefore always carries the
    /// current round identifier.
    pub fn get_found_block(&self) -> (r: Option<(u64, u32)>)
        ensures
            r matches Some(event) ==> event.1 == self.current_round(),
    {
        let event = try_recv_value(&self.block_found_receiver);
        filter_found_block(event, self.mining_request_id)
    }

    /// Drains every pending hash-rate sample without blocking and returns
    /// their sum, saturating at `u32::MAX`; zero when none are pending.
    /// Samples carry no round identity and are never filtered for staleness.
    pub fn get_hash_rate_submission(&self) -> (total: u32) {
        let samples = drain_values(&self.hash_rate_receiver);
        sum_hash_rates(&samples)
    }
}

/// A found-block event from a superseded round is discarded: filtering it
/// against a current round other than its own yields nothing.
pub proof fn lemma_stale_found_block_discarded(randomness: u64, stale_round: u32, current_round: u32)
    requires
        stale_round != current_round,
    ensures
        found_block_filter(Some((randomness, stale_round)), current_round) is None,
{
}

/// A found-block event tagged with the pool's current round is returned
/// unchanged: earlier pauses or broadcasts do not affect its retrieval, as
/// only the round identifier recorded by the latest `new_work` is compared.
pub proof fn lemma_current_round_found_block_kept(randomness: u64, current_round: u32)
    ensures
        found_block_filter(Some((randomness, current_round)), current_round) == Some(
            (randomness, current_round),
        ),
{
}

} // verus!
