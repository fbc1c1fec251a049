//! The life of the combined store: claimed once, then mounted once.
//!
//! The store is claimed at most once between two resets, and the claim gives
//! the capability without which the filesystems cannot be mounted. They are
//! mounted once, all three or none, and stay mounted until the next reset.
use vstd::prelude::*;
use vstd::slice::slice_subrange;
use crate::error::MountError;
use crate::protocol::{request, Operation, Reply, Request, Step, StepView};
use crate::types::StorageLocation;

verus! {

/// How far the store has come.
#[derive(Clone, Copy, Debug, PartialEq, Eq, Structural)]
pub enum Phase {
    /// Nobody has claimed the store.
    Unclaimed,
    /// The store is claimed and its filesystems are not mounted.
    Claimed,
    /// The three filesystems are mounted.
    Mounted,
}

/// The proof of having claimed the store. It holds nothing; copies of it
/// stand for the same claim.
#[derive(Clone, Copy, Debug)]
pub struct Capability {
    claim: (),
}

/// The state that the claim and the mount go through.
#[derive(Debug)]
pub struct Lifecycle {
    phase: Phase,
}

/// The number of backends.
pub const BACKENDS: usize = 3;

/// The backends in the order in which they are formatted and mounted.
pub open spec fn backend(index: int) -> StorageLocation {
    if index == 0 {
        StorageLocation::Internal
    } else if index == 1 {
        StorageLocation::External
    } else {
        StorageLocation::Volatile
    }
}

/// The next step of mounting the backends from number `index` on, where
/// `replies[i]` answers the mount of backend `i`. The first backend that
/// cannot be mounted ends the mount with an error.
pub open spec fn bind_step(replies: Seq<Reply>, index: int) -> StepView<Result<(), MountError>>
    decreases BACKENDS - index,
{
    if index >= BACKENDS {
        StepView::Finished(Ok(()))
    } else if replies.len() <= index {
        StepView::Perform(request(backend(index), Operation::Mount, Seq::empty(), Seq::empty()))
    } else if !(replies[index] is Done) {
        StepView::Finished(Err(MountError::Unmountable(backend(index))))
    } else {
        bind_step(replies, index + 1)
    }
}

/// The next step of formatting the backends from number `index` on and then
/// mounting them all, where `replies[i]` answers the formatting of backend
/// `i`. A medium that cannot be formatted is fatal.
pub open spec fn format_step(replies: Seq<Reply>, index: int) -> StepView<Result<(), MountError>>
    decreases BACKENDS - index,
{
    if index >= BACKENDS {
        bind_step(replies.skip(BACKENDS as int), 0)
    } else if replies.len() <= index {
        StepView::Perform(request(backend(index), Operation::Format, Seq::empty(), Seq::empty()))
    } else if !(replies[index] is Done) {
        StepView::Fatal
    } else {
        format_step(replies, index + 1)
    }
}

/// The next step of a mount in the given phase.
///
/// A store that is not claimed, or is mounted already, is not mounted.
/// Otherwise the three media are formatted first, if `format` is set, and
/// then mounted.
pub open spec fn mount_step(phase: Phase, format: bool, replies: Seq<Reply>) -> StepView<
    Result<(), MountError>,
> {
    match phase {
        Phase::Unclaimed => StepView::Finished(Err(MountError::NotClaimed)),
        Phase::Mounted => StepView::Finished(Err(MountError::AlreadyMounted)),
        Phase::Claimed => if format {
            format_step(replies, 0)
        } else {
            bind_step(replies, 0)
        },
    }
}

/// Whether a claim in this phase gives the capability: it does as long as
/// nobody has claimed the store.
pub open spec fn grants(phase: Phase) -> bool {
    phase == Phase::Unclaimed
}

/// The phase after a claim.
pub open spec fn claimed(phase: Phase) -> Phase {
    match phase {
        Phase::Unclaimed => Phase::Claimed,
        _ => phase,
    }
}

/// The phase after a mount that went as far as `step`.
pub open spec fn mounted(phase: Phase, step: StepView<Result<(), MountError>>) -> Phase {
    match step {
        StepView::Finished(Ok(_)) => Phase::Mounted,
        _ => phase,
    }
}

/// The backend with the given number.
fn backend_at(index: usize) -> (location: StorageLocation)
    ensures
        location == backend(index as int),
{
    if index == 0 {
        StorageLocation::Internal
    } else if index == 1 {
        StorageLocation::External
    } else {
        StorageLocation::Volatile
    }
}

/// The request that names a medium and no path.
fn medium_request(location: StorageLocation, operation: Operation) -> (made: Request)
    ensures
        made@ == request(location, operation, Seq::empty(), Seq::empty()),
{
    Request { location, operation, path: Vec::new(), contents: Vec::new(), limit: 0 }
}

/// Mounts the three backends, given the replies to the mounts so far.
fn bind(replies: &[Reply]) -> (step: Step<Result<(), MountError>>)
    ensures
        step@ == bind_step(replies@, 0),
{
    let mut index: usize = 0;
    while index < BACKENDS
        invariant
            index <= BACKENDS,
            bind_step(replies@, 0) == bind_step(replies@, index as int),
        decreases BACKENDS - index,
    {
        if replies.len() <= index {
            return Step::Perform(medium_request(backend_at(index), Operation::Mount));
        }
        match replies[index] {
            Reply::Done(_) => {},
            _ => {
                return Step::Finished(Err(MountError::Unmountable(backend_at(index))));
            },
        }
        index += 1;
    }
    Step::Finished(Ok(()))
}

/// Formats the three backends and then mounts them, given the replies so
/// far.
fn format_and_bind(replies: &[Reply]) -> (step: Step<Result<(), MountError>>)
    ensures
        step@ == format_step(replies@, 0),
{
    let mut index: usize = 0;
    while index < BACKENDS
        invariant
            index <= BACKENDS,
            index <= replies@.len(),
            format_step(replies@, 0) == format_step(replies@, index as int),
        decreases BACKENDS - index,
    {
        if replies.len() <= index {
            return Step::Perform(medium_request(backend_at(index), Operation::Format));
        }
        match replies[index] {
            Reply::Done(_) => {},
            _ => {
                return Step::Fatal;
            },
        }
        index += 1;
    }
    bind(slice_subrange(replies, BACKENDS, replies.len()))
}

impl Lifecycle {
    /// How far the store has come.
    pub closed spec fn phase(&self) -> Phase {
        self.phase
    }

    /// The state after a reset: nobody has claimed the store.
    pub fn new() -> (fresh: Lifecycle)
        ensures
            fresh.phase() == Phase::Unclaimed,
    {
        Lifecycle { phase: Phase::Unclaimed }
    }

    /// How far the store has come.
    pub fn current(&self) -> (phase: Phase)
        ensures
            phase == self.phase(),
    {
        self.phase
    }

    /// Claims the store. The first claim gives the capability, every later
    /// one nothing: there is no way to give a claim back.
    pub fn claim(&mut self) -> (capability: Option<Capability>)
        ensures
            capability is Some <==> grants(old(self).phase()),
            final(self).phase() == claimed(old(self).phase()),
    {
        match self.phase {
            Phase::Unclaimed => {
                self.phase = Phase::Claimed;
                Some(Capability { claim: () })
            },
            _ => None,
        }
    }

    /// Mounts the three filesystems, after formatting their media if
    /// `format` is set, given the replies to the requests made so far.
    ///
    /// The store is mounted when this returns `Finished(Ok(()))`, and from
    /// then on every mount is rejected.
    pub fn mount(&mut self, capability: Capability, format: bool, replies: &[Reply]) -> (step: Step<
        Result<(), MountError>,
    >)
        ensures
            step@ == mount_step(old(self).phase(), format, replies@),
            final(self).phase() == mounted(old(self).phase(), step@),
    {
        match self.phase {
            Phase::Unclaimed => Step::Finished(Err(MountError::NotClaimed)),
            Phase::Mounted => Step::Finished(Err(MountError::AlreadyMounted)),
            Phase::Claimed => {
                let step = if format {
                    format_and_bind(replies)
                } else {
                    bind(replies)
                };
                match step {
                    Step::Finished(Ok(_)) => {
                        self.phase = Phase::Mounted;
                    },
                    _ => {},
                }
                step
            },
        }
    }
}

/// The store is claimed once. After a claim, whether it gave the capability
/// or not, no claim gives it, and neither a later claim nor a mount, however
/// it goes, changes that.
pub proof fn law_claimed_once(phase: Phase, step: StepView<Result<(), MountError>>)
    ensures
        !grants(claimed(phase)),
        !grants(phase) ==> !grants(claimed(phase)) && !grants(mounted(phase, step)),
{
}

/// The store is mounted once: a mount in a store that is mounted is
/// rejected without a request, and so is one in a store that nobody has
/// claimed; and a mounted store stays mounted.
pub proof fn law_mounted_once(phase: Phase, format: bool, replies: Seq<Reply>)
    ensures
        phase == Phase::Mounted ==> mount_step(phase, format, replies) == StepView::<
            Result<(), MountError>,
        >::Finished(Err(MountError::AlreadyMounted)),
        phase == Phase::Unclaimed ==> mount_step(phase, format, replies) == StepView::<
            Result<(), MountError>,
        >::Finished(Err(MountError::NotClaimed)),
        phase == Phase::Mounted ==> claimed(phase) == Phase::Mounted && mounted(
            phase,
            mount_step(phase, format, replies),
        ) == Phase::Mounted,
{
}

/// A mount that formats does so first: when it asks a backend to mount, all
/// three media have been formatted, and when it succeeds, all three were
/// formatted and mounted, in the order of [`backend`].
pub proof fn law_formatted_before_mounted(replies: Seq<Reply>)
    ensures
        (format_step(replies, 0) is Perform && format_step(replies, 0)->Perform_0.operation
            == Operation::Mount) ==> replies.len() >= BACKENDS && forall|i: int|
            0 <= i < BACKENDS ==> replies[i] is Done,
        format_step(replies, 0) == StepView::<Result<(), MountError>>::Finished(Ok(()))
            ==> replies.len() >= 2 * BACKENDS && forall|i: int|
            0 <= i < 2 * BACKENDS ==> replies[i] is Done,
        (replies.len() == 2 * BACKENDS && forall|i: int|
            0 <= i < 2 * BACKENDS ==> replies[i] is Done) ==> format_step(replies, 0)
            == StepView::<Result<(), MountError>>::Finished(Ok(())),
{
    reveal_with_fuel(format_step, 4);
    reveal_with_fuel(bind_step, 4);
    if replies.len() >= BACKENDS {
        let later = replies.skip(BACKENDS as int);
        assert(forall|i: int| 0 <= i < later.len() ==> later[i] == replies[i + BACKENDS]);
    }
}

} // verus!
