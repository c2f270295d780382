//! The plugin driver: the one-shot state machine that sequences opening the
//! module, resolving its exports and running the enumeration, and the
//! collection of every announcement's outcome in announcement order.
//!
//! The foreign steps themselves — opening a shared library, resolving a
//! symbol, invoking the entry export — happen outside this crate; the driver
//! receives each step's result as an event and decides the next state. Every
//! failure state is terminal: the tool makes a single diagnostic pass and
//! never retries.

use vstd::prelude::*;

use crate::cursor::ArgCursor;
use crate::decode::{conforms, decode, decodes_to, DecodeOutcome};

verus! {

/// Why the one-shot pass ended before the enumeration ran.
#[derive(Clone, Copy, Debug, PartialEq, Eq, Structural)]
pub enum DriverError {
    /// The module could not be opened at the given path.
    OpenError,
    /// A required export was absent from the opened module.
    SymbolMissing,
}

/// The driver's state: it moves forward through these once and stops at
/// `Done` or at a `Failed` state.
#[derive(Clone, Copy, Debug, PartialEq, Eq, Structural)]
pub enum DriverState {
    /// No module has been opened yet.
    Unopened,
    /// The module is open; its exports are not yet resolved.
    Opened,
    /// The required exports are resolved; the enumeration may run.
    Ready,
    /// The enumeration ran and returned control.
    Done,
    /// A fatal step failed; the pass is over.
    Failed(DriverError),
}

/// The result of one foreign step, handed back to the driver.
#[derive(Clone, Copy, Debug, PartialEq, Eq, Structural)]
pub enum DriverEvent {
    /// The module opened.
    OpenSucceeded,
    /// The module could not be opened.
    OpenFailed,
    /// Every required export resolved.
    ResolveSucceeded,
    /// A required export was missing.
    ResolveFailed,
    /// The entry export returned control after the enumeration.
    EntryReturned,
}

/// The driver's transition relation: the next state after one foreign step
/// reports its result. `Done` and `Failed` are terminal, and an event that
/// does not belong to the current state changes nothing.
pub open spec fn spec_driver_step(state: DriverState, event: DriverEvent) -> DriverState {
    match (state, event) {
        (DriverState::Unopened, DriverEvent::OpenSucceeded) => DriverState::Opened,
        (DriverState::Unopened, DriverEvent::OpenFailed) => DriverState::Failed(
            DriverError::OpenError,
        ),
        (DriverState::Opened, DriverEvent::ResolveSucceeded) => DriverState::Ready,
        (DriverState::Opened, DriverEvent::ResolveFailed) => DriverState::Failed(
            DriverError::SymbolMissing,
        ),
        (DriverState::Ready, DriverEvent::EntryReturned) => DriverState::Done,
        _ => state,
    }
}

/// Advances the driver by one step: the foreign work was done outside and
/// its result arrives as the event.
pub fn driver_step(state: DriverState, event: DriverEvent) -> (next: DriverState)
    ensures
        next == spec_driver_step(state, event),
{
    match (state, event) {
        (DriverState::Unopened, DriverEvent::OpenSucceeded) => DriverState::Opened,
        (DriverState::Unopened, DriverEvent::OpenFailed) => DriverState::Failed(
            DriverError::OpenError,
        ),
        (DriverState::Opened, DriverEvent::ResolveSucceeded) => DriverState::Ready,
        (DriverState::Opened, DriverEvent::ResolveFailed) => DriverState::Failed(
            DriverError::SymbolMissing,
        ),
        (DriverState::Ready, DriverEvent::EntryReturned) => DriverState::Done,
        (s, _) => s,
    }
}

/// A failed state is terminal: no event moves the driver out of it.
pub proof fn lemma_failed_is_terminal(err: DriverError, event: DriverEvent)
    ensures
        spec_driver_step(DriverState::Failed(err), event) == DriverState::Failed(err),
{
}

/// One property announcement as the enumeration delivers it: the raw tag
/// value and the captured argument stream of that one callback activation.
#[derive(Debug)]
pub struct Announcement {
    pub tag: i32,
    pub args: Vec<crate::cursor::ArgValue>,
}

/// Decodes a whole enumeration: one outcome per announcement, in the order
/// the module announced them. The decoder imposes no order of its own.
pub fn decode_all(anns: Vec<Announcement>) -> (outs: Vec<DecodeOutcome>)
    requires
        forall|i: int|
            0 <= i < anns@.len() ==> #[trigger] conforms(anns@[i].tag, anns@[i].args@),
    ensures
        outs@.len() == anns@.len(),
        forall|i: int|
            0 <= i < anns@.len() ==> #[trigger] decodes_to(anns@[i].tag, anns@[i].args@, outs@[i]),
{
    let ghost all = anns@;
    let mut rest = anns;
    let mut outs: Vec<DecodeOutcome> = Vec::new();
    while rest.len() > 0
        invariant
            outs@.len() + rest@.len() == all.len(),
            rest@ == all.skip(outs@.len() as int),
            forall|i: int| 0 <= i < all.len() ==> #[trigger] conforms(all[i].tag, all[i].args@),
            forall|i: int|
                0 <= i < outs@.len() ==> #[trigger] decodes_to(all[i].tag, all[i].args@, outs@[i]),
        decreases rest@.len(),
    {
        let ann = rest.remove(0);
        proof {
            assert(rest@ =~= all.skip(outs@.len() as int + 1));
        }
        let mut cursor = ArgCursor::new(ann.args);
        let out = decode(ann.tag, &mut cursor);
        outs.push(out);
    }
    outs
}

/// Everything one introspection pass reports: the version string the
/// module's metadata export returned, and the outcome of every announcement
/// its entry export made, in announcement order.
#[derive(Debug)]
pub struct IntrospectionReport {
    pub api_version: String,
    pub outcomes: Vec<DecodeOutcome>,
}

/// Builds the report of one pass from the resolved version string and the
/// captured enumeration.
pub fn introspect(api_version: String, anns: Vec<Announcement>) -> (report: IntrospectionReport)
    requires
        forall|i: int|
            0 <= i < anns@.len() ==> #[trigger] conforms(anns@[i].tag, anns@[i].args@),
    ensures
        report.api_version == api_version,
        report.outcomes@.len() == anns@.len(),
        forall|i: int|
            0 <= i < anns@.len() ==> #[trigger] decodes_to(
                anns@[i].tag,
                anns@[i].args@,
                report.outcomes@[i],
            ),
{
    let outcomes = decode_all(anns);
    IntrospectionReport { api_version, outcomes }
}

} // verus!
