//! The client side of the ledger: signed command envelopes, dispatch into
//! the ledger, and the confirmation watcher that turns the status stream of
//! a submitted command into a terminal outcome.

use vstd::prelude::*;

use crate::ledger::{
    feed_transition, mint_transition, sleep_transition, transfer_transition, Error, Event, Pallet,
    Species,
};

verus! {

/// A state-change command, submitted under an implicit signer account.
#[derive(PartialEq, Eq, Clone, Debug)]
pub enum Command {
    Mint { name: Vec<u8>, species: Species, id: u32 },
    Transfer { receiver: u64 },
    Feed,
    Sleep,
}

/// A signed envelope: the command together with the account it is signed by.
#[derive(PartialEq, Eq, Clone, Debug)]
pub struct Envelope {
    pub signer: u64,
    pub command: Command,
}

/// One update on the status stream of a submitted command. Non-terminal
/// updates may repeat or be skipped; a terminal update ends the stream.
#[derive(PartialEq, Eq, Structural, Clone, Copy, Debug)]
pub enum TxStatus {
    Ready,
    InBlock(u64),
    Finalized(u64),
    Dropped,
    Invalid(u64),
    Error(u64),
}

/// The terminal outcome a watcher resolves to. `Indeterminate` means the
/// command's effect is unknown and the ledger must be re-queried, never that
/// it succeeded or failed.
#[derive(PartialEq, Eq, Structural, Clone, Copy, Debug)]
pub enum Outcome {
    Confirmed { block: u64, event: Event },
    FinalizedNoEvent { block: u64 },
    Rejected { status: TxStatus },
    Indeterminate,
}

/// What a watcher does with one status update: keep consuming, fetch the
/// finalized block's events, or resolve.
#[derive(PartialEq, Eq, Structural, Clone, Copy, Debug)]
pub enum WatchAction {
    Continue,
    FetchEvents { block: u64 },
    Resolve(Outcome),
}

/// A status that ends the stream.
pub open spec fn is_terminal(st: TxStatus) -> bool {
    match st {
        TxStatus::Ready => false,
        TxStatus::InBlock(_) => false,
        TxStatus::Finalized(_) => true,
        TxStatus::Dropped => true,
        TxStatus::Invalid(_) => true,
        TxStatus::Error(_) => true,
    }
}

/// Whether `ev` is the event variant a command of this kind emits on
/// success. Only the variant is compared, as the ledger's consumers do.
pub open spec fn command_matches_event(cmd: Command, ev: Event) -> bool {
    match cmd {
        Command::Mint { .. } => ev is PetMinted,
        Command::Transfer { .. } => ev is PetTransferred,
        Command::Feed => ev is PetFed,
        Command::Sleep => ev is PetSlept,
    }
}

/// The first event of `evs` matching the command's kind, where one exists.
pub open spec fn first_match(cmd: Command, evs: Seq<Event>) -> Option<Event>
    decreases evs.len(),
{
    if evs.len() <= 0 {
        None
    } else if command_matches_event(cmd, evs[0]) {
        Some(evs[0])
    } else {
        first_match(cmd, evs.skip(1))
    }
}

/// How a finalized command resolves: with the first matching event, or with
/// the "finalized but no matching event" anomaly.
pub open spec fn resolve_finalized_spec(cmd: Command, block: u64, evs: Seq<Event>) -> Outcome {
    match first_match(cmd, evs) {
        Some(ev) => Outcome::Confirmed { block, event: ev },
        None => Outcome::FinalizedNoEvent { block },
    }
}

/// What the watcher does with one status update: `Ready` and `InBlock` are
/// not yet conclusive, `Finalized` calls for that block's events, and the
/// failure statuses resolve at once, carrying the status itself.
pub open spec fn classify_spec(st: TxStatus) -> WatchAction {
    match st {
        TxStatus::Ready => WatchAction::Continue,
        TxStatus::InBlock(_) => WatchAction::Continue,
        TxStatus::Finalized(b) => WatchAction::FetchEvents { block: b },
        TxStatus::Dropped => WatchAction::Resolve(Outcome::Rejected { status: TxStatus::Dropped }),
        TxStatus::Invalid(n) => WatchAction::Resolve(
            Outcome::Rejected { status: TxStatus::Invalid(n) },
        ),
        TxStatus::Error(d) => WatchAction::Resolve(
            Outcome::Rejected { status: TxStatus::Error(d) },
        ),
    }
}

/// The outcome of watching a whole status sequence, with `evs` standing for
/// the events of the block the stream finalizes in: the first terminal
/// status decides, and a stream that closes without one is indeterminate.
pub open spec fn watch_spec(cmd: Command, statuses: Seq<TxStatus>, evs: Seq<Event>) -> Outcome
    decreases statuses.len(),
{
    if statuses.len() <= 0 {
        Outcome::Indeterminate
    } else {
        match statuses[0] {
            TxStatus::Ready => watch_spec(cmd, statuses.skip(1), evs),
            TxStatus::InBlock(_) => watch_spec(cmd, statuses.skip(1), evs),
            TxStatus::Finalized(b) => resolve_finalized_spec(cmd, b, evs),
            TxStatus::Dropped => Outcome::Rejected { status: TxStatus::Dropped },
            TxStatus::Invalid(n) => Outcome::Rejected { status: TxStatus::Invalid(n) },
            TxStatus::Error(d) => Outcome::Rejected { status: TxStatus::Error(d) },
        }
    }
}

/// The bound the encoding layer enforces before a command reaches the
/// dispatcher: a mint's pet name must fit the ledger's configured limit.
pub open spec fn envelope_within_limit(env: Envelope, limit: u32) -> bool {
    env.command matches Command::Mint { name, .. } ==> name@.len() <= limit
}

/// Whether `ev` is the event variant this command emits on success.
pub fn event_matches(cmd: &Command, ev: &Event) -> (r: bool)
    ensures
        r == command_matches_event(*cmd, *ev),
{
    match (cmd, ev) {
        (Command::Mint { .. }, Event::PetMinted { .. }) => true,
        (Command::Transfer { .. }, Event::PetTransferred { .. }) => true,
        (Command::Feed, Event::PetFed { .. }) => true,
        (Command::Sleep, Event::PetSlept { .. }) => true,
        _ => false,
    }
}

/// Scans a bounded window of events for the first one matching the
/// command's kind.
pub fn find_matching_event(cmd: &Command, events: &Vec<Event>) -> (r: Option<Event>)
    ensures
        r == first_match(*cmd, events@),
{
    let ghost evs = events@;
    let n = events.len();
    let mut idx: usize = 0;
    proof {
        assert(evs.skip(0) =~= evs);
    }
    while idx < n
        invariant
            evs == events@,
            n == evs.len(),
            idx <= n,
            first_match(*cmd, evs) == first_match(*cmd, evs.skip(idx as int)),
        decreases n - idx,
    {
        proof {
            assert(evs.skip(idx as int)[0] == evs[idx as int]);
        }
        if event_matches(cmd, &events[idx]) {
            return Some(events[idx]);
        }
        idx += 1;
        proof {
            assert(evs.skip(idx - 1).skip(1) =~= evs.skip(idx as int));
        }
    }
    None
}

/// Resolves a finalized command against its block's events: success with
/// the first matching event, or the distinct "no matching event" anomaly.
pub fn resolve_finalized(cmd: &Command, block: u64, events: &Vec<Event>) -> (r: Outcome)
    ensures
        r == resolve_finalized_spec(*cmd, block, events@),
{
    match find_matching_event(cmd, events) {
        Some(ev) => Outcome::Confirmed { block, event: ev },
        None => Outcome::FinalizedNoEvent { block },
    }
}

/// Classifies one status update for the watcher's driving loop.
pub fn classify_status(status: &TxStatus) -> (r: WatchAction)
    ensures
        r == classify_spec(*status),
{
    match *status {
        TxStatus::Ready => WatchAction::Continue,
        TxStatus::InBlock(_) => WatchAction::Continue,
        TxStatus::Finalized(b) => WatchAction::FetchEvents { block: b },
        TxStatus::Dropped => WatchAction::Resolve(Outcome::Rejected { status: TxStatus::Dropped }),
        TxStatus::Invalid(n) => WatchAction::Resolve(
            Outcome::Rejected { status: TxStatus::Invalid(n) },
        ),
        TxStatus::Error(d) => WatchAction::Resolve(
            Outcome::Rejected { status: TxStatus::Error(d) },
        ),
    }
}

/// Watches a complete status sequence, with `finalized_events` standing for
/// the events of the block the stream finalizes in. The first terminal
/// status decides the outcome; a stream that closes without one resolves to
/// `Indeterminate`, never to success or failure.
pub fn watch_statuses(cmd: &Command, statuses: &Vec<TxStatus>, finalized_events: &Vec<Event>) -> (r:
    Outcome)
    ensures
        r == watch_spec(*cmd, statuses@, finalized_events@),
        (forall|i: int|
            0 <= i < statuses@.len() ==> !is_terminal(#[trigger] statuses@[i])) ==> r
            is Indeterminate,
{
    let ghost sts = statuses@;
    let n = statuses.len();
    let mut idx: usize = 0;
    proof {
        assert(sts.skip(0) =~= sts);
    }
    while idx < n
        invariant
            sts == statuses@,
            n == sts.len(),
            idx <= n,
            watch_spec(*cmd, sts, finalized_events@) == watch_spec(
                *cmd,
                sts.skip(idx as int),
                finalized_events@,
            ),
        decreases n - idx,
    {
        proof {
            assert(sts.skip(idx as int)[0] == sts[idx as int]);
        }
        let st = statuses[idx];
        match classify_status(&st) {
            WatchAction::Continue => {
                idx += 1;
                proof {
                    assert(sts.skip(idx - 1).skip(1) =~= sts.skip(idx as int));
                }
            },
            WatchAction::FetchEvents { block } => {
                return resolve_finalized(cmd, block, finalized_events);
            },
            WatchAction::Resolve(outcome) => {
                return outcome;
            },
        }
    }
    Outcome::Indeterminate
}

/// Checks the encoding-layer bound on an envelope before dispatch.
pub fn check_envelope(env: &Envelope, limit: u32) -> (r: bool)
    ensures
        r == envelope_within_limit(*env, limit),
{
    match &env.command {
        Command::Mint { name, .. } => name.len() <= limit as usize,
        _ => true,
    }
}

/// Validates and applies one signed command against the ledger: exactly the
/// transition of the command's kind, under the envelope's signer.
pub fn dispatch(ledger: &mut Pallet, env: Envelope) -> (r: Result<(), Error>)
    requires
        old(ledger).wf(),
        envelope_within_limit(env, old(ledger).string_limit()),
    ensures
        final(ledger).wf(),
        (match env.command {
            Command::Mint { name, species, id } => mint_transition(
                *old(ledger),
                *final(ledger),
                env.signer,
                name,
                species,
                id,
                r,
            ),
            Command::Transfer { receiver } => transfer_transition(
                *old(ledger),
                *final(ledger),
                env.signer,
                receiver,
                r,
            ),
            Command::Feed => feed_transition(*old(ledger), *final(ledger), env.signer, r),
            Command::Sleep => sleep_transition(*old(ledger), *final(ledger), env.signer, r),
        }),
{
    let Envelope { signer, command } = env;
    match command {
        Command::Mint { name, species, id } => ledger.mint(signer, name, species, id),
        Command::Transfer { receiver } => ledger.transfer(signer, receiver),
        Command::Feed => ledger.feed(signer),
        Command::Sleep => ledger.sleep(signer),
    }
}

/// A status stream that closes without ever carrying a terminal status
/// resolves to the indeterminate outcome — never to success, never to
/// failure — whatever the command and whatever events exist.
pub proof fn lemma_closed_stream_indeterminate(cmd: Command, statuses: Seq<TxStatus>, evs: Seq<
    Event,
>)
    requires
        forall|i: int| 0 <= i < statuses.len() ==> !is_terminal(#[trigger] statuses[i]),
    ensures
        watch_spec(cmd, statuses, evs) is Indeterminate,
    decreases statuses.len(),
{
    if statuses.len() > 0 {
        assert(!is_terminal(statuses[0]));
        assert forall|i: int| 0 <= i < statuses.skip(1).len() implies !is_terminal(
            #[trigger] statuses.skip(1)[i],
        ) by {
            assert(statuses.skip(1)[i] == statuses[i + 1]);
        }
        lemma_closed_stream_indeterminate(cmd, statuses.skip(1), evs);
    }
}

} // verus!
