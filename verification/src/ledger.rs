//! The authoritative ledger: exclusive pet ownership per account, activity
//! timestamps per pet, an append-only event log, and the command dispatcher
//! that guards every mutation.

use vstd::prelude::*;

use crate::store::{key_count, lemma_dup_free_key_count, KeyMap};

verus! {

/// The species tag of a pet record.
#[derive(PartialEq, Eq, Structural, Clone, Copy, Debug)]
pub enum Species {
    Turtle,
    Snake,
    Rabbit,
}

/// A pet record: a display name bounded at the encoding layer, and a species.
/// The record itself never changes after minting; only its owning key moves.
#[derive(PartialEq, Eq, Clone, Debug)]
pub struct PetInfo {
    pub name: Vec<u8>,
    pub species: Species,
}

/// A domain event appended to the log by each successful command.
#[derive(PartialEq, Eq, Structural, Clone, Copy, Debug)]
pub enum Event {
    PetMinted { owner: u64, pet_id: u32 },
    PetTransferred { from: u64, to: u64, pet_id: u32 },
    PetFed { owner: u64, pet_id: u32 },
    PetSlept { owner: u64, pet_id: u32 },
}

/// A validation failure: raised before any mutation, scoped to one command.
#[derive(PartialEq, Eq, Structural, Clone, Copy, Debug)]
pub enum Error {
    AccountAlreadyHasPet,
    AccountHasNoPet,
}

/// Ledger configuration, fixed at construction: the maximum pet name length.
#[derive(PartialEq, Eq, Structural, Clone, Copy, Debug)]
pub struct Config {
    pub string_limit: u32,
}

/// The ledger: ownership index, activity clocks, event log, and the logical
/// block height used to timestamp activities.
pub struct Pallet {
    config: Config,
    height: u64,
    pet_infos: KeyMap<(u32, PetInfo)>,
    last_feed_time: KeyMap<u64>,
    last_sleep_time: KeyMap<u64>,
    event_log: Vec<Event>,
}

impl Pallet {
    /// The ownership index: account to pet id and record.
    pub closed spec fn pets(&self) -> Map<u64, (u32, PetInfo)> {
        self.pet_infos@
    }

    /// Last feed height per pet id; an absent id reads as the sentinel 0.
    pub closed spec fn feed_times(&self) -> Map<u64, u64> {
        self.last_feed_time@
    }

    /// Last sleep height per pet id; presence itself is meaningful.
    pub closed spec fn sleep_times(&self) -> Map<u64, u64> {
        self.last_sleep_time@
    }

    /// The event log in dispatch order.
    pub closed spec fn log(&self) -> Seq<Event> {
        self.event_log@
    }

    /// The current logical clock height.
    pub closed spec fn height(&self) -> u64 {
        self.height
    }

    /// The configured maximum pet name length.
    pub closed spec fn string_limit(&self) -> u32 {
        self.config.string_limit
    }

    /// The ownership index entries, in storage order.
    pub closed spec fn pet_entries(&self) -> Seq<(u64, (u32, PetInfo))> {
        self.pet_infos.entries_seq()
    }

    /// Well-formed: every backing store keeps its keys unique.
    pub closed spec fn wf(&self) -> bool {
        &&& self.pet_infos.wf()
        &&& self.last_feed_time.wf()
        &&& self.last_sleep_time.wf()
    }

    /// The feed time a pet id reads: the stored height, or the sentinel 0
    /// for a pet that was never fed.
    pub open spec fn feed_time_spec(&self, id: u32) -> u64 {
        if self.feed_times().dom().contains(id as u64) {
            self.feed_times()[id as u64]
        } else {
            0
        }
    }

    /// The sleep time a pet id reads: absent until the first sleep.
    pub open spec fn sleep_time_spec(&self, id: u32) -> Option<u64> {
        if self.sleep_times().dom().contains(id as u64) {
            Some(self.sleep_times()[id as u64])
        } else {
            None
        }
    }

    /// A fresh ledger: empty stores, empty log, height 0.
    pub fn new(config: Config) -> (p: Pallet)
        ensures
            p.wf(),
            p.pets() == Map::<u64, (u32, PetInfo)>::empty(),
            p.feed_times() == Map::<u64, u64>::empty(),
            p.sleep_times() == Map::<u64, u64>::empty(),
            p.log() == Seq::<Event>::empty(),
            p.height() == 0,
            p.string_limit() == config.string_limit,
    {
        Pallet {
            config,
            height: 0,
            pet_infos: KeyMap::new(),
            last_feed_time: KeyMap::new(),
            last_sleep_time: KeyMap::new(),
            event_log: Vec::new(),
        }
    }

    /// Advances the logical clock. The clock never moves backwards.
    pub fn set_height(&mut self, h: u64)
        requires
            old(self).wf(),
            h >= old(self).height(),
        ensures
            final(self).wf(),
            final(self).height() == h,
            final(self).pets() == old(self).pets(),
            final(self).feed_times() == old(self).feed_times(),
            final(self).sleep_times() == old(self).sleep_times(),
            final(self).log() == old(self).log(),
            final(self).string_limit() == old(self).string_limit(),
    {
        self.height = h;
    }

    /// Mint: creates a record for a sender that owns none.
    pub fn mint(&mut self, sender: u64, name: Vec<u8>, species: Species, id: u32) -> (r: Result<
        (),
        Error,
    >)
        requires
            old(self).wf(),
            name@.len() <= old(self).string_limit(),
        ensures
            final(self).wf(),
            mint_transition(*old(self), *final(self), sender, name, species, id, r),
    {
        if self.pet_infos.contains_key(sender) {
            return Err(Error::AccountAlreadyHasPet);
        }
        let info = PetInfo { name, species };
        self.pet_infos.insert(sender, (id, info));
        self.event_log.push(Event::PetMinted { owner: sender, pet_id: id });
        Ok(())
    }

    /// Transfer: moves the sender's record to a receiver that owns none.
    pub fn transfer(&mut self, sender: u64, receiver: u64) -> (r: Result<(), Error>)
        requires
            old(self).wf(),
        ensures
            final(self).wf(),
            transfer_transition(*old(self), *final(self), sender, receiver, r),
    {
        if !self.pet_infos.contains_key(sender) {
            return Err(Error::AccountHasNoPet);
        }
        if self.pet_infos.contains_key(receiver) {
            return Err(Error::AccountAlreadyHasPet);
        }
        let pair = self.pet_infos.remove(sender).unwrap();
        let id = pair.0;
        self.pet_infos.insert(receiver, pair);
        self.event_log.push(Event::PetTransferred { from: sender, to: receiver, pet_id: id });
        Ok(())
    }

    /// Feed: stamps the sender's pet with the current height.
    pub fn feed(&mut self, sender: u64) -> (r: Result<(), Error>)
        requires
            old(self).wf(),
        ensures
            final(self).wf(),
            feed_transition(*old(self), *final(self), sender, r),
    {
        let id = match self.pet_infos.get(sender) {
            Some(p) => p.0,
            None => {
                return Err(Error::AccountHasNoPet);
            },
        };
        let h = self.height;
        self.last_feed_time.insert(id as u64, h);
        self.event_log.push(Event::PetFed { owner: sender, pet_id: id });
        Ok(())
    }

    /// Sleep: stamps the sender's pet with the current height.
    pub fn sleep(&mut self, sender: u64) -> (r: Result<(), Error>)
        requires
            old(self).wf(),
        ensures
            final(self).wf(),
            sleep_transition(*old(self), *final(self), sender, r),
    {
        let id = match self.pet_infos.get(sender) {
            Some(p) => p.0,
            None => {
                return Err(Error::AccountHasNoPet);
            },
        };
        let h = self.height;
        self.last_sleep_time.insert(id as u64, h);
        self.event_log.push(Event::PetSlept { owner: sender, pet_id: id });
        Ok(())
    }

    /// The sender's pet id and record, where the sender owns one.
    pub fn get(&self, account: u64) -> (r: Option<&(u32, PetInfo)>)
        requires
            self.wf(),
        ensures
            match r {
                Some(p) => self.pets().dom().contains(account) && *p == self.pets()[account],
                None => !self.pets().dom().contains(account),
            },
    {
        self.pet_infos.get(account)
    }

    /// The last feed height of a pet id, with 0 for one never fed.
    pub fn feed_time_of(&self, id: u32) -> (h: u64)
        requires
            self.wf(),
        ensures
            h == self.feed_time_spec(id),
    {
        match self.last_feed_time.get(id as u64) {
            Some(h) => *h,
            None => 0,
        }
    }

    /// The last sleep height of a pet id; absent until the first sleep.
    pub fn sleep_time_of(&self, id: u32) -> (r: Option<u64>)
        requires
            self.wf(),
        ensures
            r == self.sleep_time_spec(id),
    {
        match self.last_sleep_time.get(id as u64) {
            Some(h) => Some(*h),
            None => None,
        }
    }

    /// The event log, for consumers scanning for a matching event.
    pub fn events(&self) -> (r: &Vec<Event>)
        ensures
            r@ == self.log(),
    {
        &self.event_log
    }

    /// The current logical clock height.
    pub fn current_height(&self) -> (h: u64)
        ensures
            h == self.height(),
    {
        self.height
    }

    /// The configured maximum pet name length.
    pub fn name_bound(&self) -> (n: u32)
        ensures
            n == self.string_limit(),
    {
        self.config.string_limit
    }

    /// Exclusive ownership: a well-formed ledger's ownership index holds at
    /// most one entry for any account. Every command preserves
    /// well-formedness, so this holds after any sequence of commands applied
    /// to a fresh ledger.
    pub proof fn lemma_at_most_one_pet_entry(&self, account: u64)
        requires
            self.wf(),
        ensures
            key_count(self.pet_entries(), account) <= 1,
    {
        lemma_dup_free_key_count(self.pet_infos.entries_seq(), account);
    }
}

/// What a mint command does: it succeeds exactly when the sender owns no
/// record, stores the new record under the sender and logs `PetMinted`; a
/// sender that already owns a pet is refused with the ledger untouched.
pub open spec fn mint_transition(
    pre: Pallet,
    post: Pallet,
    sender: u64,
    name: Vec<u8>,
    species: Species,
    id: u32,
    r: Result<(), Error>,
) -> bool {
    &&& (r is Ok <==> !pre.pets().dom().contains(sender))
    &&& (r is Ok ==> {
        &&& post.pets() == pre.pets().insert(sender, (id, (PetInfo { name, species })))
        &&& post.feed_times() == pre.feed_times()
        &&& post.sleep_times() == pre.sleep_times()
        &&& post.log() == pre.log().push(Event::PetMinted { owner: sender, pet_id: id })
        &&& post.height() == pre.height()
        &&& post.string_limit() == pre.string_limit()
    })
    &&& (r matches Err(e) ==> e == Error::AccountAlreadyHasPet && post == pre)
}

/// What a transfer command does: it succeeds exactly when the sender owns a
/// record and the receiver owns none; the record moves unchanged from sender
/// to receiver, activity clocks are untouched, and `PetTransferred` is
/// logged. A sender without a record is refused with `AccountHasNoPet`, an
/// owning receiver with `AccountAlreadyHasPet`, the ledger untouched.
pub open spec fn transfer_transition(
    pre: Pallet,
    post: Pallet,
    sender: u64,
    receiver: u64,
    r: Result<(), Error>,
) -> bool {
    &&& (r is Ok <==> pre.pets().dom().contains(sender) && !pre.pets().dom().contains(receiver))
    &&& (r is Ok ==> {
        &&& post.pets() == pre.pets().remove(sender).insert(receiver, pre.pets()[sender])
        &&& post.feed_times() == pre.feed_times()
        &&& post.sleep_times() == pre.sleep_times()
        &&& post.log() == pre.log().push(
            Event::PetTransferred { from: sender, to: receiver, pet_id: pre.pets()[sender].0 },
        )
        &&& post.height() == pre.height()
        &&& post.string_limit() == pre.string_limit()
    })
    &&& (r matches Err(e) ==> {
        &&& post == pre
        &&& (!pre.pets().dom().contains(sender) ==> e == Error::AccountHasNoPet)
        &&& (pre.pets().dom().contains(sender) ==> e == Error::AccountAlreadyHasPet)
    })
}

/// What a feed command does: it succeeds exactly when the sender owns a
/// record; the pet's last feed time becomes the current height, overwriting
/// any earlier stamp, and `PetFed` is logged. A sender without a record is
/// refused with `AccountHasNoPet` and no timestamp is written.
pub open spec fn feed_transition(pre: Pallet, post: Pallet, sender: u64, r: Result<
    (),
    Error,
>) -> bool {
    &&& (r is Ok <==> pre.pets().dom().contains(sender))
    &&& (r is Ok ==> {
        let id = pre.pets()[sender].0;
        &&& post.feed_times() == pre.feed_times().insert(id as u64, pre.height())
        &&& post.pets() == pre.pets()
        &&& post.sleep_times() == pre.sleep_times()
        &&& post.log() == pre.log().push(Event::PetFed { owner: sender, pet_id: id })
        &&& post.height() == pre.height()
        &&& post.string_limit() == pre.string_limit()
    })
    &&& (r matches Err(e) ==> e == Error::AccountHasNoPet && post == pre)
}

/// What a sleep command does: it succeeds exactly when the sender owns a
/// record; the pet's last sleep time becomes the current height — present
/// from then on, even at height 0 — and `PetSlept` is logged. A sender
/// without a record is refused with `AccountHasNoPet` and no timestamp is
/// written.
pub open spec fn sleep_transition(pre: Pallet, post: Pallet, sender: u64, r: Result<
    (),
    Error,
>) -> bool {
    &&& (r is Ok <==> pre.pets().dom().contains(sender))
    &&& (r is Ok ==> {
        let id = pre.pets()[sender].0;
        &&& post.sleep_times() == pre.sleep_times().insert(id as u64, pre.height())
        &&& post.pets() == pre.pets()
        &&& post.feed_times() == pre.feed_times()
        &&& post.log() == pre.log().push(Event::PetSlept { owner: sender, pet_id: id })
        &&& post.height() == pre.height()
        &&& post.string_limit() == pre.string_limit()
    })
    &&& (r matches Err(e) ==> e == Error::AccountHasNoPet && post == pre)
}

/// Transferring a pet away and back restores the ownership index exactly:
/// two successful transfers, first from `a` to `b` and then from `b` back to
/// `a`, compose to the identity on the index (see `transfer_transition`).
pub proof fn lemma_transfer_round_trip(m: Map<u64, (u32, PetInfo)>, a: u64, b: u64)
    requires
        a != b,
        m.dom().contains(a),
        !m.dom().contains(b),
    ensures
        m.remove(a).insert(b, m[a]).remove(b).insert(a, m[a]) == m,
{
    assert(m.remove(a).insert(b, m[a]).remove(b).insert(a, m[a]) =~= m);
}

} // verus!
