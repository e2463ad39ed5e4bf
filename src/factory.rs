use vstd::prelude::*;

use crate::error::SpotFactoryError;
use crate::principal::Principal;

verus! {

/// What the registry knows of one event it created.
pub struct EventInfo {
    pub id: u64,
    pub contract_address: Principal,
    pub creator: Principal,
    pub name: String,
    pub created_at: u64,
}

impl EventInfo {
    pub fn duplicate(&self) -> (r: EventInfo)
        ensures
            r == *self,
    {
        EventInfo {
            id: self.id,
            contract_address: self.contract_address,
            creator: self.creator,
            name: self.name.clone(),
            created_at: self.created_at,
        }
    }
}

/// The entry at each position carries that position as its id.
pub open spec fn consecutive_ids(infos: Seq<EventInfo>) -> bool {
    forall|i: int| 0 <= i < infos.len() ==> #[trigger] infos[i].id == i
}

/// The registry as mathematics: its admin, the ids of the events in the order
/// they were created, and each event's information by id.
pub struct FactoryState {
    pub admin: Principal,
    pub events: Seq<u64>,
    pub infos: Map<u64, EventInfo>,
}

impl FactoryState {
    /// Ids are handed out in order from zero, each once, and each listed id has
    /// its information, under that id.
    pub open spec fn inv(self) -> bool {
        &&& forall|i: int| 0 <= i < self.events.len() ==> #[trigger] self.events[i] == i
        &&& forall|k: u64| #[trigger] self.infos.contains_key(k) <==> k < self.events.len()
        &&& forall|k: u64| #[trigger] self.infos.contains_key(k) ==> self.infos[k].id == k
    }
}

/// The id that the next event created in `s` receives.
pub open spec fn next_id(s: FactoryState) -> u64 {
    s.events.len() as u64
}

/// `s` handed to `admin`.
pub open spec fn with_admin(s: FactoryState, admin: Principal) -> FactoryState {
    FactoryState { admin, ..s }
}

/// The information of an event with id `id`, created by `creator` at time
/// `now` under the name `name`, standing at `address`.
pub open spec fn event_info(id: u64, address: Principal, creator: Principal, name: String, now: u64) -> EventInfo {
    EventInfo { id, contract_address: address, creator, name, created_at: now }
}

/// `s` after an event was created: the next id is listed, and its information
/// is added.
pub open spec fn with_event(
    s: FactoryState,
    address: Principal,
    creator: Principal,
    name: String,
    now: u64,
) -> FactoryState {
    FactoryState {
        events: s.events.push(next_id(s)),
        infos: s.infos.insert(next_id(s), event_info(next_id(s), address, creator, name, now)),
        ..s
    }
}

/// The registry that stored parts make up.
pub open spec fn restored(admin: Principal, infos: Seq<EventInfo>) -> FactoryState {
    FactoryState {
        admin,
        events: Seq::new(infos.len(), |i: int| i as u64),
        infos: Map::new(|k: u64| k < infos.len(), |k: u64| infos[k as int]),
    }
}

/// The registry of events: who administers it, and what it created.
pub struct SpotFactory {
    admin: Principal,
    infos: Vec<EventInfo>,
}

impl View for SpotFactory {
    type V = FactoryState;

    closed spec fn view(&self) -> FactoryState {
        restored(self.admin, self.infos@)
    }
}

impl SpotFactory {
    pub closed spec fn wf(&self) -> bool {
        consecutive_ids(self.infos@) && self.infos@.len() < u64::MAX
    }

    /// A well-formed registry's state meets its invariant.
    pub proof fn lemma_state_inv(&self)
        requires
            self.wf(),
        ensures
            self@.inv(),
    {
    }

    /// A registry administered by `admin`, with no events.
    pub fn new(admin: Principal) -> (r: SpotFactory)
        ensures
            r.wf(),
            r@.admin == admin,
            r@.events == Seq::<u64>::empty(),
            r@.infos == Map::<u64, EventInfo>::empty(),
    {
        let r = SpotFactory { admin, infos: Vec::new() };
        assert(r@.events =~= Seq::<u64>::empty());
        assert(r@.infos =~= Map::<u64, EventInfo>::empty());
        r
    }

    /// Rebuilds a registry from its stored parts: its admin, and the
    /// information of each event in the order of creation. `None` when an
    /// entry's id is not its position.
    pub fn restore(admin: Principal, infos: Vec<EventInfo>) -> (r: Option<SpotFactory>)
        ensures
            (consecutive_ids(infos@) && infos@.len() < u64::MAX) <==> (r is Some),
            r matches Some(f) ==> f.wf() && f@ == restored(admin, infos@),
    {
        let n = infos.len();
        if n as u64 == u64::MAX {
            return None;
        }
        let mut i: usize = 0;
        while i < n
            invariant
                n == infos@.len(),
                0 <= i <= n,
                forall|j: int| 0 <= j < i ==> #[trigger] infos@[j].id == j,
            decreases n - i,
        {
            if infos[i].id != i as u64 {
                return None;
            }
            i = i + 1;
        }
        Some(SpotFactory { admin, infos })
    }

    /// The information of every event, in the order of creation.
    pub fn infos(&self) -> (r: Vec<EventInfo>)
        requires
            self.wf(),
        ensures
            consecutive_ids(r@),
            r@.len() < u64::MAX,
            restored(self@.admin, r@) == self@,
    {
        let mut r: Vec<EventInfo> = Vec::new();
        let mut i: usize = 0;
        while i < self.infos.len()
            invariant
                0 <= i <= self.infos@.len(),
                r@ == self.infos@.subrange(0, i as int),
            decreases self.infos@.len() - i,
        {
            r.push(self.infos[i].duplicate());
            i = i + 1;
            assert(r@ =~= self.infos@.subrange(0, i as int));
        }
        assert(r@ =~= self.infos@);
        r
    }

    /// The registry's admin.
    pub fn admin(&self) -> (r: Result<Principal, SpotFactoryError>)
        ensures
            r == Ok::<Principal, SpotFactoryError>(self@.admin),
    {
        Ok(self.admin)
    }

    /// Hands the registry to `new_admin`; only the current admin may.
    pub fn set_admin(&mut self, caller: Principal, new_admin: Principal) -> (r: Result<(), SpotFactoryError>)
        requires
            old(self).wf(),
        ensures
            final(self).wf(),
            caller == old(self)@.admin ==> r == Ok::<(), SpotFactoryError>(()) && final(self)@
                == with_admin(old(self)@, new_admin),
            caller != old(self)@.admin ==> r == Err::<(), SpotFactoryError>(SpotFactoryError::Unauthorized)
                && final(self)@ == old(self)@,
    {
        if caller != self.admin {
            return Err(SpotFactoryError::Unauthorized);
        }
        self.admin = new_admin;
        Ok(())
    }

    /// Records a new event named `event_name` by `creator` at time `now`, with
    /// room for `max_nfts` credentials; a zero bound is rejected, and so is a
    /// registry that has used up every id. The event receives a fresh id, the
    /// next in order, and is recorded at `contract_address`, where the host
    /// places its instance; that address is returned. Such an instance starts
    /// as `SpotEvent::new(creator, max_nfts)`, which succeeds on the same
    /// bounds. `metadata_uri` is accepted and not kept. The creator must be the
    /// authenticated signer.
    pub fn create_event(
        &mut self,
        creator: Principal,
        event_name: String,
        max_nfts: u32,
        metadata_uri: String,
        contract_address: Principal,
        now: u64,
    ) -> (r: Result<Principal, SpotFactoryError>)
        requires
            old(self).wf(),
        ensures
            final(self).wf(),
            !old(self)@.infos.contains_key(next_id(old(self)@)),
            max_nfts == 0 ==> r == Err::<Principal, SpotFactoryError>(SpotFactoryError::InvalidParameters)
                && final(self)@ == old(self)@,
            max_nfts > 0 && old(self)@.events.len() + 1 < u64::MAX ==> r == Ok::<
                Principal,
                SpotFactoryError,
            >(contract_address) && final(self)@ == with_event(
                old(self)@,
                contract_address,
                creator,
                event_name,
                now,
            ),
            max_nfts > 0 && old(self)@.events.len() + 1 >= u64::MAX ==> r == Err::<
                Principal,
                SpotFactoryError,
            >(SpotFactoryError::EventCreationFailed) && final(self)@ == old(self)@,
    {
        if max_nfts == 0 {
            return Err(SpotFactoryError::InvalidParameters);
        }
        let n = self.infos.len();
        if n as u64 >= u64::MAX - 1 {
            return Err(SpotFactoryError::EventCreationFailed);
        }
        let info = EventInfo {
            id: n as u64,
            contract_address,
            creator,
            name: event_name,
            created_at: now,
        };
        self.infos.push(info);
        proof {
            let s = old(self)@;
            let t = self@;
            let w = with_event(s, contract_address, creator, event_name, now);
            assert(t.events =~= w.events);
            assert(t.infos =~= w.infos);
        }
        Ok(contract_address)
    }

    /// The id that the next event created receives.
    pub fn next_event_id(&self) -> (r: u64)
        requires
            self.wf(),
        ensures
            r == next_id(self@),
    {
        self.infos.len() as u64
    }

    /// The information of the event with id `event_id`.
    pub fn get_event_info(&self, event_id: u64) -> (r: Result<EventInfo, SpotFactoryError>)
        requires
            self.wf(),
        ensures
            self@.infos.contains_key(event_id) ==> r == Ok::<EventInfo, SpotFactoryError>(
                self@.infos[event_id],
            ),
            !self@.infos.contains_key(event_id) ==> r == Err::<EventInfo, SpotFactoryError>(
                SpotFactoryError::EventNotFound,
            ),
    {
        if event_id < self.infos.len() as u64 {
            Ok(self.infos[event_id as usize].duplicate())
        } else {
            Err(SpotFactoryError::EventNotFound)
        }
    }

    /// The ids of every event created, in order of creation.
    pub fn get_events(&self) -> (r: Vec<u64>)
        requires
            self.wf(),
        ensures
            r@ == self@.events,
    {
        let mut r: Vec<u64> = Vec::new();
        let mut i: usize = 0;
        while i < self.infos.len()
            invariant
                0 <= i <= self.infos@.len(),
                self.infos@.len() < u64::MAX,
                r@ == self@.events.subrange(0, i as int),
            decreases self.infos@.len() - i,
        {
            r.push(i as u64);
            i = i + 1;
            assert(r@ =~= self@.events.subrange(0, i as int));
        }
        assert(r@ =~= self@.events);
        r
    }
}

} // verus!
