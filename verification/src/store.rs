use vstd::prelude::*;

use crate::addr::Addr;
use crate::config::{Config, ConfigView};
use crate::digest::{position_key, spec_position_key};
use crate::error::StdError;
use crate::position::{Position, PositionView};
use crate::vamm::{all_valid, map_validate, valid_addrs, VammList};

verus! {

/// One record of the position store: the digest key and the position kept
/// under it.
struct PositionEntry {
    key: Vec<u8>,
    position: Position,
}

/// The durable state of the engine, threaded explicitly through every
/// storage operation.
///
/// The host executes one operation at a time to completion against this
/// state and makes all its writes durable together, so no locking happens
/// here.  Positions are kept under their digest keys; the key-uniqueness
/// invariant `wf` makes the record list a map.
pub struct EngineStore {
    config: Option<Config>,
    vamm_list: Option<VammList>,
    positions: Vec<PositionEntry>,
    tmp_position: Option<Position>,
}

/// Mathematical image of the whole store: the two singletons, the positions
/// as a map from digest key to position, and the single tentative slot.
#[verifier::ext_equal]
pub ghost struct StoreView {
    pub config: Option<ConfigView>,
    pub vamms: Option<Seq<Seq<char>>>,
    pub positions: Map<Seq<u8>, PositionView>,
    pub tmp_position: Option<PositionView>,
}

/// The map held by a list of position records; a later record for the same
/// key overrides an earlier one.
spec fn entries_map(s: Seq<PositionEntry>) -> Map<Seq<u8>, PositionView>
    decreases s.len(),
{
    if s.len() == 0 {
        Map::empty()
    } else {
        entries_map(s.drop_last()).insert(s.last().key@, s.last().position@)
    }
}

/// No digest key occurs twice in the record list.
spec fn unique_keys(s: Seq<PositionEntry>) -> bool {
    forall|i: int, j: int| 0 <= i < j < s.len() ==> s[i].key@ != s[j].key@
}

proof fn lemma_entries_map_contains(s: Seq<PositionEntry>, k: Seq<u8>)
    ensures
        entries_map(s).contains_key(k) <==> (exists|i: int|
            0 <= i < s.len() && (#[trigger] s[i]).key@ == k),
    decreases s.len(),
{
    if s.len() == 0 {
    } else {
        lemma_entries_map_contains(s.drop_last(), k);
        if s.last().key@ == k {
            assert(s[s.len() - 1].key@ == k);
        } else if entries_map(s).contains_key(k) {
            let i = choose|i: int| 0 <= i < s.drop_last().len() && (#[trigger] s.drop_last()[i]).key@ == k;
            assert(s[i].key@ == k);
        } else if exists|i: int| 0 <= i < s.len() && (#[trigger] s[i]).key@ == k {
            let i = choose|i: int| 0 <= i < s.len() && (#[trigger] s[i]).key@ == k;
            assert(i < s.len() - 1);
            assert(s.drop_last()[i].key@ == k);
        }
    }
}

proof fn lemma_entries_map_lookup(s: Seq<PositionEntry>, i: int)
    requires
        unique_keys(s),
        0 <= i < s.len(),
    ensures
        entries_map(s).contains_key(s[i].key@),
        entries_map(s)[s[i].key@] == s[i].position@,
    decreases s.len(),
{
    if i == s.len() - 1 {
    } else {
        assert(s[i].key@ != s.last().key@);
        assert(s.drop_last()[i] == s[i]);
        lemma_entries_map_lookup(s.drop_last(), i);
    }
}

proof fn lemma_entries_map_update(s: Seq<PositionEntry>, i: int, e: PositionEntry)
    requires
        unique_keys(s),
        0 <= i < s.len(),
        e.key@ == s[i].key@,
    ensures
        entries_map(s.update(i, e)) == entries_map(s).insert(e.key@, e.position@),
    decreases s.len(),
{
    let t = s.update(i, e);
    if i == s.len() - 1 {
        assert(t.drop_last() =~= s.drop_last());
        assert(t.last() == e);
        assert(entries_map(s.drop_last()).insert(s.last().key@, s.last().position@).insert(
            e.key@,
            e.position@,
        ) =~= entries_map(s.drop_last()).insert(e.key@, e.position@));
    } else {
        assert(t.drop_last() =~= s.drop_last().update(i, e));
        assert(s.drop_last()[i] == s[i]);
        lemma_entries_map_update(s.drop_last(), i, e);
        assert(t.last() == s.last());
        assert(e.key@ != s.last().key@);
        assert(entries_map(s.drop_last()).insert(e.key@, e.position@).insert(
            s.last().key@,
            s.last().position@,
        ) =~= entries_map(s.drop_last()).insert(s.last().key@, s.last().position@).insert(
            e.key@,
            e.position@,
        ));
    }
}

impl View for EngineStore {
    type V = StoreView;

    closed spec fn view(&self) -> StoreView {
        StoreView {
            config: match self.config {
                Some(c) => Some(c@),
                None => None,
            },
            vamms: match self.vamm_list {
                Some(l) => Some(l@),
                None => None,
            },
            positions: entries_map(self.positions@),
            tmp_position: match self.tmp_position {
                Some(p) => Some(p@),
                None => None,
            },
        }
    }
}

/// The image of a store that was never written to.
pub open spec fn empty_store() -> StoreView {
    StoreView {
        config: None,
        vamms: None,
        positions: Map::<Seq<u8>, PositionView>::empty(),
        tmp_position: None,
    }
}

/// Storing the config replaces the previous record wholesale.
pub open spec fn spec_store_config(s: StoreView, c: ConfigView) -> StoreView {
    StoreView { config: Some(c), ..s }
}

/// Reading the config: the current record, absent if never initialized.
pub open spec fn spec_read_config(s: StoreView) -> Option<ConfigView> {
    s.config
}

/// Storing the registry replaces the previous list wholesale.
pub open spec fn spec_store_vamms(s: StoreView, vs: Seq<Seq<char>>) -> StoreView {
    StoreView { vamms: Some(vs), ..s }
}

/// Reading the registry: the current list, absent if never initialized.
pub open spec fn spec_read_vamms(s: StoreView) -> Option<Seq<Seq<char>>> {
    s.vamms
}

/// Storing a position writes the full record under its digest key,
/// overwriting any prior record there.
pub open spec fn spec_store_position(s: StoreView, p: PositionView) -> StoreView {
    StoreView { positions: s.positions.insert(spec_position_key(p.vamm, p.trader), p), ..s }
}

/// Loading a position: the record under the pair's digest key, or "none" if
/// that key holds nothing.
pub open spec fn spec_load_position(s: StoreView, vamm: Seq<char>, trader: Seq<char>) -> Option<
    PositionView,
> {
    if s.positions.contains_key(spec_position_key(vamm, trader)) {
        Some(s.positions[spec_position_key(vamm, trader)])
    } else {
        None
    }
}

/// Staging overwrites the single tentative slot, keeping no history.
pub open spec fn spec_stage(s: StoreView, p: PositionView) -> StoreView {
    StoreView { tmp_position: Some(p), ..s }
}

/// Clearing empties the tentative slot unconditionally.
pub open spec fn spec_clear(s: StoreView) -> StoreView {
    StoreView { tmp_position: None, ..s }
}

/// Peeking reads the tentative slot without clearing it.
pub open spec fn spec_peek(s: StoreView) -> Option<PositionView> {
    s.tmp_position
}

impl EngineStore {
    /// Key-uniqueness of the position records: each digest key at most once.
    pub closed spec fn wf(&self) -> bool {
        unique_keys(self.positions@)
    }

    /// A fresh, empty store: nothing initialized, no positions, an empty
    /// tentative slot.
    pub fn new() -> (s: EngineStore)
        ensures
            s.wf(),
            s@ == empty_store(),
    {
        let s = EngineStore {
            config: None,
            vamm_list: None,
            positions: Vec::new(),
            tmp_position: None,
        };
        proof {
            assert(s@ =~= empty_store());
        }
        s
    }
}

/// Persists the full config record, replacing any prior value.  Structural
/// writes only: gating who may call this belongs to the dispatcher.
pub fn store_config(store: &mut EngineStore, config: &Config) -> (r: Result<(), StdError>)
    requires
        old(store).wf(),
    ensures
        final(store).wf(),
        r is Ok,
        final(store)@ == spec_store_config(old(store)@, config@),
{
    store.config = Some(config.clone());
    proof {
        assert(store@ =~= spec_store_config(old(store)@, config@));
    }
    Ok(())
}

/// Returns the current config, or `NotFound` if the store was never
/// initialized.
pub fn read_config(store: &EngineStore) -> (r: Result<Config, StdError>)
    ensures
        match spec_read_config(store@) {
            Some(c) => r is Ok && r->Ok_0@ == c,
            None => r == Err::<Config, StdError>(StdError::NotFound),
        },
{
    match &store.config {
        Some(c) => Ok(c.clone()),
        None => Err(StdError::NotFound),
    }
}

/// Replaces the whole registry with the accepted addresses, in order, if the
/// validator accepted every entry; aborts with the first rejection and no
/// state change otherwise.
pub fn store_vamm(store: &mut EngineStore, input: &Vec<Result<Addr, StdError>>) -> (r: Result<
    (),
    StdError,
>)
    requires
        old(store).wf(),
    ensures
        final(store).wf(),
        r is Ok <==> all_valid(input@),
        all_valid(input@) ==> final(store)@ == spec_store_vamms(
            old(store)@,
            valid_addrs(input@),
        ),
        !all_valid(input@) ==> final(store)@ == old(store)@ && (exists|i: int|
            0 <= i < input@.len() && (#[trigger] input@[i]) is Err && (forall|j: int|
                0 <= j < i ==> input@[j] is Ok) && r->Err_0 == input@[i]->Err_0),
{
    match map_validate(input) {
        Ok(v) => {
            store.vamm_list = Some(VammList { vamm: v });
            proof {
                assert(store@ =~= spec_store_vamms(old(store)@, valid_addrs(input@)));
            }
            Ok(())
        },
        Err(e) => Err(e),
    }
}

/// Returns the current registry, or `NotFound` if it was never initialized.
pub fn read_vamm(store: &EngineStore) -> (r: Result<VammList, StdError>)
    ensures
        match spec_read_vamms(store@) {
            Some(vs) => r is Ok && r->Ok_0@ == vs,
            None => r == Err::<VammList, StdError>(StdError::NotFound),
        },
{
    match &store.vamm_list {
        Some(l) => Ok(l.clone()),
        None => Err(StdError::NotFound),
    }
}

/// The index of the record holding `key`, if any.
fn find_position(entries: &Vec<PositionEntry>, key: &Vec<u8>) -> (r: Option<usize>)
    ensures
        match r {
            Some(i) => i < entries@.len() && entries@[i as int].key@ == key@,
            None => forall|j: int| 0 <= j < entries@.len() ==> entries@[j].key@ != key@,
        },
{
    let n = entries.len();
    let mut i: usize = 0;
    while i < n
        invariant
            n == entries@.len(),
            0 <= i <= n,
            forall|j: int| 0 <= j < i ==> entries@[j].key@ != key@,
        decreases n - i,
    {
        if entries[i].key == *key {
            proof {
                assert(entries@[i as int].key@ =~= key@);
            }
            return Some(i);
        }
        proof {
            if entries@[i as int].key@ == key@ {
                assert(entries@[i as int].key =~= *key);
                assert(false);
            }
        }
        i += 1;
    }
    None
}

/// Writes the full position record under the digest key derived from its own
/// (vamm, trader) pair, unconditionally overwriting any prior record there:
/// last writer wins.
pub fn store_position(store: &mut EngineStore, position: &Position) -> (r: Result<(), StdError>)
    requires
        old(store).wf(),
    ensures
        final(store).wf(),
        r is Ok,
        final(store)@ == spec_store_position(old(store)@, position@),
{
    let key = position_key(&position.vamm, &position.trader);
    let entry = PositionEntry { key, position: position.clone() };
    match find_position(&store.positions, &entry.key) {
        Some(i) => {
            proof {
                lemma_entries_map_update(store.positions@, i as int, entry);
            }
            store.positions[i] = entry;
        },
        None => {
            proof {
                let s = store.positions@;
                assert(s.push(entry).drop_last() =~= s);
            }
            store.positions.push(entry);
        },
    }
    proof {
        assert(store@ =~= spec_store_position(old(store)@, position@));
    }
    Ok(())
}

/// Returns the position stored for the (vamm, trader) pair, or "none" if that
/// pair's key holds nothing — an expected outcome, not an error.
pub fn read_position(store: &EngineStore, vamm: &Addr, trader: &Addr) -> (r: Result<
    Option<Position>,
    StdError,
>)
    requires
        store.wf(),
    ensures
        r is Ok,
        match spec_load_position(store@, vamm@, trader@) {
            Some(p) => r->Ok_0 is Some && r->Ok_0->0@ == p,
            None => r->Ok_0 is None,
        },
{
    let key = position_key(vamm, trader);
    match find_position(&store.positions, &key) {
        Some(i) => {
            proof {
                lemma_entries_map_lookup(store.positions@, i as int);
            }
            Ok(Some(store.positions[i].position.clone()))
        },
        None => {
            proof {
                lemma_entries_map_contains(store.positions@, key@);
            }
            Ok(None)
        },
    }
}

/// Overwrites the single tentative slot with the given position: the value
/// the in-flight operation will commit if it succeeds.
pub fn store_tmp_position(store: &mut EngineStore, position: &Position) -> (r: Result<
    (),
    StdError,
>)
    requires
        old(store).wf(),
    ensures
        final(store).wf(),
        r is Ok,
        final(store)@ == spec_stage(old(store)@, position@),
{
    store.tmp_position = Some(position.clone());
    proof {
        assert(store@ =~= spec_stage(old(store)@, position@));
    }
    Ok(())
}

/// Empties the tentative slot unconditionally; clearing an empty slot is not
/// an error.
pub fn remove_tmp_position(store: &mut EngineStore)
    requires
        old(store).wf(),
    ensures
        final(store).wf(),
        final(store)@ == spec_clear(old(store)@),
{
    store.tmp_position = None;
    proof {
        assert(store@ =~= spec_clear(old(store)@));
    }
}

/// Returns the staged position if any, else "none"; the slot keeps its value.
pub fn read_tmp_position(store: &EngineStore) -> (r: Result<Option<Position>, StdError>)
    ensures
        r is Ok,
        match spec_peek(store@) {
            Some(p) => r->Ok_0 is Some && r->Ok_0->0@ == p,
            None => r->Ok_0 is None,
        },
{
    match &store.tmp_position {
        Some(p) => Ok(Some(p.clone())),
        None => Ok(None),
    }
}

} // verus!
