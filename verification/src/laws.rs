use vstd::prelude::*;

use crate::addr::Addr;
use crate::config::ConfigView;
use crate::error::StdError;
use crate::position::PositionView;
use crate::store::{
    spec_clear, spec_load_position, spec_peek, spec_read_config, spec_read_vamms, spec_stage,
    spec_store_config, spec_store_position, spec_store_vamms, StoreView,
};
use crate::vamm::{all_valid, valid_addrs};

verus! {

/// Law: reading the config after storing `c` yields exactly `c`.
pub proof fn lemma_config_round_trip(s: StoreView, c: ConfigView)
    ensures
        spec_read_config(spec_store_config(s, c)) == Some(c),
{
}

/// Law: reading the registry after storing the list `vs` yields exactly
/// `vs`, in the same order.
pub proof fn lemma_vamm_round_trip(s: StoreView, vs: Seq<Seq<char>>)
    ensures
        spec_read_vamms(spec_store_vamms(s, vs)) == Some(vs),
{
}

/// Law: after a wholesale registry update whose verdicts all accepted, an
/// address is registered iff it occurs, by exact match, among the accepted
/// addresses.
pub proof fn lemma_registered_iff(s: StoreView, input: Seq<Result<Addr, StdError>>, a: Seq<char>)
    requires
        all_valid(input),
    ensures
        spec_read_vamms(spec_store_vamms(s, valid_addrs(input))) == Some(valid_addrs(input)),
        valid_addrs(input).contains(a) <==> (exists|i: int|
            0 <= i < input.len() && (#[trigger] input[i])->Ok_0@ == a),
{
    if valid_addrs(input).contains(a) {
        let i = choose|i: int| 0 <= i < valid_addrs(input).len() && valid_addrs(input)[i] == a;
        assert(input[i]->Ok_0@ == a);
    }
    if exists|i: int| 0 <= i < input.len() && (#[trigger] input[i])->Ok_0@ == a {
        let i = choose|i: int| 0 <= i < input.len() && (#[trigger] input[i])->Ok_0@ == a;
        assert(valid_addrs(input)[i] == a);
    }
}

/// Law: loading the (vamm, trader) pair that a just-stored position itself
/// names returns exactly that position.
pub proof fn lemma_position_round_trip(s: StoreView, p: PositionView)
    ensures
        spec_load_position(spec_store_position(s, p), p.vamm, p.trader) == Some(p),
{
}

/// Law: storing a position touches only its own digest key; any pair whose
/// key differs reads exactly what it read before.  Distinctness of the keys
/// is the hypothesis: the digest is one-way, so the store itself cannot rule
/// a collision out, it only makes one cryptographically negligible.
pub proof fn lemma_store_position_frame(
    s: StoreView,
    p: PositionView,
    vamm: Seq<char>,
    trader: Seq<char>,
)
    requires
        crate::digest::spec_position_key(vamm, trader) != crate::digest::spec_position_key(
            p.vamm,
            p.trader,
        ),
    ensures
        spec_load_position(spec_store_position(s, p), vamm, trader) == spec_load_position(
            s,
            vamm,
            trader,
        ),
{
}

/// Law: loading a pair whose digest key holds nothing yields "none", never
/// an error.
pub proof fn lemma_load_absent(s: StoreView, vamm: Seq<char>, trader: Seq<char>)
    requires
        !s.positions.contains_key(crate::digest::spec_position_key(vamm, trader)),
    ensures
        spec_load_position(s, vamm, trader) is None,
{
}

/// Law: clearing an already-empty tentative slot changes nothing.
pub proof fn lemma_clear_empty(s: StoreView)
    requires
        s.tmp_position is None,
    ensures
        spec_clear(s) == s,
{
    assert(spec_clear(s) =~= s);
}

/// Law: peeking right after staging `p` yields `p`, and the slot keeps it.
pub proof fn lemma_stage_peek(s: StoreView, p: PositionView)
    ensures
        spec_peek(spec_stage(s, p)) == Some(p),
        spec_stage(s, p).tmp_position == Some(p),
{
}

/// Law: peeking right after clearing yields "none".
pub proof fn lemma_clear_peek(s: StoreView)
    ensures
        spec_peek(spec_clear(s)) is None,
{
}

} // verus!
