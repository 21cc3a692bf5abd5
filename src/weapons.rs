//! Weapon descriptors and the latch that watches the release counters.
use vstd::prelude::*;

verus! {

/// The targeting pod, always listed first.
pub const DEFAULT_WEAPON: &'static str = "f-16c_hts_pod-4.15.44.808*1";
/// The air-to-air missile descriptor.
pub const AA_WEAPON: &'static str = "AIM-120C-4.4.7.106*1";
/// The ground ordnance descriptor.
pub const AG_WEAPON: &'static str = "Mk-82-4.5.9.31*1";
/// Rounds in a full cannon load.
pub const FULL_CANNON_LOAD: u32 = 520;

/// The latch after seeing `current`: it moves up to a count that exceeds it
/// and stays otherwise.
pub open spec fn latched(last: u8, current: u8) -> u8 {
    if last < current { current } else { last }
}

/// Whether a descriptor is listed: only while the counter has not moved
/// past the latch.
pub open spec fn descriptor_listed(last: u8, current: u8) -> bool {
    !(last < current)
}

/// One step of a release latch: the new latched count, and whether the
/// descriptor it governs is listed this tick.
pub fn latch_step(last: u8, current: u8) -> (r: (u8, bool))
    ensures
        r.0 == latched(last, current),
        r.1 == descriptor_listed(last, current),
{
    if last < current {
        (current, false)
    } else {
        (last, true)
    }
}

/// The descriptors listed for a tick, in order.
pub open spec fn weapon_list(aa_listed: bool, ag_listed: bool) -> Seq<Seq<char>> {
    let base = seq![DEFAULT_WEAPON@];
    let with_aa = if aa_listed { base.push(AA_WEAPON@) } else { base };
    if ag_listed { with_aa.push(AG_WEAPON@) } else { with_aa }
}

/// The targeting pod heads every weapon list; the air-to-air and the ground
/// descriptors each appear exactly when listed.
pub proof fn lemma_weapon_list_contents(aa_listed: bool, ag_listed: bool)
    ensures
        weapon_list(aa_listed, ag_listed)[0] == DEFAULT_WEAPON@,
        weapon_list(aa_listed, ag_listed).contains(AA_WEAPON@) <==> aa_listed,
        weapon_list(aa_listed, ag_listed).contains(AG_WEAPON@) <==> ag_listed,
{
    reveal_strlit("f-16c_hts_pod-4.15.44.808*1");
    reveal_strlit("AIM-120C-4.4.7.106*1");
    reveal_strlit("Mk-82-4.5.9.31*1");
    let list = weapon_list(aa_listed, ag_listed);
    assert(DEFAULT_WEAPON@.len() != AA_WEAPON@.len());
    assert(AG_WEAPON@.len() != AA_WEAPON@.len());
    assert(DEFAULT_WEAPON@.len() != AG_WEAPON@.len());
    if aa_listed {
        assert(list[1] == AA_WEAPON@);
    }
    if ag_listed {
        assert(list[list.len() - 1] == AG_WEAPON@);
    }
}

/// The items of `items` separated by `~`.
pub open spec fn tilde_joined(items: Seq<Seq<char>>) -> Seq<char>
    decreases items.len(),
{
    if items.len() == 0 {
        Seq::empty()
    } else if items.len() == 1 {
        items[0]
    } else {
        tilde_joined(items.drop_last()) + seq!['~'] + items.last()
    }
}

/// The weapon field: the listed descriptors joined with `~`.
pub fn weapon_text(aa_listed: bool, ag_listed: bool) -> (r: String)
    ensures
        r@ == tilde_joined(weapon_list(aa_listed, ag_listed)),
{
    proof {
        reveal_strlit("~");
    }
    let mut s = String::from_str(DEFAULT_WEAPON);
    let ghost mut listed = seq![DEFAULT_WEAPON@];
    assert(tilde_joined(listed) == s@);
    if aa_listed {
        s.append("~");
        s.append(AA_WEAPON);
        proof {
            let next = listed.push(AA_WEAPON@);
            assert(next.drop_last() =~= listed);
            assert(tilde_joined(next) =~= s@);
            listed = next;
        }
    }
    if ag_listed {
        s.append("~");
        s.append(AG_WEAPON);
        proof {
            let next = listed.push(AG_WEAPON@);
            assert(next.drop_last() =~= listed);
            assert(tilde_joined(next) =~= s@);
            listed = next;
        }
    }
    assert(listed =~= weapon_list(aa_listed, ag_listed));
    s
}

/// Cannon rounds left: the full load less the rounds fired.
pub fn cannon_shells(bullets_fired: u8) -> (r: u32)
    ensures
        r == FULL_CANNON_LOAD - bullets_fired,
{
    FULL_CANNON_LOAD - bullets_fired as u32
}

} // verus!
