//! Sound playback bookkeeping: which clip is playing, ended, or finished.
//! The audio device itself is outside the library; callers pause the devices
//! whose identifiers `pause_any_finished_sounds` hands back.
use vstd::prelude::*;

verus! {

#[derive(Clone, Copy, PartialEq, Eq, Structural, Debug)]
pub enum Playing {
    Playing,
    Ended,
    Finished,
}

/// The playback state of each loaded clip, keyed by clip identifier.
pub struct SoundState {
    pub entries: Vec<(u64, Playing)>,
}

/// The playback state recorded for a clip, if any.
pub open spec fn spec_sound_of(s: Seq<(u64, Playing)>, id: u64) -> Option<Playing>
    decreases s.len(),
{
    if s.len() == 0 {
        Option::None
    } else if s.last().0 == id {
        Option::Some(s.last().1)
    } else {
        spec_sound_of(s.drop_last(), id)
    }
}

/// A clip with a recorded state has an entry carrying that state.
pub proof fn lemma_sound_of_has_entry(s: Seq<(u64, Playing)>, id: u64, v: Playing)
    requires
        spec_sound_of(s, id) == Option::Some(v),
    ensures
        exists|k: int| 0 <= k < s.len() && (#[trigger] s[k]).0 == id && s[k].1 == v,
    decreases s.len(),
{
    if s.len() > 0 {
        if s.last().0 == id {
            assert(s[s.len() - 1].0 == id && s[s.len() - 1].1 == v);
        } else {
            lemma_sound_of_has_entry(s.drop_last(), id, v);
            let k = choose|k: int|
                0 <= k < s.drop_last().len() && (#[trigger] s.drop_last()[k]).0 == id
                    && s.drop_last()[k].1 == v;
            assert(s[k].0 == id && s[k].1 == v);
        }
    }
}

fn set_sound(state: &mut SoundState, id: u64, v: Playing)
    ensures
        spec_sound_of(final(state).entries@, id) == Option::Some(v),
        forall|o: u64|
            o != id ==> #[trigger] spec_sound_of(final(state).entries@, o) == spec_sound_of(
                old(state).entries@,
                o,
            ),
{
    state.entries.push((id, v));
    proof {
        assert(state.entries@.drop_last() == old(state).entries@);
    }
}

/// Marks a clip as playing; the caller resumes its device.
pub fn play(state: &mut SoundState, id: u64)
    ensures
        spec_sound_of(final(state).entries@, id) == Option::Some(Playing::Playing),
        forall|o: u64|
            o != id ==> #[trigger] spec_sound_of(final(state).entries@, o) == spec_sound_of(
                old(state).entries@,
                o,
            ),
{
    set_sound(state, id, Playing::Playing);
}

/// Marks a clip as finished; the caller pauses its device.
pub fn stop(state: &mut SoundState, id: u64)
    ensures
        spec_sound_of(final(state).entries@, id) == Option::Some(Playing::Finished),
        forall|o: u64|
            o != id ==> #[trigger] spec_sound_of(final(state).entries@, o) == spec_sound_of(
                old(state).entries@,
                o,
            ),
{
    set_sound(state, id, Playing::Finished);
}

/// Moves every clip recorded as ended — and no other — to the finished
/// state, and returns exactly those identifiers, whose devices the caller
/// must pause; every other clip keeps its recorded state.
pub fn pause_any_finished_sounds(state: &mut SoundState) -> (r: Vec<u64>)
    ensures
        forall|i: int|
            0 <= i < r@.len() ==> spec_sound_of(old(state).entries@, #[trigger] r@[i])
                == Option::Some(Playing::Ended),
        forall|i: int|
            0 <= i < r@.len() ==> spec_sound_of(final(state).entries@, #[trigger] r@[i])
                == Option::Some(Playing::Finished),
        forall|id: u64|
            spec_sound_of(old(state).entries@, id) == Option::Some(Playing::Ended)
                ==> #[trigger] r@.contains(id),
        forall|id: u64|
            !r@.contains(id) ==> #[trigger] spec_sound_of(final(state).entries@, id)
                == spec_sound_of(old(state).entries@, id),
{
    let mut ended: Vec<u64> = Vec::new();
    let mut i: usize = 0;
    let n = state.entries.len();
    while i < n
        invariant
            n == state.entries@.len(),
            state.entries@ == old(state).entries@,
            i <= n,
            forall|k: int|
                0 <= k < ended@.len() ==> spec_sound_of(state.entries@, #[trigger] ended@[k])
                    == Option::Some(Playing::Ended),
            forall|id: u64|
                (exists|k: int|
                    0 <= k < i && (#[trigger] state.entries@[k]).0 == id && state.entries@[k].1
                        is Ended) && spec_sound_of(state.entries@, id) == Option::Some(
                    Playing::Ended,
                ) ==> #[trigger] ended@.contains(id),
        decreases n - i,
    {
        let ghost snap = ended@;
        let (id, st) = state.entries[i];
        let is_ended = match st {
            Playing::Ended => true,
            _ => false,
        };
        if is_ended {
            let already = sound_of(state, id);
            let still_ended = match already {
                Option::Some(Playing::Ended) => true,
                _ => false,
            };
            if still_ended {
                ended.push(id);
                proof {
                    assert(ended@.last() == id);
                    assert(forall|k: int| 0 <= k < snap.len() ==> #[trigger] ended@[k] == snap[k]);
                    assert forall|o: u64| snap.contains(o) implies #[trigger] ended@.contains(
                        o,
                    ) by {
                        let k = choose|k: int| 0 <= k < snap.len() && snap[k] == o;
                        assert(ended@[k] == o);
                    }
                    assert(ended@.contains(id));
                }
            }
        }
        proof {
            assert forall|o: u64|
                (exists|k: int|
                    0 <= k <= i && (#[trigger] state.entries@[k]).0 == o && state.entries@[k].1
                        is Ended) && spec_sound_of(state.entries@, o) == Option::Some(
                    Playing::Ended,
                ) implies #[trigger] ended@.contains(o) by {
                let k = choose|k: int|
                    0 <= k <= i && (#[trigger] state.entries@[k]).0 == o && state.entries@[k].1
                        is Ended;
                if k == i {
                    assert(o == id && is_ended);
                } else {
                    assert(0 <= k < i && state.entries@[k].0 == o && state.entries@[k].1
                        is Ended);
                }
            }
        }
        i = i + 1;
    }
    proof {
        assert forall|id: u64|
            spec_sound_of(old(state).entries@, id) == Option::Some(
                Playing::Ended,
            ) implies #[trigger] ended@.contains(id) by {
            lemma_sound_of_has_entry(old(state).entries@, id, Playing::Ended);
        }
    }
    let mut j: usize = 0;
    let ghost start = state.entries@;
    while j < ended.len()
        invariant
            start == old(state).entries@,
            forall|k: int|
                0 <= k < ended@.len() ==> spec_sound_of(start, #[trigger] ended@[k])
                    == Option::Some(Playing::Ended),
            forall|k: int|
                0 <= k < j ==> spec_sound_of(state.entries@, #[trigger] ended@[k])
                    == Option::Some(Playing::Finished),
            forall|k: int|
                j <= k < ended@.len() ==> (spec_sound_of(state.entries@, #[trigger] ended@[k])
                    == spec_sound_of(start, ended@[k]) || spec_sound_of(
                    state.entries@,
                    ended@[k],
                ) == Option::Some(Playing::Finished)),
            forall|id: u64|
                !ended@.contains(id) ==> #[trigger] spec_sound_of(state.entries@, id)
                    == spec_sound_of(start, id),
        decreases ended@.len() - j,
    {
        let id = ended[j];
        proof {
            assert(ended@.contains(ended@[j as int]));
        }
        set_sound(state, id, Playing::Finished);
        j = j + 1;
    }
    ended
}

/// The recorded playback state of a clip.
pub fn sound_of(state: &SoundState, id: u64) -> (r: Option<Playing>)
    ensures
        r == spec_sound_of(state.entries@, id),
{
    proof {
        assert(state.entries@.subrange(0, state.entries@.len() as int) =~= state.entries@);
    }
    let mut i = state.entries.len();
    while i > 0
        invariant
            i <= state.entries@.len(),
            spec_sound_of(state.entries@, id) == spec_sound_of(
                state.entries@.subrange(0, i as int),
                id,
            ),
        decreases i,
    {
        proof {
            assert(state.entries@.subrange(0, i as int).drop_last() == state.entries@.subrange(
                0,
                i - 1,
            ));
        }
        let (k, v) = state.entries[i - 1];
        if k == id {
            return Some(v);
        }
        i = i - 1;
    }
    proof {
        assert(state.entries@.subrange(0, 0) =~= Seq::<(u64, Playing)>::empty());
    }
    None
}

} // verus!
