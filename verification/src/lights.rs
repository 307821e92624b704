//! Which point lights reach the GPU and which of them animate.
//!
//! The light uniform has room for one directional light and at most four
//! point lights. The settings may list lights that are switched off; the
//! first four enabled ones, in list order, fill the uniform's slots.
use vstd::prelude::*;

verus! {

/// Number of point-light slots of the light uniform.
pub const MAX_POINT_LIGHTS: usize = 4;

/// The indices of the lights that fill the uniform's slots, given which
/// lights are enabled: walking the list in order, an enabled light takes the
/// next free slot while one is left.
pub open spec fn point_light_slots(enabled: Seq<bool>) -> Seq<usize>
    decreases enabled.len(),
{
    if enabled.len() == 0 {
        Seq::empty()
    } else {
        let before = point_light_slots(enabled.drop_last());
        if enabled.last() && before.len() < MAX_POINT_LIGHTS {
            before.push((enabled.len() - 1) as usize)
        } else {
            before
        }
    }
}

/// The indices of the lights that fill the uniform's point-light slots, in
/// slot order.
pub fn active_point_lights(enabled: &Vec<bool>) -> (res: Vec<usize>)
    ensures
        res@ == point_light_slots(enabled@),
{
    let mut slots: Vec<usize> = Vec::new();
    let mut i: usize = 0;
    while i < enabled.len()
        invariant
            i <= enabled@.len(),
            slots@ == point_light_slots(enabled@.take(i as int)),
        decreases enabled@.len() - i,
    {
        proof {
            assert(enabled@.take(i + 1).drop_last() =~= enabled@.take(i as int));
        }
        if enabled[i] && slots.len() < MAX_POINT_LIGHTS {
            slots.push(i);
        }
        i = i + 1;
    }
    proof {
        assert(enabled@.take(i as int) =~= enabled@);
    }
    slots
}

/// Number of enabled lights among the first `n`.
pub open spec fn enabled_count(enabled: Seq<bool>) -> nat
    decreases enabled.len(),
{
    if enabled.len() == 0 {
        0
    } else {
        enabled_count(enabled.drop_last()) + if enabled.last() {
            1nat
        } else {
            0nat
        }
    }
}

/// The slots hold at most four lights, each an enabled one, in increasing
/// list order without repetition; fewer than four are filled only when every
/// enabled light has a slot, so there are exactly
/// `min(4, number of enabled lights)` of them.
pub proof fn lemma_point_light_slots(enabled: Seq<bool>)
    requires
        enabled.len() <= usize::MAX,
    ensures
        point_light_slots(enabled).len() <= MAX_POINT_LIGHTS,
        point_light_slots(enabled).len() == if enabled_count(enabled) < MAX_POINT_LIGHTS {
            enabled_count(enabled)
        } else {
            MAX_POINT_LIGHTS as nat
        },
        forall|k: int|
            0 <= k < point_light_slots(enabled).len() ==> {
                let idx = #[trigger] point_light_slots(enabled)[k];
                idx < enabled.len() && enabled[idx as int]
            },
        forall|a: int, b: int|
            0 <= a < b < point_light_slots(enabled).len() ==> #[trigger] point_light_slots(enabled)[a]
                < #[trigger] point_light_slots(enabled)[b],
        point_light_slots(enabled).len() < MAX_POINT_LIGHTS ==> forall|i: int|
            0 <= i < enabled.len() && enabled[i] ==> point_light_slots(enabled).contains(
                i as usize,
            ),
    decreases enabled.len(),
{
    if enabled.len() > 0 {
        let prev = enabled.drop_last();
        lemma_point_light_slots(prev);
        let before = point_light_slots(prev);
        let cur = point_light_slots(enabled);
        let last = (enabled.len() - 1) as usize;
        assert(last as int == enabled.len() - 1);
        if enabled.last() && before.len() < MAX_POINT_LIGHTS {
            assert(cur == before.push(last));
        } else {
            assert(cur == before);
        }
        assert forall|k: int| 0 <= k < cur.len() implies {
            let idx = #[trigger] cur[k];
            idx < enabled.len() && enabled[idx as int]
        } by {
            if k < before.len() {
                assert(cur[k] == before[k]);
                assert(prev[before[k] as int] == enabled[before[k] as int]);
            }
        }
        assert forall|a: int, b: int| 0 <= a < b < cur.len() implies #[trigger] cur[a]
            < #[trigger] cur[b] by {
            if b < before.len() {
                assert(cur[a] == before[a] && cur[b] == before[b]);
            } else {
                assert(cur[a] == before[a]);
                assert(before[a] < prev.len());
            }
        }
        if cur.len() < MAX_POINT_LIGHTS {
            assert forall|i: int| 0 <= i < enabled.len() && enabled[i] implies cur.contains(
                i as usize,
            ) by {
                if i < prev.len() {
                    assert(prev[i] == enabled[i]);
                    assert(before.contains(i as usize));
                    let k = choose|k: int| 0 <= k < before.len() && before[k] == i as usize;
                    assert(cur[k] == i as usize);
                } else {
                    assert(cur[cur.len() - 1] == i as usize);
                }
            }
        }
    }
}

/// How an animated light moves.
#[derive(Debug, Clone, Copy, PartialEq, Eq, Structural)]
pub enum LightAnimation {
    /// First light: orbits the origin at radius 4, height 2.5.
    CyanOrbit,
    /// Second light: orbits the other way at radius 3.5, height 1.5.
    MagentaOrbit,
    /// Third light: bobs above the centre and pulses in intensity.
    GoldPulse,
}

/// The animation of the light at `index`: only enabled, animated lights
/// among the first three move.
pub open spec fn light_animation_of(index: usize, animated: bool, enabled: bool) -> Option<
    LightAnimation,
> {
    if !animated || !enabled {
        None
    } else if index == 0 {
        Some(LightAnimation::CyanOrbit)
    } else if index == 1 {
        Some(LightAnimation::MagentaOrbit)
    } else if index == 2 {
        Some(LightAnimation::GoldPulse)
    } else {
        None
    }
}

impl LightAnimation {
    /// The animation of the light at `index` in the settings list.
    pub fn for_light(index: usize, animated: bool, enabled: bool) -> (res: Option<LightAnimation>)
        ensures
            res == light_animation_of(index, animated, enabled),
    {
        if !animated || !enabled {
            return None;
        }
        match index {
            0 => Some(LightAnimation::CyanOrbit),
            1 => Some(LightAnimation::MagentaOrbit),
            2 => Some(LightAnimation::GoldPulse),
            _ => None,
        }
    }
}

/// Whether another point light may be added to a list of `count` lights.
pub fn can_add_point_light(count: usize) -> (res: bool)
    ensures
        res == (count < MAX_POINT_LIGHTS),
{
    count < MAX_POINT_LIGHTS
}

} // verus!
