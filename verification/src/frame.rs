//! The per-frame update of the two fields the host computes.

use vstd::prelude::*;
use crate::registry::SettingsRegistry;
use crate::settings::RainGlareSettings;

verus! {

/// Bit pattern of positive infinity. The patterns from 0 up to this one are
/// the numbers from zero upward, in the same order.
pub const POSITIVE_INFINITY: u32 = 0x7F80_0000;

/// Whether `bits` is a reading of a clock that counts seconds from zero: not
/// negative and not NaN.
pub open spec fn is_clock_reading(bits: u32) -> bool {
    bits <= POSITIVE_INFINITY
}

/// What the update is told of one camera this frame.
#[derive(Clone, Copy, Debug, PartialEq, Eq, Structural)]
pub struct CameraView {
    pub id: u64,
    /// How far the camera's forward direction faces the horizon, computed
    /// from its world transform.
    pub view_angle_factor: u32,
}

/// The view angle factor of camera `id` this frame, if it was seen; where a
/// camera is listed more than once, the last listing counts.
pub open spec fn angle_for(cameras: Seq<CameraView>, id: u64) -> Option<u32>
    decreases cameras.len(),
{
    if cameras.len() == 0 {
        None
    } else if cameras.last().id == id {
        Some(cameras.last().view_angle_factor)
    } else {
        angle_for(cameras.drop_last(), id)
    }
}

/// A record after a frame in which its camera had the view angle factor
/// `angle`, or was not seen.
pub open spec fn updated(s: RainGlareSettings, elapsed: u32, angle: Option<u32>) -> RainGlareSettings {
    match angle {
        Some(a) => s.advanced(elapsed, a),
        None => s,
    }
}

/// Whether `after` is what the frame update makes of `before`: the same
/// cameras, and every record updated with what was seen of its camera.
pub open spec fn is_frame_update(
    before: &SettingsRegistry,
    after: &SettingsRegistry,
    elapsed: u32,
    cameras: Seq<CameraView>,
) -> bool {
    &&& after.ids() == before.ids()
    &&& after.records().len() == before.records().len()
    &&& forall|i: int|
        0 <= i < before.ids().len() ==> #[trigger] after.records()[i] == updated(
            before.records()[i],
            elapsed,
            angle_for(cameras, before.ids()[i]),
        )
}

/// Writes this frame's clock reading and view angle factor into the record
/// of every camera in `cameras`. Cameras without a record are passed over,
/// and records whose camera is not listed stay as they are.
pub fn advance_rain_time(registry: &mut SettingsRegistry, elapsed: u32, cameras: &Vec<CameraView>)
    requires
        old(registry).wf(),
    ensures
        final(registry).wf(),
        is_frame_update(old(registry), final(registry), elapsed, cameras@),
        forall|id: u64|
            #![trigger final(registry).spec_get(id)]
            final(registry).spec_get(id) == match old(registry).spec_get(id) {
                Some(s) => Some(updated(s, elapsed, angle_for(cameras@, id))),
                None => None,
            },
{
    let ghost before = *registry;
    let mut j: usize = 0;
    while j < cameras.len()
        invariant
            j <= cameras@.len(),
            before.wf(),
            registry.wf(),
            registry.ids() == before.ids(),
            forall|i: int|
                0 <= i < before.ids().len() ==> #[trigger] registry.records()[i] == updated(
                    before.records()[i],
                    elapsed,
                    angle_for(cameras@.take(j as int), before.ids()[i]),
                ),
        decreases cameras@.len() - j,
    {
        let camera = cameras[j];
        let ghost seen = cameras@.take(j as int);
        let ghost now = cameras@.take(j + 1);
        proof {
            assert(now.drop_last() =~= seen);
            assert(now.last() == camera);
        }
        let ghost mid = *registry;
        match registry.position(camera.id) {
            Some(p) => {
                let (_, current) = registry.entry(p);
                let mut next = current;
                next.advance(elapsed, camera.view_angle_factor);
                registry.set_at(p, next);
                proof {
                    assert forall|i: int| 0 <= i < before.ids().len() implies
                        #[trigger] registry.records()[i] == updated(
                        before.records()[i],
                        elapsed,
                        angle_for(now, before.ids()[i]),
                    ) by {
                        assert(mid.records()[i] == updated(
                            before.records()[i],
                            elapsed,
                            angle_for(seen, before.ids()[i]),
                        ));
                    }
                }
            },
            None => {
                proof {
                    assert forall|i: int| 0 <= i < before.ids().len() implies
                        #[trigger] registry.records()[i] == updated(
                        before.records()[i],
                        elapsed,
                        angle_for(now, before.ids()[i]),
                    ) by {
                        assert(before.ids().contains(before.ids()[i]));
                    }
                }
            },
        }
        j += 1;
    }
    proof {
        assert(cameras@.take(cameras@.len() as int) =~= cameras@);
        assert forall|id: u64| #![trigger registry.spec_get(id)]
            registry.spec_get(id) == match before.spec_get(id) {
                Some(s) => Some(updated(s, elapsed, angle_for(cameras@, id))),
                None => None,
            } by {
            if before.ids().contains(id) {
                let i = before.ids().index_of(id);
                assert(before.ids()[i] == id);
                assert(registry.records()[i] == updated(
                    before.records()[i],
                    elapsed,
                    angle_for(cameras@, before.ids()[i]),
                ));
            }
        }
    }
}

/// For one camera seen in two frames, one after the other, by a clock that
/// does not run backwards: `time` after the second frame is not before
/// `time` after the first.
pub proof fn lemma_time_never_decreases(
    s: RainGlareSettings,
    id: u64,
    first: u32,
    first_cameras: Seq<CameraView>,
    second: u32,
    second_cameras: Seq<CameraView>,
)
    requires
        is_clock_reading(first),
        is_clock_reading(second),
        first <= second,
        angle_for(first_cameras, id) is Some,
        angle_for(second_cameras, id) is Some,
    ensures
        ({
            let after_first = updated(s, first, angle_for(first_cameras, id));
            let after_second = updated(after_first, second, angle_for(second_cameras, id));
            &&& after_first.time == first
            &&& after_second.time == second
            &&& is_clock_reading(after_first.time)
            &&& is_clock_reading(after_second.time)
            &&& after_first.time <= after_second.time
        }),
{
}

} // verus!
