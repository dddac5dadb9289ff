use vstd::prelude::*;
use crate::accounts::{key_eq, ErrorCode, GlobalStateAccount, Key};

verus! {

/// A bonus band: a lock commitment of at least `duration` seconds earns
/// `percent` (scaled so that `ACC_PRECISION` is 100%) on top of base reward.
#[derive(Clone, Copy, Debug, PartialEq, Eq, Structural)]
pub struct RewardBand {
    pub duration: u64,
    pub percent: u128,
}

/// Bands in strictly ascending order of duration.
pub open spec fn bands_ascending(bands: Seq<RewardBand>) -> bool {
    forall|i: int, j: int| 0 <= i < j < bands.len() ==> bands[i].duration < bands[j].duration
}

/// The percentage of the highest band whose duration does not exceed
/// `duration`, or 0 if there is none.
pub open spec fn bonus_for(bands: Seq<RewardBand>, duration: u64) -> u128
    decreases bands.len(),
{
    if bands.len() == 0 {
        0
    } else if bands.last().duration <= duration {
        bands.last().percent
    } else {
        bonus_for(bands.drop_last(), duration)
    }
}

/// Whether some band has exactly this duration.
pub open spec fn has_band(bands: Seq<RewardBand>, duration: u64) -> bool {
    exists|i: int| 0 <= i < bands.len() && bands[i].duration == duration
}

/// The lock-duration bonus schedule.
pub struct ExtraRewardSchedule {
    bands: Vec<RewardBand>,
}

impl View for ExtraRewardSchedule {
    type V = Seq<RewardBand>;

    closed spec fn view(&self) -> Seq<RewardBand> {
        self.bands@
    }
}

impl ExtraRewardSchedule {
    pub open spec fn wf(&self) -> bool {
        bands_ascending(self@)
    }

    /// A schedule with the single band "no lock, no bonus".
    pub fn new() -> (r: Self)
        ensures
            r.wf(),
            r@ == seq![RewardBand { duration: 0, percent: 0 }],
    {
        let mut bands: Vec<RewardBand> = Vec::new();
        bands.push(RewardBand { duration: 0, percent: 0 });
        ExtraRewardSchedule { bands }
    }

    /// Copies of the bands, in ascending order of duration.
    pub fn bands(&self) -> (r: Vec<RewardBand>)
        ensures
            r@ == self@,
    {
        self.bands.clone()
    }

    /// A schedule of the given bands, which must be in strictly ascending
    /// order of duration.
    pub fn from_bands(bands: Vec<RewardBand>) -> (r: Result<Self, ErrorCode>)
        ensures
            r is Ok <==> bands_ascending(bands@),
            r is Err ==> r == Err::<Self, ErrorCode>(ErrorCode::InvalidSEQ),
            r matches Ok(s) ==> s.wf() && s@ == bands@,
    {
        let mut i: usize = 1;
        while i < bands.len()
            invariant
                1 <= i <= bands@.len() || bands@.len() == 0,
                forall|a: int, b: int|
                    0 <= a < b < i && b < bands@.len() ==> bands@[a].duration < bands@[b].duration,
            decreases bands@.len() - i,
        {
            if bands[i - 1].duration >= bands[i].duration {
                assert(!bands_ascending(bands@)) by {
                    assert(bands@[i - 1].duration >= bands@[i as int].duration);
                }
                return Err(ErrorCode::InvalidSEQ);
            }
            i = i + 1;
        }
        Ok(ExtraRewardSchedule { bands })
    }

    /// Replaces the bands. Only the administrator named by `state` may do so,
    /// and the bands must be in strictly ascending order of duration.
    pub fn set_bands(
        &mut self,
        state: &GlobalStateAccount,
        caller: &Key,
        bands: Vec<RewardBand>,
    ) -> (r: Result<(), ErrorCode>)
        ensures
            r is Ok <==> (caller@ == state.authority@ && bands_ascending(bands@)),
            r == Err::<(), ErrorCode>(ErrorCode::Unauthorized) <==> caller@ != state.authority@,
            r == Err::<(), ErrorCode>(ErrorCode::InvalidSEQ) <==> (caller@ == state.authority@
                && !bands_ascending(bands@)),
            r is Ok ==> final(self)@ == bands@,
            r is Err ==> final(self)@ == old(self)@,
            old(self).wf() ==> final(self).wf(),
    {
        if !key_eq(caller, &state.authority) {
            return Err(ErrorCode::Unauthorized);
        }
        match Self::from_bands(bands) {
            Ok(s) => {
                *self = s;
                Ok(())
            },
            Err(e) => Err(e),
        }
    }

    /// Whether `duration` is the duration of one of the bands.
    pub fn has_band(&self, duration: u64) -> (r: bool)
        ensures
            r == has_band(self@, duration),
    {
        let mut i: usize = 0;
        while i < self.bands.len()
            invariant
                0 <= i <= self@.len(),
                forall|j: int| 0 <= j < i ==> self@[j].duration != duration,
            decreases self@.len() - i,
        {
            if self.bands[i].duration == duration {
                return true;
            }
            i = i + 1;
        }
        false
    }

    /// The bonus percentage that a lock commitment of `duration` earns: that
    /// of the highest band not above it, 0 if none qualifies.
    pub fn bonus_percentage(&self, duration: u64) -> (r: u128)
        ensures
            r == bonus_for(self@, duration),
    {
        let mut i: usize = self.bands.len();
        assert(self@.subrange(0, i as int) =~= self@);
        while i > 0
            invariant
                0 <= i <= self@.len(),
                bonus_for(self@, duration) == bonus_for(self@.subrange(0, i as int), duration),
            decreases i,
        {
            let band = self.bands[i - 1];
            proof {
                let s = self@.subrange(0, i as int);
                assert(s.drop_last() =~= self@.subrange(0, i - 1));
            }
            if band.duration <= duration {
                return band.percent;
            }
            i = i - 1;
        }
        0
    }
}

} // verus!
