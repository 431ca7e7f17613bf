//! The training sequence as a state machine over plain values.
//!
//! A trainer is idle or has requests pending. An operation on an idle trainer
//! may issue a request; the caller has the engine perform it and reports the
//! rate at which the controller ended, which completes the request and may
//! issue the next. This file states the machine and what holds of it.

use crate::frequency::{Frequency, TrainMode};
use crate::table::ProfileRecord;
use vstd::prelude::*;

verus! {

/// The configuration that is shared with the training engine.
#[derive(Debug, Copy, Clone, PartialEq, Eq)]
pub struct TrainingConfig {
    /// The SDRAM ID of the memory chip.
    pub sdram_id: u32,
    /// The rate in kHz at which the controller runs.
    pub rate_from: i32,
    /// The rate in kHz that was last asked for.
    pub rate_to: i32,
    /// The operation that was last asked for, if any.
    pub train_mode: Option<TrainMode>,
}

/// One invocation of the training engine: the configuration it is to run on.
#[derive(Debug, Copy, Clone, PartialEq, Eq)]
pub struct TrainingRequest {
    /// The SDRAM ID of the memory chip.
    pub sdram_id: u32,
    /// The rate in kHz at which the controller runs.
    pub rate_from: i32,
    /// The rate in kHz to train or to switch to.
    pub rate_to: i32,
    /// The operation to perform.
    pub train_mode: TrainMode,
}

/// The steps of the bring-up, in the order in which they are issued: full
/// training of each operating point from the lowest to the highest, then a
/// switch down to the middle one and back up to the highest.
pub open spec fn bring_up_plan() -> Seq<(TrainMode, Frequency)> {
    seq![
        (TrainMode::Train, Frequency::Freq204),
        (TrainMode::Train, Frequency::Freq800),
        (TrainMode::Train, Frequency::Freq1600),
        (TrainMode::Switch, Frequency::Freq800),
        (TrainMode::Switch, Frequency::Freq1600),
    ]
}

/// The index of the first record from `start` on whose clock-source
/// identifier is `clk_src_emc`, or 0 if there is none.
pub open spec fn first_match_from(records: Seq<ProfileRecord>, clk_src_emc: u32, start: int) -> int
    decreases records.len() - start,
{
    if start < 0 || start >= records.len() {
        0
    } else if records[start].clk_src_emc == clk_src_emc {
        start
    } else {
        first_match_from(records, clk_src_emc, start + 1)
    }
}

/// The index of the record that a reading of the clock-source register
/// selects: the first whose identifier equals it, or 0 if none does.
pub open spec fn selected_record(records: Seq<ProfileRecord>, clk_src_emc: u32) -> int {
    first_match_from(records, clk_src_emc, 0)
}

/// A trainer as the contracts see it.
pub struct TrainerState {
    /// The configuration.
    pub config: TrainingConfig,
    /// The records of the profile table.
    pub records: Seq<ProfileRecord>,
    /// How many requests of the running operation have not completed: the one
    /// that the engine is to perform now and those that follow it.
    pub pending: nat,
}

impl TrainerState {
    /// No request is pending.
    pub open spec fn idle(self) -> bool {
        self.pending == 0
    }

    /// The state is one that a trainer can be in.
    pub open spec fn wf(self) -> bool {
        &&& self.records.len() == 10
        &&& self.pending <= 5
        &&& self.pending > 0 ==> self.config.train_mode.is_some()
    }

    /// The request that the engine is to perform now.
    pub open spec fn request(self) -> TrainingRequest
        recommends
            !self.idle(),
            self.config.train_mode.is_some(),
    {
        TrainingRequest {
            sdram_id: self.config.sdram_id,
            rate_from: self.config.rate_from,
            rate_to: self.config.rate_to,
            train_mode: self.config.train_mode.unwrap(),
        }
    }

    /// The request that was issued, if the trainer is not idle.
    pub open spec fn issued(self) -> Option<TrainingRequest> {
        if self.idle() {
            None
        } else {
            Some(self.request())
        }
    }

    /// The state of a fresh trainer for the chip `sdram_id`.
    pub open spec fn fresh(sdram_id: u32, records: Seq<ProfileRecord>) -> TrainerState {
        TrainerState {
            config: TrainingConfig { sdram_id, rate_from: 0, rate_to: 0, train_mode: None },
            records,
            pending: 0,
        }
    }

    /// The state after the bring-up was started on the reading `clk_src_emc`
    /// of the clock-source register: the running rate is that of the selected
    /// record, and the first step of the plan is issued.
    pub open spec fn init(self, clk_src_emc: u32) -> TrainerState {
        TrainerState {
            config: TrainingConfig {
                sdram_id: self.config.sdram_id,
                rate_from: self.records[selected_record(self.records, clk_src_emc)].spec_rate(),
                rate_to: bring_up_plan()[0].1.spec_khz() as i32,
                train_mode: Some(bring_up_plan()[0].0),
            },
            records: self.records,
            pending: 5,
        }
    }

    /// The state after the engine performed the issued request and left the
    /// controller at `rate` kHz. Where the bring-up has steps left, the next
    /// one is issued.
    pub open spec fn complete(self, rate: i32) -> TrainerState
        recommends
            0 < self.pending <= 5,
    {
        if self.pending > 1 {
            let step = bring_up_plan()[6 - self.pending];
            TrainerState {
                config: TrainingConfig {
                    sdram_id: self.config.sdram_id,
                    rate_from: rate,
                    rate_to: step.1.spec_khz() as i32,
                    train_mode: Some(step.0),
                },
                records: self.records,
                pending: (self.pending - 1) as nat,
            }
        } else {
            TrainerState {
                config: TrainingConfig {
                    sdram_id: self.config.sdram_id,
                    rate_from: rate,
                    rate_to: self.config.rate_to,
                    train_mode: self.config.train_mode,
                },
                records: self.records,
                pending: 0,
            }
        }
    }

    /// The state after a change to `freq` was asked for: unchanged where the
    /// controller runs at that rate already, else one switch is issued.
    pub open spec fn change_frequency(self, freq: Frequency) -> TrainerState {
        if self.config.rate_from == freq.spec_khz() {
            self
        } else {
            TrainerState {
                config: TrainingConfig {
                    sdram_id: self.config.sdram_id,
                    rate_from: self.config.rate_from,
                    rate_to: freq.spec_khz() as i32,
                    train_mode: Some(TrainMode::Switch),
                },
                records: self.records,
                pending: 1,
            }
        }
    }

    /// The state after periodic training was asked for: one periodic
    /// training is issued where the controller runs at the highest operating
    /// point, else the state is unchanged.
    pub open spec fn periodic_training(self) -> TrainerState {
        if self.config.rate_from == Frequency::Freq1600.spec_khz() {
            TrainerState {
                config: TrainingConfig {
                    sdram_id: self.config.sdram_id,
                    rate_from: self.config.rate_from,
                    rate_to: self.config.rate_to,
                    train_mode: Some(TrainMode::PeriodicTrain),
                },
                records: self.records,
                pending: 1,
            }
        } else {
            self
        }
    }
}

/// The selected record is one of the table. It is the first whose
/// clock-source identifier equals the reading, and where no record's does, it
/// is record 0.
pub proof fn lemma_selected_record(records: Seq<ProfileRecord>, clk_src_emc: u32)
    ensures
        records.len() > 0 ==> 0 <= selected_record(records, clk_src_emc) < records.len(),
        forall|i: int|
            0 <= i < selected_record(records, clk_src_emc) ==> (#[trigger] records[i]).clk_src_emc
                != clk_src_emc,
        (exists|i: int| 0 <= i < records.len() && (#[trigger] records[i]).clk_src_emc == clk_src_emc)
            ==> records[selected_record(records, clk_src_emc)].clk_src_emc == clk_src_emc,
        (forall|i: int| 0 <= i < records.len() ==> (#[trigger] records[i]).clk_src_emc != clk_src_emc)
            ==> selected_record(records, clk_src_emc) == 0,
{
    lemma_first_match_from(records, clk_src_emc, 0);
}

/// What `first_match_from` finds when no record before `start` matches.
pub proof fn lemma_first_match_from(records: Seq<ProfileRecord>, clk_src_emc: u32, start: int)
    requires
        0 <= start <= records.len(),
    ensures
        ({
            let found = first_match_from(records, clk_src_emc, start);
            if exists|i: int|
                start <= i < records.len() && (#[trigger] records[i]).clk_src_emc == clk_src_emc {
                &&& start <= found < records.len()
                &&& records[found].clk_src_emc == clk_src_emc
                &&& forall|i: int|
                    start <= i < found ==> (#[trigger] records[i]).clk_src_emc != clk_src_emc
            } else {
                found == 0
            }
        }),
    decreases records.len() - start,
{
    if start < records.len() && records[start].clk_src_emc != clk_src_emc {
        lemma_first_match_from(records, clk_src_emc, start + 1);
    }
}

/// The bring-up issues exactly five requests, whatever the clock-source
/// register reads and whatever rates the engine reports: full training to
/// 204 MHz, to 800 MHz and to 1600 MHz, then a switch to 800 MHz and one to
/// 1600 MHz. Each request starts from the rate the engine reported last, the
/// first from the rate of the selected record. After the fifth the trainer
/// is idle at the rate reported last.
pub proof fn lemma_bring_up_sequence(
    state: TrainerState,
    clk_src_emc: u32,
    rate1: i32,
    rate2: i32,
    rate3: i32,
    rate4: i32,
    rate5: i32,
)
    ensures
        ({
            let id = state.config.sdram_id;
            let start = state.records[selected_record(state.records, clk_src_emc)].spec_rate();
            let s1 = state.init(clk_src_emc);
            let s2 = s1.complete(rate1);
            let s3 = s2.complete(rate2);
            let s4 = s3.complete(rate3);
            let s5 = s4.complete(rate4);
            let s6 = s5.complete(rate5);
            &&& s1.issued() == Some(
                TrainingRequest {
                    sdram_id: id,
                    rate_from: start,
                    rate_to: 204_000,
                    train_mode: TrainMode::Train,
                },
            )
            &&& s2.issued() == Some(
                TrainingRequest {
                    sdram_id: id,
                    rate_from: rate1,
                    rate_to: 800_000,
                    train_mode: TrainMode::Train,
                },
            )
            &&& s3.issued() == Some(
                TrainingRequest {
                    sdram_id: id,
                    rate_from: rate2,
                    rate_to: 1_600_000,
                    train_mode: TrainMode::Train,
                },
            )
            &&& s4.issued() == Some(
                TrainingRequest {
                    sdram_id: id,
                    rate_from: rate3,
                    rate_to: 800_000,
                    train_mode: TrainMode::Switch,
                },
            )
            &&& s5.issued() == Some(
                TrainingRequest {
                    sdram_id: id,
                    rate_from: rate4,
                    rate_to: 1_600_000,
                    train_mode: TrainMode::Switch,
                },
            )
            &&& s6.issued().is_none()
            &&& s6.config.rate_from == rate5
            &&& s6.records == state.records
        }),
{
}

/// Where no record's clock-source identifier equals the reading, the
/// bring-up starts from the rate of record 0.
pub proof fn lemma_bring_up_unmatched(state: TrainerState, clk_src_emc: u32)
    requires
        forall|i: int|
            0 <= i < state.records.len() ==> (#[trigger] state.records[i]).clk_src_emc
                != clk_src_emc,
    ensures
        state.init(clk_src_emc).config.rate_from == state.records[0].spec_rate(),
        !state.init(clk_src_emc).idle(),
{
    lemma_selected_record(state.records, clk_src_emc);
}

/// A change of frequency issues no request where the controller runs at the
/// target already, and exactly one otherwise: a switch to the target, after
/// whose completion the trainer is idle.
pub proof fn lemma_change_frequency_requests(state: TrainerState, freq: Frequency, rate: i32)
    requires
        state.idle(),
    ensures
        state.config.rate_from == freq.spec_khz() ==> state.change_frequency(freq) == state
            && state.change_frequency(freq).issued().is_none(),
        state.config.rate_from != freq.spec_khz() ==> state.change_frequency(freq).issued()
            == Some(
            TrainingRequest {
                sdram_id: state.config.sdram_id,
                rate_from: state.config.rate_from,
                rate_to: freq.spec_khz() as i32,
                train_mode: TrainMode::Switch,
            },
        ) && state.change_frequency(freq).complete(rate).issued().is_none(),
{
}

/// Periodic training issues exactly one request where the controller runs
/// at 1600 MHz, whatever the target rate holds, and none otherwise. The
/// request leaves both rates as they are.
pub proof fn lemma_periodic_training_requests(state: TrainerState, rate: i32)
    requires
        state.idle(),
    ensures
        state.config.rate_from != 1_600_000 ==> state.periodic_training() == state
            && state.periodic_training().issued().is_none(),
        state.config.rate_from == 1_600_000 ==> state.periodic_training().issued() == Some(
            TrainingRequest {
                sdram_id: state.config.sdram_id,
                rate_from: 1_600_000,
                rate_to: state.config.rate_to,
                train_mode: TrainMode::PeriodicTrain,
            },
        ) && state.periodic_training().complete(rate).issued().is_none(),
{
}

/// Two changes to the same frequency in a row issue one request in all,
/// where the controller did not run at the target before and the engine
/// leaves it at the target: the second change finds the rate reached and
/// changes nothing.
pub proof fn lemma_change_frequency_twice(state: TrainerState, freq: Frequency)
    requires
        state.idle(),
        state.config.rate_from != freq.spec_khz(),
    ensures
        ({
            let first = state.change_frequency(freq);
            let reached = first.complete(first.request().rate_to);
            let second = reached.change_frequency(freq);
            &&& first.issued().is_some()
            &&& reached.issued().is_none()
            &&& reached.config.rate_from == freq.spec_khz()
            &&& second == reached
            &&& second.issued().is_none()
        }),
{
}

} // verus!
