//! The Minerva memory trainer.

use crate::dram_profile::{profile_of, ProfileRegistry};
use crate::frequency::{Frequency, TrainMode};
use crate::state::{
    bring_up_plan, first_match_from, selected_record, TrainerState, TrainingConfig,
    TrainingRequest,
};
use crate::table::{decode_table, ProfileTable};
use vstd::prelude::*;

verus! {

/// The Minerva memory trainer for Tegra X1 SoCs.
///
/// It is responsible for training the Tegra X1 DRAM with pre-defined profiles
/// based on the SDRAM ID that can be obtained from the fuses.
///
/// Instances of it should be created over the [`MinervaTrainer::new`] method.
/// They need to be initialized with [`MinervaTrainer::init`] afterwards before
/// they can be used freely.
///
/// The trainer does not touch the hardware. Each operation hands out the
/// request that the training engine is to perform, if any. When the engine
/// has performed it, the rate at which it left the controller goes to
/// [`MinervaTrainer::complete`], which hands out the request that follows, if
/// any. No operation may start while a request is pending.
#[derive(Debug)]
pub struct MinervaTrainer<'a> {
    cfg: TrainingConfig,
    tables: ProfileTable<'a>,
    pending: u8,
}

/// Step `index` of the bring-up.
fn bring_up_step(index: u8) -> (step: (TrainMode, Frequency))
    requires
        index < 5,
    ensures
        step == bring_up_plan()[index as int],
{
    if index == 0 {
        (TrainMode::Train, Frequency::Freq204)
    } else if index == 1 {
        (TrainMode::Train, Frequency::Freq800)
    } else if index == 2 {
        (TrainMode::Train, Frequency::Freq1600)
    } else if index == 3 {
        (TrainMode::Switch, Frequency::Freq800)
    } else {
        (TrainMode::Switch, Frequency::Freq1600)
    }
}

/// The index of the first record whose clock-source identifier equals
/// `clk_src_emc`, or 0 if there is none.
fn select_record(table: &ProfileTable<'_>, clk_src_emc: u32) -> (index: usize)
    requires
        table.wf(),
    ensures
        index == selected_record(table@, clk_src_emc),
        index < 10,
{
    let mut index: usize = 0;
    while index < 10
        invariant
            table.wf(),
            index <= 10,
            selected_record(table@, clk_src_emc) == first_match_from(
                table@,
                clk_src_emc,
                index as int,
            ),
        decreases 10 - index,
    {
        if table.record(index).clk_src_emc == clk_src_emc {
            return index;
        }
        index = index + 1;
    }
    0
}

impl<'a> MinervaTrainer<'a> {
    /// The trainer as the contracts see it.
    pub closed spec fn view(self) -> TrainerState {
        TrainerState {
            config: self.cfg,
            records: self.tables@,
            pending: self.pending as nat,
        }
    }

    /// The profile table of the trainer.
    pub closed spec fn spec_table(self) -> ProfileTable<'a> {
        self.tables
    }

    /// The table is well formed, the trainer reads its records, and its
    /// state is one that a trainer can be in.
    pub open spec fn wf(self) -> bool {
        &&& self.spec_table().wf()
        &&& self@.records == self.spec_table()@
        &&& self@.wf()
    }

    /// Creates a new DRAM trainer that will use the table that selects the
    /// correct DRAM profile based on the supplied SDRAM ID.
    ///
    /// Returns `None` if the SDRAM ID is invalid. The new trainer is idle,
    /// with both rates zero and no operation asked for.
    pub fn new(sdram_id: u32, registry: &ProfileRegistry<'a>) -> (trainer: Option<Self>)
        requires
            registry.wf(),
        ensures
            match profile_of(sdram_id) {
                Some(profile) => {
                    &&& trainer.is_some()
                    &&& trainer.unwrap().wf()
                    &&& trainer.unwrap().spec_table().spec_blob() == registry.spec_blob(profile)
                    &&& trainer.unwrap().spec_table().spec_layout() == registry.spec_layout()
                    &&& trainer.unwrap()@ == TrainerState::fresh(
                        sdram_id,
                        decode_table(registry.spec_blob(profile), registry.spec_layout()),
                    )
                },
                None => trainer.is_none(),
            },
    {
        let tables = registry.resolve(sdram_id)?;
        let cfg = TrainingConfig { sdram_id, rate_from: 0, rate_to: 0, train_mode: None };
        Some(MinervaTrainer { cfg, tables, pending: 0 })
    }

    /// Asks for `mode` with the target `rate_to`, as the first of `pending`
    /// requests, and hands out the request.
    fn issue(&mut self, mode: TrainMode, rate_to: i32, pending: u8) -> (request: TrainingRequest)
        requires
            old(self).wf(),
            0 < pending <= 5,
        ensures
            final(self).wf(),
            final(self)@ == (TrainerState {
                config: TrainingConfig {
                    sdram_id: old(self)@.config.sdram_id,
                    rate_from: old(self)@.config.rate_from,
                    rate_to,
                    train_mode: Some(mode),
                },
                records: old(self)@.records,
                pending: pending as nat,
            }),
            final(self).spec_table() == old(self).spec_table(),
            request == final(self)@.request(),
    {
        self.cfg.rate_to = rate_to;
        self.cfg.train_mode = Some(mode);
        self.pending = pending;
        TrainingRequest {
            sdram_id: self.cfg.sdram_id,
            rate_from: self.cfg.rate_from,
            rate_to,
            train_mode: mode,
        }
    }

    /// Initializes this DRAM trainer.
    ///
    /// This method **has** to be called in advance before any DRAM training
    /// can be done. `clk_src_emc` is a fresh reading of the clock-source
    /// register of the memory controller. The running rate becomes that of
    /// the first record with this clock source, or of record 0 where there is
    /// none, and the first of the five requests of the bring-up is handed
    /// out.
    pub fn init(&mut self, clk_src_emc: u32) -> (request: TrainingRequest)
        requires
            old(self).wf(),
            old(self)@.idle(),
        ensures
            final(self).wf(),
            final(self).spec_table() == old(self).spec_table(),
            final(self)@ == old(self)@.init(clk_src_emc),
            request == final(self)@.request(),
    {
        let ram_index = select_record(&self.tables, clk_src_emc);
        self.cfg.rate_from = self.tables.record(ram_index).rate();
        let (mode, freq) = bring_up_step(0);
        self.issue(mode, freq.khz(), 5)
    }

    /// Takes note that the engine has performed the pending request and left
    /// the controller at `rate` kHz. Hands out the next request of the
    /// bring-up where one is left; else the trainer is idle again.
    pub fn complete(&mut self, rate: i32) -> (next: Option<TrainingRequest>)
        requires
            old(self).wf(),
            !old(self)@.idle(),
        ensures
            final(self).wf(),
            final(self).spec_table() == old(self).spec_table(),
            final(self)@ == old(self)@.complete(rate),
            next == final(self)@.issued(),
    {
        self.cfg.rate_from = rate;
        let left: u8 = self.pending - 1;
        if left > 0 {
            let (mode, freq) = bring_up_step(5 - left);
            Some(self.issue(mode, freq.khz(), left))
        } else {
            self.pending = 0;
            None
        }
    }

    /// Changes the DRAM frequency of this DRAM trainer.
    ///
    /// Hands out nothing and changes nothing where the controller runs at
    /// `freq` already; else hands out one switch to `freq`.
    pub fn change_frequency(&mut self, freq: Frequency) -> (request: Option<TrainingRequest>)
        requires
            old(self).wf(),
            old(self)@.idle(),
        ensures
            final(self).wf(),
            final(self).spec_table() == old(self).spec_table(),
            final(self)@ == old(self)@.change_frequency(freq),
            request == final(self)@.issued(),
            request.is_none() <==> old(self)@.config.rate_from == freq.spec_khz(),
    {
        let freq = freq.khz();

        if self.cfg.rate_from != freq {
            Some(self.issue(TrainMode::Switch, freq, 1))
        } else {
            None
        }
    }

    /// Performs periodic memory training compensation on the DRAM with the
    /// profile selected by this DRAM trainer.
    ///
    /// Hands out one periodic training where the controller runs at 1600
    /// MHz, with the target rate as it was; else hands out nothing and
    /// changes nothing.
    pub fn periodic_training(&mut self) -> (request: Option<TrainingRequest>)
        requires
            old(self).wf(),
            old(self)@.idle(),
        ensures
            final(self).wf(),
            final(self).spec_table() == old(self).spec_table(),
            final(self)@ == old(self)@.periodic_training(),
            request == final(self)@.issued(),
            request.is_some() <==> old(self)@.config.rate_from == Frequency::Freq1600.spec_khz(),
    {
        if self.cfg.rate_from == Frequency::Freq1600.khz() {
            let rate_to = self.cfg.rate_to;
            Some(self.issue(TrainMode::PeriodicTrain, rate_to, 1))
        } else {
            None
        }
    }

    /// The configuration as it stands.
    pub fn config(&self) -> (config: TrainingConfig)
        ensures
            config == self@.config,
    {
        self.cfg
    }

    /// The profile table that the engine trains with.
    pub fn table(&self) -> (table: ProfileTable<'a>)
        ensures
            table == self.spec_table(),
    {
        self.tables
    }

    /// Whether no request is pending.
    pub fn is_idle(&self) -> (idle: bool)
        ensures
            idle == self@.idle(),
    {
        self.pending == 0
    }
}

} // verus!
