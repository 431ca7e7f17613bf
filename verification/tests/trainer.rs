use minerva_rs::dram_profile::{
    ProfileRegistry, DRAM_4GB_HYNIX_H9HCNNNBPUMLHR_NLN, DRAM_4GB_SAMSUNG_K4F6E304HB_MGCH,
    PROFILE_BLOB_LEN,
};
use minerva_rs::table::RecordLayout;
use minerva_rs::{Frequency, MinervaTrainer, TrainMode, TrainingConfig, TrainingRequest};

const LAYOUT: RecordLayout = RecordLayout { rate_khz_offset: 64, clk_src_emc_offset: 108 };

/// A blob whose record `i` has the clock source `clks[i]` and the rate `rates[i]`.
fn blob_of(clks: [u32; 10], rates: [u32; 10]) -> Vec<u8> {
    let mut blob = vec![0u8; PROFILE_BLOB_LEN];
    let size = PROFILE_BLOB_LEN / 10;
    for i in 0..10 {
        blob[i * size + 64..i * size + 68].copy_from_slice(&rates[i].to_le_bytes());
        blob[i * size + 108..i * size + 112].copy_from_slice(&clks[i].to_le_bytes());
    }
    blob
}

const CLKS: [u32; 10] = [0x11, 0x22, 0x33, 0x44, 0x55, 0x66, 0x77, 0x88, 0x99, 0xaa];
const RATES: [u32; 10] = [
    40_800, 68_000, 102_000, 204_000, 408_000, 665_600, 800_000, 1_065_600, 1_331_200, 1_600_000,
];

fn sdram0() -> Vec<u8> {
    blob_of(CLKS, RATES)
}

fn sdram1() -> Vec<u8> {
    let mut rates = RATES;
    rates[0] = 20_400;
    blob_of(CLKS, rates)
}

fn request(sdram_id: u32, rate_from: i32, rate_to: i32, train_mode: TrainMode) -> TrainingRequest {
    TrainingRequest { sdram_id, rate_from, rate_to, train_mode }
}

/// An engine that performs every request and leaves the controller at the
/// target, but for periodic training, which leaves the rate as it is.
fn engine(request: &TrainingRequest) -> i32 {
    match request.train_mode {
        TrainMode::PeriodicTrain => request.rate_from,
        _ => request.rate_to,
    }
}

/// Runs the bring-up to its end and returns the requests in their order.
fn bring_up(trainer: &mut MinervaTrainer<'_>, clk_src_emc: u32) -> Vec<TrainingRequest> {
    let mut log = Vec::new();
    let mut next = Some(trainer.init(clk_src_emc));
    while let Some(request) = next {
        log.push(request);
        next = trainer.complete(engine(&request));
    }
    log
}

#[test]
fn new_trainer_is_idle_and_zeroed() {
    let (b0, b1) = (sdram0(), sdram1());
    let registry = ProfileRegistry::new(&b0, &b1, &b0, &b0, &b0, LAYOUT).unwrap();
    for id in 0..5u32 {
        let trainer = MinervaTrainer::new(id, &registry).unwrap();
        assert!(trainer.is_idle());
        assert_eq!(
            trainer.config(),
            TrainingConfig { sdram_id: id, rate_from: 0, rate_to: 0, train_mode: None }
        );
        let blob = if id == 1 { &b1 } else { &b0 };
        assert_eq!(trainer.table().blob(), &blob[..]);
    }
}

#[test]
fn new_fails_for_unsupported_chip() {
    let b0 = sdram0();
    let registry = ProfileRegistry::new(&b0, &b0, &b0, &b0, &b0, LAYOUT).unwrap();
    assert!(MinervaTrainer::new(99, &registry).is_none());
    assert!(MinervaTrainer::new(5, &registry).is_none());
    assert!(MinervaTrainer::new(6, &registry).is_none());
    assert!(MinervaTrainer::new(u32::MAX, &registry).is_none());
}

#[test]
fn init_issues_the_five_steps_in_order() {
    let b0 = sdram0();
    let registry = ProfileRegistry::new(&b0, &b0, &b0, &b0, &b0, LAYOUT).unwrap();
    let mut trainer = MinervaTrainer::new(2, &registry).unwrap();
    let log = bring_up(&mut trainer, 0x55);
    assert_eq!(
        log,
        vec![
            request(2, 408_000, 204_000, TrainMode::Train),
            request(2, 204_000, 800_000, TrainMode::Train),
            request(2, 800_000, 1_600_000, TrainMode::Train),
            request(2, 1_600_000, 800_000, TrainMode::Switch),
            request(2, 800_000, 1_600_000, TrainMode::Switch),
        ]
    );
    assert!(trainer.is_idle());
    assert_eq!(
        trainer.config(),
        TrainingConfig {
            sdram_id: 2,
            rate_from: 1_600_000,
            rate_to: 1_600_000,
            train_mode: Some(TrainMode::Switch),
        }
    );
}

#[test]
fn init_order_does_not_depend_on_what_the_engine_reports() {
    let b0 = sdram0();
    let registry = ProfileRegistry::new(&b0, &b0, &b0, &b0, &b0, LAYOUT).unwrap();
    let mut trainer = MinervaTrainer::new(0, &registry).unwrap();
    let first = trainer.init(0xaa);
    assert_eq!(first, request(0, 1_600_000, 204_000, TrainMode::Train));
    assert!(!trainer.is_idle());
    assert_eq!(trainer.complete(-1), Some(request(0, -1, 800_000, TrainMode::Train)));
    assert_eq!(trainer.complete(0), Some(request(0, 0, 1_600_000, TrainMode::Train)));
    assert_eq!(
        trainer.complete(i32::MAX),
        Some(request(0, i32::MAX, 800_000, TrainMode::Switch))
    );
    assert_eq!(
        trainer.complete(i32::MIN),
        Some(request(0, i32::MIN, 1_600_000, TrainMode::Switch))
    );
    assert!(!trainer.is_idle());
    assert_eq!(trainer.complete(7), None);
    assert!(trainer.is_idle());
    assert_eq!(trainer.config().rate_from, 7);
}

#[test]
fn init_starts_from_the_matching_record() {
    let b0 = sdram0();
    let registry = ProfileRegistry::new(&b0, &b0, &b0, &b0, &b0, LAYOUT).unwrap();
    for i in 0..10 {
        let mut trainer = MinervaTrainer::new(0, &registry).unwrap();
        let first = trainer.init(CLKS[i]);
        assert_eq!(first, request(0, RATES[i] as i32, 204_000, TrainMode::Train));
    }
}

#[test]
fn init_takes_the_first_of_several_matches() {
    let mut clks = CLKS;
    clks[3] = 0x77;
    clks[8] = 0x77;
    let blob = blob_of(clks, RATES);
    let registry = ProfileRegistry::new(&blob, &blob, &blob, &blob, &blob, LAYOUT).unwrap();
    let mut trainer = MinervaTrainer::new(4, &registry).unwrap();
    assert_eq!(trainer.init(0x77), request(4, 204_000, 204_000, TrainMode::Train));
}

#[test]
fn init_falls_back_to_record_zero() {
    let (b0, b1) = (sdram0(), sdram1());
    let registry = ProfileRegistry::new(&b0, &b1, &b0, &b0, &b0, LAYOUT).unwrap();
    let mut trainer = MinervaTrainer::new(0, &registry).unwrap();
    let log = bring_up(&mut trainer, 0xdead_beef);
    assert_eq!(log.len(), 5);
    assert_eq!(log[0], request(0, 40_800, 204_000, TrainMode::Train));
    let mut trainer = MinervaTrainer::new(1, &registry).unwrap();
    assert_eq!(trainer.init(0), request(1, 20_400, 204_000, TrainMode::Train));
}

#[test]
fn init_reads_the_rate_as_signed() {
    let mut rates = RATES;
    rates[0] = 0xffff_fffe;
    let blob = blob_of(CLKS, rates);
    let registry = ProfileRegistry::new(&blob, &blob, &blob, &blob, &blob, LAYOUT).unwrap();
    let mut trainer = MinervaTrainer::new(0, &registry).unwrap();
    assert_eq!(trainer.init(0x11), request(0, -2, 204_000, TrainMode::Train));
}

#[test]
fn init_may_run_again() {
    let b0 = sdram0();
    let registry = ProfileRegistry::new(&b0, &b0, &b0, &b0, &b0, LAYOUT).unwrap();
    let mut trainer = MinervaTrainer::new(0, &registry).unwrap();
    let first = bring_up(&mut trainer, 0x11);
    let again = bring_up(&mut trainer, 0x11);
    assert_eq!(first, again);
    assert_eq!(again.len(), 5);
}

#[test]
fn change_frequency_to_the_running_rate_does_nothing() {
    let b0 = sdram0();
    let registry = ProfileRegistry::new(&b0, &b0, &b0, &b0, &b0, LAYOUT).unwrap();
    let mut trainer = MinervaTrainer::new(0, &registry).unwrap();
    bring_up(&mut trainer, 0x11);
    let before = trainer.config();
    assert_eq!(trainer.change_frequency(Frequency::Freq1600), None);
    assert!(trainer.is_idle());
    assert_eq!(trainer.config(), before);
}

#[test]
fn change_frequency_issues_one_switch() {
    let b0 = sdram0();
    let registry = ProfileRegistry::new(&b0, &b0, &b0, &b0, &b0, LAYOUT).unwrap();
    let mut trainer = MinervaTrainer::new(3, &registry).unwrap();
    bring_up(&mut trainer, 0x11);
    for (freq, khz) in [
        (Frequency::Freq204, 204_000),
        (Frequency::Freq800, 800_000),
        (Frequency::Freq1600, 1_600_000),
        (Frequency::Freq204, 204_000),
    ] {
        let from = trainer.config().rate_from;
        let issued = trainer.change_frequency(freq);
        assert_eq!(issued, Some(request(3, from, khz, TrainMode::Switch)));
        assert!(!trainer.is_idle());
        assert_eq!(trainer.config().rate_from, from);
        assert_eq!(trainer.complete(khz), None);
        assert!(trainer.is_idle());
        assert_eq!(trainer.config().rate_from, khz);
    }
}

#[test]
fn change_frequency_on_a_fresh_trainer_switches() {
    let b0 = sdram0();
    let registry = ProfileRegistry::new(&b0, &b0, &b0, &b0, &b0, LAYOUT).unwrap();
    let mut trainer = MinervaTrainer::new(0, &registry).unwrap();
    assert_eq!(
        trainer.change_frequency(Frequency::Freq204),
        Some(request(0, 0, 204_000, TrainMode::Switch))
    );
}

#[test]
fn change_frequency_twice_issues_one_request() {
    let b0 = sdram0();
    let registry = ProfileRegistry::new(&b0, &b0, &b0, &b0, &b0, LAYOUT).unwrap();
    let mut trainer = MinervaTrainer::new(0, &registry).unwrap();
    bring_up(&mut trainer, 0x11);
    let mut issued = 0;
    for _ in 0..2 {
        if let Some(request) = trainer.change_frequency(Frequency::Freq800) {
            issued += 1;
            assert_eq!(trainer.complete(engine(&request)), None);
        }
    }
    assert_eq!(issued, 1);
    assert_eq!(trainer.config().rate_from, 800_000);
}

#[test]
fn change_frequency_goes_by_the_rate_the_engine_reports() {
    let b0 = sdram0();
    let registry = ProfileRegistry::new(&b0, &b0, &b0, &b0, &b0, LAYOUT).unwrap();
    let mut trainer = MinervaTrainer::new(0, &registry).unwrap();
    bring_up(&mut trainer, 0x11);
    assert!(trainer.change_frequency(Frequency::Freq800).is_some());
    assert_eq!(trainer.complete(1_600_000), None);
    assert_eq!(
        trainer.change_frequency(Frequency::Freq800),
        Some(request(0, 1_600_000, 800_000, TrainMode::Switch))
    );
}

#[test]
fn periodic_training_runs_only_at_1600() {
    let b0 = sdram0();
    let registry = ProfileRegistry::new(&b0, &b0, &b0, &b0, &b0, LAYOUT).unwrap();
    let mut trainer = MinervaTrainer::new(0, &registry).unwrap();
    assert_eq!(trainer.periodic_training(), None);
    assert!(trainer.is_idle());
    bring_up(&mut trainer, 0x11);
    assert_eq!(
        trainer.periodic_training(),
        Some(request(0, 1_600_000, 1_600_000, TrainMode::PeriodicTrain))
    );
    assert_eq!(trainer.complete(1_600_000), None);
    assert!(trainer.is_idle());
    assert_eq!(trainer.config().train_mode, Some(TrainMode::PeriodicTrain));
    let switch = trainer.change_frequency(Frequency::Freq800).unwrap();
    trainer.complete(engine(&switch));
    let before = trainer.config();
    assert_eq!(trainer.periodic_training(), None);
    assert_eq!(trainer.config(), before);
    let switch = trainer.change_frequency(Frequency::Freq204).unwrap();
    trainer.complete(engine(&switch));
    assert_eq!(trainer.periodic_training(), None);
}

#[test]
fn periodic_training_leaves_the_target_rate() {
    let b0 = sdram0();
    let registry = ProfileRegistry::new(&b0, &b0, &b0, &b0, &b0, LAYOUT).unwrap();
    let mut trainer = MinervaTrainer::new(0, &registry).unwrap();
    let switch = trainer.change_frequency(Frequency::Freq800).unwrap();
    assert_eq!(switch.rate_to, 800_000);
    assert_eq!(trainer.complete(1_600_000), None);
    assert_eq!(
        trainer.periodic_training(),
        Some(request(0, 1_600_000, 800_000, TrainMode::PeriodicTrain))
    );
    assert_eq!(trainer.complete(1_600_000), None);
    assert_eq!(trainer.config().rate_to, 800_000);
}

#[test]
fn samsung_chip_from_bring_up_to_switches() {
    let (b0, b1) = (sdram0(), sdram1());
    let registry = ProfileRegistry::new(&b0, &b1, &b1, &b1, &b1, LAYOUT).unwrap();
    let mut trainer =
        MinervaTrainer::new(DRAM_4GB_SAMSUNG_K4F6E304HB_MGCH, &registry).unwrap();
    assert_eq!(trainer.table().blob(), &b0[..]);
    let log = bring_up(&mut trainer, 0x22);
    assert_eq!(log.len(), 5);
    assert_eq!(log[0].rate_from, 68_000);
    let switch = trainer.change_frequency(Frequency::Freq800).unwrap();
    assert_eq!(trainer.complete(engine(&switch)), None);
    assert_eq!(trainer.config().rate_from, 800_000);
    assert_eq!(trainer.change_frequency(Frequency::Freq800), None);
    let switch = trainer.change_frequency(Frequency::Freq1600);
    assert_eq!(switch, Some(request(0, 800_000, 1_600_000, TrainMode::Switch)));
    assert_eq!(trainer.complete(engine(&switch.unwrap())), None);
    assert_eq!(trainer.config().rate_from, 1_600_000);
}

#[test]
fn hynix_chip_uses_its_own_profile() {
    let (b0, b1) = (sdram0(), sdram1());
    let registry = ProfileRegistry::new(&b0, &b1, &b0, &b0, &b0, LAYOUT).unwrap();
    let mut trainer =
        MinervaTrainer::new(DRAM_4GB_HYNIX_H9HCNNNBPUMLHR_NLN, &registry).unwrap();
    assert_eq!(trainer.table().blob(), &b1[..]);
    assert_eq!(trainer.init(0x11), request(1, 20_400, 204_000, TrainMode::Train));
}
