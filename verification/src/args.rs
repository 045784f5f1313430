//! The run parameters of the three experiments, as plain data. The binary
//! parses its command line into these shapes.

use vstd::prelude::*;

use crate::baselines::{
    AvailableBaselines, ImagePullBaselines, ImagePullEncryptionTypes, ImagePullWorkloads,
    StartUpFlavours,
};

verus! {

/// Parameters every experiment takes.
#[derive(Clone, Debug)]
pub struct RunCommonArgs {
    /// Measured repetitions per configuration.
    pub num_repeats: u32,
    /// Unmeasured repetitions run first.
    pub num_warmup_repeats: u32,
}

/// Parameters of the start-up latency experiment.
#[derive(Clone, Debug)]
pub struct StartUpRunArgs {
    pub common: RunCommonArgs,
    /// The baselines to measure.
    pub baseline: Vec<AvailableBaselines>,
    /// One flavour, or both when not given.
    pub flavour: Option<StartUpFlavours>,
}

/// Parameters of the scale-out latency experiment.
#[derive(Clone, Debug)]
pub struct ScaleOutRunArgs {
    pub common: RunCommonArgs,
    /// The baselines to measure.
    pub baseline: Vec<AvailableBaselines>,
    /// Scale indices run from one below this bound.
    pub scale_up_range: u32,
}

/// Parameters of the image-pull experiment.
#[derive(Clone, Debug)]
pub struct ImagePullRunArgs {
    pub common: RunCommonArgs,
    /// One flavour, or both when not given.
    pub flavour: Option<StartUpFlavours>,
    /// One pull mechanism, or the default set when not given.
    pub pull_type: Option<ImagePullBaselines>,
    /// One workload, or the default set when not given.
    pub workload: Option<ImagePullWorkloads>,
    /// One encryption mode, or the default set when not given.
    pub encryption: Option<ImagePullEncryptionTypes>,
}

/// What to do for the start-up experiment.
#[derive(Clone, Debug)]
pub enum StartUpSubCommand {
    /// Run it.
    Run(StartUpRunArgs),
    /// Plot its results.
    Plot,
}

/// What to do for the scale-out experiment.
#[derive(Clone, Debug)]
pub enum ScaleOutSubCommand {
    /// Run it.
    Run(ScaleOutRunArgs),
    /// Plot its results.
    Plot,
}

/// What to do for the image-pull experiment.
#[derive(Clone, Debug)]
pub enum ImagePullSubCommand {
    /// Run it.
    Run(ImagePullRunArgs),
    /// Plot its results.
    Plot,
}

/// The experiment asked for on the command line.
#[derive(Clone, Debug)]
pub enum ExpCommand {
    /// Compare image-pulling mechanisms.
    ImagePull { exp_sub_command: ImagePullSubCommand },
    /// Measure start-up latency.
    StartUp { exp_sub_command: StartUpSubCommand },
    /// Measure scale-out latency.
    ScaleOut { exp_sub_command: ScaleOutSubCommand },
}

} // verus!
