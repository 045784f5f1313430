//! The closed vocabularies that configure an experiment: isolation
//! baselines, image-pull mechanisms, start-up flavours, workloads and
//! encryption modes. Each knows its textual name, parses back from it, and
//! can list its variants in a fixed order.

use vstd::prelude::*;

use crate::text::str_eq;

verus! {

/// The container-isolation baselines the start-up experiments compare.
#[derive(Clone, Copy, Debug, Eq, Ord, PartialEq, PartialOrd, Structural)]
pub enum AvailableBaselines {
    Runc,
    Kata,
    Snp,
    SnpSc2,
    Tdx,
    TdxSc2,
}

/// The name a baseline is written as on the command line and in data
/// file names.
pub open spec fn baseline_name_spec(b: AvailableBaselines) -> Seq<char> {
    match b {
        AvailableBaselines::Runc => "runc"@,
        AvailableBaselines::Kata => "kata"@,
        AvailableBaselines::Snp => "snp"@,
        AvailableBaselines::SnpSc2 => "snp-sc2"@,
        AvailableBaselines::Tdx => "tdx"@,
        AvailableBaselines::TdxSc2 => "tdx-sc2"@,
    }
}

/// The Kubernetes runtime class a baseline deploys with.
pub open spec fn runtime_class_spec(b: AvailableBaselines) -> Seq<char> {
    match b {
        AvailableBaselines::Runc => "runc"@,
        AvailableBaselines::Kata => "kata-qemu"@,
        AvailableBaselines::Snp => "kata-qemu-snp"@,
        AvailableBaselines::SnpSc2 => "kata-qemu-snp-sc2"@,
        AvailableBaselines::Tdx => "kata-qemu-tdx"@,
        AvailableBaselines::TdxSc2 => "kata-qemu-tdx-sc2"@,
    }
}

/// The baseline a name denotes, if any.
pub open spec fn baseline_from_str_spec(s: Seq<char>) -> Option<AvailableBaselines> {
    if s == "runc"@ {
        Some(AvailableBaselines::Runc)
    } else if s == "kata"@ {
        Some(AvailableBaselines::Kata)
    } else if s == "snp"@ {
        Some(AvailableBaselines::Snp)
    } else if s == "snp-sc2"@ {
        Some(AvailableBaselines::SnpSc2)
    } else if s == "tdx"@ {
        Some(AvailableBaselines::Tdx)
    } else if s == "tdx-sc2"@ {
        Some(AvailableBaselines::TdxSc2)
    } else {
        None
    }
}

impl AvailableBaselines {
    /// The baseline's textual name.
    pub fn name(&self) -> (r: &'static str)
        ensures
            r@ == baseline_name_spec(*self),
    {
        match self {
            AvailableBaselines::Runc => "runc",
            AvailableBaselines::Kata => "kata",
            AvailableBaselines::Snp => "snp",
            AvailableBaselines::SnpSc2 => "snp-sc2",
            AvailableBaselines::Tdx => "tdx",
            AvailableBaselines::TdxSc2 => "tdx-sc2",
        }
    }

    /// Parses a baseline from its textual name.
    pub fn from_str(input: &str) -> (r: Result<AvailableBaselines, ()>)
        ensures
            match r {
                Ok(b) => baseline_from_str_spec(input@) == Some(b),
                Err(_) => baseline_from_str_spec(input@) is None,
            },
    {
        if str_eq(input, "runc") {
            Ok(AvailableBaselines::Runc)
        } else if str_eq(input, "kata") {
            Ok(AvailableBaselines::Kata)
        } else if str_eq(input, "snp") {
            Ok(AvailableBaselines::Snp)
        } else if str_eq(input, "snp-sc2") {
            Ok(AvailableBaselines::SnpSc2)
        } else if str_eq(input, "tdx") {
            Ok(AvailableBaselines::Tdx)
        } else if str_eq(input, "tdx-sc2") {
            Ok(AvailableBaselines::TdxSc2)
        } else {
            Err(())
        }
    }

    /// The Kubernetes runtime class a baseline deploys with.
    pub fn runtime_class(&self) -> (r: &'static str)
        ensures
            r@ == runtime_class_spec(*self),
    {
        match self {
            AvailableBaselines::Runc => "runc",
            AvailableBaselines::Kata => "kata-qemu",
            AvailableBaselines::Snp => "kata-qemu-snp",
            AvailableBaselines::SnpSc2 => "kata-qemu-snp-sc2",
            AvailableBaselines::Tdx => "kata-qemu-tdx",
            AvailableBaselines::TdxSc2 => "kata-qemu-tdx-sc2",
        }
    }

    /// All baselines, in their fixed order.
    pub fn iter_variants() -> (r: Vec<AvailableBaselines>)
        ensures
            r@ == seq![
                AvailableBaselines::Runc,
                AvailableBaselines::Kata,
                AvailableBaselines::Snp,
                AvailableBaselines::SnpSc2,
                AvailableBaselines::Tdx,
                AvailableBaselines::TdxSc2,
            ],
    {
        let mut v: Vec<AvailableBaselines> = Vec::new();
        v.push(AvailableBaselines::Runc);
        v.push(AvailableBaselines::Kata);
        v.push(AvailableBaselines::Snp);
        v.push(AvailableBaselines::SnpSc2);
        v.push(AvailableBaselines::Tdx);
        v.push(AvailableBaselines::TdxSc2);
        assert(v@ =~= seq![
            AvailableBaselines::Runc,
            AvailableBaselines::Kata,
            AvailableBaselines::Snp,
            AvailableBaselines::SnpSc2,
            AvailableBaselines::Tdx,
            AvailableBaselines::TdxSc2,
        ]);
        v
    }
}

/// The image-pull mechanisms the image-pull experiment compares.
#[derive(Clone, Copy, Debug, Eq, Ord, PartialEq, PartialOrd, Structural)]
pub enum ImagePullBaselines {
    GuestPull,
    GuestLazy,
    HostMount,
    Sc2,
}

/// The name an image-pull mechanism is written as.
pub open spec fn pull_baseline_name_spec(b: ImagePullBaselines) -> Seq<char> {
    match b {
        ImagePullBaselines::GuestPull => "guest-pull"@,
        ImagePullBaselines::GuestLazy => "guest-lazy"@,
        ImagePullBaselines::HostMount => "host-mount"@,
        ImagePullBaselines::Sc2 => "sc2"@,
    }
}

/// The image-pull mechanism a name denotes, if any.
pub open spec fn pull_baseline_from_str_spec(s: Seq<char>) -> Option<ImagePullBaselines> {
    if s == "guest-pull"@ {
        Some(ImagePullBaselines::GuestPull)
    } else if s == "guest-lazy"@ {
        Some(ImagePullBaselines::GuestLazy)
    } else if s == "host-mount"@ {
        Some(ImagePullBaselines::HostMount)
    } else if s == "sc2"@ {
        Some(ImagePullBaselines::Sc2)
    } else {
        None
    }
}

impl ImagePullBaselines {
    /// The mechanism's textual name.
    pub fn name(&self) -> (r: &'static str)
        ensures
            r@ == pull_baseline_name_spec(*self),
    {
        match self {
            ImagePullBaselines::GuestPull => "guest-pull",
            ImagePullBaselines::GuestLazy => "guest-lazy",
            ImagePullBaselines::HostMount => "host-mount",
            ImagePullBaselines::Sc2 => "sc2",
        }
    }

    /// Parses a mechanism from its textual name.
    pub fn from_str(input: &str) -> (r: Result<ImagePullBaselines, ()>)
        ensures
            match r {
                Ok(b) => pull_baseline_from_str_spec(input@) == Some(b),
                Err(_) => pull_baseline_from_str_spec(input@) is None,
            },
    {
        if str_eq(input, "guest-pull") {
            Ok(ImagePullBaselines::GuestPull)
        } else if str_eq(input, "guest-lazy") {
            Ok(ImagePullBaselines::GuestLazy)
        } else if str_eq(input, "host-mount") {
            Ok(ImagePullBaselines::HostMount)
        } else if str_eq(input, "sc2") {
            Ok(ImagePullBaselines::Sc2)
        } else {
            Err(())
        }
    }

    /// All mechanisms, in their fixed order.
    pub fn iter_variants() -> (r: Vec<ImagePullBaselines>)
        ensures
            r@ == seq![
                ImagePullBaselines::GuestPull,
                ImagePullBaselines::GuestLazy,
                ImagePullBaselines::HostMount,
                ImagePullBaselines::Sc2,
            ],
    {
        let mut v: Vec<ImagePullBaselines> = Vec::new();
        v.push(ImagePullBaselines::GuestPull);
        v.push(ImagePullBaselines::GuestLazy);
        v.push(ImagePullBaselines::HostMount);
        v.push(ImagePullBaselines::Sc2);
        assert(v@ =~= seq![
            ImagePullBaselines::GuestPull,
            ImagePullBaselines::GuestLazy,
            ImagePullBaselines::HostMount,
            ImagePullBaselines::Sc2,
        ]);
        v
    }
}

/// Whether a repetition starts from a cold or a warm state.
#[derive(Clone, Copy, Debug, Eq, Ord, PartialEq, PartialOrd, Structural)]
pub enum StartUpFlavours {
    Cold,
    Warm,
}

/// The name a start-up flavour is written as.
pub open spec fn flavour_name_spec(f: StartUpFlavours) -> Seq<char> {
    match f {
        StartUpFlavours::Cold => "cold"@,
        StartUpFlavours::Warm => "warm"@,
    }
}

/// The start-up flavour a name denotes, if any.
pub open spec fn flavour_from_str_spec(s: Seq<char>) -> Option<StartUpFlavours> {
    if s == "cold"@ {
        Some(StartUpFlavours::Cold)
    } else if s == "warm"@ {
        Some(StartUpFlavours::Warm)
    } else {
        None
    }
}

impl StartUpFlavours {
    /// The flavour's textual name.
    pub fn name(&self) -> (r: &'static str)
        ensures
            r@ == flavour_name_spec(*self),
    {
        match self {
            StartUpFlavours::Cold => "cold",
            StartUpFlavours::Warm => "warm",
        }
    }

    /// Parses a flavour from its textual name.
    pub fn from_str(input: &str) -> (r: Result<StartUpFlavours, ()>)
        ensures
            match r {
                Ok(f) => flavour_from_str_spec(input@) == Some(f),
                Err(_) => flavour_from_str_spec(input@) is None,
            },
    {
        if str_eq(input, "cold") {
            Ok(StartUpFlavours::Cold)
        } else if str_eq(input, "warm") {
            Ok(StartUpFlavours::Warm)
        } else {
            Err(())
        }
    }

    /// Both flavours, cold first.
    pub fn iter_variants() -> (r: Vec<StartUpFlavours>)
        ensures
            r@ == seq![StartUpFlavours::Cold, StartUpFlavours::Warm],
    {
        let mut v: Vec<StartUpFlavours> = Vec::new();
        v.push(StartUpFlavours::Cold);
        v.push(StartUpFlavours::Warm);
        assert(v@ =~= seq![StartUpFlavours::Cold, StartUpFlavours::Warm]);
        v
    }
}

/// The workloads the image-pull experiment deploys.
#[derive(Clone, Copy, Debug, Eq, Ord, PartialEq, PartialOrd, Structural)]
pub enum ImagePullWorkloads {
    Fio,
    HelloWorld,
    TfInference,
}

/// The name a workload is written as.
pub open spec fn workload_name_spec(w: ImagePullWorkloads) -> Seq<char> {
    match w {
        ImagePullWorkloads::Fio => "fio"@,
        ImagePullWorkloads::HelloWorld => "hello-world"@,
        ImagePullWorkloads::TfInference => "tf-inference"@,
    }
}

/// The workload a name denotes, if any.
pub open spec fn workload_from_str_spec(s: Seq<char>) -> Option<ImagePullWorkloads> {
    if s == "fio"@ {
        Some(ImagePullWorkloads::Fio)
    } else if s == "hello-world"@ {
        Some(ImagePullWorkloads::HelloWorld)
    } else if s == "tf-inference"@ {
        Some(ImagePullWorkloads::TfInference)
    } else {
        None
    }
}

impl ImagePullWorkloads {
    /// The workload's textual name.
    pub fn name(&self) -> (r: &'static str)
        ensures
            r@ == workload_name_spec(*self),
    {
        match self {
            ImagePullWorkloads::Fio => "fio",
            ImagePullWorkloads::HelloWorld => "hello-world",
            ImagePullWorkloads::TfInference => "tf-inference",
        }
    }

    /// Parses a workload from its textual name.
    pub fn from_str(input: &str) -> (r: Result<ImagePullWorkloads, ()>)
        ensures
            match r {
                Ok(w) => workload_from_str_spec(input@) == Some(w),
                Err(_) => workload_from_str_spec(input@) is None,
            },
    {
        if str_eq(input, "fio") {
            Ok(ImagePullWorkloads::Fio)
        } else if str_eq(input, "hello-world") {
            Ok(ImagePullWorkloads::HelloWorld)
        } else if str_eq(input, "tf-inference") {
            Ok(ImagePullWorkloads::TfInference)
        } else {
            Err(())
        }
    }

    /// All workloads, in their fixed order.
    pub fn iter_variants() -> (r: Vec<ImagePullWorkloads>)
        ensures
            r@ == seq![
                ImagePullWorkloads::Fio,
                ImagePullWorkloads::HelloWorld,
                ImagePullWorkloads::TfInference,
            ],
    {
        let mut v: Vec<ImagePullWorkloads> = Vec::new();
        v.push(ImagePullWorkloads::Fio);
        v.push(ImagePullWorkloads::HelloWorld);
        v.push(ImagePullWorkloads::TfInference);
        assert(v@ =~= seq![
            ImagePullWorkloads::Fio,
            ImagePullWorkloads::HelloWorld,
            ImagePullWorkloads::TfInference,
        ]);
        v
    }
}

/// Whether the pulled image is encrypted.
#[derive(Clone, Copy, Debug, Eq, Ord, PartialEq, PartialOrd, Structural)]
pub enum ImagePullEncryptionTypes {
    Encrypted,
    UnEncrypted,
}

/// The name an encryption mode is written as.
pub open spec fn encryption_name_spec(e: ImagePullEncryptionTypes) -> Seq<char> {
    match e {
        ImagePullEncryptionTypes::Encrypted => "encrypted"@,
        ImagePullEncryptionTypes::UnEncrypted => "unencrypted"@,
    }
}

/// The encryption mode a name denotes, if any.
pub open spec fn encryption_from_str_spec(s: Seq<char>) -> Option<ImagePullEncryptionTypes> {
    if s == "encrypted"@ {
        Some(ImagePullEncryptionTypes::Encrypted)
    } else if s == "unencrypted"@ {
        Some(ImagePullEncryptionTypes::UnEncrypted)
    } else {
        None
    }
}

impl ImagePullEncryptionTypes {
    /// The mode's textual name.
    pub fn name(&self) -> (r: &'static str)
        ensures
            r@ == encryption_name_spec(*self),
    {
        match self {
            ImagePullEncryptionTypes::Encrypted => "encrypted",
            ImagePullEncryptionTypes::UnEncrypted => "unencrypted",
        }
    }

    /// Parses a mode from its textual name.
    pub fn from_str(input: &str) -> (r: Result<ImagePullEncryptionTypes, ()>)
        ensures
            match r {
                Ok(e) => encryption_from_str_spec(input@) == Some(e),
                Err(_) => encryption_from_str_spec(input@) is None,
            },
    {
        if str_eq(input, "encrypted") {
            Ok(ImagePullEncryptionTypes::Encrypted)
        } else if str_eq(input, "unencrypted") {
            Ok(ImagePullEncryptionTypes::UnEncrypted)
        } else {
            Err(())
        }
    }

    /// Both modes, encrypted first.
    pub fn iter_variants() -> (r: Vec<ImagePullEncryptionTypes>)
        ensures
            r@ == seq![
                ImagePullEncryptionTypes::Encrypted,
                ImagePullEncryptionTypes::UnEncrypted,
            ],
    {
        let mut v: Vec<ImagePullEncryptionTypes> = Vec::new();
        v.push(ImagePullEncryptionTypes::Encrypted);
        v.push(ImagePullEncryptionTypes::UnEncrypted);
        assert(v@ =~= seq![
            ImagePullEncryptionTypes::Encrypted,
            ImagePullEncryptionTypes::UnEncrypted,
        ]);
        v
    }
}

} // verus!
