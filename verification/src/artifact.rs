//! Cache and reuse decisions for the provisioned artifact binary.
//!
//! A previously installed artifact is described by a persisted
//! `ProvisioningRecord`; a run resolves the `DesiredArtifact` from static
//! configuration and the current platform, and the pure `decide` function
//! says whether the installed copy may be reused verbatim or must be
//! re-fetched and re-installed.
use vstd::prelude::*;

use crate::bytes::bytes_eq;
use crate::bytes::clone_bytes;
use crate::errors::RunError;

verus! {

/// The platforms an artifact source location is configured for.
#[derive(Clone, Copy, PartialEq, Eq, Structural, Debug)]
pub enum TargetPlatform {
    Amd64,
    Arm64,
}

/// Descriptor of a previously installed artifact, persisted beside the
/// installed binary. Never mutated in place: reuse or full replacement only.
pub struct ProvisioningRecord {
    pub version: Vec<u8>,
    pub source_location: Vec<u8>,
}

/// The artifact a run wants installed, resolved once per run.
pub struct DesiredArtifact {
    pub version: Vec<u8>,
    pub source_location: Vec<u8>,
    pub platform: TargetPlatform,
}

/// Static configuration: the artifact version and one source location per
/// supported platform.
pub struct ArtifactConfig {
    pub version: Vec<u8>,
    pub amd64_url: Vec<u8>,
    pub arm64_url: Vec<u8>,
}

/// Whether the installed copy is kept or replaced.
#[derive(Clone, Copy, PartialEq, Eq, Structural, Debug)]
pub enum CacheDecision {
    Keep,
    Recreate,
}

/// The architecture name that selects the amd64 artifact.
pub open spec fn amd64_bytes() -> Seq<u8> {
    seq![97u8, 109u8, 100u8, 54u8, 52u8]
}

/// The architecture name that selects the arm64 artifact.
pub open spec fn arm64_bytes() -> Seq<u8> {
    seq![97u8, 114u8, 109u8, 54u8, 52u8]
}

/// The platform an architecture name resolves to, if any.
pub open spec fn platform_of(arch: Seq<u8>) -> Option<TargetPlatform> {
    if arch == amd64_bytes() {
        Some(TargetPlatform::Amd64)
    } else if arch == arm64_bytes() {
        Some(TargetPlatform::Arm64)
    } else {
        None
    }
}

/// The configured source location for a platform.
pub open spec fn source_location_for(config: ArtifactConfig, platform: TargetPlatform) -> Seq<u8> {
    match platform {
        TargetPlatform::Amd64 => config.amd64_url@,
        TargetPlatform::Arm64 => config.arm64_url@,
    }
}

/// Maps an architecture name to a platform; unrecognized names resolve to
/// nothing, so that no fetch is ever attempted for them.
pub fn resolve_platform(arch: &Vec<u8>) -> (r: Option<TargetPlatform>)
    ensures
        r == platform_of(arch@),
{
    proof {
        assert(amd64_bytes().len() == 5 && arm64_bytes().len() == 5);
        assert(amd64_bytes()[0] == 97 && amd64_bytes()[1] == 109 && amd64_bytes()[2] == 100
            && amd64_bytes()[3] == 54 && amd64_bytes()[4] == 52);
        assert(arm64_bytes()[0] == 97 && arm64_bytes()[1] == 114 && arm64_bytes()[2] == 109
            && arm64_bytes()[3] == 54 && arm64_bytes()[4] == 52);
    }
    if arch.len() != 5 {
        return None;
    }
    if arch[0] == 97 && arch[1] == 109 && arch[2] == 100 && arch[3] == 54 && arch[4] == 52 {
        proof {
            assert(arch@ =~= amd64_bytes());
        }
        return Some(TargetPlatform::Amd64);
    }
    if arch[0] == 97 && arch[1] == 114 && arch[2] == 109 && arch[3] == 54 && arch[4] == 52 {
        proof {
            assert(arch@ =~= arm64_bytes());
        }
        return Some(TargetPlatform::Arm64);
    }
    None
}

/// Resolves the desired artifact from configuration and the architecture
/// name, failing fast with `UnsupportedPlatform` for unrecognized
/// architectures.
pub fn resolve_desired(config: &ArtifactConfig, arch: &Vec<u8>) -> (r: Result<
    DesiredArtifact,
    RunError,
>)
    ensures
        match r {
            Ok(d) => {
                &&& platform_of(arch@) == Some(d.platform)
                &&& d.version@ == config.version@
                &&& d.source_location@ == source_location_for(*config, d.platform)
            },
            Err(e) => e == RunError::UnsupportedPlatform && platform_of(arch@) is None,
        },
{
    match resolve_platform(arch) {
        Some(platform) => {
            let source_location = match platform {
                TargetPlatform::Amd64 => clone_bytes(&config.amd64_url),
                TargetPlatform::Arm64 => clone_bytes(&config.arm64_url),
            };
            Ok(DesiredArtifact { version: clone_bytes(&config.version), source_location, platform })
        },
        None => Err(RunError::UnsupportedPlatform),
    }
}

/// `Keep` exactly when a record exists and both its fields equal the desired
/// artifact's projection.
pub open spec fn decide_spec(existing: Option<ProvisioningRecord>, desired: DesiredArtifact) -> CacheDecision {
    match existing {
        Some(record) => if record.version@ == desired.version@ && record.source_location@
            == desired.source_location@ {
            CacheDecision::Keep
        } else {
            CacheDecision::Recreate
        },
        None => CacheDecision::Recreate,
    }
}

/// Decides whether the previously provisioned artifact may be reused: `Keep`
/// iff a record exists whose version and source location equal the desired
/// ones field for field; `Recreate` otherwise, covering both "never
/// installed" and "stale".
pub fn decide(existing: &Option<ProvisioningRecord>, desired: &DesiredArtifact) -> (r:
    CacheDecision)
    ensures
        r == decide_spec(*existing, *desired),
{
    match existing {
        Some(record) => {
            if bytes_eq(&record.version, &desired.version) && bytes_eq(
                &record.source_location,
                &desired.source_location,
            ) {
                CacheDecision::Keep
            } else {
                CacheDecision::Recreate
            }
        },
        None => CacheDecision::Recreate,
    }
}

/// The record persisted after a fully successful install: the desired
/// artifact's (version, source location) projection.
pub fn record_for(desired: &DesiredArtifact) -> (r: ProvisioningRecord)
    ensures
        r.version@ == desired.version@,
        r.source_location@ == desired.source_location@,
{
    ProvisioningRecord {
        version: clone_bytes(&desired.version),
        source_location: clone_bytes(&desired.source_location),
    }
}

/// Cache law: reuse is granted exactly when the stored record matches the
/// desired (version, source location) pair field for field; a missing record
/// or a change to either single field forces a full reinstall, and the
/// record written for a desired artifact is always reusable for it.
pub proof fn lemma_decide_exact(existing: Option<ProvisioningRecord>, desired: DesiredArtifact)
    ensures
        decide_spec(existing, desired) == CacheDecision::Keep <==> (existing matches Some(record)
            && record.version@ == desired.version@ && record.source_location@
            == desired.source_location@),
        existing matches Some(record) && (record.version@ != desired.version@
            || record.source_location@ != desired.source_location@) ==> decide_spec(
            existing,
            desired,
        ) == CacheDecision::Recreate,
        existing is None ==> decide_spec(existing, desired) == CacheDecision::Recreate,
{
}

} // verus!
