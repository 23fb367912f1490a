//! Numerical precision policy: the precision path labels and the verdict on
//! how far double-single rendering can be trusted at the current view.

use vstd::prelude::*;

use crate::text::{count_text, spec_decimal};

verus! {

/// The arithmetic the GPU iterates in.
#[derive(Clone, Copy, Debug, Default, PartialEq, Eq, Structural)]
pub enum PrecisionMode {
    #[default]
    F32,
    DoubleSingle,
    Perturbation,
}

impl PrecisionMode {
    pub open spec fn spec_label(self) -> Seq<char> {
        match self {
            PrecisionMode::F32 => "GPU f32"@,
            PrecisionMode::DoubleSingle => "GPU DS ~48-bit"@,
            PrecisionMode::Perturbation => "GPU PERT f64-ref"@,
        }
    }

    /// Badge text for the precision path.
    pub fn label(self) -> (text: &'static str)
        ensures
            text@ == self.spec_label(),
    {
        match self {
            Self::F32 => "GPU f32",
            Self::DoubleSingle => "GPU DS ~48-bit",
            Self::Perturbation => "GPU PERT f64-ref",
        }
    }
}

/// The counts of the nine probe orbits that disagreed with the `f64`
/// reference, by kind of disagreement.
#[derive(Clone, Copy, Debug, Default, PartialEq, Eq, Structural)]
pub struct ProbeCounts {
    pub unstable_samples: u8,
    pub classification_mismatches: u8,
    pub non_finite_samples: u8,
}

impl ProbeCounts {
    pub open spec fn spec_unstable(self) -> bool {
        self.non_finite_samples > 0 || self.classification_mismatches > 0 || self.unstable_samples >= 2
    }

    /// Whether the probed path should not be trusted.
    pub fn unstable(self) -> (unstable: bool)
        ensures
            unstable == self.spec_unstable(),
    {
        self.non_finite_samples > 0 || self.classification_mismatches > 0 || self.unstable_samples >= 2
    }

    pub open spec fn spec_summary(self) -> Seq<char> {
        if self.non_finite_samples > 0 {
            spec_decimal(self.non_finite_samples as nat) + " / 9 non-finite orbits"@
        } else if self.classification_mismatches > 0 {
            spec_decimal(self.classification_mismatches as nat) + " / 9 classifications disagree"@
        } else if self.unstable_samples > 0 {
            spec_decimal(self.unstable_samples as nat) + " / 9 sampled orbits unstable"@
        } else {
            "9 / 9 sampled orbits agree"@
        }
    }

    /// One-line report of the worst disagreement.
    pub fn summary(self) -> (text: String)
        ensures
            text@ == self.spec_summary(),
    {
        if self.non_finite_samples > 0 {
            count_text(self.non_finite_samples, " / 9 non-finite orbits")
        } else if self.classification_mismatches > 0 {
            count_text(self.classification_mismatches, " / 9 classifications disagree")
        } else if self.unstable_samples > 0 {
            count_text(self.unstable_samples, " / 9 sampled orbits unstable")
        } else {
            "9 / 9 sampled orbits agree".to_owned()
        }
    }
}

/// The automatic choice of arithmetic: double-single once the `f32`
/// coordinate grid is too coarse, once the `f32` probe misclassifies an
/// orbit, or once, past the probing depth, its orbits turn unstable; plain
/// `f32` otherwise.
pub open spec fn spec_choose_precision(coordinate_limited: bool, probing_depth: bool, f32_probe: ProbeCounts) -> PrecisionMode {
    if coordinate_limited || f32_probe.classification_mismatches > 0 || (probing_depth && f32_probe.spec_unstable()) {
        PrecisionMode::DoubleSingle
    } else {
        PrecisionMode::F32
    }
}

/// Chooses the arithmetic for a view. `probing_depth` says whether the view
/// is deep enough for orbit instability to count.
pub fn choose_precision(coordinate_limited: bool, probing_depth: bool, f32_probe: ProbeCounts) -> (mode: PrecisionMode)
    ensures
        mode == spec_choose_precision(coordinate_limited, probing_depth, f32_probe),
{
    let classification_failed = f32_probe.classification_mismatches > 0;
    let orbit_failed = probing_depth && f32_probe.unstable();
    if coordinate_limited || classification_failed || orbit_failed {
        PrecisionMode::DoubleSingle
    } else {
        PrecisionMode::F32
    }
}

#[derive(Clone, Copy, Debug, Default, PartialEq, Eq, Structural)]
pub enum ValidityLevel {
    #[default]
    Stable,
    Risk,
    Limit,
}

#[derive(Clone, Copy, Debug, Default, PartialEq, Eq, Structural)]
pub enum ValidityReason {
    #[default]
    SamplesAgree,
    CoordinateRisk,
    CoordinateCollapse,
    OrbitDivergence(u8),
    ClassificationMismatch(u8),
    NonFinite(u8),
}

/// How far double-single rendering can be trusted, and why.
#[derive(Clone, Copy, Debug, Default, PartialEq, Eq, Structural)]
pub struct DsValidity {
    pub level: ValidityLevel,
    pub reason: ValidityReason,
}

impl DsValidity {
    /// The verdict for a probe, given whether adjacent pixel coordinates may
    /// collapse (pixel spacing at least half the coordinate resolution) and
    /// whether the spacing is approaching that limit.
    pub open spec fn spec_classify(counts: ProbeCounts, collapse: bool, risk: bool) -> DsValidity {
        if collapse {
            DsValidity { level: ValidityLevel::Limit, reason: ValidityReason::CoordinateCollapse }
        } else if counts.non_finite_samples > 0 {
            DsValidity { level: ValidityLevel::Limit, reason: ValidityReason::NonFinite(counts.non_finite_samples) }
        } else if counts.classification_mismatches >= 3 {
            DsValidity {
                level: ValidityLevel::Limit,
                reason: ValidityReason::ClassificationMismatch(counts.classification_mismatches),
            }
        } else if counts.classification_mismatches > 0 {
            DsValidity {
                level: ValidityLevel::Risk,
                reason: ValidityReason::ClassificationMismatch(counts.classification_mismatches),
            }
        } else if counts.unstable_samples >= 5 {
            DsValidity { level: ValidityLevel::Limit, reason: ValidityReason::OrbitDivergence(counts.unstable_samples) }
        } else if counts.unstable_samples >= 2 {
            DsValidity { level: ValidityLevel::Risk, reason: ValidityReason::OrbitDivergence(counts.unstable_samples) }
        } else if risk {
            DsValidity { level: ValidityLevel::Risk, reason: ValidityReason::CoordinateRisk }
        } else {
            DsValidity { level: ValidityLevel::Stable, reason: ValidityReason::SamplesAgree }
        }
    }

    /// Classifies a double-single probe. `collapse` and `risk` report the
    /// coordinate spacing against the double-single resolution.
    pub fn classify(counts: ProbeCounts, collapse: bool, risk: bool) -> (validity: DsValidity)
        ensures
            validity == Self::spec_classify(counts, collapse, risk),
    {
        if collapse {
            return Self { level: ValidityLevel::Limit, reason: ValidityReason::CoordinateCollapse };
        }
        if counts.non_finite_samples > 0 {
            return Self { level: ValidityLevel::Limit, reason: ValidityReason::NonFinite(counts.non_finite_samples) };
        }
        if counts.classification_mismatches >= 3 {
            return Self {
                level: ValidityLevel::Limit,
                reason: ValidityReason::ClassificationMismatch(counts.classification_mismatches),
            };
        }
        if counts.classification_mismatches > 0 {
            return Self {
                level: ValidityLevel::Risk,
                reason: ValidityReason::ClassificationMismatch(counts.classification_mismatches),
            };
        }
        if counts.unstable_samples >= 5 {
            return Self { level: ValidityLevel::Limit, reason: ValidityReason::OrbitDivergence(counts.unstable_samples) };
        }
        if counts.unstable_samples >= 2 {
            return Self { level: ValidityLevel::Risk, reason: ValidityReason::OrbitDivergence(counts.unstable_samples) };
        }
        if risk {
            return Self { level: ValidityLevel::Risk, reason: ValidityReason::CoordinateRisk };
        }
        Self { level: ValidityLevel::Stable, reason: ValidityReason::SamplesAgree }
    }

    pub open spec fn spec_label(self) -> Seq<char> {
        match self.level {
            ValidityLevel::Stable => "DS STABLE"@,
            ValidityLevel::Risk => "DS RISK"@,
            ValidityLevel::Limit => if self.reason is CoordinateCollapse {
                "DS COORD LIMIT"@
            } else {
                "RENDER LIMIT"@
            },
        }
    }

    /// Badge text for the verdict.
    pub fn label(self) -> (text: &'static str)
        ensures
            text@ == self.spec_label(),
    {
        match (self.level, self.reason) {
            (ValidityLevel::Stable, _) => "DS STABLE",
            (ValidityLevel::Risk, _) => "DS RISK",
            (ValidityLevel::Limit, ValidityReason::CoordinateCollapse) => "DS COORD LIMIT",
            (ValidityLevel::Limit, _) => "RENDER LIMIT",
        }
    }

    pub open spec fn spec_render_limited(self) -> bool {
        self.level == ValidityLevel::Limit && !(self.reason is CoordinateCollapse)
    }

    /// Whether the rendered image itself is past its limit (rather than
    /// only the coordinate grid).
    pub fn render_limited(self) -> (limited: bool)
        ensures
            limited == self.spec_render_limited(),
    {
        self.level == ValidityLevel::Limit && !matches!(self.reason, ValidityReason::CoordinateCollapse)
    }

    pub open spec fn spec_summary(self) -> Seq<char> {
        match self.reason {
            ValidityReason::SamplesAgree => "DS samples agree with f64"@,
            ValidityReason::CoordinateRisk => "DS pixel spacing approaching limit"@,
            ValidityReason::CoordinateCollapse => "DS adjacent coordinates may collapse"@,
            ValidityReason::OrbitDivergence(count) => spec_decimal(count as nat) + " / 9 DS orbits diverge from f64"@,
            ValidityReason::ClassificationMismatch(count) => spec_decimal(count as nat)
                + " / 9 DS classifications disagree"@,
            ValidityReason::NonFinite(count) => spec_decimal(count as nat) + " / 9 DS orbits non-finite"@,
        }
    }

    /// One-line explanation of the verdict.
    pub fn summary(self) -> (text: String)
        ensures
            text@ == self.spec_summary(),
    {
        match self.reason {
            ValidityReason::SamplesAgree => "DS samples agree with f64".to_owned(),
            ValidityReason::CoordinateRisk => "DS pixel spacing approaching limit".to_owned(),
            ValidityReason::CoordinateCollapse => "DS adjacent coordinates may collapse".to_owned(),
            ValidityReason::OrbitDivergence(count) => count_text(count, " / 9 DS orbits diverge from f64"),
            ValidityReason::ClassificationMismatch(count) => count_text(count, " / 9 DS classifications disagree"),
            ValidityReason::NonFinite(count) => count_text(count, " / 9 DS orbits non-finite"),
        }
    }
}

/// A probe that reports an unstable path is never judged stable.
pub proof fn unstable_probes_are_never_stable(counts: ProbeCounts, collapse: bool, risk: bool)
    ensures
        counts.spec_unstable() ==> DsValidity::spec_classify(counts, collapse, risk).level != ValidityLevel::Stable,
{
}

/// Only a verdict whose badge reads `RENDER LIMIT` limits the render.
pub proof fn render_limit_matches_its_badge(validity: DsValidity)
    ensures
        validity.spec_render_limited() <==> validity.spec_label() == "RENDER LIMIT"@,
{
    reveal_strlit("RENDER LIMIT");
    reveal_strlit("DS STABLE");
    reveal_strlit("DS RISK");
    reveal_strlit("DS COORD LIMIT");
    assert("RENDER LIMIT"@.len() == 12);
    assert("DS STABLE"@.len() == 9);
    assert("DS RISK"@.len() == 7);
    assert("DS COORD LIMIT"@.len() == 14);
}

/// Double-single arithmetic is chosen exactly when the coordinates are too
/// coarse for `f32`, when the `f32` probe misclassifies a sample, or when, at
/// probing depth, an `f32` orbit is non-finite or at least two are
/// unstable; `f32` is kept otherwise.
pub proof fn double_single_is_chosen_exactly_when_f32_fails(
    coordinate_limited: bool,
    probing_depth: bool,
    probe: ProbeCounts,
)
    ensures
        (spec_choose_precision(coordinate_limited, probing_depth, probe) == PrecisionMode::DoubleSingle) <==> (
        coordinate_limited || probe.classification_mismatches > 0 || (probing_depth && (probe.non_finite_samples > 0
            || probe.unstable_samples >= 2))),
        (spec_choose_precision(coordinate_limited, probing_depth, probe) == PrecisionMode::F32) <==> !(
        coordinate_limited || probe.classification_mismatches > 0 || (probing_depth && (probe.non_finite_samples > 0
            || probe.unstable_samples >= 2))),
{
}

/// The verdict grades the probe: double-single rendering is stable exactly
/// when the coordinates neither collapse nor approach collapse and every
/// sample is finite, classified alike and at most one diverges; it is at its
/// limit exactly when the coordinates collapse, an orbit is non-finite, at
/// least three samples are classified differently, or (all classified
/// alike) at least five diverge; otherwise it is at risk. A collapse is
/// always the reason it names first.
pub proof fn ds_verdicts_grade_the_probe(counts: ProbeCounts, collapse: bool, risk: bool)
    ensures
        ({
            let verdict = DsValidity::spec_classify(counts, collapse, risk);
            &&& (verdict.level == ValidityLevel::Stable) <==> (!collapse && !risk && counts.non_finite_samples == 0
                && counts.classification_mismatches == 0 && counts.unstable_samples < 2)
            &&& (verdict.level == ValidityLevel::Limit) <==> (collapse || counts.non_finite_samples > 0
                || counts.classification_mismatches >= 3 || (counts.classification_mismatches == 0
                && counts.unstable_samples >= 5))
            &&& collapse ==> verdict.reason == ValidityReason::CoordinateCollapse
            &&& !collapse && counts.non_finite_samples > 0 ==> verdict.reason == ValidityReason::NonFinite(
                counts.non_finite_samples,
            )
        }),
{
}

} // verus!
