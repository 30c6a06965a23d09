//! The update orchestrator: given the build's identity and a fetched
//! release index, decide whether the tool is current, whether an update is
//! available, and which asset an apply run must download. The network and
//! filesystem steps themselves are the caller's: it feeds their results
//! back into `plan_update` and `finish_update`, so every decision on this
//! path is verified while the I/O stays outside.

use vstd::prelude::*;
use crate::classify::{classify, spec_classification, ErrorCategory};
use crate::identity::{BuildIdentity, IdentityView};
use crate::target::{platform_identifier, spec_platform};
use crate::text;

verus! {

/// What an orchestration run is asked to do.
#[derive(Clone, Copy, PartialEq, Eq, Structural, Debug)]
pub enum UpdateMode {
    /// Report whether an update is available; never touch the executable.
    CheckOnly,
    /// Download and install a newer release if there is one.
    Apply,
}

/// One downloadable file attached to a release.
pub struct AssetDescriptor {
    pub name: String,
    pub download_url: String,
}

/// The mathematical content of an `AssetDescriptor`.
pub struct AssetView {
    pub name: Seq<char>,
    pub download_url: Seq<char>,
}

impl View for AssetDescriptor {
    type V = AssetView;

    open spec fn view(&self) -> AssetView {
        AssetView { name: self.name@, download_url: self.download_url@ }
    }
}

/// The views of a sequence of asset descriptors.
pub open spec fn assets_view(assets: Seq<AssetDescriptor>) -> Seq<AssetView> {
    assets.map_values(|a: AssetDescriptor| a@)
}

/// What the release client reports of the latest published release.
pub struct ReleaseInfo {
    pub version: String,
    pub assets: Vec<AssetDescriptor>,
}

/// The mathematical content of a `ReleaseInfo`.
pub struct ReleaseView {
    pub version: Seq<char>,
    pub assets: Seq<AssetView>,
}

impl View for ReleaseInfo {
    type V = ReleaseView;

    open spec fn view(&self) -> ReleaseView {
        ReleaseView { version: self.version@, assets: assets_view(self.assets@) }
    }
}

/// The result of one orchestration run.
#[derive(Debug)]
pub enum UpdateOutcome {
    /// The installed version equals the latest released one.
    AlreadyUpToDate(String),
    /// A different version is released; nothing was downloaded.
    UpdateAvailable(String),
    /// The executable was replaced: the old version, then the new one.
    Updated(String, String),
    /// The run failed; the executable is unchanged.
    Failed(ErrorCategory, String),
}

/// The mathematical content of an `UpdateOutcome`.
pub enum OutcomeView {
    AlreadyUpToDate(Seq<char>),
    UpdateAvailable(Seq<char>),
    Updated(Seq<char>, Seq<char>),
    Failed(ErrorCategory, Seq<char>),
}

impl View for UpdateOutcome {
    type V = OutcomeView;

    open spec fn view(&self) -> OutcomeView {
        match self {
            UpdateOutcome::AlreadyUpToDate(v) => OutcomeView::AlreadyUpToDate(v@),
            UpdateOutcome::UpdateAvailable(v) => OutcomeView::UpdateAvailable(v@),
            UpdateOutcome::Updated(from, to) => OutcomeView::Updated(from@, to@),
            UpdateOutcome::Failed(cat, detail) => OutcomeView::Failed(*cat, detail@),
        }
    }
}

/// What a run decides before any I/O happens: either it is finished, or an
/// apply run must download the asset at the given index of the release.
#[derive(Debug)]
pub enum UpdatePlan {
    Finished(UpdateOutcome),
    Download(usize),
}

/// The mathematical content of an `UpdatePlan`.
pub enum PlanView {
    Finished(OutcomeView),
    Download(int),
}

impl View for UpdatePlan {
    type V = PlanView;

    open spec fn view(&self) -> PlanView {
        match self {
            UpdatePlan::Finished(o) => PlanView::Finished(o@),
            UpdatePlan::Download(i) => PlanView::Download(*i as int),
        }
    }
}

/// The asset filename an update looks for: the canonical binary name, with
/// the executable suffix appended for Windows-style platforms.
pub open spec fn spec_binary_name(platform: Seq<char>) -> Seq<char> {
    if text::starts_with(platform, "windows"@) {
        "mcdp-cli"@ + ".exe"@
    } else {
        "mcdp-cli"@
    }
}

/// Compute the effective asset filename for a platform identifier.
pub fn effective_binary_name(platform: &str) -> (r: String)
    ensures
        r@ == spec_binary_name(platform@),
{
    if text::str_starts_with(platform, "windows") {
        let base = String::from_str("mcdp-cli");
        base.concat(".exe")
    } else {
        String::from_str("mcdp-cli")
    }
}

/// The index of the first asset named `name`, searching from position `i`.
pub open spec fn spec_first_match_from(assets: Seq<AssetView>, name: Seq<char>, i: int) -> Option<
    int,
>
    decreases assets.len() - i,
{
    if i < 0 || i >= assets.len() {
        None
    } else if assets[i].name == name {
        Some(i)
    } else {
        spec_first_match_from(assets, name, i + 1)
    }
}

/// The index of the first asset named `name`, if any.
pub open spec fn spec_first_match(assets: Seq<AssetView>, name: Seq<char>) -> Option<int> {
    spec_first_match_from(assets, name, 0)
}

/// Searching from `i` finds `k` when nothing in between matches and `k`
/// does; it finds nothing when nothing from `i` on matches.
proof fn lemma_first_match_from_step(assets: Seq<AssetView>, name: Seq<char>, i: int, k: int)
    requires
        0 <= i <= k <= assets.len(),
        forall|j: int| i <= j < k ==> assets[j].name != name,
    ensures
        k < assets.len() && assets[k].name == name ==> spec_first_match_from(assets, name, i)
            == Some(k),
        k == assets.len() ==> spec_first_match_from(assets, name, i) is None,
    decreases k - i,
{
    if i < k {
        lemma_first_match_from_step(assets, name, i + 1, k);
    }
}

/// Find the first asset with the given name.
pub fn find_asset(assets: &Vec<AssetDescriptor>, name: &str) -> (r: Option<usize>)
    ensures
        spec_first_match(assets_view(assets@), name@) is Some ==> (r is Some && r->0
            == spec_first_match(assets_view(assets@), name@)->0),
        spec_first_match(assets_view(assets@), name@) is None ==> r is None,
        r is Some ==> r->0 < assets@.len() && assets_view(assets@)[r->0 as int].name == name@,
{
    let n = assets.len();
    let mut i: usize = 0;
    while i < n
        invariant
            n == assets.len(),
            0 <= i <= n,
            forall|j: int| 0 <= j < i ==> assets_view(assets@)[j].name != name@,
        decreases n - i,
    {
        if text::str_eq(assets[i].name.as_str(), name) {
            proof {
                assert(assets_view(assets@)[i as int].name == name@);
                lemma_first_match_from_step(assets_view(assets@), name@, 0, i as int);
            }
            return Some(i);
        }
        proof {
            assert(assets_view(assets@)[i as int].name == assets@[i as int].name@);
        }
        i = i + 1;
    }
    proof {
        lemma_first_match_from_step(assets_view(assets@), name@, 0, n as int);
    }
    None
}

/// The plan a run decides on, as a function of its inputs alone: equal
/// versions end it at once; a check-only run stops at reporting; an apply
/// run looks the effective asset filename up in the release's assets.
pub open spec fn spec_plan(
    mode: UpdateMode,
    id: IdentityView,
    triple: Seq<char>,
    rel: ReleaseView,
) -> PlanView {
    if id.version == rel.version {
        PlanView::Finished(OutcomeView::AlreadyUpToDate(id.version))
    } else if mode is CheckOnly {
        PlanView::Finished(OutcomeView::UpdateAvailable(rel.version))
    } else {
        let platform = spec_platform(id.asset_target, triple);
        match spec_first_match(rel.assets, spec_binary_name(platform)) {
            Some(i) => PlanView::Download(i),
            None => PlanView::Finished(
                OutcomeView::Failed(ErrorCategory::NoMatchingAsset, platform),
            ),
        }
    }
}

/// Decide what an orchestration run does with a fetched release. The
/// inputs are read-only: planning touches neither the network nor the
/// installed executable, and a check-only run never plans a download.
pub fn plan_update(
    mode: UpdateMode,
    identity: &BuildIdentity,
    triple: &str,
    release: &ReleaseInfo,
) -> (r: UpdatePlan)
    ensures
        r@ == spec_plan(mode, identity@, triple@, release@),
        mode is CheckOnly ==> !(r@ is Download),
        r@ is Download ==> 0 <= r@->Download_0 < release@.assets.len()
            && release@.assets[r@->Download_0].name == spec_binary_name(
            spec_platform(identity@.asset_target, triple@),
        ),
{
    if text::str_eq(identity.version.as_str(), release.version.as_str()) {
        return UpdatePlan::Finished(UpdateOutcome::AlreadyUpToDate(identity.version.clone()));
    }
    match mode {
        UpdateMode::CheckOnly => UpdatePlan::Finished(
            UpdateOutcome::UpdateAvailable(release.version.clone()),
        ),
        UpdateMode::Apply => {
            let target_opt: Option<&str> = match &identity.asset_target {
                Some(t) => Some(t.as_str()),
                None => None,
            };
            let platform = platform_identifier(target_opt, triple);
            let name = effective_binary_name(platform.as_str());
            match find_asset(&release.assets, name.as_str()) {
                Some(i) => UpdatePlan::Download(i),
                None => UpdatePlan::Finished(
                    UpdateOutcome::Failed(ErrorCategory::NoMatchingAsset, platform),
                ),
            }
        },
    }
}

/// The view of a release query's result: the release's content, or the
/// failure message.
pub open spec fn fetch_view(fetched: Result<ReleaseInfo, String>) -> Result<
    ReleaseView,
    Seq<char>,
> {
    match fetched {
        Ok(rel) => Ok(rel@),
        Err(detail) => Err(detail@),
    }
}

/// What a whole run decides once the release query has returned: a failed
/// query is a network/API failure and stops the run; a fetched release
/// goes through the plan.
pub open spec fn spec_orchestrate(
    mode: UpdateMode,
    id: IdentityView,
    triple: Seq<char>,
    fetched: Result<ReleaseView, Seq<char>>,
) -> PlanView {
    match fetched {
        Ok(rel) => spec_plan(mode, id, triple, rel),
        Err(detail) => PlanView::Finished(
            OutcomeView::Failed(ErrorCategory::NetworkOrApi, detail),
        ),
    }
}

/// Decide a whole run from the release query's result. A failed query
/// never reaches the download step: the installed executable is untouched.
pub fn orchestrate(
    mode: UpdateMode,
    identity: &BuildIdentity,
    triple: &str,
    fetched: Result<ReleaseInfo, String>,
) -> (r: UpdatePlan)
    ensures
        r@ == spec_orchestrate(mode, identity@, triple@, fetch_view(fetched)),
        mode is CheckOnly ==> !(r@ is Download),
{
    match fetched {
        Ok(release) => plan_update(mode, identity, triple, &release),
        Err(detail) => UpdatePlan::Finished(
            UpdateOutcome::Failed(ErrorCategory::NetworkOrApi, detail),
        ),
    }
}

/// Conclude an apply run after the download-and-replace step: a successful
/// replace becomes `Updated` from the installed version to the fetched
/// release's version, exactly; a failure is classified from its message.
pub fn finish_update(
    identity: &BuildIdentity,
    release: &ReleaseInfo,
    replace_result: Result<(), String>,
) -> (r: UpdateOutcome)
    ensures
        replace_result is Ok ==> r@ == OutcomeView::Updated(identity@.version, release@.version),
        replace_result is Err ==> r@ == OutcomeView::Failed(
            spec_classification(replace_result->Err_0@),
            replace_result->Err_0@,
        ),
{
    match replace_result {
        Ok(()) => UpdateOutcome::Updated(identity.version.clone(), release.version.clone()),
        Err(msg) => {
            let cat = classify(msg.as_str());
            UpdateOutcome::Failed(cat, msg)
        },
    }
}

/// Whether an outcome ends the process successfully: every outcome but a
/// failure does.
pub fn is_success(outcome: &UpdateOutcome) -> (r: bool)
    ensures
        r == !(outcome@ is Failed),
{
    match outcome {
        UpdateOutcome::Failed(_, _) => false,
        _ => true,
    }
}

/// A check-only run never plans a download — for the up-to-date case, the
/// update-available case, and the failed query alike: the only step that
/// mutates the installed executable is never reached.
pub proof fn lemma_check_only_is_read_only(
    id: IdentityView,
    triple: Seq<char>,
    fetched: Result<ReleaseView, Seq<char>>,
)
    ensures
        !(spec_orchestrate(UpdateMode::CheckOnly, id, triple, fetched) is Download),
{
}

/// Equal versions end the run at once with `AlreadyUpToDate`, in either
/// mode, with no download planned.
pub proof fn lemma_up_to_date(mode: UpdateMode, id: IdentityView, triple: Seq<char>, rel: ReleaseView)
    requires
        id.version == rel.version,
    ensures
        spec_plan(mode, id, triple, rel) == PlanView::Finished(
            OutcomeView::AlreadyUpToDate(id.version),
        ),
{
}

/// An apply run against a release whose assets nowhere carry the effective
/// filename fails with `NoMatchingAsset`, naming the platform identifier,
/// and plans no download.
pub proof fn lemma_no_matching_asset(id: IdentityView, triple: Seq<char>, rel: ReleaseView)
    requires
        id.version != rel.version,
        forall|j: int|
            0 <= j < rel.assets.len() ==> rel.assets[j].name != spec_binary_name(
                spec_platform(id.asset_target, triple),
            ),
    ensures
        spec_plan(UpdateMode::Apply, id, triple, rel) == PlanView::Finished(
            OutcomeView::Failed(
                ErrorCategory::NoMatchingAsset,
                spec_platform(id.asset_target, triple),
            ),
        ),
{
    lemma_first_match_from_step(
        rel.assets,
        spec_binary_name(spec_platform(id.asset_target, triple)),
        0,
        rel.assets.len() as int,
    );
}

/// Two check-only runs against an unchanged remote release plan identical
/// outcomes.
pub proof fn lemma_check_only_idempotent(
    id: IdentityView,
    triple: Seq<char>,
    first: Result<ReleaseView, Seq<char>>,
    second: Result<ReleaseView, Seq<char>>,
)
    requires
        first == second,
    ensures
        spec_orchestrate(UpdateMode::CheckOnly, id, triple, first) == spec_orchestrate(
            UpdateMode::CheckOnly,
            id,
            triple,
            second,
        ),
{
}

} // verus!
