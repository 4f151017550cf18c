use vstd::prelude::*;

use crate::errors::Error;
use crate::github::Updater;
use crate::jsonval::parse_assets;
use crate::jsonval::parse_tag;
use crate::jsonval::spec_all_assets_ok;
use crate::jsonval::spec_asset_name;
use crate::jsonval::spec_asset_url;
use crate::jsonval::spec_assets_list;
use crate::jsonval::spec_parsed_assets;
use crate::jsonval::spec_string_field;
use crate::release::contains_substr;
use crate::release::select_asset;
use crate::release::ReleaseAsset;
use crate::version::compare;
use crate::version::seq_str_lt;
use crate::version::spec_strip_v;
use crate::version::strip_v;

verus! {

/// Why an update run ended early without error: the running binary is
/// already the latest published version, or the user declined the
/// confirmation prompt.
#[derive(Debug, PartialEq, Eq, Structural)]
pub enum AbortReason {
    AlreadyUpToDate,
    Declined,
}

/// The orchestrator's states. One update run moves strictly forward:
/// `CheckingVersions` to `ResolvingAsset` to `AwaitingConfirmation` to
/// `Downloading` to `Extracting` to `Replacing` to `Done`, with `Aborted`
/// reachable from `CheckingVersions` (already up to date) and from
/// `AwaitingConfirmation` (user declined) and `Failed` terminal for every
/// genuine failure. The embedding application performs the outside work
/// each state calls for (fetch, prompt, download, extract, replace) and
/// feeds the outcome back through the transition of that state.
#[derive(Debug)]
pub enum UpdateStep {
    CheckingVersions,
    ResolvingAsset { tag: String },
    AwaitingConfirmation { asset: ReleaseAsset },
    Downloading { asset: ReleaseAsset },
    Extracting { asset: ReleaseAsset },
    Replacing,
    Done,
    Aborted { reason: AbortReason },
    Failed { error: Error },
}

/// Whether the orchestrator proceeds past `CheckingVersions`: only when
/// the latest tag, leading `v` stripped, sorts ordinally above the
/// running version.
pub open spec fn spec_update_proceeds(current: Seq<char>, tag: Seq<char>) -> bool {
    seq_str_lt(current, spec_strip_v(tag))
}

/// A release tag that strips to the running version itself never moves a
/// run past `CheckingVersions`: the ordinal order is irreflexive, so an
/// equal version always aborts as already up to date.
pub proof fn lemma_equal_version_does_not_proceed(current: Seq<char>, tag: Seq<char>)
    requires
        current == spec_strip_v(tag),
    ensures
        !spec_update_proceeds(current, tag),
{
    lemma_lt_irreflexive(current);
}

/// The ordinal order is irreflexive: no version sorts below itself.
proof fn lemma_lt_irreflexive(s: Seq<char>)
    ensures
        !seq_str_lt(s, s),
    decreases s.len(),
{
    if s.len() > 0 {
        lemma_lt_irreflexive(s.skip(1));
    }
}

impl Updater {
    /// Start one update run.
    pub fn begin(&self) -> (r: UpdateStep)
        ensures
            r == UpdateStep::CheckingVersions,
    {
        UpdateStep::CheckingVersions
    }

    /// Leave `CheckingVersions` on the fetched release tag: proceed to
    /// asset resolution exactly when the stripped tag is ordinally newer
    /// than the running version; an equal or lesser version ends the run
    /// cleanly, with no further side effects.
    pub fn on_tag(&self, step: UpdateStep, tag: &str) -> (r: UpdateStep)
        requires
            step is CheckingVersions,
        ensures
            spec_update_proceeds(self.current_version@, tag@) ==> (r matches
                UpdateStep::ResolvingAsset { tag: t } && t@ == tag@),
            !spec_update_proceeds(self.current_version@, tag@) ==> r == (UpdateStep::Aborted {
                reason: AbortReason::AlreadyUpToDate,
            }),
    {
        let stripped = strip_v(tag);
        match compare(self.current_version.as_str(), stripped) {
            core::cmp::Ordering::Less => UpdateStep::ResolvingAsset {
                tag: String::from_str(tag),
            },
            _ => UpdateStep::Aborted { reason: AbortReason::AlreadyUpToDate },
        }
    }

    /// Leave `ResolvingAsset` on the parsed asset list: await confirmation
    /// with the first asset whose name contains the configured target;
    /// the absence of a match is a hard failure, not a silent skip.
    pub fn on_assets(&self, step: UpdateStep, assets: &Vec<ReleaseAsset>) -> (r: UpdateStep)
        requires
            step is ResolvingAsset,
        ensures
            (exists|i: int|
                0 <= i < assets@.len() && contains_substr(assets@[i].name@, self.target@)) ==> (
            r matches UpdateStep::AwaitingConfirmation { asset } && exists|i: int|
                {
                    &&& 0 <= i < assets@.len()
                    &&& asset == assets@[i]
                    &&& contains_substr(assets@[i].name@, self.target@)
                    &&& forall|j: int|
                        0 <= j < i ==> !contains_substr(assets@[j].name@, self.target@)
                }),
            !(exists|i: int|
                0 <= i < assets@.len() && contains_substr(assets@[i].name@, self.target@)) ==> (
            r matches UpdateStep::Failed { error } && error is Update && error.spec_message()
                == "No release asset found for current target: `"@ + self.target@ + "`"@),
    {
        match select_asset(assets, self.target.as_str()) {
            Ok(asset) => UpdateStep::AwaitingConfirmation { asset },
            Err(error) => UpdateStep::Failed { error },
        }
    }

    /// Leave `AwaitingConfirmation` on the user's answer: an affirmative
    /// moves to downloading the selected asset, anything else aborts
    /// cleanly.
    pub fn on_confirmation(&self, step: UpdateStep, affirmative: bool) -> (r: UpdateStep)
        requires
            step is AwaitingConfirmation,
        ensures
            affirmative ==> (r matches UpdateStep::Downloading { asset } && (step matches
                UpdateStep::AwaitingConfirmation { asset: a } && asset == a)),
            !affirmative ==> r == (UpdateStep::Aborted { reason: AbortReason::Declined }),
    {
        match step {
            UpdateStep::AwaitingConfirmation { asset } => if affirmative {
                UpdateStep::Downloading { asset }
            } else {
                UpdateStep::Aborted { reason: AbortReason::Declined }
            },
            _ => UpdateStep::Aborted { reason: AbortReason::Declined },
        }
    }

    /// Leave `Downloading` once the asset has been streamed to the scratch
    /// directory: the archive is next unpacked there.
    pub fn on_downloaded(&self, step: UpdateStep) -> (r: UpdateStep)
        requires
            step is Downloading,
        ensures
            r matches UpdateStep::Extracting { asset } && (step matches UpdateStep::Downloading {
                asset: a,
            } && asset == a),
    {
        match step {
            UpdateStep::Downloading { asset } => UpdateStep::Extracting { asset },
            _ => UpdateStep::Replacing,
        }
    }

    /// Leave `Extracting` once the archive is unpacked: the new executable
    /// is next moved into place.
    pub fn on_extracted(&self, step: UpdateStep) -> (r: UpdateStep)
        requires
            step is Extracting,
        ensures
            r == UpdateStep::Replacing,
    {
        UpdateStep::Replacing
    }

    /// Leave `Replacing` once the binary is installed: the run is done and
    /// the scratch directory may be released.
    pub fn on_replaced(&self, step: UpdateStep) -> (r: UpdateStep)
        requires
            step is Replacing,
        ensures
            r == UpdateStep::Done,
    {
        UpdateStep::Done
    }

    /// Drive `CheckingVersions` and, when a newer version is published,
    /// `ResolvingAsset` from the raw metadata record: parse the tag first
    /// (the asset list is not even parsed when the run aborts as already
    /// up to date), then the assets, then resolve. The outcome is fixed by
    /// the record's named contents: failed when a required field is
    /// missing, aborted exactly when the stripped tag does not sort above
    /// the running version, else awaiting confirmation with the first
    /// asset whose name contains the configured target.
    pub fn on_release_value(&self, step: UpdateStep, release: &serde_json::Value) -> (r:
        UpdateStep)
        requires
            step is CheckingVersions,
        ensures
            r is AwaitingConfirmation || r is Aborted || r is Failed,
            r matches UpdateStep::Failed { error } ==> error is Update,
            r matches UpdateStep::Aborted { reason } ==> reason == AbortReason::AlreadyUpToDate,
            r matches UpdateStep::AwaitingConfirmation { asset } ==> contains_substr(
                asset.name@,
                self.target@,
            ),
            spec_string_field(*release, "tag_name"@) is None ==> (r matches UpdateStep::Failed {
                error,
            } && error.spec_message() == "No tag_name found for latest release"@),
            spec_string_field(*release, "tag_name"@) matches Some(t) ==> (!spec_update_proceeds(
                self.current_version@,
                t,
            ) ==> r == (UpdateStep::Aborted { reason: AbortReason::AlreadyUpToDate })),
            spec_string_field(*release, "tag_name"@) matches Some(t) ==> (spec_update_proceeds(
                self.current_version@,
                t,
            ) ==> (spec_assets_list(*release) is None ==> (r matches UpdateStep::Failed { error }
                && error.spec_message() == "No release assets found!"@))),
            spec_string_field(*release, "tag_name"@) matches Some(t) ==> (spec_update_proceeds(
                self.current_version@,
                t,
            ) ==> (spec_assets_list(*release) matches Some(entries) ==> (spec_all_assets_ok(
                entries,
            ) ==> ((exists|i: int|
                0 <= i < entries.len() && contains_substr(
                    spec_asset_name(#[trigger] entries[i])->0,
                    self.target@,
                )) ==> (r matches UpdateStep::AwaitingConfirmation { asset } && (exists|i: int|
                {
                    &&& 0 <= i < entries.len()
                    &&& Some(asset.name@) == spec_asset_name(#[trigger] entries[i])
                    &&& Some(asset.download_url@) == spec_asset_url(entries[i])
                    &&& contains_substr(asset.name@, self.target@)
                    &&& forall|j: int|
                        0 <= j < i ==> !contains_substr(
                            spec_asset_name(#[trigger] entries[j])->0,
                            self.target@,
                        )
                })))))),
            spec_string_field(*release, "tag_name"@) matches Some(t) ==> (spec_update_proceeds(
                self.current_version@,
                t,
            ) ==> (spec_assets_list(*release) matches Some(entries) ==> (spec_all_assets_ok(
                entries,
            ) ==> (!(exists|i: int|
                0 <= i < entries.len() && contains_substr(
                    spec_asset_name(#[trigger] entries[i])->0,
                    self.target@,
                )) ==> (r matches UpdateStep::Failed { error } && error.spec_message()
                == "No release asset found for current target: `"@ + self.target@ + "`"@))))),
    {
        let tag = match parse_tag(release) {
            Ok(t) => t,
            Err(error) => {
                return UpdateStep::Failed { error };
            },
        };
        let next = self.on_tag(step, tag.as_str());
        match next {
            UpdateStep::ResolvingAsset { tag: t } => {
                let assets = match parse_assets(release) {
                    Ok(a) => a,
                    Err(error) => {
                        return UpdateStep::Failed { error };
                    },
                };
                let ghost entries = spec_assets_list(*release)->0;
                let ghost list = assets@;
                proof {
                    assert(spec_parsed_assets(entries, list));
                    assert forall|i: int| 0 <= i < entries.len() implies spec_asset_name(
                        #[trigger] entries[i],
                    )->0 == list[i].name@ by {
                        assert(Some(list[i].download_url@) == spec_asset_url(entries[i]));
                    }
                }
                let r = self.on_assets(UpdateStep::ResolvingAsset { tag: t }, &assets);
                proof {
                    if exists|i: int|
                        0 <= i < list.len() && contains_substr(
                            #[trigger] list[i].name@,
                            self.target@,
                        ) {
                        let i = choose|i: int|
                            {
                                &&& 0 <= i < list.len()
                                &&& (r matches UpdateStep::AwaitingConfirmation { asset }
                                    && asset == list[i])
                                &&& contains_substr(list[i].name@, self.target@)
                                &&& forall|j: int|
                                    0 <= j < i ==> !contains_substr(
                                        #[trigger] list[j].name@,
                                        self.target@,
                                    )
                            };
                        assert(contains_substr(spec_asset_name(entries[i])->0, self.target@));
                    } else {
                        assert forall|i: int| 0 <= i < entries.len() implies !contains_substr(
                            spec_asset_name(#[trigger] entries[i])->0,
                            self.target@,
                        ) by {
                            assert(!contains_substr(list[i].name@, self.target@));
                        }
                    }
                }
                r
            },
            _ => next,
        }
    }
}

} // verus!
