//! The binary-resolution decision procedure.
//!
//! Resolution alternates between decisions (made here) and outside work that
//! only the host can perform: checking whether a file exists, searching the
//! executable search path, emitting installation-status signals, identifying
//! the platform, fetching release metadata, downloading an archive, and
//! setting permission bits.  The [`Resolver`] is a step machine: the host
//! feeds it the outcome of the previous action as an [`Event`] and performs
//! the [`Action`] it answers with, until the answer is [`Action::Done`] or
//! [`Action::Fail`].
//!
//! The order of the steps follows the resolution contract: cached path first,
//! then the executable search path, then an install flow that classifies the
//! platform before any release metadata is fetched, so that an unsupported
//! host fails without network traffic.

use crate::platform::Arch;
use crate::platform::ArchiveKind;
use crate::platform::Os;
use crate::platform::archive_kind_spec;
use crate::platform::asset_for;
use crate::platform::asset_name_spec;
use crate::platform::supported;
use vstd::prelude::*;

verus! {

broadcast use vstd::std_specs::vec::group_vec_axioms, vstd::seq::group_seq_axioms;

/// The executable name that is searched on the host's search path.
pub open spec fn server_binary_name() -> Seq<char> {
    "crates-lsp"@
}

/// The upstream project whose releases carry the binary.
pub open spec fn repo_name() -> Seq<char> {
    "MathiasPius/crates-lsp"@
}

/// The version-qualified installation directory.
pub open spec fn version_dir_view(version: Seq<char>) -> Seq<char> {
    "crates-lsp-"@ + version
}

/// The binary filename inside the installation directory: with the executable
/// suffix on Windows, without it elsewhere.
pub open spec fn binary_name_view(windows: bool) -> Seq<char> {
    if windows {
        "crates-lsp.exe"@
    } else {
        "crates-lsp"@
    }
}

/// The expected binary path inside the version-qualified directory.
pub open spec fn binary_path_view(version: Seq<char>, windows: bool) -> Seq<char> {
    version_dir_view(version) + "/"@ + binary_name_view(windows)
}

/// A downloadable asset of a release: a filename and its download URL.
pub struct ReleaseAsset {
    pub name: String,
    pub download_url: String,
}

/// Release metadata: a version identifier and the named downloadable assets.
pub struct Release {
    pub version: String,
    pub assets: Vec<ReleaseAsset>,
}

/// Installation-status signals for the host's UI.
#[derive(Clone, Copy, PartialEq, Eq, Structural, Debug)]
pub enum InstallStatus {
    CheckingForUpdate,
    Downloading,
}

/// Everything the install flow still needs once an asset has been selected.
pub struct InstallPlan {
    pub url: String,
    pub archive: ArchiveKind,
    pub version_dir: String,
    pub binary_path: String,
    pub needs_chmod: bool,
}

/// Where the resolution procedure stands: which answer it is waiting for.
pub enum Phase {
    Idle,
    AwaitingCacheCheck { path: String },
    AwaitingPathLookup,
    AwaitingCheckStatus,
    AwaitingPlatform,
    AwaitingRelease { asset_name: String, archive: ArchiveKind, windows: bool },
    AwaitingBinaryCheck { plan: InstallPlan },
    AwaitingDownloadStatus { plan: InstallPlan },
    AwaitingDownload { plan: InstallPlan },
    AwaitingChmod { path: String },
}

/// An answer from the host: the outcome of the previously requested action.
#[allow(inconsistent_fields)]
pub enum Event {
    Start,
    FileChecked { exists: bool },
    ExecutableLookup { path: Option<String> },
    StatusAcknowledged,
    PlatformIdentified { os: Os, arch: Arch },
    ReleaseFetched { result: Result<Release, String> },
    DownloadFinished { result: Result<(), String> },
    ChmodFinished { result: Result<(), String> },
}

/// What the host is asked to do next.
#[derive(Debug, PartialEq)]
pub enum Action {
    CheckFile { path: String },
    LookupExecutable { name: String },
    EmitStatus { status: InstallStatus },
    IdentifyPlatform,
    FetchLatestRelease { repo: String, require_assets: bool, pre_release: bool },
    Download { url: String, directory: String, archive: ArchiveKind },
    SetExecutableBit { path: String },
    Done { path: String },
    Fail { message: String },
}

/// The resolver: the cached binary path and the current phase.
pub struct Resolver {
    pub cached_binary_path: Option<String>,
    pub phase: Phase,
}

/// The download URL of the first asset carrying `name`, if any.
pub open spec fn asset_url_spec(assets: Seq<ReleaseAsset>, name: Seq<char>) -> Option<Seq<char>>
    decreases assets.len(),
{
    if assets.len() == 0 {
        None
    } else if assets.first().name@ == name {
        Some(assets.first().download_url@)
    } else {
        asset_url_spec(assets.drop_first(), name)
    }
}

/// Whether the plan records exactly the given asset choice.
pub open spec fn plan_ok(
    plan: InstallPlan,
    url: Seq<char>,
    archive: ArchiveKind,
    version: Seq<char>,
    windows: bool,
) -> bool {
    &&& plan.url@ == url
    &&& plan.archive == archive
    &&& plan.version_dir@ == version_dir_view(version)
    &&& plan.binary_path@ == binary_path_view(version, windows)
    &&& plan.needs_chmod == !windows
}

impl Resolver {
    /// Whether the event answers what the current phase is waiting for.
    pub open spec fn accepts(self, event: Event) -> bool {
        match (self.phase, event) {
            (Phase::Idle, Event::Start) => true,
            (Phase::AwaitingCacheCheck { .. }, Event::FileChecked { .. }) => true,
            (Phase::AwaitingPathLookup, Event::ExecutableLookup { .. }) => true,
            (Phase::AwaitingCheckStatus, Event::StatusAcknowledged) => true,
            (Phase::AwaitingPlatform, Event::PlatformIdentified { .. }) => true,
            (Phase::AwaitingRelease { .. }, Event::ReleaseFetched { .. }) => true,
            (Phase::AwaitingBinaryCheck { .. }, Event::FileChecked { .. }) => true,
            (Phase::AwaitingDownloadStatus { .. }, Event::StatusAcknowledged) => true,
            (Phase::AwaitingDownload { .. }, Event::DownloadFinished { .. }) => true,
            (Phase::AwaitingChmod { .. }, Event::ChmodFinished { .. }) => true,
            _ => false,
        }
    }
}

/// The transition relation of the resolver: given the state before a step and
/// the event that was fed in, it pins down the state after the step and the
/// action that is answered, up to string representation.
pub open spec fn step_rel(pre: Resolver, event: Event, post: Resolver, action: Action) -> bool {
    match (pre.phase, event) {
        (Phase::Idle, Event::Start) => match pre.cached_binary_path {
            Some(p) => {
                &&& action matches Action::CheckFile { path } && path@ == p@
                &&& post.phase matches Phase::AwaitingCacheCheck { path: q } && q@ == p@
                &&& post.cached_binary_path == pre.cached_binary_path
            },
            None => {
                &&& action matches Action::LookupExecutable { name } && name@
                    == server_binary_name()
                &&& post.phase is AwaitingPathLookup
                &&& post.cached_binary_path == pre.cached_binary_path
            },
        },
        (Phase::AwaitingCacheCheck { path }, Event::FileChecked { exists }) => if exists {
            &&& action matches Action::Done { path: q } && q@ == path@
            &&& post.phase is Idle
            &&& post.cached_binary_path == pre.cached_binary_path
        } else {
            &&& action matches Action::LookupExecutable { name } && name@ == server_binary_name()
            &&& post.phase is AwaitingPathLookup
            &&& post.cached_binary_path == pre.cached_binary_path
        },
        (Phase::AwaitingPathLookup, Event::ExecutableLookup { path }) => match path {
            Some(p) => {
                &&& action matches Action::Done { path: q } && q@ == p@
                &&& post.phase is Idle
                &&& post.cached_binary_path matches Some(c) && c@ == p@
            },
            None => {
                &&& action matches Action::EmitStatus { status }
                    && status == InstallStatus::CheckingForUpdate
                &&& post.phase is AwaitingCheckStatus
                &&& post.cached_binary_path == pre.cached_binary_path
            },
        },
        (Phase::AwaitingCheckStatus, Event::StatusAcknowledged) => {
            &&& action is IdentifyPlatform
            &&& post.phase is AwaitingPlatform
            &&& post.cached_binary_path == pre.cached_binary_path
        },
        (Phase::AwaitingPlatform, Event::PlatformIdentified { os, arch }) => if supported(
            os,
            arch,
        ) {
            &&& action matches Action::FetchLatestRelease { repo, require_assets, pre_release }
                && repo@ == repo_name() && require_assets == true && pre_release == false
            &&& post.phase matches Phase::AwaitingRelease { asset_name, archive, windows }
                && Some(asset_name@) == asset_name_spec(os, arch) && archive == archive_kind_spec(
                os,
            ) && windows == (os is Windows)
            &&& post.cached_binary_path == pre.cached_binary_path
        } else {
            &&& action matches Action::Fail { message } && message@ == "Unsupported platform"@
            &&& post.phase is Idle
            &&& post.cached_binary_path == pre.cached_binary_path
        },
        (
            Phase::AwaitingRelease { asset_name, archive, windows },
            Event::ReleaseFetched { result },
        ) => match result {
            Err(e) => {
                &&& action matches Action::Fail { message } && message@ == e@
                &&& post.phase is Idle
                &&& post.cached_binary_path == pre.cached_binary_path
            },
            Ok(release) => match asset_url_spec(release.assets@, asset_name@) {
                None => {
                    &&& action matches Action::Fail { message } && message@
                        == "Language server binary not found"@
                    &&& post.phase is Idle
                    &&& post.cached_binary_path == pre.cached_binary_path
                },
                Some(url) => {
                    &&& action matches Action::CheckFile { path } && path@ == binary_path_view(
                        release.version@,
                        windows,
                    )
                    &&& post.phase matches Phase::AwaitingBinaryCheck { plan } && plan_ok(
                        plan,
                        url,
                        archive,
                        release.version@,
                        windows,
                    )
                    &&& post.cached_binary_path == pre.cached_binary_path
                },
            },
        },
        (Phase::AwaitingBinaryCheck { plan }, Event::FileChecked { exists }) => if exists {
            &&& action matches Action::Done { path: q } && q@ == plan.binary_path@
            &&& post.phase is Idle
            &&& post.cached_binary_path matches Some(c) && c@ == plan.binary_path@
        } else {
            &&& action matches Action::EmitStatus { status } && status
                == InstallStatus::Downloading
            &&& post.phase matches Phase::AwaitingDownloadStatus { plan: p2 } && p2 == plan
            &&& post.cached_binary_path == pre.cached_binary_path
        },
        (Phase::AwaitingDownloadStatus { plan }, Event::StatusAcknowledged) => {
            &&& action matches Action::Download { url, directory, archive } && url@ == plan.url@
                && directory@ == plan.version_dir@ && archive == plan.archive
            &&& post.phase matches Phase::AwaitingDownload { plan: p2 } && p2 == plan
            &&& post.cached_binary_path == pre.cached_binary_path
        },
        (Phase::AwaitingDownload { plan }, Event::DownloadFinished { result }) => match result {
            Err(e) => {
                &&& action matches Action::Fail { message } && message@ == "Failed to download: "@
                    + e@
                &&& post.phase is Idle
                &&& post.cached_binary_path == pre.cached_binary_path
            },
            Ok(_) => if plan.needs_chmod {
                &&& action matches Action::SetExecutableBit { path } && path@
                    == plan.binary_path@
                &&& post.phase matches Phase::AwaitingChmod { path: q } && q@
                    == plan.binary_path@
                &&& post.cached_binary_path == pre.cached_binary_path
            } else {
                &&& action matches Action::Done { path: q } && q@ == plan.binary_path@
                &&& post.phase is Idle
                &&& post.cached_binary_path matches Some(c) && c@ == plan.binary_path@
            },
        },
        (Phase::AwaitingChmod { path }, Event::ChmodFinished { result }) => match result {
            Err(e) => {
                &&& action matches Action::Fail { message } && message@
                    == "Failed to set permissions: "@ + e@
                &&& post.phase is Idle
                &&& post.cached_binary_path == pre.cached_binary_path
            },
            Ok(_) => {
                &&& action matches Action::Done { path: q } && q@ == path@
                &&& post.phase is Idle
                &&& post.cached_binary_path matches Some(c) && c@ == path@
            },
        },
        _ => false,
    }
}

/// Finds the download URL of the first asset carrying `name`.
fn find_asset_url(assets: &Vec<ReleaseAsset>, name: &String) -> (r: Option<String>)
    ensures
        match r {
            Some(u) => asset_url_spec(assets@, name@) == Some(u@),
            None => asset_url_spec(assets@, name@) is None,
        },
{
    proof {
        assert(assets@.skip(0) =~= assets@);
    }
    let mut i: usize = 0;
    while i < assets.len()
        invariant
            i <= assets@.len(),
            asset_url_spec(assets@, name@) == asset_url_spec(assets@.skip(i as int), name@),
        decreases assets@.len() - i,
    {
        proof {
            assert(assets@.skip(i as int).first() == assets@[i as int]);
        }
        if assets[i].name == *name {
            return Some(assets[i].download_url.clone());
        }
        proof {
            assert(assets@.skip(i as int).drop_first() =~= assets@.skip(i as int + 1));
        }
        i += 1;
    }
    proof {
        assert(assets@.skip(assets@.len() as int) =~= Seq::<ReleaseAsset>::empty());
    }
    None
}

impl Resolver {
    /// A fresh resolver: nothing cached, nothing underway.
    pub fn new() -> (r: Resolver)
        ensures
            r.cached_binary_path is None,
            r.phase is Idle,
    {
        Resolver { cached_binary_path: None, phase: Phase::Idle }
    }

    /// Feeds the outcome of the previous action into the machine and answers
    /// with the next action, as pinned down by [`step_rel`].
    pub fn step(&mut self, event: Event) -> (action: Action)
        requires
            old(self).accepts(event),
        ensures
            step_rel(*old(self), event, *final(self), action),
    {
        let mut phase = Phase::Idle;
        core::mem::swap(&mut phase, &mut self.phase);
        match (phase, event) {
            (Phase::Idle, Event::Start) => match &self.cached_binary_path {
                Some(p) => {
                    let path = p.clone();
                    self.phase = Phase::AwaitingCacheCheck { path: path.clone() };
                    Action::CheckFile { path }
                },
                None => {
                    self.phase = Phase::AwaitingPathLookup;
                    Action::LookupExecutable { name: String::from_str("crates-lsp") }
                },
            },
            (Phase::AwaitingCacheCheck { path }, Event::FileChecked { exists }) => if exists {
                Action::Done { path }
            } else {
                self.phase = Phase::AwaitingPathLookup;
                Action::LookupExecutable { name: String::from_str("crates-lsp") }
            },
            (Phase::AwaitingPathLookup, Event::ExecutableLookup { path }) => match path {
                Some(p) => {
                    self.cached_binary_path = Some(p.clone());
                    Action::Done { path: p }
                },
                None => {
                    self.phase = Phase::AwaitingCheckStatus;
                    Action::EmitStatus { status: InstallStatus::CheckingForUpdate }
                },
            },
            (Phase::AwaitingCheckStatus, Event::StatusAcknowledged) => {
                self.phase = Phase::AwaitingPlatform;
                Action::IdentifyPlatform
            },
            (Phase::AwaitingPlatform, Event::PlatformIdentified { os, arch }) => {
                match asset_for(os, arch) {
                    Some((asset_name, archive)) => {
                        self.phase = Phase::AwaitingRelease {
                            asset_name,
                            archive,
                            windows: os == Os::Windows,
                        };
                        Action::FetchLatestRelease {
                            repo: String::from_str("MathiasPius/crates-lsp"),
                            require_assets: true,
                            pre_release: false,
                        }
                    },
                    None => Action::Fail { message: String::from_str("Unsupported platform") },
                }
            },
            (
                Phase::AwaitingRelease { asset_name, archive, windows },
                Event::ReleaseFetched { result },
            ) => match result {
                Err(e) => Action::Fail { message: e },
                Ok(release) => match find_asset_url(&release.assets, &asset_name) {
                    None => Action::Fail {
                        message: String::from_str("Language server binary not found"),
                    },
                    Some(url) => {
                        let version_dir = String::from_str("crates-lsp-").concat(
                            release.version.as_str(),
                        );
                        let binary_path = version_dir.clone().concat("/").concat(
                            if windows {
                                "crates-lsp.exe"
                            } else {
                                "crates-lsp"
                            },
                        );
                        let action = Action::CheckFile { path: binary_path.clone() };
                        self.phase = Phase::AwaitingBinaryCheck {
                            plan: InstallPlan {
                                url,
                                archive,
                                version_dir,
                                binary_path,
                                needs_chmod: !windows,
                            },
                        };
                        action
                    },
                },
            },
            (Phase::AwaitingBinaryCheck { plan }, Event::FileChecked { exists }) => if exists {
                self.cached_binary_path = Some(plan.binary_path.clone());
                Action::Done { path: plan.binary_path }
            } else {
                let action = Action::EmitStatus { status: InstallStatus::Downloading };
                self.phase = Phase::AwaitingDownloadStatus { plan };
                action
            },
            (Phase::AwaitingDownloadStatus { plan }, Event::StatusAcknowledged) => {
                let action = Action::Download {
                    url: plan.url.clone(),
                    directory: plan.version_dir.clone(),
                    archive: plan.archive,
                };
                self.phase = Phase::AwaitingDownload { plan };
                action
            },
            (Phase::AwaitingDownload { plan }, Event::DownloadFinished { result }) => {
                match result {
                    Err(e) => Action::Fail {
                        message: String::from_str("Failed to download: ").concat(e.as_str()),
                    },
                    Ok(_) => if plan.needs_chmod {
                        let action = Action::SetExecutableBit {
                            path: plan.binary_path.clone(),
                        };
                        self.phase = Phase::AwaitingChmod { path: plan.binary_path };
                        action
                    } else {
                        self.cached_binary_path = Some(plan.binary_path.clone());
                        Action::Done { path: plan.binary_path }
                    },
                }
            },
            (Phase::AwaitingChmod { path }, Event::ChmodFinished { result }) => match result {
                Err(e) => Action::Fail {
                    message: String::from_str("Failed to set permissions: ").concat(e.as_str()),
                },
                Ok(_) => {
                    self.cached_binary_path = Some(path.clone());
                    Action::Done { path }
                },
            },
            // never reached: `accepts` rules these pairs out; the arm only
            // keeps the match total for the compiler
            (other, _) => {
                self.phase = other;
                Action::Fail { message: String::new() }
            },
        }
    }
}

/// Actions that reach the network: the release-metadata fetch and the
/// download.
pub open spec fn is_network(a: Action) -> bool {
    a is FetchLatestRelease || a is Download
}

/// Actions that end a resolution run.
pub open spec fn terminal(a: Action) -> bool {
    a is Done || a is Fail
}

/// The phases in which no release metadata has been requested yet.
pub open spec fn before_release(p: Phase) -> bool {
    ||| p is Idle
    ||| p is AwaitingCacheCheck
    ||| p is AwaitingPathLookup
    ||| p is AwaitingCheckStatus
    ||| p is AwaitingPlatform
}

/// A run of the machine: `states[i]` steps to `states[i + 1]` under
/// `events[i]`, answering `actions[i]`.
pub open spec fn run_ok(states: Seq<Resolver>, events: Seq<Event>, actions: Seq<Action>) -> bool {
    &&& states.len() == events.len() + 1
    &&& actions.len() == events.len()
    &&& forall|i: int|
        0 <= i < events.len() ==> step_rel(
            states[i],
            #[trigger] events[i],
            states[i + 1],
            actions[i],
        )
}

/// How one step moves between the early phases: before any release fetch, a
/// non-final step keeps the cache, leaves the early phases only through the
/// release fetch itself, and never downloads; once the early phases are left,
/// a non-final step never returns to them.
proof fn lemma_step_phase_flow(pre: Resolver, event: Event, post: Resolver, action: Action)
    requires
        step_rel(pre, event, post, action),
    ensures
        before_release(pre.phase) && !terminal(action) ==> post.cached_binary_path
            == pre.cached_binary_path,
        before_release(pre.phase) && !terminal(action) && !(action is FetchLatestRelease)
            ==> before_release(post.phase),
        before_release(pre.phase) && action is FetchLatestRelease ==> !before_release(post.phase),
        before_release(pre.phase) ==> !(action is Download),
        !before_release(pre.phase) && !terminal(action) ==> !before_release(post.phase),
{
}

/// Only a platform answer can be in flight when a platform answer is fed in.
proof fn lemma_platform_event_phase(pre: Resolver, event: Event, post: Resolver, action: Action)
    requires
        step_rel(pre, event, post, action),
        event is PlatformIdentified,
    ensures
        pre.phase is AwaitingPlatform,
{
}

/// In a run whose steps all stay before a final answer, a state in the early
/// phases has only early-phase states before it.
proof fn lemma_before_release_back(
    states: Seq<Resolver>,
    events: Seq<Event>,
    actions: Seq<Action>,
    j: int,
    m: int,
)
    requires
        run_ok(states, events, actions),
        0 <= j <= m <= events.len(),
        forall|i: int| 0 <= i < m ==> !terminal(#[trigger] actions[i]),
        before_release(states[m].phase),
    ensures
        before_release(states[j].phase),
    decreases m - j,
{
    if j < m {
        lemma_before_release_back(states, events, actions, j + 1, m);
        lemma_step_phase_flow(states[j], events[j], states[j + 1], actions[j]);
    }
}

/// Non-final steps through the early phases leave the cached path untouched.
proof fn lemma_cache_chain(states: Seq<Resolver>, events: Seq<Event>, actions: Seq<Action>, j: int)
    requires
        run_ok(states, events, actions),
        0 <= j <= events.len(),
        forall|i: int| 0 <= i < j ==> before_release((#[trigger] states[i]).phase),
        forall|i: int| 0 <= i < j ==> !terminal(#[trigger] actions[i]),
    ensures
        states[j].cached_binary_path == states[0].cached_binary_path,
    decreases j,
{
    if j > 0 {
        lemma_cache_chain(states, events, actions, j - 1);
        lemma_step_phase_flow(states[j - 1], events[j - 1], states[j], actions[j - 1]);
    }
}

/// A resolution run that starts idle and is answered with an unsupported
/// platform pair fails at that answer, with no network action anywhere in the
/// run and the cached path unchanged.
pub proof fn lemma_unsupported_platform_run(
    states: Seq<Resolver>,
    events: Seq<Event>,
    actions: Seq<Action>,
    os: Os,
    arch: Arch,
)
    requires
        run_ok(states, events, actions),
        events.len() > 0,
        states[0].phase is Idle,
        forall|i: int| 0 <= i < events.len() - 1 ==> !terminal(#[trigger] actions[i]),
        events.last() == (Event::PlatformIdentified { os, arch }),
        !supported(os, arch),
    ensures
        actions.last() matches Action::Fail { message } && message@ == "Unsupported platform"@,
        forall|i: int| 0 <= i < actions.len() ==> !is_network(#[trigger] actions[i]),
        states.last().phase is Idle,
        states.last().cached_binary_path == states[0].cached_binary_path,
{
    let m = events.len() - 1;
    lemma_platform_event_phase(states[m], events[m], states[m + 1], actions[m]);
    assert forall|j: int| 0 <= j <= m implies before_release((#[trigger] states[j]).phase) by {
        lemma_before_release_back(states, events, actions, j, m);
    }
    assert forall|i: int| 0 <= i < actions.len() implies !is_network(#[trigger] actions[i]) by {
        lemma_step_phase_flow(states[i], events[i], states[i + 1], actions[i]);
        if i < m {
            assert(before_release(states[i + 1].phase));
        }
    }
    lemma_cache_chain(states, events, actions, m);
    lemma_step_phase_flow(states[m], events[m], states[m + 1], actions[m]);
}

/// With a cached path already in hand, a resolution run is two steps: one
/// file-existence check and the final answer, returning the cached path
/// unchanged, with no network action and no second filesystem check.
pub proof fn lemma_cached_short_circuit(
    r: Resolver,
    p: String,
    s1: Resolver,
    a1: Action,
    s2: Resolver,
    a2: Action,
)
    requires
        r.phase is Idle,
        r.cached_binary_path == Some(p),
        step_rel(r, Event::Start, s1, a1),
        step_rel(s1, Event::FileChecked { exists: true }, s2, a2),
    ensures
        a1 matches Action::CheckFile { path } && path@ == p@,
        a2 matches Action::Done { path: q } && q@ == p@,
        !is_network(a1) && !is_network(a2),
        s2.phase is Idle,
        s2.cached_binary_path == Some(p),
{
}

} // verus!
