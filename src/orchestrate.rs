//! The update orchestrator: resolve the release, gate on the version, and
//! bracket the apply step with the before/after hooks.
//!
//! The orchestrator is a state machine. `Update::step` takes the current
//! phase and what just happened, and returns the next phase and what the
//! caller must do next (send a request, run a hook command, apply the
//! update, or report). The caller performs each action and feeds its
//! outcome back as the next event.
use vstd::prelude::*;
use crate::error::{ErrorKind, UpdateError};
use crate::plan::Update;
use crate::query::{
    api_headers, api_root, headers_accept, headers_for, list_url, list_verdict, names_url,
    list_endpoint, read_list_reply, read_version_reply, root_of, version_endpoint, version_url,
    version_verdict, ApiRequest, HttpOutcome,
};
use crate::release::{releases_view, AssetView, Release, ReleaseView, Soft};
use crate::text::{contains, str_contains};

verus! {

/// How an update run ended when it did not fail.
#[derive(Debug)]
pub enum UpdateStatus {
    /// The installed version is the resolved one; nothing was applied.
    UpToDate(String),
    /// The resolved version was applied.
    Updated(String),
}

/// The release chosen for applying: its version and where its binary is.
#[derive(Debug)]
pub struct Pending {
    pub version: String,
    pub download_url: String,
}

/// What the apply-update step is handed.
#[derive(Debug)]
pub struct ApplyRequest {
    pub download_url: String,
    pub bin_install_path: String,
    pub bin_name: String,
    pub bin_path_in_archive: String,
    pub show_download_progress: bool,
    pub show_output: bool,
    pub no_confirm: bool,
}

/// Where an update run stands.
#[derive(Debug)]
pub enum Phase {
    Start,
    /// Waiting for the answer to the release request.
    Resolving,
    /// Waiting for the before-hook to finish.
    BeforeHook(Pending),
    /// Waiting for the apply step to finish.
    Applying(Pending),
    /// Waiting for the after-hook; the apply outcome is kept for the report.
    AfterHook { version: String, applied: Result<(), String> },
    Finished,
}

/// What happened since the last step.
#[derive(Debug)]
pub enum Event {
    Begin,
    ListReply(HttpOutcome<Vec<Soft>>),
    VersionReply(HttpOutcome<Soft>),
    /// A hook command ended; its outcome is only for logging.
    HookDone { succeeded: bool },
    /// The apply step ended, with its failure message if it failed.
    ApplyDone(Result<(), String>),
}

/// What the caller must do next.
#[derive(Debug)]
pub enum Action {
    FetchList(ApiRequest),
    FetchVersion(ApiRequest),
    RunHook(String),
    Apply(ApplyRequest),
    Report(Result<UpdateStatus, UpdateError>),
}

pub enum StatusView {
    UpToDate(Seq<char>),
    Updated(Seq<char>),
}

pub struct PendingView {
    pub version: Seq<char>,
    pub download_url: Seq<char>,
}

pub enum PhaseView {
    Start,
    Resolving,
    BeforeHook(PendingView),
    Applying(PendingView),
    AfterHook(Seq<char>, Result<(), Seq<char>>),
    Finished,
}

/// An action, with requests given by their URL and an apply step by the
/// URL of the binary.
pub enum ActionView {
    FetchList(Seq<char>),
    FetchVersion(Seq<char>),
    RunHook(Seq<char>),
    Apply(Seq<char>),
    Report(Result<StatusView, ErrorKind>),
}

impl View for UpdateStatus {
    type V = StatusView;

    open spec fn view(&self) -> StatusView {
        match self {
            UpdateStatus::UpToDate(v) => StatusView::UpToDate(v@),
            UpdateStatus::Updated(v) => StatusView::Updated(v@),
        }
    }
}

impl View for Pending {
    type V = PendingView;

    open spec fn view(&self) -> PendingView {
        PendingView { version: self.version@, download_url: self.download_url@ }
    }
}

pub open spec fn outcome_view(o: Result<(), String>) -> Result<(), Seq<char>> {
    match o {
        Ok(()) => Ok(()),
        Err(m) => Err(m@),
    }
}

impl View for Phase {
    type V = PhaseView;

    open spec fn view(&self) -> PhaseView {
        match self {
            Phase::Start => PhaseView::Start,
            Phase::Resolving => PhaseView::Resolving,
            Phase::BeforeHook(p) => PhaseView::BeforeHook(p@),
            Phase::Applying(p) => PhaseView::Applying(p@),
            Phase::AfterHook { version, applied } => PhaseView::AfterHook(version@, outcome_view(*applied)),
            Phase::Finished => PhaseView::Finished,
        }
    }
}

impl View for Action {
    type V = ActionView;

    open spec fn view(&self) -> ActionView {
        match self {
            Action::FetchList(q) => ActionView::FetchList(q.url@),
            Action::FetchVersion(q) => ActionView::FetchVersion(q.url@),
            Action::RunHook(c) => ActionView::RunHook(c@),
            Action::Apply(a) => ActionView::Apply(a.download_url@),
            Action::Report(r) => ActionView::Report(match r {
                Ok(s) => Ok(s@),
                Err(e) => Err(e.kind()),
            }),
        }
    }
}

/// The first asset whose name holds `t`.
pub open spec fn first_for_target(assets: Seq<AssetView>, t: Seq<char>) -> Option<AssetView>
    decreases assets.len(),
{
    if assets.len() == 0 {
        None
    } else if contains(assets[0].name, t) {
        Some(assets[0])
    } else {
        first_for_target(assets.drop_first(), t)
    }
}

/// The report for a finished apply step.
pub open spec fn conclusion(version: Seq<char>, applied: Result<(), Seq<char>>) -> Result<StatusView, ErrorKind> {
    match applied {
        Ok(()) => Ok(StatusView::Updated(version)),
        Err(_) => Err(ErrorKind::Apply),
    }
}

impl Update {
    /// The target that releases and assets are narrowed to, if any.
    pub open spec fn target_filter(&self) -> Option<Seq<char>> {
        if self.target_given {
            Some(self.target@)
        } else {
            None
        }
    }

    /// The URL of the request that resolves the release.
    pub open spec fn resolve_url(&self) -> Seq<char> {
        match self.target_version {
            Some(tag) => version_url(api_root(self.custom_url), tag@),
            None => list_url(api_root(self.custom_url)),
        }
    }

    /// The release an answer resolves to: the one asked for by tag, or the
    /// first listed one (the API lists the newest first) that has an asset
    /// for the target when one is configured.
    pub open spec fn resolve_verdict(&self, event: Event) -> Result<ReleaseView, ErrorKind> {
        let root = api_root(self.custom_url);
        match self.target_version {
            Some(_) => match event {
                Event::VersionReply(o) => version_verdict(o, root),
                _ => Err(ErrorKind::OutOfOrder),
            },
            None => match event {
                Event::ListReply(o) => match list_verdict(o, root, self.target_filter()) {
                    Ok(s) => if s.len() > 0 {
                        Ok(s[0])
                    } else {
                        Err(ErrorKind::ReleaseNotFound)
                    },
                    Err(k) => Err(k),
                },
                _ => Err(ErrorKind::OutOfOrder),
            },
        }
    }

    /// The installed version is the resolved one and versions are compared.
    pub open spec fn gate_skips(&self, rel: ReleaseView) -> bool {
        !self.ignore_ver_compare && rel.version == self.current_version@
    }

    /// Where the binary of a release is fetched from: its first asset, or
    /// its first asset for the target when one is configured.
    pub open spec fn asset_url(&self, rel: ReleaseView) -> Option<Seq<char>> {
        match self.target_filter() {
            Some(t) => match first_for_target(rel.assets, t) {
                Some(a) => Some(a.download_url),
                None => None,
            },
            None => if rel.assets.len() > 0 {
                Some(rel.assets[0].download_url)
            } else {
                None
            },
        }
    }

    /// The step taken once the release is known.
    pub open spec fn after_resolve(&self, rel: ReleaseView) -> (PhaseView, ActionView) {
        if self.gate_skips(rel) {
            (PhaseView::Finished, ActionView::Report(Ok(StatusView::UpToDate(rel.version))))
        } else {
            match self.asset_url(rel) {
                None => (PhaseView::Finished, ActionView::Report(Err(ErrorKind::ReleaseNotFound))),
                Some(u) => {
                    let p = PendingView { version: rel.version, download_url: u };
                    match self.before_cmd {
                        Some(c) => (PhaseView::BeforeHook(p), ActionView::RunHook(c@)),
                        None => (PhaseView::Applying(p), ActionView::Apply(u)),
                    }
                },
            }
        }
    }

    /// The step taken once the apply step has ended.
    pub open spec fn after_apply(&self, version: Seq<char>, applied: Result<(), Seq<char>>) -> (PhaseView, ActionView) {
        match self.after_cmd {
            Some(c) => (PhaseView::AfterHook(version, applied), ActionView::RunHook(c@)),
            None => (PhaseView::Finished, ActionView::Report(conclusion(version, applied))),
        }
    }

    /// The whole state machine: the next phase and action for a phase and
    /// an event. Any event a phase does not expect ends the run.
    pub open spec fn next(&self, phase: PhaseView, event: Event) -> (PhaseView, ActionView) {
        let out_of_order = (PhaseView::Finished, ActionView::Report(Err(ErrorKind::OutOfOrder)));
        match phase {
            PhaseView::Start => match event {
                Event::Begin => if !headers_accept(self.auth_token) {
                    (PhaseView::Finished, ActionView::Report(Err(ErrorKind::Configuration)))
                } else {
                    match self.target_version {
                        Some(_) => (PhaseView::Resolving, ActionView::FetchVersion(self.resolve_url())),
                        None => (PhaseView::Resolving, ActionView::FetchList(self.resolve_url())),
                    }
                },
                _ => out_of_order,
            },
            PhaseView::Resolving => match self.resolve_verdict(event) {
                Ok(rel) => self.after_resolve(rel),
                Err(k) => (PhaseView::Finished, ActionView::Report(Err(k))),
            },
            PhaseView::BeforeHook(p) => match event {
                Event::HookDone { .. } => (PhaseView::Applying(p), ActionView::Apply(p.download_url)),
                _ => out_of_order,
            },
            PhaseView::Applying(p) => match event {
                Event::ApplyDone(o) => self.after_apply(p.version, outcome_view(o)),
                _ => out_of_order,
            },
            PhaseView::AfterHook(v, o) => match event {
                Event::HookDone { .. } => (PhaseView::Finished, ActionView::Report(conclusion(v, o))),
                _ => out_of_order,
            },
            PhaseView::Finished => out_of_order,
        }
    }

    /// An apply request carries the plan's install settings.
    pub open spec fn apply_fields(&self, a: ApplyRequest) -> bool {
        &&& a.bin_install_path@ == self.bin_install_path@
        &&& a.bin_name@ == self.bin_name@
        &&& a.bin_path_in_archive@ == self.bin_path_in_archive@
        &&& a.show_download_progress == self.show_download_progress
        &&& a.show_output == self.show_output
        &&& a.no_confirm == self.no_confirm
    }

    /// What an action carries beyond its view.
    pub open spec fn action_fields(&self, a: Action) -> bool {
        match a {
            Action::FetchList(q) => headers_for(self.auth_token, q.headers),
            Action::FetchVersion(q) => headers_for(self.auth_token, q.headers),
            Action::Apply(r) => self.apply_fields(r),
            Action::Report(r) => names_url(r, self.resolve_url()),
            _ => true,
        }
    }

    fn apply_request(&self, download_url: &String) -> (r: ApplyRequest)
        ensures
            self.apply_fields(r),
            r.download_url@ == download_url@,
    {
        ApplyRequest {
            download_url: download_url.clone(),
            bin_install_path: self.bin_install_path.clone(),
            bin_name: self.bin_name.clone(),
            bin_path_in_archive: self.bin_path_in_archive.clone(),
            show_download_progress: self.show_download_progress,
            show_output: self.show_output,
            no_confirm: self.no_confirm,
        }
    }

    /// Where the binary of `rel` is fetched from (see `asset_url`).
    pub fn pick_asset_url(&self, rel: &Release) -> (r: Option<String>)
        ensures
            r is Some <==> self.asset_url(rel@) is Some,
            r matches Some(u) ==> u@ == self.asset_url(rel@)->Some_0,
    {
        if !self.target_given {
            if rel.assets.len() > 0 {
                return Some(rel.assets[0].download_url.clone());
            }
            return None;
        }
        let ghost assets = rel@.assets;
        let mut i: usize = 0;
        assert(assets.subrange(0, assets.len() as int) =~= assets);
        while i < rel.assets.len()
            invariant
                i <= rel.assets.len(),
                self.target_given,
                assets == rel@.assets,
                assets.len() == rel.assets.len(),
                first_for_target(assets, self.target@) == first_for_target(assets.subrange(i as int, assets.len() as int), self.target@),
            decreases rel.assets.len() - i,
        {
            let ghost rest = assets.subrange(i as int, assets.len() as int);
            assert(rest[0] == rel.assets@[i as int]@);
            if str_contains(&rel.assets[i].name, self.target.as_str()) {
                assert(first_for_target(rest, self.target@) == Some(rest[0]));
                return Some(rel.assets[i].download_url.clone());
            }
            assert(rest.drop_first() =~= assets.subrange(i + 1, assets.len() as int));
            i = i + 1;
        }
        None
    }

    /// The request that resolves the release: by tag when a target version
    /// is set, else the list of all releases.
    fn resolve_request(&self) -> (r: Result<ApiRequest, UpdateError>)
        ensures
            r is Ok <==> headers_accept(self.auth_token),
            r matches Ok(q) ==> q.url@ == self.resolve_url() && headers_for(self.auth_token, q.headers),
            r matches Err(e) ==> e is Configuration,
    {
        let headers = api_headers(&self.auth_token)?;
        let root = root_of(&self.custom_url);
        let url = match &self.target_version {
            Some(tag) => version_endpoint(root.as_str(), tag.as_str()),
            None => list_endpoint(root.as_str()),
        };
        Ok(ApiRequest { url, headers })
    }

    fn resolve(&self, event: Event) -> (r: Result<Release, UpdateError>)
        ensures
            r is Ok <==> self.resolve_verdict(event) is Ok,
            r matches Ok(rel) ==> rel@ == self.resolve_verdict(event)->Ok_0,
            r matches Err(e) ==> e.kind() == self.resolve_verdict(event)->Err_0,
            names_url(r, self.resolve_url()),
    {
        let root = root_of(&self.custom_url);
        match &self.target_version {
            Some(tag) => match event {
                Event::VersionReply(o) => {
                    let url = version_endpoint(root.as_str(), tag.as_str());
                    read_version_reply(o, url.as_str(), root.as_str())
                },
                _ => Err(UpdateError::OutOfOrder),
            },
            None => match event {
                Event::ListReply(o) => {
                    let url = list_endpoint(root.as_str());
                    let target = if self.target_given { Some(self.target.as_str()) } else { None };
                    let mut v = read_list_reply(o, url.as_str(), root.as_str(), target)?;
                    if v.len() == 0 {
                        return Err(UpdateError::ReleaseNotFound("no release for the target".to_owned()));
                    }
                    let ghost all = v@;
                    let first = v.remove(0);
                    assert(releases_view(all)[0] == first@);
                    Ok(first)
                },
                _ => Err(UpdateError::OutOfOrder),
            },
        }
    }

    fn conclude(version: String, applied: Result<(), String>) -> (r: Result<UpdateStatus, UpdateError>)
        ensures
            (match r {
                Ok(s) => Ok(s@),
                Err(e) => Err(e.kind()),
            }) == conclusion(version@, outcome_view(applied)),
    {
        match applied {
            Ok(()) => Ok(UpdateStatus::Updated(version)),
            Err(m) => Err(UpdateError::Apply(m)),
        }
    }

    fn finish(r: Result<UpdateStatus, UpdateError>) -> (out: (Phase, Action))
        ensures
            out.0 is Finished,
            out.1 == Action::Report(r),
    {
        (Phase::Finished, Action::Report(r))
    }

    /// Advances an update run by one step. See `next` for the whole
    /// behaviour; `action_fields` states what the actions carry beyond it.
    pub fn step(&self, phase: Phase, event: Event) -> (out: (Phase, Action))
        ensures
            (out.0@, out.1@) == self.next(phase@, event),
            self.action_fields(out.1),
    {
        match phase {
            Phase::Start => match event {
                Event::Begin => match self.resolve_request() {
                    Err(e) => Self::finish(Err(e)),
                    Ok(q) => if self.target_version.is_some() {
                        (Phase::Resolving, Action::FetchVersion(q))
                    } else {
                        (Phase::Resolving, Action::FetchList(q))
                    },
                },
                _ => Self::finish(Err(UpdateError::OutOfOrder)),
            },
            Phase::Resolving => match self.resolve(event) {
                Err(e) => Self::finish(Err(e)),
                Ok(rel) => {
                    if !self.ignore_ver_compare && rel.version == self.current_version {
                        return Self::finish(Ok(UpdateStatus::UpToDate(rel.version)));
                    }
                    match self.pick_asset_url(&rel) {
                        None => Self::finish(Err(UpdateError::ReleaseNotFound("the release has no asset for the target".to_owned()))),
                        Some(u) => {
                            let req = self.apply_request(&u);
                            let p = Pending { version: rel.version, download_url: u };
                            match &self.before_cmd {
                                Some(c) => (Phase::BeforeHook(p), Action::RunHook(c.clone())),
                                None => (Phase::Applying(p), Action::Apply(req)),
                            }
                        },
                    }
                },
            },
            Phase::BeforeHook(p) => match event {
                Event::HookDone { .. } => {
                    let req = self.apply_request(&p.download_url);
                    (Phase::Applying(p), Action::Apply(req))
                },
                _ => Self::finish(Err(UpdateError::OutOfOrder)),
            },
            Phase::Applying(p) => match event {
                Event::ApplyDone(o) => match &self.after_cmd {
                    Some(c) => (Phase::AfterHook { version: p.version, applied: o }, Action::RunHook(c.clone())),
                    None => Self::finish(Self::conclude(p.version, o)),
                },
                _ => Self::finish(Err(UpdateError::OutOfOrder)),
            },
            Phase::AfterHook { version, applied } => match event {
                Event::HookDone { .. } => Self::finish(Self::conclude(version, applied)),
                _ => Self::finish(Err(UpdateError::OutOfOrder)),
            },
            Phase::Finished => Self::finish(Err(UpdateError::OutOfOrder)),
        }
    }
}

impl Update {
    /// The request for the release tagged `ver`; an empty tag asks for the
    /// newest release.
    pub fn release_request(&self, ver: &str) -> (r: Result<ApiRequest, UpdateError>)
        ensures
            r is Ok <==> headers_accept(self.auth_token),
            r matches Ok(q) ==> q.url@ == version_url(api_root(self.custom_url), ver@)
                && headers_for(self.auth_token, q.headers),
            r matches Err(e) ==> e is Configuration,
    {
        let headers = api_headers(&self.auth_token)?;
        let root = root_of(&self.custom_url);
        let url = version_endpoint(root.as_str(), ver);
        Ok(ApiRequest { url, headers })
    }

    /// Reads the answer to `release_request(ver)`: the release, or the
    /// failure the answer stands for.
    pub fn get_release_version(&self, ver: &str, reply: HttpOutcome<Soft>) -> (r: Result<Release, UpdateError>)
        ensures
            r is Ok <==> version_verdict(reply, api_root(self.custom_url)) is Ok,
            r matches Ok(rel) ==> rel@ == version_verdict(reply, api_root(self.custom_url))->Ok_0,
            r matches Err(e) ==> e.kind() == version_verdict(reply, api_root(self.custom_url))->Err_0,
            names_url(r, version_url(api_root(self.custom_url), ver@)),
    {
        let root = root_of(&self.custom_url);
        let url = version_endpoint(root.as_str(), ver);
        read_version_reply(reply, url.as_str(), root.as_str())
    }

    /// Reads the answer to `release_request("")`, the newest release.
    pub fn get_latest_release(&self, reply: HttpOutcome<Soft>) -> (r: Result<Release, UpdateError>)
        ensures
            r is Ok <==> version_verdict(reply, api_root(self.custom_url)) is Ok,
            r matches Ok(rel) ==> rel@ == version_verdict(reply, api_root(self.custom_url))->Ok_0,
            r matches Err(e) ==> e.kind() == version_verdict(reply, api_root(self.custom_url))->Err_0,
            names_url(r, version_url(api_root(self.custom_url), Seq::empty())),
    {
        proof { reveal_strlit(""); }
        self.get_release_version("", reply)
    }
}

} // verus!
