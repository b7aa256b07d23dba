//! The update builder and the validated, immutable update plan it yields.
use vstd::prelude::*;
use crate::error::UpdateError;
use crate::list::holds;
use crate::text::{normalize_exe_name, with_exe_suffix};

verus! {

/// indicatif's `ProgressStyle`, carried unread from the builder to the plan
/// and on to the download's progress bar.
#[verifier::external_type_specification]
#[verifier::external_body]
pub struct ExProgressStyle(indicatif::ProgressStyle);

/// Facts about the machine the updater runs on, read by the caller.
pub struct Host {
    /// The platform this program was built for, e.g. a target triple.
    pub target: String,
    /// The suffix executables carry here (empty on most systems).
    pub exe_suffix: String,
    /// Where the running executable lies, when that could be found.
    pub current_exe: Option<String>,
}

/// Settings gathered before an `Update` is made.
pub struct UpdateBuilder {
    pub host: Host,
    pub name: Option<String>,
    pub target: Option<String>,
    pub bin_name: Option<String>,
    pub bin_install_path: Option<String>,
    pub bin_path_in_archive: Option<String>,
    pub show_download_progress: bool,
    pub show_output: bool,
    pub no_confirm: bool,
    pub ignore_ver_compare: bool,
    pub current_version: Option<String>,
    pub target_version: Option<String>,
    pub progress_style: Option<indicatif::ProgressStyle>,
    pub auth_token: Option<String>,
    pub custom_url: Option<String>,
    pub before_cmd: Option<String>,
    pub after_cmd: Option<String>,
}

/// A validated update plan. It is made once by `UpdateBuilder::build` and
/// only read afterwards.
pub struct Update {
    pub name: String,
    /// The target platform: the one configured, or the host's.
    pub target: String,
    /// Whether the target was configured, in which case releases are
    /// narrowed to it.
    pub target_given: bool,
    pub current_version: String,
    pub target_version: Option<String>,
    pub bin_name: String,
    pub bin_install_path: String,
    pub bin_path_in_archive: String,
    pub show_download_progress: bool,
    pub ignore_ver_compare: bool,
    pub show_output: bool,
    pub no_confirm: bool,
    pub progress_style: Option<indicatif::ProgressStyle>,
    pub auth_token: Option<String>,
    pub custom_url: Option<String>,
    pub before_cmd: Option<String>,
    pub after_cmd: Option<String>,
}

fn copy_opt(o: &Option<String>) -> (r: Option<String>)
    ensures
        r == *o,
{
    match o {
        Some(s) => Some(s.clone()),
        None => None,
    }
}

impl UpdateBuilder {
    /// All the fields but the required ones hold enough to build a plan.
    pub open spec fn complete(&self) -> bool {
        &&& self.name is Some
        &&& self.bin_name is Some
        &&& self.bin_path_in_archive is Some
        &&& self.current_version is Some
        &&& (self.bin_install_path is Some || self.host.current_exe is Some)
    }

    /// The plan `u` is the one these settings describe.
    pub open spec fn describes(&self, u: Update) -> bool {
        &&& u.name@ == self.name->Some_0@
        &&& u.target@ == match self.target {
            Some(t) => t@,
            None => self.host.target@,
        }
        &&& u.target_given == self.target is Some
        &&& u.bin_name@ == self.bin_name->Some_0@
        &&& u.bin_install_path@ == match self.bin_install_path {
            Some(p) => p@,
            None => self.host.current_exe->Some_0@,
        }
        &&& u.bin_path_in_archive@ == self.bin_path_in_archive->Some_0@
        &&& u.current_version@ == self.current_version->Some_0@
        &&& u.target_version == self.target_version
        &&& u.show_download_progress == self.show_download_progress
        &&& u.show_output == self.show_output
        &&& u.no_confirm == self.no_confirm
        &&& u.ignore_ver_compare == self.ignore_ver_compare
        &&& (u.progress_style is Some) == (self.progress_style is Some)
        &&& u.auth_token == self.auth_token
        &&& u.custom_url == self.custom_url
        &&& u.before_cmd == self.before_cmd
        &&& u.after_cmd == self.after_cmd
    }

    /// Nothing is set yet: output shown, version comparison skipped, no
    /// progress bar, confirmation asked.
    pub open spec fn fresh(&self, host: Host) -> bool {
        &&& self.host == host
        &&& self.name is None && self.target is None && self.bin_name is None
        &&& self.bin_install_path is None && self.bin_path_in_archive is None
        &&& self.current_version is None && self.target_version is None
        &&& self.progress_style is None && self.auth_token is None && self.custom_url is None
        &&& self.before_cmd is None && self.after_cmd is None
        &&& !self.show_download_progress && self.show_output && !self.no_confirm
        &&& self.ignore_ver_compare
    }

    /// A builder with nothing set: output shown, version comparison
    /// skipped, no progress bar, confirmation asked.
    pub fn new(host: Host) -> (r: Self)
        ensures
            r.fresh(host),
    {
        UpdateBuilder {
            host,
            name: None,
            target: None,
            bin_name: None,
            bin_install_path: None,
            bin_path_in_archive: None,
            show_download_progress: false,
            show_output: true,
            no_confirm: false,
            ignore_ver_compare: true,
            current_version: None,
            target_version: None,
            progress_style: None,
            auth_token: None,
            custom_url: None,
            before_cmd: None,
            after_cmd: None,
        }
    }

    /// Sets the logical name of the updated program.
    pub fn name(&mut self, name: &str) -> (r: &mut Self)
        ensures
            *final(self) == *final(r),
            holds(r.name, name@),
            *r == (UpdateBuilder { name: r.name, ..*old(self) }),
    {
        self.name = Some(name.to_owned());
        self
    }

    /// Sets the API root, without a trailing slash.
    pub fn custom_url(&mut self, url: &str) -> (r: &mut Self)
        ensures
            *final(self) == *final(r),
            holds(r.custom_url, url@),
            *r == (UpdateBuilder { custom_url: r.custom_url, ..*old(self) }),
    {
        self.custom_url = Some(url.to_owned());
        self
    }

    /// Sets the installed version, which the resolved release is compared with.
    pub fn current_version(&mut self, ver: &str) -> (r: &mut Self)
        ensures
            *final(self) == *final(r),
            holds(r.current_version, ver@),
            *r == (UpdateBuilder { current_version: r.current_version, ..*old(self) }),
    {
        self.current_version = Some(ver.to_owned());
        self
    }

    /// Sets the version to update to; without it the newest release is used.
    pub fn target_version_tag(&mut self, ver: &str) -> (r: &mut Self)
        ensures
            *final(self) == *final(r),
            holds(r.target_version, ver@),
            *r == (UpdateBuilder { target_version: r.target_version, ..*old(self) }),
    {
        self.target_version = Some(ver.to_owned());
        self
    }

    /// Sets the target platform, e.g. `x86_64-unknown-linux-gnu`; releases are then narrowed to it. Without it the host's platform is used.
    pub fn target(&mut self, target: &str) -> (r: &mut Self)
        ensures
            *final(self) == *final(r),
            holds(r.target, target@),
            *r == (UpdateBuilder { target: r.target, ..*old(self) }),
    {
        self.target = Some(target.to_owned());
        self
    }

    /// Sets where the new executable is installed; without it, the running executable's path.
    pub fn bin_install_path(&mut self, bin_install_path: &str) -> (r: &mut Self)
        ensures
            *final(self) == *final(r),
            holds(r.bin_install_path, bin_install_path@),
            *r == (UpdateBuilder { bin_install_path: r.bin_install_path, ..*old(self) }),
    {
        self.bin_install_path = Some(bin_install_path.to_owned());
        self
    }

    /// Sets the executable's path inside the release archive; without it, the binary name.
    pub fn bin_path_in_archive(&mut self, bin_path: &str) -> (r: &mut Self)
        ensures
            *final(self) == *final(r),
            holds(r.bin_path_in_archive, bin_path@),
            *r == (UpdateBuilder { bin_path_in_archive: r.bin_path_in_archive, ..*old(self) }),
    {
        self.bin_path_in_archive = Some(bin_path.to_owned());
        self
    }

    /// Sets the bearer token sent with each API request.
    pub fn auth_token(&mut self, auth_token: &str) -> (r: &mut Self)
        ensures
            *final(self) == *final(r),
            holds(r.auth_token, auth_token@),
            *r == (UpdateBuilder { auth_token: r.auth_token, ..*old(self) }),
    {
        self.auth_token = Some(auth_token.to_owned());
        self
    }

    /// Sets the host command run before the executable is replaced (e.g. stopping a service).
    pub fn before_cmd(&mut self, cmd: &str) -> (r: &mut Self)
        ensures
            *final(self) == *final(r),
            holds(r.before_cmd, cmd@),
            *r == (UpdateBuilder { before_cmd: r.before_cmd, ..*old(self) }),
    {
        self.before_cmd = Some(cmd.to_owned());
        self
    }

    /// Sets the host command run after the apply step, whether it succeeded or not (e.g. restarting a service).
    pub fn after_cmd(&mut self, cmd: &str) -> (r: &mut Self)
        ensures
            *final(self) == *final(r),
            holds(r.after_cmd, cmd@),
            *r == (UpdateBuilder { after_cmd: r.after_cmd, ..*old(self) }),
    {
        self.after_cmd = Some(cmd.to_owned());
        self
    }

    /// Sets whether the update goes ahead even when the resolved version is the installed one.
    pub fn ignore_ver_compare(&mut self, ignore_ver_compare: bool) -> (r: &mut Self)
        ensures
            *final(self) == *final(r),
            *r == (UpdateBuilder { ignore_ver_compare, ..*old(self) }),
    {
        self.ignore_ver_compare = ignore_ver_compare;
        self
    }

    /// Toggles the download progress bar.
    pub fn show_download_progress(&mut self, show_download_progress: bool) -> (r: &mut Self)
        ensures
            *final(self) == *final(r),
            *r == (UpdateBuilder { show_download_progress, ..*old(self) }),
    {
        self.show_download_progress = show_download_progress;
        self
    }

    /// Toggles update output.
    pub fn show_output(&mut self, show_output: bool) -> (r: &mut Self)
        ensures
            *final(self) == *final(r),
            *r == (UpdateBuilder { show_output, ..*old(self) }),
    {
        self.show_output = show_output;
        self
    }

    /// Toggles skipping the confirmation prompt.
    pub fn no_confirm(&mut self, no_confirm: bool) -> (r: &mut Self)
        ensures
            *final(self) == *final(r),
            *r == (UpdateBuilder { no_confirm, ..*old(self) }),
    {
        self.no_confirm = no_confirm;
        self
    }

    /// Sets the style of the download progress bar.
    pub fn set_progress_style(&mut self, progress_style: indicatif::ProgressStyle) -> (r: &mut Self)
        ensures
            *final(self) == *final(r),
            r.progress_style == Some(progress_style),
            *r == (UpdateBuilder { progress_style: Some(progress_style), ..*old(self) }),
    {
        self.progress_style = Some(progress_style);
        self
    }

    /// Sets the executable's name. The host's executable suffix is put at
    /// its end exactly once, and the path inside the archive takes that name
    /// unless it was set already.
    pub fn bin_name(&mut self, name: &str) -> (r: &mut Self)
        ensures
            *final(self) == *final(r),
            holds(r.bin_name, with_exe_suffix(name@, old(self).host.exe_suffix@)),
            old(self).bin_path_in_archive is None ==> holds(
                r.bin_path_in_archive,
                with_exe_suffix(name@, old(self).host.exe_suffix@),
            ),
            old(self).bin_path_in_archive is Some ==> r.bin_path_in_archive
                == old(self).bin_path_in_archive,
            *r == (UpdateBuilder {
                bin_name: r.bin_name,
                bin_path_in_archive: r.bin_path_in_archive,
                ..*old(self)
            }),
    {
        let raw = normalize_exe_name(name, self.host.exe_suffix.as_str());
        self.bin_name = Some(raw.clone());
        if self.bin_path_in_archive.is_none() {
            self.bin_path_in_archive = Some(raw);
        }
        self
    }

    /// Checks the settings and makes the plan. Fails with a configuration
    /// error naming the first of name, binary name, path in archive and
    /// current version that is missing, or when no install path is set and
    /// the running executable's path is unknown.
    pub fn build(&self) -> (r: Result<Update, UpdateError>)
        ensures
            r is Ok <==> self.complete(),
            r matches Ok(u) ==> self.describes(u),
            r matches Err(e) ==> e is Configuration,
    {
        let name = match &self.name {
            Some(n) => n.clone(),
            None => return Err(UpdateError::Configuration("`name` required".to_owned())),
        };
        let bin_name = match &self.bin_name {
            Some(n) => n.clone(),
            None => return Err(UpdateError::Configuration("`bin_name` required".to_owned())),
        };
        let bin_path_in_archive = match &self.bin_path_in_archive {
            Some(p) => p.clone(),
            None => return Err(UpdateError::Configuration("`bin_path_in_archive` required".to_owned())),
        };
        let current_version = match &self.current_version {
            Some(v) => v.clone(),
            None => return Err(UpdateError::Configuration("`current_version` required".to_owned())),
        };
        let bin_install_path = match &self.bin_install_path {
            Some(p) => p.clone(),
            None => match &self.host.current_exe {
                Some(p) => p.clone(),
                None => return Err(UpdateError::Configuration(
                    "`bin_install_path` required: the running executable's path is unknown".to_owned(),
                )),
            },
        };
        let target = match &self.target {
            Some(t) => t.clone(),
            None => self.host.target.clone(),
        };
        Ok(Update {
            name,
            target,
            target_given: self.target.is_some(),
            current_version,
            target_version: copy_opt(&self.target_version),
            bin_name,
            bin_install_path,
            bin_path_in_archive,
            show_download_progress: self.show_download_progress,
            ignore_ver_compare: self.ignore_ver_compare,
            show_output: self.show_output,
            no_confirm: self.no_confirm,
            progress_style: self.progress_style.clone(),
            auth_token: copy_opt(&self.auth_token),
            custom_url: copy_opt(&self.custom_url),
            before_cmd: copy_opt(&self.before_cmd),
            after_cmd: copy_opt(&self.after_cmd),
        })
    }
}

impl Update {
    /// A builder for a plan, on the given host.
    pub fn configure(host: Host) -> (r: UpdateBuilder)
        ensures
            r.fresh(host),
    {
        UpdateBuilder::new(host)
    }

    /// The installed version.
    pub fn current_version(&self) -> (r: String)
        ensures
            r@ == self.current_version@,
    {
        self.current_version.clone()
    }

    /// The target platform.
    pub fn target(&self) -> (r: String)
        ensures
            r@ == self.target@,
    {
        self.target.clone()
    }

    /// The version asked for, if any.
    pub fn target_version(&self) -> (r: Option<String>)
        ensures
            r == self.target_version,
    {
        copy_opt(&self.target_version)
    }

    /// The executable's file name.
    pub fn bin_name(&self) -> (r: String)
        ensures
            r@ == self.bin_name@,
    {
        self.bin_name.clone()
    }

    /// Where the executable is installed.
    pub fn bin_install_path(&self) -> (r: String)
        ensures
            r@ == self.bin_install_path@,
    {
        self.bin_install_path.clone()
    }

    /// The executable's path inside the release archive.
    pub fn bin_path_in_archive(&self) -> (r: String)
        ensures
            r@ == self.bin_path_in_archive@,
    {
        self.bin_path_in_archive.clone()
    }

    pub fn show_download_progress(&self) -> (r: bool)
        ensures
            r == self.show_download_progress,
    {
        self.show_download_progress
    }

    pub fn ignore_ver_compare(&self) -> (r: bool)
        ensures
            r == self.ignore_ver_compare,
    {
        self.ignore_ver_compare
    }

    pub fn show_output(&self) -> (r: bool)
        ensures
            r == self.show_output,
    {
        self.show_output
    }

    pub fn no_confirm(&self) -> (r: bool)
        ensures
            r == self.no_confirm,
    {
        self.no_confirm
    }

    /// Whether releases and assets are narrowed to the target platform:
    /// only when a target was configured.
    pub fn idty_target_platform(&self) -> (r: bool)
        ensures
            r == self.target_given,
    {
        self.target_given
    }

    /// The apply step replaces the whole installed executable.
    pub fn all_replce(&self) -> (r: bool)
        ensures
            r,
    {
        true
    }

    /// The style of the download progress bar, if one was set.
    pub fn progress_style(&self) -> (r: Option<indicatif::ProgressStyle>)
        ensures
            (r is Some) == (self.progress_style is Some),
    {
        self.progress_style.clone()
    }

    /// The bearer token, if any.
    pub fn auth_token(&self) -> (r: Option<String>)
        ensures
            r == self.auth_token,
    {
        copy_opt(&self.auth_token)
    }
}

} // verus!
