use vstd::prelude::*;

use crate::errors::Error;

verus! {

/// Builder for an [`Updater`]. Every configuration field starts absent
/// and is validated once, at [`Builder::build`], which demands each field
/// present and non-empty; the embedding application supplies the
/// installation path (typically the running executable's own path) before
/// building.
#[derive(Debug)]
pub struct Builder {
    pub repo_owner: Option<String>,
    pub repo_name: Option<String>,
    pub target: Option<String>,
    pub bin_name: Option<String>,
    pub bin_install_path: Option<String>,
    pub bin_path_in_tarball: Option<String>,
    pub show_progress: bool,
    pub current_version: Option<String>,
}

/// The builder state in which every field is still absent and the
/// progress indicator is off.
pub open spec fn spec_empty_builder(b: Builder) -> bool {
    &&& b.repo_owner is None
    &&& b.repo_name is None
    &&& b.target is None
    &&& b.bin_name is None
    &&& b.bin_install_path is None
    &&& b.bin_path_in_tarball is None
    &&& b.show_progress == false
    &&& b.current_version is None
}

impl Builder {
    /// Initialize a new builder with every field absent.
    pub fn new() -> (r: Result<Builder, Error>)
        ensures
            r matches Ok(b) && spec_empty_builder(b),
    {
        Ok(
            Builder {
                repo_owner: None,
                repo_name: None,
                target: None,
                bin_name: None,
                bin_install_path: None,
                bin_path_in_tarball: None,
                show_progress: false,
                current_version: None,
            },
        )
    }

    /// Set the repo owner, used to build the release host's api url.
    pub fn repo_owner(&mut self, owner: &str)
        ensures
            final(self).repo_owner matches Some(s) && s@ == owner@,
            final(self).repo_name == old(self).repo_name,
            final(self).target == old(self).target,
            final(self).bin_name == old(self).bin_name,
            final(self).bin_install_path == old(self).bin_install_path,
            final(self).bin_path_in_tarball == old(self).bin_path_in_tarball,
            final(self).show_progress == old(self).show_progress,
            final(self).current_version == old(self).current_version,
    {
        self.repo_owner = Some(String::from_str(owner));
    }

    /// Set the repo name, used to build the release host's api url.
    pub fn repo_name(&mut self, name: &str)
        ensures
            final(self).repo_name matches Some(s) && s@ == name@,
            final(self).repo_owner == old(self).repo_owner,
            final(self).target == old(self).target,
            final(self).bin_name == old(self).bin_name,
            final(self).bin_install_path == old(self).bin_install_path,
            final(self).bin_path_in_tarball == old(self).bin_path_in_tarball,
            final(self).show_progress == old(self).show_progress,
            final(self).current_version == old(self).current_version,
    {
        self.repo_name = Some(String::from_str(name));
    }

    /// Set the current app version, compared against the latest release tag.
    pub fn current_version(&mut self, ver: &str)
        ensures
            final(self).current_version matches Some(s) && s@ == ver@,
            final(self).repo_owner == old(self).repo_owner,
            final(self).repo_name == old(self).repo_name,
            final(self).target == old(self).target,
            final(self).bin_name == old(self).bin_name,
            final(self).bin_install_path == old(self).bin_install_path,
            final(self).bin_path_in_tarball == old(self).bin_path_in_tarball,
            final(self).show_progress == old(self).show_progress,
    {
        self.current_version = Some(String::from_str(ver));
    }

    /// Set the target triple of the asset to download, e.g.
    /// `x86_64-unknown-linux-gnu`.
    pub fn target(&mut self, target: &str)
        ensures
            final(self).target matches Some(s) && s@ == target@,
            final(self).repo_owner == old(self).repo_owner,
            final(self).repo_name == old(self).repo_name,
            final(self).bin_name == old(self).bin_name,
            final(self).bin_install_path == old(self).bin_install_path,
            final(self).bin_path_in_tarball == old(self).bin_path_in_tarball,
            final(self).show_progress == old(self).show_progress,
            final(self).current_version == old(self).current_version,
    {
        self.target = Some(String::from_str(target));
    }

    /// Set the exe's name; also defaults the in-tarball path to that name
    /// when none was set yet.
    pub fn bin_name(&mut self, name: &str)
        ensures
            final(self).bin_name matches Some(s) && s@ == name@,
            old(self).bin_path_in_tarball is None ==> (final(self).bin_path_in_tarball matches Some(
                p,
            ) && p@ == name@),
            old(self).bin_path_in_tarball is Some ==> final(self).bin_path_in_tarball == old(
                self,
            ).bin_path_in_tarball,
            final(self).repo_owner == old(self).repo_owner,
            final(self).repo_name == old(self).repo_name,
            final(self).target == old(self).target,
            final(self).bin_install_path == old(self).bin_install_path,
            final(self).show_progress == old(self).show_progress,
            final(self).current_version == old(self).current_version,
    {
        self.bin_name = Some(String::from_str(name));
        if self.bin_path_in_tarball.is_none() {
            self.bin_path_in_tarball = Some(String::from_str(name));
        }
    }

    /// Set the installation path for the new exe.
    pub fn bin_install_path(&mut self, bin_install_path: &str)
        ensures
            final(self).bin_install_path matches Some(s) && s@ == bin_install_path@,
            final(self).repo_owner == old(self).repo_owner,
            final(self).repo_name == old(self).repo_name,
            final(self).target == old(self).target,
            final(self).bin_name == old(self).bin_name,
            final(self).bin_path_in_tarball == old(self).bin_path_in_tarball,
            final(self).show_progress == old(self).show_progress,
            final(self).current_version == old(self).current_version,
    {
        self.bin_install_path = Some(String::from_str(bin_install_path));
    }

    /// Set the path of the exe inside the release tarball, relative to the
    /// base of the unpacked directory.
    pub fn bin_path_in_tarball(&mut self, bin_path: &str)
        ensures
            final(self).bin_path_in_tarball matches Some(s) && s@ == bin_path@,
            final(self).repo_owner == old(self).repo_owner,
            final(self).repo_name == old(self).repo_name,
            final(self).target == old(self).target,
            final(self).bin_name == old(self).bin_name,
            final(self).bin_install_path == old(self).bin_install_path,
            final(self).show_progress == old(self).show_progress,
            final(self).current_version == old(self).current_version,
    {
        self.bin_path_in_tarball = Some(String::from_str(bin_path));
    }

    /// Toggle the download progress indicator, defaults to off.
    pub fn show_progress(&mut self, show: bool)
        ensures
            final(self).show_progress == show,
            final(self).repo_owner == old(self).repo_owner,
            final(self).repo_name == old(self).repo_name,
            final(self).target == old(self).target,
            final(self).bin_name == old(self).bin_name,
            final(self).bin_install_path == old(self).bin_install_path,
            final(self).bin_path_in_tarball == old(self).bin_path_in_tarball,
            final(self).current_version == old(self).current_version,
    {
        self.show_progress = show;
    }

    /// Confirm the configuration and create a ready-to-use `Updater`.
    /// Succeeds exactly when every required field has been set to a
    /// non-empty string; otherwise fails with a `Config` error naming the
    /// first missing or empty field, in the order owner, name, target,
    /// bin name, install path, in-tarball path, current version.
    pub fn build(&self) -> (r: Result<Updater, Error>)
        ensures
            !spec_field_set(self.repo_owner) ==> (r matches Err(e) && e is Config && e.spec_message()
                == "`repo_owner` required"@),
            spec_field_set(self.repo_owner) && !spec_field_set(self.repo_name) ==> (r matches Err(e) && e is Config && e.spec_message()
                == "`repo_name` required"@),
            spec_field_set(self.repo_owner) && spec_field_set(self.repo_name) && !spec_field_set(self.target) ==> (r matches Err(e) && e is Config && e.spec_message()
                == "`target` required"@),
            spec_field_set(self.repo_owner) && spec_field_set(self.repo_name) && spec_field_set(self.target) && !spec_field_set(self.bin_name) ==> (r matches Err(e) && e is Config && e.spec_message()
                == "`bin_name` required"@),
            spec_field_set(self.repo_owner) && spec_field_set(self.repo_name) && spec_field_set(self.target) && spec_field_set(self.bin_name) && !spec_field_set(self.bin_install_path) ==> (r matches Err(e) && e is Config && e.spec_message()
                == "`bin_install_path` required"@),
            spec_field_set(self.repo_owner) && spec_field_set(self.repo_name) && spec_field_set(self.target) && spec_field_set(self.bin_name) && spec_field_set(self.bin_install_path) && !spec_field_set(self.bin_path_in_tarball) ==> (r matches Err(e) && e is Config && e.spec_message()
                == "`bin_path_in_tarball` required"@),
            spec_field_set(self.repo_owner) && spec_field_set(self.repo_name) && spec_field_set(self.target) && spec_field_set(self.bin_name) && spec_field_set(self.bin_install_path) && spec_field_set(self.bin_path_in_tarball) && !spec_field_set(self.current_version) ==> (r matches Err(e) && e is Config && e.spec_message()
                == "`current_version` required"@),
            (r is Ok) == (spec_field_set(self.repo_owner) && spec_field_set(self.repo_name) && spec_field_set(self.target) && spec_field_set(self.bin_name) && spec_field_set(self.bin_install_path) && spec_field_set(self.bin_path_in_tarball) && spec_field_set(self.current_version)),
            r matches Ok(u) ==> (u == Updater {
                repo_owner: self.repo_owner->0,
                repo_name: self.repo_name->0,
                target: self.target->0,
                bin_name: self.bin_name->0,
                bin_install_path: self.bin_install_path->0,
                bin_path_in_tarball: self.bin_path_in_tarball->0,
                show_progress: self.show_progress,
                current_version: self.current_version->0,
            }),
    {
        let repo_owner = match &self.repo_owner {
            Some(s) => {
                if s.as_str().is_empty() {
                    return Err(required("`repo_owner` required"));
                }
                s.clone()
            },
            None => {
                return Err(required("`repo_owner` required"));
            },
        };
        let repo_name = match &self.repo_name {
            Some(s) => {
                if s.as_str().is_empty() {
                    return Err(required("`repo_name` required"));
                }
                s.clone()
            },
            None => {
                return Err(required("`repo_name` required"));
            },
        };
        let target = match &self.target {
            Some(s) => {
                if s.as_str().is_empty() {
                    return Err(required("`target` required"));
                }
                s.clone()
            },
            None => {
                return Err(required("`target` required"));
            },
        };
        let bin_name = match &self.bin_name {
            Some(s) => {
                if s.as_str().is_empty() {
                    return Err(required("`bin_name` required"));
                }
                s.clone()
            },
            None => {
                return Err(required("`bin_name` required"));
            },
        };
        let bin_install_path = match &self.bin_install_path {
            Some(s) => {
                if s.as_str().is_empty() {
                    return Err(required("`bin_install_path` required"));
                }
                s.clone()
            },
            None => {
                return Err(required("`bin_install_path` required"));
            },
        };
        let bin_path_in_tarball = match &self.bin_path_in_tarball {
            Some(s) => {
                if s.as_str().is_empty() {
                    return Err(required("`bin_path_in_tarball` required"));
                }
                s.clone()
            },
            None => {
                return Err(required("`bin_path_in_tarball` required"));
            },
        };
        let current_version = match &self.current_version {
            Some(s) => {
                if s.as_str().is_empty() {
                    return Err(required("`current_version` required"));
                }
                s.clone()
            },
            None => {
                return Err(required("`current_version` required"));
            },
        };
        Ok(
            Updater {
                repo_owner,
                repo_name,
                target,
                bin_name,
                bin_install_path,
                bin_path_in_tarball,
                show_progress: self.show_progress,
                current_version,
            },
        )
    }
}

/// A required configuration field is usable only when it has been set to
/// a non-empty string: an empty value could not name a repository, a
/// binary or a path.
pub open spec fn spec_field_set(f: Option<String>) -> bool {
    f matches Some(s) && s@.len() > 0
}

/// A `Config` error naming a required field.
fn required(msg: &str) -> (e: Error)
    ensures
        e is Config && e.spec_message() == msg@,
{
    Error::Config(String::from_str(msg))
}

/// A fully-validated update configuration: one synchronous
/// update-or-abort operation per invocation.
#[derive(Debug)]
pub struct Updater {
    pub repo_owner: String,
    pub repo_name: String,
    pub target: String,
    pub current_version: String,
    pub bin_name: String,
    pub bin_install_path: String,
    pub bin_path_in_tarball: String,
    pub show_progress: bool,
}

impl Updater {
    /// Initialize a new `Updater` builder.
    pub fn configure() -> (r: Result<Builder, Error>)
        ensures
            r matches Ok(b) && spec_empty_builder(b),
    {
        Builder::new()
    }

    /// The release host's "latest release" endpoint for this repository.
    pub fn api_url(&self) -> (r: String)
        ensures
            r@ == "https://api.github.com/repos/"@ + self.repo_owner@ + "/"@ + self.repo_name@
                + "/releases/latest"@,
    {
        let mut url = String::from_str("https://api.github.com/repos/");
        url.append(self.repo_owner.as_str());
        url.append("/");
        url.append(self.repo_name.as_str());
        url.append("/releases/latest");
        url
    }
}

} // verus!
