//! The configuration of the application: window size, local directory,
//! known hosts and image formats.
//!
//! Reading and writing the configuration file is the caller's part. The
//! library says what a fresh configuration holds, where the file lies, and
//! how the list of hosts changes.

use crate::paths::{joined_path, path_join};
use crate::text::{contains, contains_text, decimal, push_decimal, str_eq};
use crate::transfer::ssh::SSHTransferFactory;
use crate::transfer::target::{Session, TargetModel};
use vstd::prelude::*;
use vstd::string::StringExecFns;

verus! {

/// The directories of a project, as `directories::ProjectDirs` holds them.
/// Nothing of what is inside is known here.
#[verifier::external_type_specification]
#[verifier::external_body]
pub struct ExProjectDirs(directories::ProjectDirs);

/// Calls `dirs::home_dir`, which asks the operating system for the home
/// directory of the user. Nothing is claimed of the answer: it depends on
/// the machine and the user.
#[verifier::external_body]
fn home_directory() -> (home: Option<String>) {
    dirs::home_dir().map(|path| path.to_string_lossy().into_owned())
}

/// Calls `directories::ProjectDirs::from`, which works out the directories
/// of a project from the home directory of the user. Nothing is claimed of
/// the answer: it depends on the machine and the user.
#[verifier::external_body]
fn project_directories(qualifier: &str, organization: &str, application: &str) -> (found: Option<
    directories::ProjectDirs,
>) {
    directories::ProjectDirs::from(qualifier, organization, application)
}

/// Calls `directories::ProjectDirs::config_dir`, which hands out the
/// configuration directory that was worked out for the project. Nothing is
/// claimed of it.
#[verifier::external_body]
fn config_directory(project: &directories::ProjectDirs) -> (directory: String) {
    project.config_dir().to_string_lossy().into_owned()
}

/// A remote host as the user configured it.
#[derive(Debug, Clone, PartialEq, Eq)]
pub struct Host {
    pub name: String,
    pub hostname: String,
    pub username: String,
    pub port: u16,
    pub use_key_auth: bool,
    pub key_path: Option<String>,
}

/// The mathematical value of a [`Host`].
pub struct HostModel {
    pub name: Seq<char>,
    pub target: TargetModel,
}

impl DeepView for Host {
    type V = HostModel;

    open spec fn deep_view(&self) -> HostModel {
        HostModel {
            name: self.name@,
            target: TargetModel {
                hostname: self.hostname@,
                username: self.username@,
                port: self.port,
                use_key_auth: self.use_key_auth,
                key_path: self.key_path.deep_view(),
            },
        }
    }
}

/// The host that a fresh configuration holds: a Raspberry Pi under its
/// usual name, reached on port 22 with a key.
pub open spec fn default_host() -> HostModel {
    HostModel {
        name: "Raspberry Pi"@,
        target: TargetModel {
            hostname: "raspberrypi.local"@,
            username: "pi"@,
            port: 22,
            use_key_auth: true,
            key_path: None,
        },
    }
}

impl HostModel {
    /// The line that stands for the host in a list:
    /// `<name> (<user>@<host>:<port>) [Key]` or `[Password]`.
    pub open spec fn label(self) -> Seq<char> {
        self.name + " ("@ + self.target.user_at_host() + ":"@ + decimal(self.target.port as nat)
            + ") ["@ + (if self.target.use_key_auth {
            "Key"@
        } else {
            "Password"@
        }) + "]"@
    }

    /// The home directory of the user on the host: `/home/<user>`.
    pub open spec fn remote_home(self) -> Seq<char> {
        "/home/"@ + self.target.username
    }

    /// Whether the host looks like a Raspberry Pi: its host name holds
    /// `raspberry` or `pi`, or its name holds `Raspberry` or `Pi`.
    pub open spec fn is_raspberry(self) -> bool {
        contains_text(self.target.hostname, "raspberry"@) || contains_text(
            self.target.hostname,
            "pi"@,
        ) || contains_text(self.name, "Raspberry"@) || contains_text(self.name, "Pi"@)
    }
}

impl Default for Host {
    fn default() -> (host: Host)
        ensures
            host.deep_view() == default_host(),
    {
        Host {
            name: String::from_str("Raspberry Pi"),
            hostname: String::from_str("raspberrypi.local"),
            username: String::from_str("pi"),
            port: 22,
            use_key_auth: true,
            key_path: None,
        }
    }
}

impl Host {
    /// A copy of the host.
    pub fn duplicate(&self) -> (copy: Host)
        ensures
            copy.deep_view() == self.deep_view(),
    {
        Host {
            name: self.name.clone(),
            hostname: self.hostname.clone(),
            username: self.username.clone(),
            port: self.port,
            use_key_auth: self.use_key_auth,
            key_path: match &self.key_path {
                Some(key) => Some(key.clone()),
                None => None,
            },
        }
    }

    /// The line that stands for the host in a list.
    pub fn label(&self) -> (text: String)
        ensures
            text@ == self.deep_view().label(),
    {
        let mut text = self.name.clone();
        text.append(" (");
        text.append(self.username.as_str());
        text.push('@');
        text.append(self.hostname.as_str());
        text.append(":");
        push_decimal(&mut text, self.port as u64);
        text.append(") [");
        if self.use_key_auth {
            text.append("Key");
        } else {
            text.append("Password");
        }
        text.append("]");
        proof {
            let model = self.deep_view();
            assert(text@ == model.name + " ("@ + (model.target.username + seq!['@']
                + model.target.hostname) + ":"@ + decimal(model.target.port as nat) + ") ["@ + (
            if model.target.use_key_auth {
                "Key"@
            } else {
                "Password"@
            }) + "]"@);
        }
        text
    }

    /// The home directory of the user on the host.
    pub fn remote_home(&self) -> (path: String)
        ensures
            path@ == self.deep_view().remote_home(),
    {
        String::from_str("/home/").concat(self.username.as_str())
    }

    /// Whether the host looks like a Raspberry Pi.
    pub fn is_raspberry(&self) -> (r: bool)
        ensures
            r == self.deep_view().is_raspberry(),
    {
        contains(self.hostname.as_str(), "raspberry") || contains(self.hostname.as_str(), "pi")
            || contains(self.name.as_str(), "Raspberry") || contains(self.name.as_str(), "Pi")
    }

    /// A factory of SSH transfer methods for this host, without a password.
    pub fn ssh_factory(&self) -> (factory: SSHTransferFactory)
        ensures
            factory@ == (Session { target: self.deep_view().target, password: None }),
    {
        SSHTransferFactory::new(
            self.hostname.clone(),
            self.username.clone(),
            self.port,
            self.use_key_auth,
            match &self.key_path {
                Some(key) => Some(key.clone()),
                None => None,
            },
        )
    }
}

/// The configuration of the application.
#[derive(Debug, Clone, PartialEq, Eq)]
pub struct Config {
    pub window_width: i32,
    pub window_height: i32,
    pub default_local_dir: String,
    pub hosts: Vec<Host>,
    pub last_used_host_index: usize,
    pub image_formats: Vec<String>,
}

/// The mathematical value of a [`Config`].
pub struct ConfigModel {
    pub window_width: i32,
    pub window_height: i32,
    pub default_local_dir: Seq<char>,
    pub hosts: Seq<HostModel>,
    pub last_used_host_index: usize,
    pub image_formats: Seq<Seq<char>>,
}

impl View for Config {
    type V = ConfigModel;

    open spec fn view(&self) -> ConfigModel {
        ConfigModel {
            window_width: self.window_width,
            window_height: self.window_height,
            default_local_dir: self.default_local_dir@,
            hosts: self.hosts.deep_view(),
            last_used_host_index: self.last_used_host_index,
            image_formats: self.image_formats.deep_view(),
        }
    }
}

/// The local directory of a fresh configuration: the home directory of the
/// user, or `.` where none is known.
pub open spec fn local_dir_for(home: Option<Seq<char>>) -> Seq<char> {
    match home {
        Some(home) => home,
        None => "."@,
    }
}

/// The fresh configuration with the given local directory: a window of 900
/// by 700, the default host, and the seven image formats.
pub open spec fn default_config(local_dir: Seq<char>) -> ConfigModel {
    ConfigModel {
        window_width: 900,
        window_height: 700,
        default_local_dir: local_dir,
        hosts: seq![default_host()],
        last_used_host_index: 0,
        image_formats: seq!["jpg"@, "jpeg"@, "png"@, "gif"@, "bmp"@, "tiff"@, "webp"@],
    }
}

/// The name of the configuration file.
pub open spec fn config_file_name() -> Seq<char> {
    "config.json"@
}

/// The message for a configuration directory that could not be found.
pub open spec fn no_config_directory() -> Seq<char> {
    "Could not determine config directory"@
}

/// The path of the configuration file in `directory`, or the message that
/// says that no directory is known.
pub open spec fn config_path_in(directory: Option<Seq<char>>) -> Result<Seq<char>, Seq<char>> {
    match directory {
        Some(directory) => Ok(joined_path(directory, config_file_name())),
        None => Err(no_config_directory()),
    }
}

/// The value of a path or a message.
pub open spec fn path_view(result: Result<String, String>) -> Result<Seq<char>, Seq<char>> {
    match result {
        Ok(path) => Ok(path@),
        Err(message) => Err(message@),
    }
}

impl ConfigModel {
    /// The index of the host that transfers go to: the last used one, or
    /// the last of the list if that index is past the end. Without hosts
    /// there is none.
    pub open spec fn selected_index(self) -> Option<int> {
        if self.hosts.len() == 0 {
            None
        } else if self.last_used_host_index < self.hosts.len() {
            Some(self.last_used_host_index as int)
        } else {
            Some(self.hosts.len() - 1)
        }
    }

    /// The configuration without the host at `index`. The index of the last
    /// used host moves down by one if it was at or behind `index` and was
    /// not 0. An index past the end changes nothing.
    pub open spec fn without_host(self, index: int) -> ConfigModel {
        if 0 <= index < self.hosts.len() {
            ConfigModel {
                hosts: self.hosts.remove(index),
                last_used_host_index: if self.last_used_host_index >= index
                    && self.last_used_host_index > 0 {
                    (self.last_used_host_index - 1) as usize
                } else {
                    self.last_used_host_index
                },
                ..self
            }
        } else {
            self
        }
    }

    /// The configuration after `host` was saved under `selection`: in place
    /// of the host at that index, or, for an index past the end, as a new
    /// last host, which is then the last used one.
    pub open spec fn with_host_at(self, selection: int, host: HostModel) -> ConfigModel {
        if 0 <= selection < self.hosts.len() {
            ConfigModel { hosts: self.hosts.update(selection, host), ..self }
        } else {
            ConfigModel {
                hosts: self.hosts.push(host),
                last_used_host_index: self.hosts.len() as usize,
                ..self
            }
        }
    }

    /// The index of the first host named `name`, or the number of hosts if
    /// there is none.
    pub open spec fn index_of_name(self, name: Seq<char>) -> int
        decreases self.hosts.len(),
    {
        if self.hosts.len() == 0 {
            0
        } else if self.hosts[0].name == name {
            0
        } else {
            1 + (ConfigModel { hosts: self.hosts.skip(1), ..self }).index_of_name(name)
        }
    }

    /// The index of the first host that looks like a Raspberry Pi, or the
    /// number of hosts if there is none.
    pub open spec fn index_of_raspberry(self) -> int
        decreases self.hosts.len(),
    {
        if self.hosts.len() == 0 {
            0
        } else if self.hosts[0].is_raspberry() {
            0
        } else {
            1 + (ConfigModel { hosts: self.hosts.skip(1), ..self }).index_of_raspberry()
        }
    }
}

impl Default for Config {
    /// A fresh configuration, whose local directory is the home directory
    /// that the operating system names, or `.` if it names none.
    fn default() -> (config: Config)
        ensures
            config@ == default_config(config@.default_local_dir),
    {
        Config::default_for_home(home_directory())
    }
}

impl Config {
    /// The fresh configuration for a user whose home directory is `home`.
    pub fn default_for_home(home: Option<String>) -> (config: Config)
        ensures
            config@ == default_config(local_dir_for(home.deep_view())),
    {
        let default_local_dir = match home {
            Some(home) => home,
            None => String::from_str("."),
        };
        let mut hosts: Vec<Host> = Vec::new();
        hosts.push(Host::default());
        let mut image_formats: Vec<String> = Vec::new();
        image_formats.push(String::from_str("jpg"));
        image_formats.push(String::from_str("jpeg"));
        image_formats.push(String::from_str("png"));
        image_formats.push(String::from_str("gif"));
        image_formats.push(String::from_str("bmp"));
        image_formats.push(String::from_str("tiff"));
        image_formats.push(String::from_str("webp"));
        proof {
            assert(hosts.deep_view() == seq![default_host()]);
            assert(image_formats.deep_view() == seq![
                "jpg"@,
                "jpeg"@,
                "png"@,
                "gif"@,
                "bmp"@,
                "tiff"@,
                "webp"@,
            ]);
        }
        Config {
            window_width: 900,
            window_height: 700,
            default_local_dir,
            hosts,
            last_used_host_index: 0,
            image_formats,
        }
    }

    /// The path of the configuration file in the configuration directory
    /// `directory`, or the message that says that no directory is known.
    pub fn config_path_in(directory: Option<&str>) -> (result: Result<String, String>)
        ensures
            path_view(result) == config_path_in(
                match directory {
                    Some(d) => Some(d@),
                    None => None,
                },
            ),
    {
        match directory {
            Some(directory) => Ok(path_join(directory, "config.json")),
            None => Err(String::from_str("Could not determine config directory")),
        }
    }

    /// The path of the configuration file of this application, in the
    /// configuration directory that the operating system names for it. It
    /// fails, with a message, if the system names none.
    pub fn get_config_path() -> (result: Result<String, String>)
        ensures
            result matches Err(message) ==> message@ == no_config_directory(),
            result matches Ok(path) ==> exists|directory: Seq<char>|
                path@ == #[trigger] joined_path(directory, config_file_name()),
    {
        match project_directories("com", "PiImageProcessor", "piimgproc") {
            Some(project) => {
                let directory = config_directory(&project);
                let result = Config::config_path_in(Some(directory.as_str()));
                proof {
                    assert(path_view(result) == Ok::<Seq<char>, Seq<char>>(
                        joined_path(directory@, config_file_name()),
                    ));
                }
                result
            },
            None => Config::config_path_in(None),
        }
    }

    /// The host that transfers go to, if there is any host.
    pub fn selected_host(&self) -> (host: Option<&Host>)
        ensures
            match self@.selected_index() {
                Some(index) => host matches Some(h) && h.deep_view() == self@.hosts[index],
                None => host is None,
            },
    {
        if self.hosts.len() == 0 {
            None
        } else if self.last_used_host_index < self.hosts.len() {
            Some(&self.hosts[self.last_used_host_index])
        } else {
            Some(&self.hosts[self.hosts.len() - 1])
        }
    }

    /// Removes the host at `index` and tells whether there was one.
    pub fn remove_host(&mut self, index: usize) -> (removed: bool)
        ensures
            removed == (index < old(self)@.hosts.len()),
            final(self)@ == old(self)@.without_host(index as int),
    {
        if index < self.hosts.len() {
            let ghost before = self.hosts.deep_view();
            self.hosts.remove(index);
            if self.last_used_host_index >= index && self.last_used_host_index > 0 {
                self.last_used_host_index = self.last_used_host_index - 1;
            }
            assert(self.hosts.deep_view() == before.remove(index as int));
            true
        } else {
            false
        }
    }

    /// Saves `host` under `selection`: in place of the host at that index,
    /// or, for an index past the end, as a new last host, which is then the
    /// last used one.
    pub fn store_host(&mut self, selection: usize, host: Host)
        ensures
            final(self)@ == old(self)@.with_host_at(selection as int, host.deep_view()),
    {
        let ghost before = self.hosts.deep_view();
        if selection < self.hosts.len() {
            self.hosts.set(selection, host);
            assert(self.hosts.deep_view() == before.update(selection as int, host.deep_view()));
        } else {
            self.last_used_host_index = self.hosts.len();
            self.hosts.push(host);
            assert(self.hosts.deep_view() == before.push(host.deep_view()));
        }
    }

    /// The index of the first host named `name`, if there is one.
    pub fn position_of_name(&self, name: &str) -> (position: Option<usize>)
        ensures
            match position {
                Some(index) => index < self@.hosts.len() && index == self@.index_of_name(name@),
                None => self@.index_of_name(name@) == self@.hosts.len(),
            },
    {
        let mut i: usize = 0;
        proof {
            assert(self@.hosts.skip(0) == self@.hosts);
        }
        while i < self.hosts.len()
            invariant
                i <= self.hosts.len(),
                self@.index_of_name(name@) == i + (ConfigModel {
                    hosts: self@.hosts.skip(i as int),
                    ..self@
                }).index_of_name(name@),
            decreases self.hosts.len() - i,
        {
            let ghost rest = self@.hosts.skip(i as int);
            proof {
                assert(rest[0] == self.hosts[i as int].deep_view());
                assert(rest.skip(1) == self@.hosts.skip(i + 1));
            }
            if str_eq(self.hosts[i].name.as_str(), name) {
                return Some(i);
            }
            i += 1;
        }
        None
    }

    /// Saves `host` under its name: in place of the first host of that
    /// name, or as a new last host if there is none.
    pub fn upsert_host(&mut self, host: Host)
        ensures
            final(self)@.hosts == (if old(self)@.index_of_name(host.deep_view().name) < old(
                self,
            )@.hosts.len() {
                old(self)@.hosts.update(
                    old(self)@.index_of_name(host.deep_view().name),
                    host.deep_view(),
                )
            } else {
                old(self)@.hosts.push(host.deep_view())
            }),
            final(self)@ == (ConfigModel { hosts: final(self)@.hosts, ..old(self)@ }),
    {
        let ghost before = self.hosts.deep_view();
        match self.position_of_name(host.name.as_str()) {
            Some(index) => {
                self.hosts.set(index, host);
                assert(self.hosts.deep_view() == before.update(index as int, host.deep_view()));
            },
            None => {
                self.hosts.push(host);
                assert(self.hosts.deep_view() == before.push(host.deep_view()));
            },
        }
    }

    /// The first host that looks like a Raspberry Pi, if there is one.
    pub fn find_raspberry_host(&self) -> (host: Option<&Host>)
        ensures
            match host {
                Some(h) => self@.index_of_raspberry() < self@.hosts.len() && h.deep_view()
                    == self@.hosts[self@.index_of_raspberry()],
                None => self@.index_of_raspberry() == self@.hosts.len(),
            },
    {
        let mut i: usize = 0;
        proof {
            assert(self@.hosts.skip(0) == self@.hosts);
        }
        while i < self.hosts.len()
            invariant
                i <= self.hosts.len(),
                self@.index_of_raspberry() == i + (ConfigModel {
                    hosts: self@.hosts.skip(i as int),
                    ..self@
                }).index_of_raspberry(),
            decreases self.hosts.len() - i,
        {
            let ghost rest = self@.hosts.skip(i as int);
            proof {
                assert(rest[0] == self.hosts[i as int].deep_view());
                assert(rest.skip(1) == self@.hosts.skip(i + 1));
            }
            if self.hosts[i].is_raspberry() {
                return Some(&self.hosts[i]);
            }
            i += 1;
        }
        None
    }
}

} // verus!
