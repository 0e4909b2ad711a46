//! Connection parameters, and the command lines of the SSH family that are
//! built from them.
//!
//! With key authentication the transport tool is run directly, with `-i` and
//! the key file where one is configured. With password authentication the
//! tool is run through `sshpass -p <password>`, which hands the password to
//! it without a prompt.

use crate::text::{contains_text, decimal, joined, lemma_contains_middle, push_decimal};
use crate::transfer::command::CommandLine;
use vstd::prelude::*;
use vstd::string::StringExecFns;

verus! {

/// Where and how to connect: host, user, port, and whether to authenticate
/// with a key or with a password.
#[derive(Debug, Clone, PartialEq, Eq)]
pub struct ConnectionTarget {
    pub hostname: String,
    pub username: String,
    pub port: u16,
    pub use_key_auth: bool,
    pub key_path: Option<String>,
}

/// The mathematical value of a [`ConnectionTarget`].
pub struct TargetModel {
    pub hostname: Seq<char>,
    pub username: Seq<char>,
    pub port: u16,
    pub use_key_auth: bool,
    pub key_path: Option<Seq<char>>,
}

/// A target together with the password that is known for it, if any.
pub struct Session {
    pub target: TargetModel,
    pub password: Option<Seq<char>>,
}

impl View for ConnectionTarget {
    type V = TargetModel;

    open spec fn view(&self) -> TargetModel {
        TargetModel {
            hostname: self.hostname@,
            username: self.username@,
            port: self.port,
            use_key_auth: self.use_key_auth,
            key_path: self.key_path.deep_view(),
        }
    }
}

impl TargetModel {
    /// `user@host`.
    pub open spec fn user_at_host(self) -> Seq<char> {
        self.username + seq!['@'] + self.hostname
    }

    /// `user@host:path`.
    pub open spec fn remote_location(self, path: Seq<char>) -> Seq<char> {
        self.user_at_host() + seq![':'] + path
    }

    /// `-i` and the key file, for key authentication with a key file;
    /// nothing otherwise.
    pub open spec fn identity_words(self) -> Seq<Seq<char>> {
        match self.key_path {
            Some(key) if self.use_key_auth => seq!["-i"@, key],
            _ => Seq::empty(),
        }
    }

    /// The remote shell that `rsync` is told to use: `ssh -p <port>`, and
    /// ` -i <key>` for key authentication with a key file.
    pub open spec fn remote_shell(self) -> Seq<char> {
        "ssh -p "@ + decimal(self.port as nat) + (match self.key_path {
            Some(key) if self.use_key_auth => " -i "@ + key,
            _ => Seq::empty(),
        })
    }
}

impl Session {
    /// Password authentication is asked for and no password is known.
    pub open spec fn lacks_password(self) -> bool {
        !self.target.use_key_auth && self.password is None
    }

    /// The session after a password was offered to it: stored where the
    /// target authenticates by password, ignored where it uses a key.
    pub open spec fn offered(self, password: Seq<char>) -> Session {
        if self.target.use_key_auth {
            self
        } else {
            Session { target: self.target, password: Some(password) }
        }
    }

    /// The credential that command lines of this session carry: the
    /// password, where the target authenticates by password.
    pub open spec fn credential(self) -> Option<Seq<char>> {
        if self.target.use_key_auth {
            None
        } else {
            self.password
        }
    }

    /// The words that start a command line for `tool`: the tool alone for
    /// key authentication, `sshpass -p <password> <tool>` for password
    /// authentication.
    pub open spec fn tool_words(self, tool: Seq<char>) -> Seq<Seq<char>> {
        match self.credential() {
            Some(password) => seq!["sshpass"@, "-p"@, password, tool],
            None => seq![tool],
        }
    }

    /// `scp -P <port> [-i <key>] <local> <user@host:remote>`.
    pub open spec fn scp_upload_words(self, local: Seq<char>, remote: Seq<char>) -> Seq<Seq<char>> {
        self.tool_words("scp"@) + seq!["-P"@, decimal(self.target.port as nat)]
            + self.target.identity_words() + seq![local, self.target.remote_location(remote)]
    }

    /// `scp -P <port> [-i <key>] <user@host:remote> <local>`.
    pub open spec fn scp_download_words(self, remote: Seq<char>, local: Seq<char>) -> Seq<
        Seq<char>,
    > {
        self.tool_words("scp"@) + seq!["-P"@, decimal(self.target.port as nat)]
            + self.target.identity_words() + seq![self.target.remote_location(remote), local]
    }

    /// `ssh -p <port> [-i <key>] <user@host> "ls -la <dir>"`.
    pub open spec fn list_words(self, dir: Seq<char>) -> Seq<Seq<char>> {
        self.tool_words("ssh"@) + seq!["-p"@, decimal(self.target.port as nat)]
            + self.target.identity_words() + seq![self.target.user_at_host(), "ls -la "@ + dir]
    }

    /// The words of an `rsync` command line up to the two paths:
    /// `rsync -avz <options...> -e "ssh -p <port> [-i <key>]"`.
    pub open spec fn rsync_words(self, options: Seq<Seq<char>>) -> Seq<Seq<char>> {
        self.tool_words("rsync"@) + seq!["-avz"@] + options + seq![
            "-e"@,
            self.target.remote_shell(),
        ]
    }

    /// `rsync -avz <options...> -e <shell> <local> <user@host:remote>`.
    pub open spec fn rsync_upload_words(
        self,
        options: Seq<Seq<char>>,
        local: Seq<char>,
        remote: Seq<char>,
    ) -> Seq<Seq<char>> {
        self.rsync_words(options) + seq![local, self.target.remote_location(remote)]
    }

    /// `rsync -avz <options...> -e <shell> <user@host:remote> <local>`.
    pub open spec fn rsync_download_words(
        self,
        options: Seq<Seq<char>>,
        remote: Seq<char>,
        local: Seq<char>,
    ) -> Seq<Seq<char>> {
        self.rsync_words(options) + seq![self.target.remote_location(remote), local]
    }

    /// `ssh [-i <key>] -o NumberOfPasswordPrompts=1 -o ConnectTimeout=10
    /// -p <port> <user@host> "echo 'Connection successful'"`.
    pub open spec fn probe_words(self) -> Seq<Seq<char>> {
        self.tool_words("ssh"@) + self.target.identity_words() + seq![
            "-o"@,
            "NumberOfPasswordPrompts=1"@,
            "-o"@,
            "ConnectTimeout=10"@,
            "-p"@,
            decimal(self.target.port as nat),
            self.target.user_at_host(),
            "echo 'Connection successful'"@,
        ]
    }
}

/// The tool that moves the files of a transfer method: `scp`, or `rsync`
/// with the extra options that are handed to it as they are.
pub enum Transport {
    Scp,
    Rsync(Seq<Seq<char>>),
}

impl Transport {
    /// The name of the tool.
    pub open spec fn tool(self) -> Seq<char> {
        match self {
            Transport::Scp => "scp"@,
            Transport::Rsync(_) => "rsync"@,
        }
    }

    /// The name of the transfer method.
    pub open spec fn method_name(self) -> Seq<char> {
        match self {
            Transport::Scp => "SSH Transfer"@,
            Transport::Rsync(_) => "Rsync Transfer"@,
        }
    }

    /// The words of the command line that uploads `local` to `remote`.
    pub open spec fn upload_words(self, session: Session, local: Seq<char>, remote: Seq<char>) -> Seq<
        Seq<char>,
    > {
        match self {
            Transport::Scp => session.scp_upload_words(local, remote),
            Transport::Rsync(options) => session.rsync_upload_words(options, local, remote),
        }
    }

    /// The words of the command line that downloads `remote` to `local`.
    pub open spec fn download_words(
        self,
        session: Session,
        remote: Seq<char>,
        local: Seq<char>,
    ) -> Seq<Seq<char>> {
        match self {
            Transport::Scp => session.scp_download_words(remote, local),
            Transport::Rsync(options) => session.rsync_download_words(options, remote, local),
        }
    }

    /// What the description of a method says before and after `user@host`.
    pub open spec fn description_frame(self) -> (Seq<char>, Seq<char>) {
        match self {
            Transport::Scp => ("SSH/SCP transfer to "@, Seq::empty()),
            Transport::Rsync(options) => (
                "Rsync transfer to "@,
                " with options: "@ + joined(options, " "@),
            ),
        }
    }

    /// The description of a method: `SSH/SCP transfer to <user>@<host>`, or
    /// `Rsync transfer to <user>@<host> with options: <options>` with the
    /// options separated by single spaces.
    pub open spec fn description(self, target: TargetModel) -> Seq<char> {
        self.description_frame().0 + target.user_at_host() + self.description_frame().1
    }

    /// What the name of a factory says before `user@host`.
    pub open spec fn factory_prefix(self) -> Seq<char> {
        match self {
            Transport::Scp => "SSH/SCP to "@,
            Transport::Rsync(_) => "Rsync to "@,
        }
    }

    /// The name of a factory: `SSH/SCP to <user>@<host>` or
    /// `Rsync to <user>@<host>`.
    pub open spec fn factory_name(self, target: TargetModel) -> Seq<char> {
        self.factory_prefix() + target.user_at_host()
    }
}

/// A text that holds `user@host` holds the user name and the host name.
pub proof fn lemma_names_user_and_host(before: Seq<char>, target: TargetModel, after: Seq<char>)
    ensures
        contains_text(before + target.user_at_host() + after, target.username),
        contains_text(before + target.user_at_host() + after, target.hostname),
{
    let whole = before + target.user_at_host() + after;
    lemma_contains_middle(before, target.username, seq!['@'] + target.hostname + after);
    assert(whole == before + target.username + (seq!['@'] + target.hostname + after));
    lemma_contains_middle(before + target.username + seq!['@'], target.hostname, after);
    assert(whole == before + target.username + seq!['@'] + target.hostname + after);
}

/// The session of a target and a password.
pub open spec fn session_of(target: &ConnectionTarget, password: &Option<String>) -> Session {
    Session { target: target@, password: password.deep_view() }
}

impl ConnectionTarget {
    /// A target with the given parameters.
    pub fn new(
        hostname: String,
        username: String,
        port: u16,
        use_key_auth: bool,
        key_path: Option<String>,
    ) -> (target: ConnectionTarget)
        ensures
            target@ == (TargetModel {
                hostname: hostname@,
                username: username@,
                port,
                use_key_auth,
                key_path: key_path.deep_view(),
            }),
    {
        ConnectionTarget { hostname, username, port, use_key_auth, key_path }
    }

    /// A copy of this target.
    pub fn duplicate(&self) -> (copy: ConnectionTarget)
        ensures
            copy@ == self@,
    {
        ConnectionTarget {
            hostname: self.hostname.clone(),
            username: self.username.clone(),
            port: self.port,
            use_key_auth: self.use_key_auth,
            key_path: match &self.key_path {
                Some(key) => Some(key.clone()),
                None => None,
            },
        }
    }

    /// `user@host`.
    pub fn user_at_host(&self) -> (text: String)
        ensures
            text@ == self@.user_at_host(),
    {
        let mut text = self.username.clone();
        text.push('@');
        text.append(self.hostname.as_str());
        text
    }

    /// `user@host:path`.
    pub fn remote_location(&self, path: &str) -> (text: String)
        ensures
            text@ == self@.remote_location(path@),
    {
        let mut text = self.user_at_host();
        text.push(':');
        text.append(path);
        text
    }

    /// The remote shell that `rsync` is told to use.
    pub fn remote_shell(&self) -> (text: String)
        ensures
            text@ == self@.remote_shell(),
    {
        let mut text = String::from_str("ssh -p ");
        push_decimal(&mut text, self.port as u64);
        if self.use_key_auth {
            match &self.key_path {
                Some(key) => {
                    text.append(" -i ");
                    text.append(key.as_str());
                },
                None => {},
            }
        }
        text
    }

    /// Appends `-i` and the key file to `command`, for key authentication
    /// with a key file.
    pub fn push_identity(&self, command: &mut CommandLine)
        ensures
            final(command)@ == old(command)@ + self@.identity_words(),
    {
        if self.use_key_auth {
            match &self.key_path {
                Some(key) => {
                    command.arg("-i");
                    command.arg(key.as_str());
                    assert(command@ == old(command)@ + seq!["-i"@, key@]);
                },
                None => {
                    assert(command@ == old(command)@ + Seq::<Seq<char>>::empty());
                },
            }
        } else {
            assert(command@ == old(command)@ + Seq::<Seq<char>>::empty());
        }
    }

    /// Appends `flag` and the port to `command`.
    pub fn push_port(&self, command: &mut CommandLine, flag: &str)
        ensures
            final(command)@ == old(command)@ + seq![flag@, decimal(self.port as nat)],
    {
        command.arg(flag);
        let mut port = String::new();
        push_decimal(&mut port, self.port as u64);
        command.push_arg(port);
        assert(command@ == old(command)@ + seq![flag@, decimal(self.port as nat)]);
    }

    /// Starts a command line for `tool`: the tool itself for key
    /// authentication, `sshpass -p <password> <tool>` for password
    /// authentication. `None` if password authentication is asked for and
    /// no password is given.
    pub fn start_command(&self, password: &Option<String>, tool: &str) -> (r: Option<CommandLine>)
        ensures
            session_of(self, password).lacks_password() <==> r is None,
            r matches Some(command) ==> command@ == session_of(self, password).tool_words(tool@),
    {
        if self.use_key_auth {
            Some(CommandLine::new(tool))
        } else {
            match password {
                Some(secret) => {
                    let mut command = CommandLine::new("sshpass");
                    command.arg("-p");
                    command.arg(secret.as_str());
                    command.arg(tool);
                    assert(command@ == seq!["sshpass"@, "-p"@, secret@, tool@]);
                    Some(command)
                },
                None => None,
            }
        }
    }
}

} // verus!
