//! Transfer with `rsync` over SSH. Listings are left to an [`SSHTransfer`]
//! with the same connection parameters and password.

use crate::text::{duplicate_text, join_with, joined};
use crate::transfer::command::CommandLine;
use crate::transfer::method::{
    lemma_description_names_target, lemma_factory_name_names_target, TransferError,
    TransferMethod, TransferMethodFactory,
};
use crate::transfer::ssh::SSHTransfer;
use crate::transfer::target::{session_of, ConnectionTarget, Session, TargetModel, Transport};
use vstd::prelude::*;
use vstd::string::StringExecFns;

verus! {

/// A session together with the extra options that are handed to `rsync` as
/// they are.
pub struct RsyncModel {
    pub session: Session,
    pub options: Seq<Seq<char>>,
}

impl RsyncModel {
    /// The model after a password was offered to it.
    pub open spec fn offered(self, password: Seq<char>) -> RsyncModel {
        RsyncModel { session: self.session.offered(password), options: self.options }
    }
}

/// A copy of a list of strings.
pub fn duplicate_texts(texts: &Vec<String>) -> (copy: Vec<String>)
    ensures
        copy.deep_view() == texts.deep_view(),
{
    let mut copy: Vec<String> = Vec::new();
    let mut i: usize = 0;
    while i < texts.len()
        invariant
            i <= texts.len(),
            copy.deep_view() == texts.deep_view().take(i as int),
        decreases texts.len() - i,
    {
        let ghost before = copy.deep_view();
        copy.push(texts[i].clone());
        assert(copy.deep_view() == before.push(texts[i as int]@));
        i += 1;
    }
    assert(texts.deep_view().take(texts.len() as int) == texts.deep_view());
    copy
}

/// A transfer method that copies with `rsync -avz` over SSH.
#[derive(Clone)]
pub struct RsyncTransfer {
    target: ConnectionTarget,
    options: Vec<String>,
    password: Option<String>,
}

impl View for RsyncTransfer {
    type V = RsyncModel;

    closed spec fn view(&self) -> RsyncModel {
        RsyncModel {
            session: session_of(&self.target, &self.password),
            options: self.options.deep_view(),
        }
    }
}

impl RsyncTransfer {
    /// A method for the given target and options, without a password.
    pub fn new(
        hostname: String,
        username: String,
        port: u16,
        use_key_auth: bool,
        key_path: Option<String>,
        options: Vec<String>,
    ) -> (method: RsyncTransfer)
        ensures
            method@ == (RsyncModel {
                session: Session {
                    target: TargetModel {
                        hostname: hostname@,
                        username: username@,
                        port,
                        use_key_auth,
                        key_path: key_path.deep_view(),
                    },
                    password: None,
                },
                options: options.deep_view(),
            }),
    {
        RsyncTransfer {
            target: ConnectionTarget::new(hostname, username, port, use_key_auth, key_path),
            options,
            password: None,
        }
    }

    /// A method that authenticates with the given password.
    pub fn with_password(
        hostname: String,
        username: String,
        port: u16,
        options: Vec<String>,
        password: String,
    ) -> (method: RsyncTransfer)
        ensures
            method@ == (RsyncModel {
                session: Session {
                    target: TargetModel {
                        hostname: hostname@,
                        username: username@,
                        port,
                        use_key_auth: false,
                        key_path: None,
                    },
                    password: Some(password@),
                },
                options: options.deep_view(),
            }),
    {
        RsyncTransfer {
            target: ConnectionTarget::new(hostname, username, port, false, None),
            options,
            password: Some(password),
        }
    }

    /// A method for a target, options and a password that are already at
    /// hand.
    pub fn for_target(target: ConnectionTarget, options: Vec<String>, password: Option<String>) -> (method:
        RsyncTransfer)
        ensures
            method@ == (RsyncModel {
                session: session_of(&target, &password),
                options: options.deep_view(),
            }),
    {
        RsyncTransfer { target, options, password }
    }

    /// Offers a password to the method. With password authentication it is
    /// stored, in place of any earlier one, and the answer is `true`. With
    /// key authentication nothing changes and the answer is `false`.
    pub fn set_password(&mut self, password: String) -> (stored: bool)
        ensures
            stored == !old(self)@.session.target.use_key_auth,
            final(self)@ == old(self)@.offered(password@),
    {
        if self.target.use_key_auth {
            false
        } else {
            self.password = Some(password);
            true
        }
    }

    /// The SSH method with the same connection parameters and password, to
    /// which listings are left.
    pub fn ssh_transfer(&self) -> (ssh: SSHTransfer)
        ensures
            ssh@ == self@.session,
    {
        SSHTransfer::for_target(self.target.duplicate(), duplicate_text(&self.password))
    }

    /// Starts an `rsync` command line, up to the two paths.
    fn start_rsync(&self) -> (r: Option<CommandLine>)
        ensures
            self@.session.lacks_password() <==> r is None,
            r matches Some(command) ==> command@ == self@.session.rsync_words(self@.options),
    {
        match self.target.start_command(&self.password, "rsync") {
            Some(mut command) => {
                command.arg("-avz");
                let ghost head = command@;
                let mut i: usize = 0;
                while i < self.options.len()
                    invariant
                        i <= self.options.len(),
                        command@ == head + self.options.deep_view().take(i as int),
                    decreases self.options.len() - i,
                {
                    command.arg(self.options[i].as_str());
                    assert(self.options.deep_view().take(i + 1) == self.options.deep_view().take(
                        i as int,
                    ).push(self.options[i as int]@));
                    i += 1;
                }
                assert(self.options.deep_view().take(self.options.len() as int)
                    == self.options.deep_view());
                command.arg("-e");
                command.push_arg(self.target.remote_shell());
                assert(command@ == self@.session.rsync_words(self@.options));
                Some(command)
            },
            None => None,
        }
    }
}

impl TransferMethod for RsyncTransfer {
    open spec fn session(&self) -> Session {
        self@.session
    }

    open spec fn transport(&self) -> Transport {
        Transport::Rsync(self@.options)
    }

    fn upload_command(&self, local_path: &str, remote_path: &str) -> (plan: Result<
        CommandLine,
        TransferError,
    >) {
        match self.start_rsync() {
            Some(mut command) => {
                command.arg(local_path);
                command.push_arg(self.target.remote_location(remote_path));
                assert(command@ == self@.session.rsync_upload_words(
                    self@.options,
                    local_path@,
                    remote_path@,
                ));
                Ok(command)
            },
            None => Err(TransferError::password_required()),
        }
    }

    fn download_command(&self, remote_path: &str, local_path: &str) -> (plan: Result<
        CommandLine,
        TransferError,
    >) {
        match self.start_rsync() {
            Some(mut command) => {
                command.push_arg(self.target.remote_location(remote_path));
                command.arg(local_path);
                assert(command@ == self@.session.rsync_download_words(
                    self@.options,
                    remote_path@,
                    local_path@,
                ));
                Ok(command)
            },
            None => Err(TransferError::password_required()),
        }
    }

    fn list_command(&self, remote_dir: &str) -> (plan: Result<CommandLine, TransferError>) {
        self.ssh_transfer().list_command(remote_dir)
    }

    fn describe_command(&self, command: &CommandLine) -> (text: String) {
        match &self.password {
            Some(secret) => command.diagnostic(Some(secret.as_str())),
            None => command.diagnostic(None),
        }
    }

    fn get_tool(&self) -> (tool: &'static str) {
        "rsync"
    }

    fn get_name(&self) -> (name: &'static str) {
        "Rsync Transfer"
    }

    fn get_description(&self) -> (text: String) {
        let mut text = String::from_str("Rsync transfer to ");
        text.append(self.target.user_at_host().as_str());
        text.append(" with options: ");
        text.append(join_with(&self.options, " ").as_str());
        proof {
            assert(text@ == "Rsync transfer to "@ + self@.session.target.user_at_host() + (
            " with options: "@ + joined(self@.options, " "@)));
            lemma_description_names_target(self.transport(), self@.session.target);
        }
        text
    }

    fn get_password_prompt(&self) -> (text: String) {
        let mut text = String::from_str("Enter password for ");
        text.append(self.target.user_at_host().as_str());
        text.append(": ");
        text
    }

    fn needs_password(&self) -> (needed: bool) {
        !self.target.use_key_auth && self.password.is_none()
    }

    fn set_password(&mut self, password: &str) -> (stored: bool) {
        if self.target.use_key_auth {
            false
        } else {
            self.password = Some(password.to_owned());
            true
        }
    }
}

/// A maker of [`RsyncTransfer`] methods.
#[derive(Clone)]
pub struct RsyncTransferFactory {
    target: ConnectionTarget,
    options: Vec<String>,
    password: Option<String>,
}

impl View for RsyncTransferFactory {
    type V = RsyncModel;

    closed spec fn view(&self) -> RsyncModel {
        RsyncModel {
            session: session_of(&self.target, &self.password),
            options: self.options.deep_view(),
        }
    }
}

impl RsyncTransferFactory {
    /// A factory for the given target and options, without a password.
    pub fn new(
        hostname: String,
        username: String,
        port: u16,
        use_key_auth: bool,
        key_path: Option<String>,
        options: Vec<String>,
    ) -> (factory: RsyncTransferFactory)
        ensures
            factory@ == (RsyncModel {
                session: Session {
                    target: TargetModel {
                        hostname: hostname@,
                        username: username@,
                        port,
                        use_key_auth,
                        key_path: key_path.deep_view(),
                    },
                    password: None,
                },
                options: options.deep_view(),
            }),
    {
        RsyncTransferFactory {
            target: ConnectionTarget::new(hostname, username, port, use_key_auth, key_path),
            options,
            password: None,
        }
    }

    /// A factory whose methods authenticate with the given password.
    pub fn with_password(
        hostname: String,
        username: String,
        port: u16,
        options: Vec<String>,
        password: String,
    ) -> (factory: RsyncTransferFactory)
        ensures
            factory@ == (RsyncModel {
                session: Session {
                    target: TargetModel {
                        hostname: hostname@,
                        username: username@,
                        port,
                        use_key_auth: false,
                        key_path: None,
                    },
                    password: Some(password@),
                },
                options: options.deep_view(),
            }),
    {
        RsyncTransferFactory {
            target: ConnectionTarget::new(hostname, username, port, false, None),
            options,
            password: Some(password),
        }
    }

    /// Offers a password to the factory. With password authentication it is
    /// stored for the methods made from now on, and the answer is `true`.
    /// With key authentication nothing changes and the answer is `false`.
    pub fn set_password(&mut self, password: String) -> (stored: bool)
        ensures
            stored == !old(self)@.session.target.use_key_auth,
            final(self)@ == old(self)@.offered(password@),
    {
        if self.target.use_key_auth {
            false
        } else {
            self.password = Some(password);
            true
        }
    }
}

impl TransferMethodFactory for RsyncTransferFactory {
    type Method = RsyncTransfer;

    open spec fn session(&self) -> Session {
        self@.session
    }

    open spec fn transport(&self) -> Transport {
        Transport::Rsync(self@.options)
    }

    fn create_method(&self) -> (method: RsyncTransfer) {
        RsyncTransfer::for_target(
            self.target.duplicate(),
            duplicate_texts(&self.options),
            duplicate_text(&self.password),
        )
    }

    fn get_name(&self) -> (text: String) {
        let mut text = String::from_str("Rsync to ");
        text.append(self.target.user_at_host().as_str());
        proof {
            lemma_factory_name_names_target(self.transport(), self@.session.target);
        }
        text
    }
}

} // verus!
