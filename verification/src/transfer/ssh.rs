//! Transfer over plain SSH: `scp` for single files, `ssh` with `ls -la` for
//! listings.

use crate::text::duplicate_text;
use crate::transfer::command::CommandLine;
use crate::transfer::method::{
    lemma_description_names_target, lemma_factory_name_names_target, TransferError,
    TransferMethod, TransferMethodFactory,
};
use crate::transfer::target::{session_of, ConnectionTarget, Session, TargetModel, Transport};
use vstd::prelude::*;
use vstd::string::StringExecFns;

verus! {

/// A transfer method that copies with `scp` and lists with `ssh`.
#[derive(Clone)]
pub struct SSHTransfer {
    target: ConnectionTarget,
    password: Option<String>,
}

impl View for SSHTransfer {
    type V = Session;

    closed spec fn view(&self) -> Session {
        session_of(&self.target, &self.password)
    }
}

impl SSHTransfer {
    /// A method for the given target, without a password.
    pub fn new(
        hostname: String,
        username: String,
        port: u16,
        use_key_auth: bool,
        key_path: Option<String>,
    ) -> (method: SSHTransfer)
        ensures
            method@ == (Session {
                target: TargetModel {
                    hostname: hostname@,
                    username: username@,
                    port,
                    use_key_auth,
                    key_path: key_path.deep_view(),
                },
                password: None,
            }),
    {
        SSHTransfer {
            target: ConnectionTarget::new(hostname, username, port, use_key_auth, key_path),
            password: None,
        }
    }

    /// A method that authenticates with the given password.
    pub fn with_password(hostname: String, username: String, port: u16, password: String) -> (method:
        SSHTransfer)
        ensures
            method@ == (Session {
                target: TargetModel {
                    hostname: hostname@,
                    username: username@,
                    port,
                    use_key_auth: false,
                    key_path: None,
                },
                password: Some(password@),
            }),
    {
        SSHTransfer {
            target: ConnectionTarget::new(hostname, username, port, false, None),
            password: Some(password),
        }
    }

    /// A method for a target and a password that are already at hand.
    pub fn for_target(target: ConnectionTarget, password: Option<String>) -> (method: SSHTransfer)
        ensures
            method@ == session_of(&target, &password),
    {
        SSHTransfer { target, password }
    }

    /// Offers a password to the method. With password authentication it is
    /// stored, in place of any earlier one, and the answer is `true`. With
    /// key authentication nothing changes and the answer is `false`.
    pub fn set_password(&mut self, password: String) -> (stored: bool)
        ensures
            stored == !old(self)@.target.use_key_auth,
            final(self)@ == old(self)@.offered(password@),
    {
        if self.target.use_key_auth {
            false
        } else {
            self.password = Some(password);
            true
        }
    }
}

impl TransferMethod for SSHTransfer {
    open spec fn session(&self) -> Session {
        self@
    }

    open spec fn transport(&self) -> Transport {
        Transport::Scp
    }

    fn upload_command(&self, local_path: &str, remote_path: &str) -> (plan: Result<
        CommandLine,
        TransferError,
    >) {
        match self.target.start_command(&self.password, "scp") {
            Some(mut command) => {
                self.target.push_port(&mut command, "-P");
                self.target.push_identity(&mut command);
                command.arg(local_path);
                command.push_arg(self.target.remote_location(remote_path));
                assert(command@ == self@.scp_upload_words(local_path@, remote_path@));
                Ok(command)
            },
            None => Err(TransferError::password_required()),
        }
    }

    fn download_command(&self, remote_path: &str, local_path: &str) -> (plan: Result<
        CommandLine,
        TransferError,
    >) {
        match self.target.start_command(&self.password, "scp") {
            Some(mut command) => {
                self.target.push_port(&mut command, "-P");
                self.target.push_identity(&mut command);
                command.push_arg(self.target.remote_location(remote_path));
                command.arg(local_path);
                assert(command@ == self@.scp_download_words(remote_path@, local_path@));
                Ok(command)
            },
            None => Err(TransferError::password_required()),
        }
    }

    fn list_command(&self, remote_dir: &str) -> (plan: Result<CommandLine, TransferError>) {
        match self.target.start_command(&self.password, "ssh") {
            Some(mut command) => {
                self.target.push_port(&mut command, "-p");
                self.target.push_identity(&mut command);
                command.push_arg(self.target.user_at_host());
                command.push_arg(String::from_str("ls -la ").concat(remote_dir));
                assert(command@ == self@.list_words(remote_dir@));
                assert(self.session() == self@);
                Ok(command)
            },
            None => Err(TransferError::password_required()),
        }
    }

    fn describe_command(&self, command: &CommandLine) -> (text: String) {
        match &self.password {
            Some(secret) => command.diagnostic(Some(secret.as_str())),
            None => command.diagnostic(None),
        }
    }

    fn get_tool(&self) -> (tool: &'static str) {
        "scp"
    }

    fn get_name(&self) -> (name: &'static str) {
        "SSH Transfer"
    }

    fn get_description(&self) -> (text: String) {
        let mut text = String::from_str("SSH/SCP transfer to ");
        text.append(self.target.user_at_host().as_str());
        proof {
            assert(text@ == "SSH/SCP transfer to "@ + self@.target.user_at_host() + Seq::empty());
            lemma_description_names_target(self.transport(), self@.target);
        }
        text
    }

    fn get_password_prompt(&self) -> (text: String) {
        let mut text = String::from_str("Enter password for ");
        text.append(self.target.user_at_host().as_str());
        text.append(": ");
        text
    }

    fn needs_password(&self) -> (needed: bool) {
        !self.target.use_key_auth && self.password.is_none()
    }

    fn set_password(&mut self, password: &str) -> (stored: bool) {
        if self.target.use_key_auth {
            false
        } else {
            self.password = Some(password.to_owned());
            true
        }
    }
}

/// A maker of [`SSHTransfer`] methods.
#[derive(Clone)]
pub struct SSHTransferFactory {
    target: ConnectionTarget,
    password: Option<String>,
}

impl View for SSHTransferFactory {
    type V = Session;

    closed spec fn view(&self) -> Session {
        session_of(&self.target, &self.password)
    }
}

impl SSHTransferFactory {
    /// A factory for the given target, without a password.
    pub fn new(
        hostname: String,
        username: String,
        port: u16,
        use_key_auth: bool,
        key_path: Option<String>,
    ) -> (factory: SSHTransferFactory)
        ensures
            factory@ == (Session {
                target: TargetModel {
                    hostname: hostname@,
                    username: username@,
                    port,
                    use_key_auth,
                    key_path: key_path.deep_view(),
                },
                password: None,
            }),
    {
        SSHTransferFactory {
            target: ConnectionTarget::new(hostname, username, port, use_key_auth, key_path),
            password: None,
        }
    }

    /// A factory whose methods authenticate with the given password.
    pub fn with_password(hostname: String, username: String, port: u16, password: String) -> (factory:
        SSHTransferFactory)
        ensures
            factory@ == (Session {
                target: TargetModel {
                    hostname: hostname@,
                    username: username@,
                    port,
                    use_key_auth: false,
                    key_path: None,
                },
                password: Some(password@),
            }),
    {
        SSHTransferFactory {
            target: ConnectionTarget::new(hostname, username, port, false, None),
            password: Some(password),
        }
    }

    /// Offers a password to the factory. With password authentication it is
    /// stored for the methods made from now on, and the answer is `true`.
    /// With key authentication nothing changes and the answer is `false`.
    pub fn set_password(&mut self, password: String) -> (stored: bool)
        ensures
            stored == !old(self)@.target.use_key_auth,
            final(self)@ == old(self)@.offered(password@),
    {
        if self.target.use_key_auth {
            false
        } else {
            self.password = Some(password);
            true
        }
    }
}

impl TransferMethodFactory for SSHTransferFactory {
    type Method = SSHTransfer;

    open spec fn session(&self) -> Session {
        self@
    }

    open spec fn transport(&self) -> Transport {
        Transport::Scp
    }

    fn create_method(&self) -> (method: SSHTransfer) {
        SSHTransfer::for_target(self.target.duplicate(), duplicate_text(&self.password))
    }

    fn get_name(&self) -> (text: String) {
        let mut text = String::from_str("SSH/SCP to ");
        text.append(self.target.user_at_host().as_str());
        proof {
            lemma_factory_name_names_target(self.transport(), self@.target);
        }
        text
    }
}

} // verus!
