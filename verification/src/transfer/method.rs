//! The interface of a transfer method, the errors it reports, and the
//! interpretation of what a finished transport tool left behind.

use crate::text::{contains, contains_text, trim, trimmed};
use crate::transfer::command::{diagnostic_text, maskable, CommandLine, ProcessOutcome};
use crate::transfer::listing::{parse_directory_listing, parse_listing, EntryModel, RemoteEntry};
use crate::transfer::target::{lemma_names_user_and_host, Session, TargetModel, Transport};
use vstd::prelude::*;
use vstd::string::StringExecFns;

verus! {

/// Why a transfer operation failed. Each variant carries a message for the
/// user.
#[derive(Debug, Clone, PartialEq, Eq)]
pub enum TransferError {
    /// The host could not be reached.
    ConnectionFailed(String),
    /// The host rejected the credential.
    AuthenticationFailed(String),
    /// The remote file system denied access.
    PermissionDenied(String),
    /// A local or remote path does not exist.
    FileNotFound(String),
    /// Anything else: a missing password, a tool that could not be started,
    /// a tool that failed for a reason that was not recognised.
    TransferFailed(String),
}

/// The mathematical value of a [`TransferError`].
pub enum Failure {
    ConnectionFailed(Seq<char>),
    AuthenticationFailed(Seq<char>),
    PermissionDenied(Seq<char>),
    FileNotFound(Seq<char>),
    TransferFailed(Seq<char>),
}

impl View for TransferError {
    type V = Failure;

    open spec fn view(&self) -> Failure {
        match self {
            TransferError::ConnectionFailed(message) => Failure::ConnectionFailed(message@),
            TransferError::AuthenticationFailed(message) => Failure::AuthenticationFailed(message@),
            TransferError::PermissionDenied(message) => Failure::PermissionDenied(message@),
            TransferError::FileNotFound(message) => Failure::FileNotFound(message@),
            TransferError::TransferFailed(message) => Failure::TransferFailed(message@),
        }
    }
}

impl Failure {
    /// The message that the failure carries.
    pub open spec fn message(self) -> Seq<char> {
        match self {
            Failure::ConnectionFailed(message) => message,
            Failure::AuthenticationFailed(message) => message,
            Failure::PermissionDenied(message) => message,
            Failure::FileNotFound(message) => message,
            Failure::TransferFailed(message) => message,
        }
    }

    /// The words that introduce the message when the failure is shown.
    pub open spec fn heading(self) -> Seq<char> {
        match self {
            Failure::ConnectionFailed(_) => "Connection failed: "@,
            Failure::AuthenticationFailed(_) => "Authentication failed: "@,
            Failure::PermissionDenied(_) => "Permission denied: "@,
            Failure::FileNotFound(_) => "File not found: "@,
            Failure::TransferFailed(_) => "Transfer failed: "@,
        }
    }

    /// The failure as one line of text: heading, then message.
    pub open spec fn text(self) -> Seq<char> {
        self.heading() + self.message()
    }
}

/// The failure of an operation that needs a password and has none.
pub open spec fn password_required() -> Failure {
    Failure::TransferFailed("password required"@)
}

/// The failure that the error output of a transport tool stands for. The
/// first of these that occurs in the output decides: `Permission denied`,
/// `Could not resolve hostname`, `Connection refused`,
/// `Connection timed out`. An output with none of them is handed on as it
/// is.
pub open spec fn classify(stderr: Seq<char>) -> Failure {
    if contains_text(stderr, "Permission denied"@) {
        Failure::AuthenticationFailed("Authentication failed. Check username/password or key."@)
    } else if contains_text(stderr, "Could not resolve hostname"@) {
        Failure::ConnectionFailed("Hostname could not be resolved. Check network."@)
    } else if contains_text(stderr, "Connection refused"@) {
        Failure::ConnectionFailed("Connection refused. Check if SSH server is running."@)
    } else if contains_text(stderr, "Connection timed out"@) {
        Failure::ConnectionFailed("Connection timed out. Check hostname and network."@)
    } else {
        Failure::TransferFailed(stderr)
    }
}

/// The failure of a tool that could not be started.
pub open spec fn launch_failure(command_name: Seq<char>, reason: Seq<char>) -> Failure {
    Failure::TransferFailed("Failed to execute "@ + command_name + ": "@ + reason)
}

/// What an upload or a download came to: success if the tool exited with
/// success, else the failure that its error output stands for.
pub open spec fn transfer_verdict(command_name: Seq<char>, outcome: ProcessOutcome) -> Result<
    (),
    Failure,
> {
    match outcome {
        ProcessOutcome::LaunchFailed(reason) => Err(launch_failure(command_name, reason@)),
        ProcessOutcome::Exited { success, stdout, stderr } => if success {
            Ok(())
        } else {
            Err(classify(stderr@))
        },
    }
}

/// What a listing came to: the entries parsed from the standard output if
/// the tool exited with success, else the failure that its error output
/// stands for.
pub open spec fn listing_verdict(outcome: ProcessOutcome) -> Result<Seq<EntryModel>, Failure> {
    match outcome {
        ProcessOutcome::LaunchFailed(reason) => Err(launch_failure("ssh/ls"@, reason@)),
        ProcessOutcome::Exited { success, stdout, stderr } => if success {
            Ok(parse_listing(stdout@))
        } else {
            Err(classify(stderr@))
        },
    }
}

/// The value of a planned command line.
pub open spec fn plan_view(plan: Result<CommandLine, TransferError>) -> Result<
    Seq<Seq<char>>,
    Failure,
> {
    match plan {
        Ok(command) => Ok(command@),
        Err(error) => Err(error@),
    }
}

/// The value of the result of an upload or a download.
pub open spec fn done_view(result: Result<(), TransferError>) -> Result<(), Failure> {
    match result {
        Ok(()) => Ok(()),
        Err(error) => Err(error@),
    }
}

/// The value of the result of a listing.
pub open spec fn listed_view(result: Result<Vec<RemoteEntry>, TransferError>) -> Result<
    Seq<EntryModel>,
    Failure,
> {
    match result {
        Ok(entries) => Ok(entries.deep_view()),
        Err(error) => Err(error@),
    }
}

/// The command line that a plan asks for, or the failure in its place.
pub open spec fn planned(lacks_password: bool, words: Seq<Seq<char>>) -> Result<
    Seq<Seq<char>>,
    Failure,
> {
    if lacks_password {
        Err(password_required())
    } else {
        Ok(words)
    }
}

impl TransferError {
    /// The error as one line of text: what kind of failure it is, then its
    /// message.
    pub fn to_string(&self) -> (text: String)
        ensures
            text@ == self@.text(),
    {
        match self {
            TransferError::ConnectionFailed(message) => {
                String::from_str("Connection failed: ").concat(message.as_str())
            },
            TransferError::AuthenticationFailed(message) => {
                String::from_str("Authentication failed: ").concat(message.as_str())
            },
            TransferError::PermissionDenied(message) => {
                String::from_str("Permission denied: ").concat(message.as_str())
            },
            TransferError::FileNotFound(message) => {
                String::from_str("File not found: ").concat(message.as_str())
            },
            TransferError::TransferFailed(message) => {
                String::from_str("Transfer failed: ").concat(message.as_str())
            },
        }
    }

    /// The error of an operation that needs a password and has none.
    pub fn password_required() -> (error: TransferError)
        ensures
            error@ == password_required(),
    {
        TransferError::TransferFailed(String::from_str("password required"))
    }

    /// The error of a tool that could not be started.
    pub fn launch_failure(command_name: &str, reason: &str) -> (error: TransferError)
        ensures
            error@ == launch_failure(command_name@, reason@),
    {
        let mut message = String::from_str("Failed to execute ");
        message.append(command_name);
        message.append(": ");
        message.append(reason);
        TransferError::TransferFailed(message)
    }
}

/// Tells from the error output of a transport tool what went wrong.
pub fn classify_failure(stderr: &str) -> (error: TransferError)
    ensures
        error@ == classify(stderr@),
{
    if contains(stderr, "Permission denied") {
        TransferError::AuthenticationFailed(
            String::from_str("Authentication failed. Check username/password or key."),
        )
    } else if contains(stderr, "Could not resolve hostname") {
        TransferError::ConnectionFailed(
            String::from_str("Hostname could not be resolved. Check network."),
        )
    } else if contains(stderr, "Connection refused") {
        TransferError::ConnectionFailed(
            String::from_str("Connection refused. Check if SSH server is running."),
        )
    } else if contains(stderr, "Connection timed out") {
        TransferError::ConnectionFailed(
            String::from_str("Connection timed out. Check hostname and network."),
        )
    } else {
        TransferError::TransferFailed(stderr.to_owned())
    }
}

/// Interprets the outcome of the tool that was run for an upload or a
/// download. `command_name` names the tool in the message of a launch
/// failure.
pub fn check_transfer(command_name: &str, outcome: &ProcessOutcome) -> (result: Result<
    (),
    TransferError,
>)
    ensures
        done_view(result) == transfer_verdict(command_name@, *outcome),
{
    match outcome {
        ProcessOutcome::LaunchFailed(reason) => Err(
            TransferError::launch_failure(command_name, reason.as_str()),
        ),
        ProcessOutcome::Exited { success, stdout, stderr } => {
            if *success {
                Ok(())
            } else {
                Err(classify_failure(stderr.as_str()))
            }
        },
    }
}

/// Interprets the outcome of the tool that was run for a listing.
pub fn check_listing(outcome: &ProcessOutcome) -> (result: Result<Vec<RemoteEntry>, TransferError>)
    ensures
        listed_view(result) == listing_verdict(*outcome),
{
    match outcome {
        ProcessOutcome::LaunchFailed(reason) => Err(
            TransferError::launch_failure("ssh/ls", reason.as_str()),
        ),
        ProcessOutcome::Exited { success, stdout, stderr } => {
            if *success {
                Ok(parse_directory_listing(stdout.as_str()))
            } else {
                Err(classify_failure(stderr.as_str()))
            }
        },
    }
}

/// The line that asks the user for the password of a target.
pub open spec fn password_prompt(session: Session) -> Seq<char> {
    "Enter password for "@ + session.target.user_at_host() + ": "@
}

/// The failure of a password that could not be read.
pub open spec fn prompt_failure(reason: Seq<char>) -> Failure {
    Failure::TransferFailed("Failed to read password: "@ + reason)
}

/// A way of moving files to and from a remote host.
///
/// A method holds the connection parameters and, for password
/// authentication, the password once it is known. It plans the command line
/// of each operation and interprets what the tool left behind. Running the
/// tool is the caller's part: each operation takes the function that runs a
/// command line, and calls it at most once.
pub trait TransferMethod {
    /// The connection parameters and the password that the method holds.
    spec fn session(&self) -> Session;

    /// The tool that moves the files, which never changes.
    spec fn transport(&self) -> Transport;

    /// The command line that copies the local file to the remote path. It
    /// fails, without a command line, if a password is needed and none is
    /// known.
    fn upload_command(&self, local_path: &str, remote_path: &str) -> (plan: Result<
        CommandLine,
        TransferError,
    >)
        ensures
            plan_view(plan) == planned(
                self.session().lacks_password(),
                self.transport().upload_words(self.session(), local_path@, remote_path@),
            ),
    ;

    /// The command line that copies the remote file to the local path. It
    /// fails, without a command line, if a password is needed and none is
    /// known.
    fn download_command(&self, remote_path: &str, local_path: &str) -> (plan: Result<
        CommandLine,
        TransferError,
    >)
        ensures
            plan_view(plan) == planned(
                self.session().lacks_password(),
                self.transport().download_words(self.session(), remote_path@, local_path@),
            ),
    ;

    /// The command line that lists the remote directory, which is always an
    /// `ssh` command line. It fails, without a command line, if a password
    /// is needed and none is known.
    fn list_command(&self, remote_dir: &str) -> (plan: Result<CommandLine, TransferError>)
        ensures
            plan_view(plan) == planned(
                self.session().lacks_password(),
                self.session().list_words(remote_dir@),
            ),
    ;

    /// The text to show in logs for a command line of this method: its
    /// rendering, with the password that the method holds redacted,
    /// whatever the way of authentication. A password that is not empty
    /// and holds no asterisk does not occur in it.
    fn describe_command(&self, command: &CommandLine) -> (text: String)
        ensures
            text@ == diagnostic_text(command@, self.session().password),
            self.session().password matches Some(secret) ==> (maskable(secret)
                ==> !contains_text(text@, secret)),
    ;

    /// The tool that moves the files.
    fn get_tool(&self) -> (tool: &'static str)
        ensures
            tool@ == self.transport().tool(),
    ;

    /// The name of the method.
    fn get_name(&self) -> (name: &'static str)
        ensures
            name@ == self.transport().method_name(),
    ;

    /// A description of the method, which names the user and the host.
    fn get_description(&self) -> (text: String)
        ensures
            text@ == self.transport().description(self.session().target),
            contains_text(text@, self.session().target.username),
            contains_text(text@, self.session().target.hostname),
    ;

    /// The line that asks the user for the password.
    fn get_password_prompt(&self) -> (text: String)
        ensures
            text@ == password_prompt(self.session()),
    ;

    /// Whether password authentication is asked for and no password is
    /// known.
    fn needs_password(&self) -> (needed: bool)
        ensures
            needed == self.session().lacks_password(),
    ;

    /// Offers a password to the method. A method that authenticates by
    /// password stores it and answers `true`. A method that authenticates
    /// with a key leaves itself unchanged and answers `false`.
    fn set_password(&mut self, password: &str) -> (stored: bool)
        ensures
            stored == !old(self).session().target.use_key_auth,
            final(self).session() == old(self).session().offered(password@),
            final(self).transport() == old(self).transport(),
    ;

    /// Uploads the local file to the remote path.
    ///
    /// If a password is needed and none is known, nothing is run and the
    /// upload fails. Otherwise `run` is called once, with the command line
    /// and its text for logs, and the result is what its outcome stands
    /// for.
    fn upload_file<R: FnOnce(&CommandLine, &str) -> ProcessOutcome>(
        &self,
        local_path: &str,
        remote_path: &str,
        run: R,
    ) -> (result: Result<(), TransferError>)
        requires
            forall|command: &CommandLine, text: &str| run.requires((command, text)),
        ensures
            self.session().lacks_password() ==> done_view(result) == Err::<(), Failure>(
                password_required(),
            ),
            !self.session().lacks_password() ==> exists|
                command: &CommandLine,
                text: &str,
                outcome: ProcessOutcome,
            |
                {
                    &&& command@ == self.transport().upload_words(self.session(), local_path@, remote_path@)
                    &&& text@ == diagnostic_text(command@, self.session().password)
                    &&& #[trigger] run.ensures((command, text), outcome)
                    &&& done_view(result) == transfer_verdict(self.transport().tool() + " upload"@, outcome)
                },
    {
        match self.upload_command(local_path, remote_path) {
            Ok(command) => {
                let text = self.describe_command(&command);
                let mut name = String::from_str(self.get_tool());
                name.append(" upload");
                let outcome = run(&command, text.as_str());
                check_transfer(name.as_str(), &outcome)
            },
            Err(error) => Err(error),
        }
    }

    /// Downloads the remote file to the local path.
    ///
    /// If a password is needed and none is known, nothing is run and the
    /// download fails. Otherwise `run` is called once, with the command
    /// line and its text for logs, and the result is what its outcome
    /// stands for.
    fn download_file<R: FnOnce(&CommandLine, &str) -> ProcessOutcome>(
        &self,
        remote_path: &str,
        local_path: &str,
        run: R,
    ) -> (result: Result<(), TransferError>)
        requires
            forall|command: &CommandLine, text: &str| run.requires((command, text)),
        ensures
            self.session().lacks_password() ==> done_view(result) == Err::<(), Failure>(
                password_required(),
            ),
            !self.session().lacks_password() ==> exists|
                command: &CommandLine,
                text: &str,
                outcome: ProcessOutcome,
            |
                {
                    &&& command@ == self.transport().download_words(self.session(), remote_path@, local_path@)
                    &&& text@ == diagnostic_text(command@, self.session().password)
                    &&& #[trigger] run.ensures((command, text), outcome)
                    &&& done_view(result) == transfer_verdict(self.transport().tool() + " download"@, outcome)
                },
    {
        match self.download_command(remote_path, local_path) {
            Ok(command) => {
                let text = self.describe_command(&command);
                let mut name = String::from_str(self.get_tool());
                name.append(" download");
                let outcome = run(&command, text.as_str());
                check_transfer(name.as_str(), &outcome)
            },
            Err(error) => Err(error),
        }
    }

    /// Lists the remote directory, without descending into it.
    ///
    /// If a password is needed and none is known, nothing is run and the
    /// listing fails. Otherwise `run` is called once, with the command line
    /// and its text for logs. If the tool succeeded, the entries are parsed
    /// from its standard output, in the order of the listing, without `.`
    /// and `..`.
    fn list_files<R: FnOnce(&CommandLine, &str) -> ProcessOutcome>(
        &self,
        remote_dir: &str,
        run: R,
    ) -> (result: Result<Vec<RemoteEntry>, TransferError>)
        requires
            forall|command: &CommandLine, text: &str| run.requires((command, text)),
        ensures
            self.session().lacks_password() ==> listed_view(result) == Err::<
                Seq<EntryModel>,
                Failure,
            >(password_required()),
            !self.session().lacks_password() ==> exists|
                command: &CommandLine,
                text: &str,
                outcome: ProcessOutcome,
            |
                {
                    &&& command@ == self.session().list_words(remote_dir@)
                    &&& text@ == diagnostic_text(command@, self.session().password)
                    &&& #[trigger] run.ensures((command, text), outcome)
                    &&& listed_view(result) == listing_verdict(outcome)
                },
    {
        match self.list_command(remote_dir) {
            Ok(command) => {
                let text = self.describe_command(&command);
                let outcome = run(&command, text.as_str());
                check_listing(&outcome)
            },
            Err(error) => Err(error),
        }
    }

    /// Makes sure that a password is known where one is needed.
    ///
    /// If none is needed, or one is known, `ask` is not called and nothing
    /// changes. Otherwise `ask` is called once with the prompt. The line it
    /// hands back is stored as the password, without the white space around
    /// it. If it fails, its reason is reported and nothing changes.
    fn ensure_password<A: FnOnce(&str) -> Result<String, String>>(&mut self, ask: A) -> (result:
        Result<(), TransferError>)
        requires
            forall|prompt: &str| ask.requires((prompt,)),
        ensures
            final(self).transport() == old(self).transport(),
            !old(self).session().lacks_password() ==> result is Ok && final(self).session() == old(
                self,
            ).session(),
            old(self).session().lacks_password() ==> exists|
                prompt: &str,
                answer: Result<String, String>,
            |
                {
                    &&& prompt@ == password_prompt(old(self).session())
                    &&& #[trigger] ask.ensures((prompt,), answer)
                    &&& match answer {
                        Ok(line) => result is Ok && final(self).session() == old(
                            self,
                        ).session().offered(trimmed(line@)),
                        Err(reason) => done_view(result) == Err::<(), Failure>(
                            prompt_failure(reason@),
                        ) && final(self).session() == old(self).session(),
                    }
                },
    {
        if !self.needs_password() {
            return Ok(());
        }
        let prompt = self.get_password_prompt();
        match ask(prompt.as_str()) {
            Ok(line) => {
                let password = trim(line.as_str());
                self.set_password(password.as_str());
                Ok(())
            },
            Err(reason) => {
                let mut message = String::from_str("Failed to read password: ");
                message.append(reason.as_str());
                Err(TransferError::TransferFailed(message))
            },
        }
    }
}

/// A maker of transfer methods for one set of connection parameters.
pub trait TransferMethodFactory {
    /// The methods that the factory makes.
    type Method: TransferMethod;

    /// The session of every method that the factory makes.
    spec fn session(&self) -> Session;

    /// The transport of every method that the factory makes.
    spec fn transport(&self) -> Transport;

    /// A new method with the connection parameters and the password of the
    /// factory.
    fn create_method(&self) -> (method: Self::Method)
        ensures
            method.session() == self.session(),
            method.transport() == self.transport(),
    ;

    /// A name for the factory, which names the user and the host.
    fn get_name(&self) -> (text: String)
        ensures
            text@ == self.transport().factory_name(self.session().target),
            contains_text(text@, self.session().target.username),
            contains_text(text@, self.session().target.hostname),
    ;
}

/// The description of a transfer method holds the user name and the host
/// name of its target.
pub proof fn lemma_description_names_target(transport: Transport, target: TargetModel)
    ensures
        contains_text(transport.description(target), target.username),
        contains_text(transport.description(target), target.hostname),
{
    lemma_names_user_and_host(
        transport.description_frame().0,
        target,
        transport.description_frame().1,
    );
}

/// The name of a factory holds the user name and the host name of its
/// target.
pub proof fn lemma_factory_name_names_target(transport: Transport, target: TargetModel)
    ensures
        contains_text(transport.factory_name(target), target.username),
        contains_text(transport.factory_name(target), target.hostname),
{
    lemma_names_user_and_host(transport.factory_prefix(), target, Seq::empty());
    assert(transport.factory_name(target) == transport.factory_prefix() + target.user_at_host()
        + Seq::empty());
}

/// A method that a factory made describes itself with the user name and the
/// host name that the factory was given.
pub proof fn lemma_created_method_names_target<F: TransferMethodFactory>(
    factory: F,
    method: F::Method,
    description: Seq<char>,
)
    requires
        method.session() == factory.session(),
        description == method.transport().description(method.session().target),
    ensures
        contains_text(description, factory.session().target.username),
        contains_text(description, factory.session().target.hostname),
{
    lemma_description_names_target(method.transport(), method.session().target);
}

/// Offering the same password twice leaves a session as offering it once
/// does, so every command line that is then planned is the same, word for
/// word.
pub proof fn lemma_set_password_idempotent(
    transport: Transport,
    session: Session,
    password: Seq<char>,
    local: Seq<char>,
    remote: Seq<char>,
)
    ensures
        session.offered(password).offered(password) == session.offered(password),
        transport.upload_words(session.offered(password).offered(password), local, remote)
            == transport.upload_words(session.offered(password), local, remote),
        transport.download_words(session.offered(password).offered(password), remote, local)
            == transport.download_words(session.offered(password), remote, local),
        session.offered(password).offered(password).list_words(remote) == session.offered(
            password,
        ).list_words(remote),
{
}

/// Two methods with the same session plan the same listing, whatever their
/// transports, and read the same entries from the same outcome.
pub proof fn lemma_listing_is_shared<A: TransferMethod, B: TransferMethod>(
    first: A,
    second: B,
    remote_dir: Seq<char>,
)
    requires
        first.session() == second.session(),
    ensures
        planned(first.session().lacks_password(), first.session().list_words(remote_dir))
            == planned(second.session().lacks_password(), second.session().list_words(remote_dir)),
{
}

} // verus!
