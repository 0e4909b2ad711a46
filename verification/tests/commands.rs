use piimgproc::transfer::command::{redact, CommandLine};
use piimgproc::transfer::method::{TransferError, TransferMethod, TransferMethodFactory};
use piimgproc::transfer::probe::connection_test_command;
use piimgproc::transfer::rsync::{RsyncTransfer, RsyncTransferFactory};
use piimgproc::transfer::ssh::{SSHTransfer, SSHTransferFactory};
use piimgproc::transfer::target::ConnectionTarget;

fn words(command: &CommandLine) -> Vec<String> {
    let mut all = vec![command.program.clone()];
    all.extend(command.args.iter().cloned());
    all
}

fn strings(items: &[&str]) -> Vec<String> {
    items.iter().map(|s| s.to_string()).collect()
}

fn key_ssh() -> SSHTransfer {
    SSHTransfer::new(
        "raspberrypi.local".to_string(),
        "pi".to_string(),
        22,
        true,
        Some("/home/me/.ssh/id_rsa".to_string()),
    )
}

fn password_required() -> TransferError {
    TransferError::TransferFailed("password required".to_string())
}

#[test]
fn scp_upload_with_key() {
    let command = key_ssh().upload_command("photo.jpg", "/home/pi/photo.jpg").unwrap();
    assert_eq!(
        words(&command),
        strings(&[
            "scp",
            "-P",
            "22",
            "-i",
            "/home/me/.ssh/id_rsa",
            "photo.jpg",
            "pi@raspberrypi.local:/home/pi/photo.jpg",
        ])
    );
}

#[test]
fn scp_download_with_key() {
    let command = key_ssh().download_command("/home/pi/photo.jpg", "photo.jpg").unwrap();
    assert_eq!(
        words(&command),
        strings(&[
            "scp",
            "-P",
            "22",
            "-i",
            "/home/me/.ssh/id_rsa",
            "pi@raspberrypi.local:/home/pi/photo.jpg",
            "photo.jpg",
        ])
    );
}

#[test]
fn scp_with_key_auth_and_no_key_file() {
    let ssh = SSHTransfer::new("h".to_string(), "u".to_string(), 2222, true, None);
    let command = ssh.upload_command("a", "b").unwrap();
    assert_eq!(words(&command), strings(&["scp", "-P", "2222", "a", "u@h:b"]));
}

#[test]
fn scp_upload_with_password() {
    let ssh = SSHTransfer::with_password("host".to_string(), "user".to_string(), 65535, "s3cret".to_string());
    let command = ssh.upload_command("a.png", "/tmp/a.png").unwrap();
    assert_eq!(
        words(&command),
        strings(&["sshpass", "-p", "s3cret", "scp", "-P", "65535", "a.png", "user@host:/tmp/a.png"])
    );
}

#[test]
fn key_path_is_ignored_with_password_authentication() {
    let mut ssh = SSHTransfer::new("h".to_string(), "u".to_string(), 22, false, Some("/k".to_string()));
    assert!(ssh.set_password("pw".to_string()));
    let command = ssh.list_command("/srv").unwrap();
    assert_eq!(
        words(&command),
        strings(&["sshpass", "-p", "pw", "ssh", "-p", "22", "u@h", "ls -la /srv"])
    );
}

#[test]
fn ssh_listing_with_key() {
    let command = key_ssh().list_command("/home/pi").unwrap();
    assert_eq!(
        words(&command),
        strings(&[
            "ssh",
            "-p",
            "22",
            "-i",
            "/home/me/.ssh/id_rsa",
            "pi@raspberrypi.local",
            "ls -la /home/pi",
        ])
    );
}

#[test]
fn missing_password_fails_every_ssh_operation() {
    let ssh = SSHTransfer::new("h".to_string(), "u".to_string(), 22, false, None);
    assert!(ssh.needs_password());
    assert_eq!(ssh.upload_command("a", "b"), Err(password_required()));
    assert_eq!(ssh.download_command("b", "a"), Err(password_required()));
    assert_eq!(ssh.list_command("/"), Err(password_required()));
}

#[test]
fn missing_password_fails_every_rsync_operation() {
    let rsync = RsyncTransfer::new("h".to_string(), "u".to_string(), 22, false, None, vec![]);
    assert!(rsync.needs_password());
    assert_eq!(rsync.upload_command("a", "b"), Err(password_required()));
    assert_eq!(rsync.download_command("b", "a"), Err(password_required()));
    assert_eq!(rsync.list_command("/"), Err(password_required()));
}

#[test]
fn password_required_message() {
    assert_eq!(password_required().to_string(), "Transfer failed: password required");
    assert_eq!(TransferError::password_required(), password_required());
}

#[test]
fn rsync_upload_with_key_and_options() {
    let rsync = RsyncTransfer::new(
        "pi.local".to_string(),
        "pi".to_string(),
        2200,
        true,
        Some("/keys/pi".to_string()),
        strings(&["--delete", "--progress"]),
    );
    let command = rsync.upload_command("pics/", "/home/pi/pics/").unwrap();
    assert_eq!(
        words(&command),
        strings(&[
            "rsync",
            "-avz",
            "--delete",
            "--progress",
            "-e",
            "ssh -p 2200 -i /keys/pi",
            "pics/",
            "pi@pi.local:/home/pi/pics/",
        ])
    );
}

#[test]
fn rsync_download_with_password() {
    let rsync = RsyncTransfer::with_password(
        "pi.local".to_string(),
        "pi".to_string(),
        22,
        vec![],
        "hunter2".to_string(),
    );
    let command = rsync.download_command("/home/pi/a", "a").unwrap();
    assert_eq!(
        words(&command),
        strings(&[
            "sshpass",
            "-p",
            "hunter2",
            "rsync",
            "-avz",
            "-e",
            "ssh -p 22",
            "pi@pi.local:/home/pi/a",
            "a",
        ])
    );
}

#[test]
fn rsync_lists_as_ssh_does() {
    let rsync = RsyncTransfer::new(
        "raspberrypi.local".to_string(),
        "pi".to_string(),
        22,
        true,
        Some("/home/me/.ssh/id_rsa".to_string()),
        strings(&["--delete"]),
    );
    assert_eq!(rsync.list_command("/home/pi"), key_ssh().list_command("/home/pi"));
    assert_eq!(
        rsync.ssh_transfer().upload_command("a", "b"),
        key_ssh().upload_command("a", "b")
    );
}

#[test]
fn names_and_descriptions() {
    let ssh = key_ssh();
    assert_eq!(ssh.get_name(), "SSH Transfer");
    assert_eq!(ssh.get_tool(), "scp");
    assert_eq!(ssh.get_description(), "SSH/SCP transfer to pi@raspberrypi.local");
    let rsync = RsyncTransfer::new(
        "h".to_string(),
        "u".to_string(),
        22,
        true,
        None,
        strings(&["--delete", "-v"]),
    );
    assert_eq!(rsync.get_name(), "Rsync Transfer");
    assert_eq!(rsync.get_tool(), "rsync");
    assert_eq!(rsync.get_description(), "Rsync transfer to u@h with options: --delete -v");
    let bare = RsyncTransfer::new("h".to_string(), "u".to_string(), 22, true, None, vec![]);
    assert_eq!(bare.get_description(), "Rsync transfer to u@h with options: ");
}

#[test]
fn factory_round_trip_names_host_and_user() {
    let factory = SSHTransferFactory::new(
        "gallery.example.org".to_string(),
        "curator".to_string(),
        22,
        true,
        None,
    );
    assert_eq!(factory.get_name(), "SSH/SCP to curator@gallery.example.org");
    let method = factory.create_method();
    let description = method.get_description();
    assert!(description.contains("gallery.example.org"));
    assert!(description.contains("curator"));

    let factory = RsyncTransferFactory::new(
        "gallery.example.org".to_string(),
        "curator".to_string(),
        22,
        true,
        None,
        strings(&["-q"]),
    );
    assert_eq!(factory.get_name(), "Rsync to curator@gallery.example.org");
    let method = factory.create_method();
    let description = method.get_description();
    assert!(description.contains("gallery.example.org"));
    assert!(description.contains("curator"));
    assert_eq!(
        words(&method.upload_command("a", "b").unwrap()),
        strings(&["rsync", "-avz", "-q", "-e", "ssh -p 22", "a", "curator@gallery.example.org:b"])
    );
}

#[test]
fn factory_hands_its_password_on() {
    let mut factory = SSHTransferFactory::new("h".to_string(), "u".to_string(), 22, false, None);
    assert!(factory.create_method().needs_password());
    assert!(factory.set_password("pw".to_string()));
    let method = factory.create_method();
    assert!(!method.needs_password());
    assert_eq!(
        words(&method.upload_command("a", "b").unwrap()),
        strings(&["sshpass", "-p", "pw", "scp", "-P", "22", "a", "u@h:b"])
    );
    let with = SSHTransferFactory::with_password("h".to_string(), "u".to_string(), 22, "pw".to_string());
    assert_eq!(
        with.create_method().upload_command("a", "b"),
        method.upload_command("a", "b")
    );
    let mut rsync = RsyncTransferFactory::with_password(
        "h".to_string(),
        "u".to_string(),
        22,
        vec![],
        "one".to_string(),
    );
    assert!(rsync.set_password("two".to_string()));
    assert_eq!(
        words(&rsync.create_method().list_command("/").unwrap()),
        strings(&["sshpass", "-p", "two", "ssh", "-p", "22", "u@h", "ls -la /"])
    );
}

#[test]
fn set_password_twice_is_as_once() {
    let mut once = SSHTransfer::new("h".to_string(), "u".to_string(), 22, false, None);
    let mut twice = once.clone();
    once.set_password("pw".to_string());
    twice.set_password("pw".to_string());
    twice.set_password("pw".to_string());
    assert_eq!(once.upload_command("a", "b"), twice.upload_command("a", "b"));
    assert_eq!(once.download_command("a", "b"), twice.download_command("a", "b"));
    assert_eq!(once.list_command("/d"), twice.list_command("/d"));
    let command = once.upload_command("a", "b").unwrap();
    assert_eq!(once.describe_command(&command), twice.describe_command(&command));
}

#[test]
fn set_password_on_key_authentication_changes_nothing() {
    let mut ssh = key_ssh();
    let before = ssh.upload_command("a", "b");
    assert!(!ssh.set_password("pw".to_string()));
    assert!(!TransferMethod::set_password(&mut ssh, "pw"));
    assert_eq!(ssh.upload_command("a", "b"), before);
    let command = before.unwrap();
    assert_eq!(ssh.describe_command(&command), command.render());

    let mut rsync = RsyncTransfer::new("h".to_string(), "u".to_string(), 22, true, None, vec![]);
    assert!(!rsync.set_password("pw".to_string()));
    let mut factory = RsyncTransferFactory::new("h".to_string(), "u".to_string(), 22, true, None, vec![]);
    assert!(!factory.set_password("pw".to_string()));
    assert!(!factory.create_method().needs_password());
}

#[test]
fn trait_set_password_stores_for_password_authentication() {
    let mut rsync = RsyncTransfer::new("h".to_string(), "u".to_string(), 22, false, None, vec![]);
    assert!(TransferMethod::set_password(&mut rsync, "pw"));
    assert!(!rsync.needs_password());
    assert_eq!(
        words(&rsync.upload_command("a", "b").unwrap()),
        strings(&["sshpass", "-p", "pw", "rsync", "-avz", "-e", "ssh -p 22", "a", "u@h:b"])
    );
}

#[test]
fn rendering_quotes_each_word() {
    let mut command = CommandLine::new("scp");
    assert_eq!(command.render(), "\"scp\"");
    command.arg("-P");
    command.push_arg("22".to_string());
    assert_eq!(command.render(), "\"scp\" \"-P\" \"22\"");
    assert_eq!(command.diagnostic(None), "\"scp\" \"-P\" \"22\"");
}

#[test]
fn diagnostic_hides_the_password() {
    let ssh = SSHTransfer::with_password("host".to_string(), "user".to_string(), 22, "s3cret".to_string());
    let command = ssh.upload_command("s3cret.txt", "/tmp/x").unwrap();
    let text = ssh.describe_command(&command);
    assert!(!text.contains("s3cret"));
    assert_eq!(
        text,
        "\"sshpass\" \"-p\" \"********\" \"scp\" \"-P\" \"22\" \"********.txt\" \"user@host:/tmp/x\""
    );
}

#[test]
fn redaction_replaces_every_occurrence() {
    assert_eq!(redact("abcabc", "bc"), "a********a********");
    assert_eq!(redact("aaa", "aa"), "********a");
    assert_eq!(redact("abc", "abcd"), "abc");
    assert_eq!(redact("", "x"), "");
    assert_eq!(redact("abc", "x"), "abc");
}

#[test]
fn redaction_agrees_with_replace() {
    let texts = ["", "a", "ab", "abab", "aXbXc", "pass pass", "ppass", "a*b", "日本語のパス", "xyxyx"];
    let secrets = ["", "a", "ab", "X", "pass", "p", "*", "の", "xyx", "long secret"];
    for text in texts {
        for secret in secrets {
            assert_eq!(redact(text, secret), text.replace(secret, "********"));
        }
    }
}

#[test]
fn redaction_of_an_empty_secret_marks_every_gap() {
    assert_eq!(redact("ab", ""), "********a********b********");
}

#[test]
fn connection_test_command_lines() {
    let target = ConnectionTarget::new("h".to_string(), "u".to_string(), 22, true, Some("/k".to_string()));
    let command = connection_test_command(&target, &None).unwrap();
    assert_eq!(
        words(&command),
        strings(&[
            "ssh",
            "-i",
            "/k",
            "-o",
            "NumberOfPasswordPrompts=1",
            "-o",
            "ConnectTimeout=10",
            "-p",
            "22",
            "u@h",
            "echo 'Connection successful'",
        ])
    );
    let target = ConnectionTarget::new("h".to_string(), "u".to_string(), 22, false, None);
    assert_eq!(connection_test_command(&target, &None), Err(password_required()));
    let command = connection_test_command(&target, &Some("pw".to_string())).unwrap();
    assert_eq!(
        words(&command),
        strings(&[
            "sshpass",
            "-p",
            "pw",
            "ssh",
            "-o",
            "NumberOfPasswordPrompts=1",
            "-o",
            "ConnectTimeout=10",
            "-p",
            "22",
            "u@h",
            "echo 'Connection successful'",
        ])
    );
    assert_eq!(
        command.diagnostic(Some("pw")),
        "\"sshpass\" \"-p\" \"********\" \"ssh\" \"-o\" \"NumberOfPasswordPrompts=1\" \"-o\" \"ConnectTimeout=10\" \"-p\" \"22\" \"u@h\" \"echo 'Connection successful'\""
    );
}

#[test]
fn port_zero_and_small_ports_are_spelled_in_decimal() {
    let ssh = SSHTransfer::new("h".to_string(), "u".to_string(), 0, true, None);
    assert_eq!(words(&ssh.upload_command("a", "b").unwrap())[2], "0");
    let ssh = SSHTransfer::new("h".to_string(), "u".to_string(), 9, true, None);
    assert_eq!(words(&ssh.upload_command("a", "b").unwrap())[2], "9");
    let ssh = SSHTransfer::new("h".to_string(), "u".to_string(), 10, true, None);
    assert_eq!(words(&ssh.upload_command("a", "b").unwrap())[2], "10");
    let ssh = SSHTransfer::new("h".to_string(), "u".to_string(), 8022, true, None);
    assert_eq!(words(&ssh.upload_command("a", "b").unwrap())[2], "8022");
}

#[test]
fn redaction_hides_every_secret_without_asterisk() {
    let texts = [
        "",
        "secret",
        "a secret and a secret",
        "secsecretret",
        "ssecret",
        "\"sshpass\" \"-p\" \"hunter2\" \"scp\" \"hunter2hunter2\"",
        "aaaa",
        "abababab",
        "********",
        "pass*word",
    ];
    let secrets = ["secret", "hunter2", "a", "aa", "ab", "aba", "\"", "p", "ss", " "];
    for text in texts {
        for secret in secrets {
            let hidden = redact(text, secret);
            assert!(!hidden.contains(secret), "{:?} shows {:?}", hidden, secret);
        }
    }
}

#[test]
fn redaction_marker_can_spell_a_secret_with_asterisks() {
    assert_eq!(redact("aa*", "a*"), "a********");
    assert!(redact("aa*", "a*").contains("a*"));
    assert_eq!(redact("x*y", "*"), "x********y");
}

#[test]
fn a_held_password_is_redacted_with_key_authentication_too() {
    let target = ConnectionTarget::new("h".to_string(), "u".to_string(), 22, true, Some("/k".to_string()));
    let ssh = SSHTransfer::for_target(target.clone(), Some("hunter2".to_string()));
    let command = ssh.upload_command("hunter2.txt", "/tmp/hunter2").unwrap();
    assert_eq!(
        words(&command),
        strings(&["scp", "-P", "22", "-i", "/k", "hunter2.txt", "u@h:/tmp/hunter2"])
    );
    let text = ssh.describe_command(&command);
    assert!(!text.contains("hunter2"));
    assert_eq!(
        text,
        "\"scp\" \"-P\" \"22\" \"-i\" \"/k\" \"********.txt\" \"u@h:/tmp/********\""
    );
    let rsync = RsyncTransfer::for_target(target, vec![], Some("hunter2".to_string()));
    let command = rsync.download_command("/srv/hunter2", "x").unwrap();
    let text = rsync.describe_command(&command);
    assert!(!text.contains("hunter2"));
    assert_eq!(
        text,
        "\"rsync\" \"-avz\" \"-e\" \"ssh -p 22 -i /k\" \"u@h:/srv/********\" \"x\""
    );
    let seen = std::cell::Cell::new(false);
    let result = ssh.upload_file("hunter2.txt", "/tmp/x", |_: &CommandLine, text: &str| {
        seen.set(true);
        assert!(!text.contains("hunter2"));
        piimgproc::transfer::command::ProcessOutcome::Exited {
            success: true,
            stdout: String::new(),
            stderr: String::new(),
        }
    });
    assert_eq!(result, Ok(()));
    assert!(seen.get());
}
