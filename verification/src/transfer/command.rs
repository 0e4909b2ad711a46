//! Command lines for external tools, their rendering for diagnostics, and
//! the redaction of secrets in rendered text.

use crate::text::{chars_of, contains_text, matches_at, occurs_at};
use vstd::prelude::*;
use vstd::string::StringExecFns;

verus! {

/// An invocation of an external program: the program and its arguments, in
/// order. Its view is the sequence of words, the program first.
#[derive(Debug, Clone, PartialEq, Eq)]
pub struct CommandLine {
    pub program: String,
    pub args: Vec<String>,
}

impl View for CommandLine {
    type V = Seq<Seq<char>>;

    open spec fn view(&self) -> Seq<Seq<char>> {
        seq![self.program@] + self.args.deep_view()
    }
}

/// What running a command line came to.
#[derive(Debug, Clone, PartialEq, Eq)]
pub enum ProcessOutcome {
    /// The program could not be started; the text says why.
    LaunchFailed(String),
    /// The program ran and exited.
    Exited { success: bool, stdout: String, stderr: String },
}

/// The text that stands in place of a secret: eight asterisks.
pub open spec fn redaction_marker() -> Seq<char> {
    Seq::new(8, |i: int| '*')
}

/// `word` between double quotes. Nothing inside the word is escaped.
pub open spec fn quoted(word: Seq<char>) -> Seq<char> {
    seq!['"'] + word + seq!['"']
}

/// The words, each quoted, separated by single spaces.
pub open spec fn rendered(words: Seq<Seq<char>>) -> Seq<char>
    decreases words.len(),
{
    if words.len() == 0 {
        Seq::empty()
    } else if words.len() == 1 {
        quoted(words[0])
    } else {
        rendered(words.drop_last()) + seq![' '] + quoted(words.last())
    }
}

/// `text` with every occurrence of `secret` replaced by the redaction
/// marker. Occurrences are found from left to right and do not overlap. An
/// empty secret occurs before every character and at the end.
pub open spec fn redacted(text: Seq<char>, secret: Seq<char>) -> Seq<char>
    decreases text.len(),
{
    if text.len() == 0 {
        if secret.len() == 0 {
            redaction_marker()
        } else {
            text
        }
    } else if secret.len() == 0 {
        redaction_marker() + seq![text[0]] + redacted(text.skip(1), secret)
    } else if occurs_at(text, secret, 0) {
        redaction_marker() + redacted(text.skip(secret.len() as int), secret)
    } else {
        seq![text[0]] + redacted(text.skip(1), secret)
    }
}

/// The rendering of a command line for logs: the rendered words, with the
/// credential, if there is one, redacted.
pub open spec fn diagnostic_text(words: Seq<Seq<char>>, credential: Option<Seq<char>>) -> Seq<char> {
    match credential {
        Some(secret) => redacted(rendered(words), secret),
        None => rendered(words),
    }
}

/// A secret is maskable if it is not empty and holds no asterisk.
pub open spec fn maskable(secret: Seq<char>) -> bool {
    &&& secret.len() > 0
    &&& forall|k: int| 0 <= k < secret.len() ==> secret[k] != '*'
}

/// A text without asterisks that starts the redacted text also starts the
/// text that was redacted.
proof fn lemma_clean_prefix(text: Seq<char>, secret: Seq<char>, prefix: Seq<char>)
    requires
        secret.len() > 0,
        forall|k: int| 0 <= k < prefix.len() ==> prefix[k] != '*',
        occurs_at(redacted(text, secret), prefix, 0),
    ensures
        occurs_at(text, prefix, 0),
    decreases text.len(),
{
    let r = redacted(text, secret);
    if prefix.len() == 0 {
        assert(text.subrange(0, 0) == prefix);
    } else if text.len() == 0 {
    } else if occurs_at(text, secret, 0) {
        assert(r[0] == '*');
        assert(r.subrange(0, prefix.len() as int)[0] == prefix[0]);
    } else {
        let rest = redacted(text.skip(1), secret);
        let tail = prefix.skip(1);
        assert(r == seq![text[0]] + rest);
        assert(r.subrange(0, prefix.len() as int)[0] == prefix[0]);
        assert(rest.subrange(0, tail.len() as int) == tail) by {
            assert forall|k: int| 0 <= k < tail.len() implies rest.subrange(
                0,
                tail.len() as int,
            )[k] == tail[k] by {
                assert(r.subrange(0, prefix.len() as int)[k + 1] == prefix[k + 1]);
            }
        }
        assert forall|k: int| 0 <= k < tail.len() implies tail[k] != '*' by {
            assert(tail[k] == prefix[k + 1]);
        }
        lemma_clean_prefix(text.skip(1), secret, tail);
        assert(text.subrange(0, prefix.len() as int) == prefix) by {
            assert forall|k: int| 0 <= k < prefix.len() implies text.subrange(
                0,
                prefix.len() as int,
            )[k] == prefix[k] by {
                if k > 0 {
                    assert(text.skip(1).subrange(0, tail.len() as int)[k - 1] == tail[k - 1]);
                }
            }
        }
    }
}

/// A maskable secret does not occur at any index of the redacted text.
proof fn lemma_no_occurrence(text: Seq<char>, secret: Seq<char>, at: int)
    requires
        maskable(secret),
    ensures
        !occurs_at(redacted(text, secret), secret, at),
    decreases text.len(),
{
    let r = redacted(text, secret);
    if occurs_at(r, secret, at) {
        let window = r.subrange(at, at + secret.len());
        assert(window[0] == secret[0]);
        if text.len() == 0 {
        } else if occurs_at(text, secret, 0) {
            let rest = redacted(text.skip(secret.len() as int), secret);
            assert(r == redaction_marker() + rest);
            if at < 8 {
                assert(r[at] == '*');
            } else {
                assert(rest.subrange(at - 8, at - 8 + secret.len()) == secret) by {
                    assert forall|k: int| 0 <= k < secret.len() implies rest.subrange(
                        at - 8,
                        at - 8 + secret.len(),
                    )[k] == secret[k] by {
                        assert(window[k] == secret[k]);
                    }
                }
                lemma_no_occurrence(text.skip(secret.len() as int), secret, at - 8);
            }
        } else {
            let rest = redacted(text.skip(1), secret);
            assert(r == seq![text[0]] + rest);
            if at == 0 {
                lemma_clean_prefix(text, secret, secret);
            } else {
                assert(rest.subrange(at - 1, at - 1 + secret.len()) == secret) by {
                    assert forall|k: int| 0 <= k < secret.len() implies rest.subrange(
                        at - 1,
                        at - 1 + secret.len(),
                    )[k] == secret[k] by {
                        assert(window[k] == secret[k]);
                    }
                }
                lemma_no_occurrence(text.skip(1), secret, at - 1);
            }
        }
    }
}

/// Redaction hides the secret: a secret that is not empty and holds no
/// asterisk does not occur anywhere in the redacted text, whatever the text
/// was.
pub proof fn lemma_redaction_hides_secret(text: Seq<char>, secret: Seq<char>)
    requires
        maskable(secret),
    ensures
        !contains_text(redacted(text, secret), secret),
{
    assert forall|at: int| !occurs_at(redacted(text, secret), secret, at) by {
        lemma_no_occurrence(text, secret, at);
    }
}

/// The diagnostic text of a command line never shows a maskable credential.
pub proof fn lemma_diagnostic_hides_credential(words: Seq<Seq<char>>, secret: Seq<char>)
    requires
        maskable(secret),
    ensures
        !contains_text(diagnostic_text(words, Some(secret)), secret),
{
    lemma_redaction_hides_secret(rendered(words), secret);
}

/// Replaces every occurrence of `secret` in `text` by eight asterisks. A
/// secret that is not empty and holds no asterisk does not occur in what
/// comes out.
pub fn redact(text: &str, secret: &str) -> (out: String)
    ensures
        out@ == redacted(text@, secret@),
        maskable(secret@) ==> !contains_text(out@, secret@),
{
    let t = chars_of(text);
    let s = chars_of(secret);
    let mut out = String::new();
    let mut i: usize = 0;
    proof {
        reveal_strlit("********");
        assert("********"@ == redaction_marker());
        assert(t@.skip(0) == t@);
    }
    while i < t.len()
        invariant
            i <= t.len(),
            t@ == text@,
            s@ == secret@,
            "********"@ == redaction_marker(),
            redacted(t@, s@) == out@ + redacted(t@.skip(i as int), s@),
        decreases t.len() - i,
    {
        let ghost rest = t@.skip(i as int);
        let ghost before = out@;
        if s.len() == 0 {
            out.append("********");
            out.push(t[i]);
            proof {
                assert(rest.skip(1) == t@.skip(i + 1));
                assert(out@ + redacted(rest.skip(1), s@) == before + (redaction_marker() + seq![
                    rest[0],
                ] + redacted(rest.skip(1), s@)));
            }
            i += 1;
        } else if matches_at(&t, &s, i) {
            out.append("********");
            proof {
                assert(rest.subrange(0, s@.len() as int) == t@.subrange(i as int, i + s@.len()));
                assert(occurs_at(rest, s@, 0));
                assert(rest.skip(s@.len() as int) == t@.skip(i + s@.len()));
                assert(out@ + redacted(rest.skip(s@.len() as int), s@) == before + (
                redaction_marker() + redacted(rest.skip(s@.len() as int), s@)));
            }
            i += s.len();
        } else {
            out.push(t[i]);
            proof {
                if occurs_at(rest, s@, 0) {
                    assert(rest.subrange(0, s@.len() as int) == t@.subrange(
                        i as int,
                        i + s@.len(),
                    ));
                }
                assert(rest.skip(1) == t@.skip(i + 1));
                assert(out@ + redacted(rest.skip(1), s@) == before + (seq![rest[0]] + redacted(
                    rest.skip(1),
                    s@,
                )));
            }
            i += 1;
        }
    }
    if s.len() == 0 {
        out.append("********");
    }
    proof {
        if maskable(secret@) {
            lemma_redaction_hides_secret(text@, secret@);
        }
    }
    out
}

impl CommandLine {
    /// A command line that runs `program` without arguments.
    pub fn new(program: &str) -> (command: CommandLine)
        ensures
            command@ == seq![program@],
    {
        let command = CommandLine { program: program.to_owned(), args: Vec::new() };
        assert(command.args.deep_view() == Seq::<Seq<char>>::empty());
        command
    }

    /// Appends one argument.
    pub fn arg(&mut self, word: &str)
        ensures
            final(self)@ == old(self)@.push(word@),
    {
        self.push_arg(word.to_owned());
    }

    /// Appends one argument, taking the string over.
    pub fn push_arg(&mut self, word: String)
        ensures
            final(self)@ == old(self)@.push(word@),
    {
        let ghost before = self.args.deep_view();
        self.args.push(word);
        assert(self.args.deep_view() == before.push(word@));
        assert(self@ == (seq![self.program@] + before).push(word@));
    }

    /// The words of the command line, each between double quotes, separated
    /// by single spaces.
    pub fn render(&self) -> (out: String)
        ensures
            out@ == rendered(self@),
    {
        let mut out = String::new();
        out.push('"');
        out.append(self.program.as_str());
        out.push('"');
        let mut i: usize = 0;
        proof {
            assert(self@.take(1) == seq![self.program@]);
            assert(seq![self.program@].drop_last() == Seq::<Seq<char>>::empty());
        }
        while i < self.args.len()
            invariant
                i <= self.args.len(),
                out@ == rendered(self@.take(i + 1)),
            decreases self.args.len() - i,
        {
            out.push(' ');
            out.push('"');
            out.append(self.args[i].as_str());
            out.push('"');
            proof {
                let words = self@.take(i + 2);
                assert(words.drop_last() == self@.take(i + 1));
                assert(words.last() == self.args[i as int]@);
            }
            i += 1;
        }
        proof {
            assert(self@.take(self.args.len() + 1) == self@);
        }
        out
    }

    /// The text to show in logs for this command line: its rendering, with
    /// the credential, if there is one, redacted. A credential that is not
    /// empty and holds no asterisk does not occur in it.
    pub fn diagnostic(&self, credential: Option<&str>) -> (out: String)
        ensures
            out@ == diagnostic_text(
                self@,
                match credential {
                    Some(secret) => Some(secret@),
                    None => None,
                },
            ),
            credential matches Some(secret) ==> (maskable(secret@) ==> !contains_text(
                out@,
                secret@,
            )),
    {
        let plain = self.render();
        match credential {
            Some(secret) => redact(plain.as_str(), secret),
            None => plain,
        }
    }
}

} // verus!
