//! The command that serves an authorized request.

use crate::identity::{IdentityView, RemoteIdentity};
use crate::message::{MessageRequest, RequestKind, RequestView};
use crate::shell::{
    escaped_word_reads_back, first_word, unix_escape, unix_escaped, word_value, Word,
};
use vstd::prelude::*;

verus! {

/// A command to run: a program and its arguments, each argument a text of
/// its own that no shell takes apart.
#[derive(Debug, PartialEq, Eq)]
pub struct Invocation {
    pub program: String,
    pub args: Vec<String>,
}

/// An invocation as a mathematical value.
pub ghost struct InvocationView {
    pub program: Seq<char>,
    pub args: Seq<Seq<char>>,
}

impl View for Invocation {
    type V = InvocationView;

    open spec fn view(&self) -> InvocationView {
        InvocationView {
            program: self.program@,
            args: self.args@.map_values(|arg: String| arg@),
        }
    }
}

/// Why no command stands for a request.
#[derive(Clone, Copy, Debug, PartialEq, Eq, Structural)]
pub enum SynthesisError {
    /// The identity's name holds a NUL character.
    UnrepresentableName,
    /// The request's path holds a NUL character.
    UnrepresentablePath,
}

/// Whether `text` can be an argument of a command: it holds no NUL
/// character.
pub open spec fn representable(text: Seq<char>) -> bool {
    forall|i: int| 0 <= i < text.len() ==> text[i] != '\0'
}

/// The command line that the remote shell is given for a terminal in
/// `path`: it changes to `path`, quoted as one word, and becomes a login
/// shell.
pub open spec fn remote_command(path: Seq<char>) -> Seq<char> {
    "cd "@ + unix_escaped(path) + "; exec $SHELL -l"@
}

/// The address at which the editor opens `path` on the host `name`.
pub open spec fn folder_uri(name: Seq<char>, path: Seq<char>) -> Seq<char> {
    "vscode-remote://ssh-remote+"@ + name + path
}

/// The command that serves `request` on behalf of `identity`.
pub open spec fn synthesized(identity: IdentityView, request: RequestView) -> Result<
    InvocationView,
    SynthesisError,
> {
    if !representable(identity.name) {
        Err(SynthesisError::UnrepresentableName)
    } else if !representable(request.path) {
        Err(SynthesisError::UnrepresentablePath)
    } else {
        Ok(
            match request.kind {
                RequestKind::Terminal => InvocationView {
                    program: "gnome-terminal"@,
                    args: seq![
                        "--tab"@,
                        "--"@,
                        "ssh"@,
                        "-t"@,
                        identity.name,
                        remote_command(request.path),
                    ],
                },
                RequestKind::Code => InvocationView {
                    program: "code"@,
                    args: seq!["--folder-uri"@, folder_uri(identity.name, request.path)],
                },
            },
        )
    }
}

/// Whether `text` can be an argument of a command.
pub fn is_representable(text: &str) -> (fits: bool)
    ensures
        fits == representable(text@),
{
    for c in chars: text.chars()
        invariant
            chars.seq() == text@,
            forall|i: int| 0 <= i < chars.index() ==> text@[i] != '\0',
    {
        if c == '\0' {
            return false;
        }
    }
    true
}

/// Quotes `path` as one word of the remote shell's command line.
pub fn quote_for_remote_shell(path: &str) -> (word: String)
    ensures
        word@ == unix_escaped(path@),
        word_value(word@) == Some(path@),
{
    proof {
        escaped_word_reads_back(path@, Seq::empty());
    }
    unix_escape(path)
}

/// The texts of `args`, each a `String` of its own.
fn owned_args(args: &[&str]) -> (owned: Vec<String>)
    ensures
        owned@.len() == args@.len(),
        forall|i: int| 0 <= i < args@.len() ==> owned@[i]@ == args@[i]@,
{
    let mut owned: Vec<String> = Vec::new();
    let mut i: usize = 0;
    while i < args.len()
        invariant
            i <= args.len(),
            owned@.len() == i,
            forall|j: int| 0 <= j < i ==> owned@[j]@ == args@[j]@,
        decreases args.len() - i,
    {
        owned.push(args[i].to_owned());
        i += 1;
    }
    owned
}

/// Makes the command that serves `request` on behalf of `identity`.
///
/// A terminal is a tab of `gnome-terminal` that runs `ssh -t` to the
/// identity's host with the remote command line; the editor is `code` with
/// the folder's address. The only error is a NUL character in the name or in
/// the path.
pub fn synthesize(identity: &RemoteIdentity, request: &MessageRequest) -> (outcome: Result<
    Invocation,
    SynthesisError,
>)
    ensures
        match outcome {
            Ok(invocation) => synthesized(identity@, request@) == Ok::<_, SynthesisError>(
                invocation@,
            ),
            Err(e) => synthesized(identity@, request@) == Err::<InvocationView, _>(e),
        },
{
    let name = identity.name();
    let path = request.path();
    if !is_representable(name) {
        return Err(SynthesisError::UnrepresentableName);
    }
    if !is_representable(path) {
        return Err(SynthesisError::UnrepresentablePath);
    }
    match request.kind() {
        RequestKind::Terminal => {
            let word = quote_for_remote_shell(path);
            let command = "cd ".to_owned().concat(word.as_str()).concat("; exec $SHELL -l");
            let args = owned_args(&["--tab", "--", "ssh", "-t", name, command.as_str()]);
            let invocation = Invocation { program: "gnome-terminal".to_owned(), args };
            assert(invocation@.args =~= synthesized(identity@, request@)->Ok_0.args);
            Ok(invocation)
        },
        RequestKind::Code => {
            let uri = "vscode-remote://ssh-remote+".to_owned().concat(name).concat(path);
            let args = owned_args(&["--folder-uri", uri.as_str()]);
            let invocation = Invocation { program: "code".to_owned(), args };
            assert(invocation@.args =~= synthesized(identity@, request@)->Ok_0.args);
            Ok(invocation)
        },
    }
}

/// In the remote command line for `path`, what follows `cd` is read by the
/// shell as one word with the value `path`, and the word ends where the rest
/// of the command line begins.
pub proof fn remote_command_changes_to_path(path: Seq<char>)
    ensures
        remote_command(path) == "cd "@ + (unix_escaped(path) + "; exec $SHELL -l"@),
        first_word(unix_escaped(path) + "; exec $SHELL -l"@) == Some(
            Word { value: path, rest: "; exec $SHELL -l"@ },
        ),
{
    reveal_strlit("; exec $SHELL -l");
    escaped_word_reads_back(path, "; exec $SHELL -l"@);
}

/// The command does not depend on the identity's secret: identities of the
/// same name get the same command.
pub proof fn command_does_not_hold_the_secret(
    identity: IdentityView,
    other: IdentityView,
    request: RequestView,
)
    requires
        identity.name == other.name,
    ensures
        synthesized(identity, request) == synthesized(other, request),
{
}

/// Two outcomes of synthesis on the same identity and request are the same.
pub proof fn synthesis_is_repeatable(
    identity: IdentityView,
    request: RequestView,
    first: Result<InvocationView, SynthesisError>,
    second: Result<InvocationView, SynthesisError>,
)
    requires
        first == synthesized(identity, request),
        second == synthesized(identity, request),
    ensures
        first == second,
{
}

} // verus!
