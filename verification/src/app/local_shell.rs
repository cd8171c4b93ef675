//! The shells of this machine.
use crate::app::model::{shells_view, texts, LocalShellOption, Shell};
use crate::text::{lowercase, to_lower};
use vstd::prelude::*;

verus! {

/// A shell with the given arguments.
pub open spec fn shell(name: Seq<char>, program: Seq<char>, args: Seq<Seq<char>>) -> Shell {
    Shell { name, program, args }
}

/// What is offered where no shell was found.
pub open spec fn fallback_shell() -> Shell {
    shell(
        "Windows PowerShell (fallback)"@,
        "powershell.exe"@,
        seq!["-NoLogo"@, "-NoExit"@],
    )
}

/// Whether a program stands in a list already, whatever the case of its letters.
pub open spec fn is_listed(shells: Seq<Shell>, program: Seq<char>) -> bool {
    exists|i: int|
        0 <= i < shells.len() && lowercase((#[trigger] shells[i]).program) == lowercase(program)
}

/// A list with a shell added, unless its program was not found or is in the list already.
pub open spec fn with_shell(
    shells: Seq<Shell>,
    name: Seq<char>,
    program: Option<Seq<char>>,
    args: Seq<Seq<char>>,
) -> Seq<Shell> {
    match program {
        Some(p) => if is_listed(shells, p) {
            shells
        } else {
            shells.push(shell(name, p, args))
        },
        None => shells,
    }
}

/// The shells that are offered, where each program is the path at which it was found.
pub open spec fn offered_shells(
    comspec: Option<Seq<char>>,
    pwsh: Option<Seq<char>>,
    powershell: Option<Seq<char>>,
    cmd: Option<Seq<char>>,
    bash: Option<Seq<char>>,
) -> Seq<Shell> {
    let quiet = seq!["-NoLogo"@, "-NoExit"@];
    let none = Seq::<Seq<char>>::empty();
    let s0 = with_shell(Seq::empty(), "Command Prompt (COMSPEC)"@, comspec, none);
    let s1 = with_shell(s0, "PowerShell 7"@, pwsh, quiet);
    let s2 = with_shell(s1, "Windows PowerShell"@, powershell, quiet);
    let s3 = with_shell(s2, "Command Prompt"@, cmd, none);
    let s4 = with_shell(s3, "Bash"@, bash, seq!["--login"@, "-i"@]);
    if s4.len() == 0 {
        seq![fallback_shell()]
    } else {
        s4
    }
}

/// An optional text as a mathematical value.
pub open spec fn path_view(path: Option<String>) -> Option<Seq<char>> {
    match path {
        Some(p) => Some(p@),
        None => None,
    }
}

/// Two arguments.
fn two_args(a: &str, b: &str) -> (args: Vec<String>)
    ensures
        texts(args@) == seq![a@, b@],
{
    let mut args: Vec<String> = Vec::new();
    args.push(String::from_str(a));
    args.push(String::from_str(b));
    assert(texts(args@) =~= seq![a@, b@]);
    args
}

/// No arguments.
fn no_args() -> (args: Vec<String>)
    ensures
        texts(args@) == Seq::<Seq<char>>::empty(),
{
    let args: Vec<String> = Vec::new();
    assert(texts(args@) =~= Seq::<Seq<char>>::empty());
    args
}

/// Whether a program stands in a list already.
fn listed(shells: &Vec<LocalShellOption>, program: &str) -> (b: bool)
    ensures
        b == is_listed(shells_view(shells@), program@),
{
    let ghost view = shells_view(shells@);
    let key = to_lower(program);
    let mut i: usize = 0;
    while i < shells.len()
        invariant
            i <= shells.len(),
            view == shells_view(shells@),
            key@ == lowercase(program@),
            forall|k: int| 0 <= k < i ==> lowercase((#[trigger] view[k]).program) != key@,
        decreases shells.len() - i,
    {
        let other = to_lower(shells[i].program.as_str());
        if crate::text::same_text(other.as_str(), key.as_str()) {
            assert(view[i as int].program == shells@[i as int].program@);
            return true;
        }
        i = i + 1;
    }
    false
}

/// Adds a shell to a list, unless its program was not found or is in the list already.
fn push_shell(
    shells: &mut Vec<LocalShellOption>,
    name: &str,
    program: Option<String>,
    args: Vec<String>,
)
    ensures
        shells_view(final(shells)@) == with_shell(
            shells_view(old(shells)@),
            name@,
            path_view(program),
            texts(args@),
        ),
{
    if let Some(p) = program {
        if !listed(shells, p.as_str()) {
            let ghost before = shells_view(shells@);
            let ghost added = shell(name@, p@, texts(args@));
            shells.push(LocalShellOption { name: String::from_str(name), program: p, args });
            assert(shells_view(shells@) =~= before.push(added));
        }
    }
}

/// The shells that are offered, where each argument is the path at which that program was found.
pub fn detect_local_shells(
    comspec: Option<String>,
    pwsh: Option<String>,
    powershell: Option<String>,
    cmd: Option<String>,
    bash: Option<String>,
) -> (shells: Vec<LocalShellOption>)
    ensures
        shells_view(shells@) == offered_shells(
            path_view(comspec),
            path_view(pwsh),
            path_view(powershell),
            path_view(cmd),
            path_view(bash),
        ),
{
    let mut shells: Vec<LocalShellOption> = Vec::new();
    assert(shells_view(shells@) =~= Seq::empty());
    push_shell(&mut shells, "Command Prompt (COMSPEC)", comspec, no_args());
    push_shell(&mut shells, "PowerShell 7", pwsh, two_args("-NoLogo", "-NoExit"));
    push_shell(&mut shells, "Windows PowerShell", powershell, two_args("-NoLogo", "-NoExit"));
    push_shell(&mut shells, "Command Prompt", cmd, no_args());
    push_shell(&mut shells, "Bash", bash, two_args("--login", "-i"));
    assert(shells@.len() == shells_view(shells@).len());
    if shells.len() == 0 {
        shells.push(
            LocalShellOption {
                name: String::from_str("Windows PowerShell (fallback)"),
                program: String::from_str("powershell.exe"),
                args: two_args("-NoLogo", "-NoExit"),
            },
        );
        assert(shells_view(shells@) =~= seq![fallback_shell()]);
    }
    shells
}

/// There is always a shell to choose, and no program is offered twice, whatever was found.
pub proof fn offered_shells_differ(
    comspec: Option<Seq<char>>,
    pwsh: Option<Seq<char>>,
    powershell: Option<Seq<char>>,
    cmd: Option<Seq<char>>,
    bash: Option<Seq<char>>,
    i: int,
    j: int,
)
    ensures
        offered_shells(comspec, pwsh, powershell, cmd, bash).len() > 0,
        0 <= i < j < offered_shells(comspec, pwsh, powershell, cmd, bash).len() ==> lowercase(
            offered_shells(comspec, pwsh, powershell, cmd, bash)[i].program,
        ) != lowercase(offered_shells(comspec, pwsh, powershell, cmd, bash)[j].program),
{
    let quiet = seq!["-NoLogo"@, "-NoExit"@];
    let none = Seq::<Seq<char>>::empty();
    let s0 = with_shell(Seq::empty(), "Command Prompt (COMSPEC)"@, comspec, none);
    let s1 = with_shell(s0, "PowerShell 7"@, pwsh, quiet);
    let s2 = with_shell(s1, "Windows PowerShell"@, powershell, quiet);
    let s3 = with_shell(s2, "Command Prompt"@, cmd, none);
    lemma_with_shell(Seq::empty(), "Command Prompt (COMSPEC)"@, comspec, none);
    lemma_with_shell(s0, "PowerShell 7"@, pwsh, quiet);
    lemma_with_shell(s1, "Windows PowerShell"@, powershell, quiet);
    lemma_with_shell(s2, "Command Prompt"@, cmd, none);
    lemma_with_shell(s3, "Bash"@, bash, seq!["--login"@, "-i"@]);
}

/// Whether no program is listed twice.
spec fn differ(shells: Seq<Shell>) -> bool {
    forall|i: int, j: int|
        0 <= i < j < shells.len() ==> lowercase((#[trigger] shells[i]).program) != lowercase(
            (#[trigger] shells[j]).program,
        )
}

proof fn lemma_with_shell(
    shells: Seq<Shell>,
    name: Seq<char>,
    program: Option<Seq<char>>,
    args: Seq<Seq<char>>,
)
    requires
        differ(shells),
    ensures
        differ(with_shell(shells, name, program, args)),
{
}

} // verus!
