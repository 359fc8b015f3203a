//! The shell a task's command runs in: which one, how it is started, and
//! how extra arguments are quoted so the shell reads each as one word.
use vstd::prelude::*;
use vstd::utf8::encode_utf8;

use crate::text::{contains_seq, contains_str};

verus! {

/// The shells a command can run in; `Unknown` runs as POSIX `/bin/sh`.
#[derive(Debug, Clone, Copy, PartialEq, Eq, Structural)]
pub enum ShellType {
    Bash,
    Fish,
    PowerShell,
    Zsh,
    Unknown,
}

/// The shell for a host: PowerShell on Windows, else the one the user's
/// shell preference `shell_var` names, by substring.
pub open spec fn shell_from(windows_host: bool, shell_var: Option<Seq<char>>) -> ShellType {
    if windows_host {
        ShellType::PowerShell
    } else {
        match shell_var {
            Some(v) => if contains_seq(v, "bash"@) {
                ShellType::Bash
            } else if contains_seq(v, "fish"@) {
                ShellType::Fish
            } else if contains_seq(v, "zsh"@) {
                ShellType::Zsh
            } else {
                ShellType::Unknown
            },
            None => ShellType::Unknown,
        }
    }
}

/// The executable of each shell.
pub open spec fn program_of(s: ShellType) -> Seq<char> {
    match s {
        ShellType::Bash => "bash"@,
        ShellType::Fish => "fish"@,
        ShellType::PowerShell => "powershell"@,
        ShellType::Zsh => "zsh"@,
        ShellType::Unknown => "/bin/sh"@,
    }
}

/// The flags that make each shell run one string as a command.
pub open spec fn flags_of(s: ShellType) -> Seq<Seq<char>> {
    match s {
        ShellType::PowerShell => seq!["-NoLogo"@, "-Command"@],
        ShellType::Unknown => seq!["-cu"@],
        _ => seq!["-c"@],
    }
}

/// What `shell_quote::Bash::quote_vec` makes of a text (Z shell reads the same).
pub uninterp spec fn bash_quoted(s: Seq<char>) -> Seq<u8>;

/// What `shell_quote::Fish::quote_vec` makes of a text.
pub uninterp spec fn fish_quoted(s: Seq<char>) -> Seq<u8>;

/// What `shell_quote::Sh::quote_vec` makes of a text.
pub uninterp spec fn sh_quoted(s: Seq<char>) -> Seq<u8>;

/// Relies on `shell_quote::Bash::quote_vec`: the quoted bytes depend on the
/// text alone, and an empty text becomes `''`.
#[verifier::external_body]
fn quote_bash(s: &str) -> (r: Vec<u8>)
    ensures
        r@ == bash_quoted(s@),
        s@.len() == 0 ==> r@ == seq![39u8, 39u8],
{
    shell_quote::Bash::quote_vec(s)
}

/// Relies on `shell_quote::Fish::quote_vec`: the quoted bytes depend on the
/// text alone.
#[verifier::external_body]
fn quote_fish(s: &str) -> (r: Vec<u8>)
    ensures
        r@ == fish_quoted(s@),
{
    shell_quote::Fish::quote_vec(s)
}

/// Relies on `shell_quote::Sh::quote_vec`: the quoted bytes depend on the
/// text alone, and an empty text becomes `''`.
#[verifier::external_body]
fn quote_sh(s: &str) -> (r: Vec<u8>)
    ensures
        r@ == sh_quoted(s@),
        s@.len() == 0 ==> r@ == seq![39u8, 39u8],
{
    shell_quote::Sh::quote_vec(s)
}

/// `b` with every single quote doubled.
pub open spec fn double_quotes(b: Seq<u8>) -> Seq<u8>
    decreases b.len(),
{
    if b.len() == 0 {
        seq![]
    } else {
        double_quotes(b.drop_last()) + if b.last() == 39u8 {
            seq![39u8, 39u8]
        } else {
            seq![b.last()]
        }
    }
}

/// A PowerShell single-quoted literal of the bytes `b`: inside single quotes
/// PowerShell reads everything literally, and `''` stands for one quote.
pub open spec fn powershell_quoted(b: Seq<u8>) -> Seq<u8> {
    seq![39u8] + double_quotes(b) + seq![39u8]
}

/// The quoted form of the argument `s` for shell `shell`.
pub open spec fn quoted_for(shell: ShellType, s: Seq<char>) -> Seq<u8> {
    match shell {
        ShellType::Bash => bash_quoted(s),
        ShellType::Zsh => bash_quoted(s),
        ShellType::Fish => fish_quoted(s),
        ShellType::Unknown => sh_quoted(s),
        ShellType::PowerShell => powershell_quoted(encode_utf8(s)),
    }
}

/// The command `command` followed by each of `args`, each after a space and
/// quoted for `shell`.
pub open spec fn command_line_of(shell: ShellType, command: Seq<char>, args: Seq<Seq<char>>) -> Seq<
    u8,
>
    decreases args.len(),
{
    if args.len() == 0 {
        encode_utf8(command)
    } else {
        command_line_of(shell, command, args.drop_last()) + seq![32u8] + quoted_for(
            shell,
            args.last(),
        )
    }
}

/// A PowerShell single-quoted literal of the text `s`.
fn quote_powershell(s: &str) -> (r: Vec<u8>)
    ensures
        r@ == powershell_quoted(encode_utf8(s@)),
{
    let bytes = s.as_bytes();
    let mut r: Vec<u8> = Vec::new();
    r.push(39u8);
    let mut i: usize = 0;
    while i < bytes.len()
        invariant
            i <= bytes@.len(),
            bytes@ == encode_utf8(s@),
            r@ == seq![39u8] + double_quotes(bytes@.subrange(0, i as int)),
        decreases bytes.len() - i,
    {
        let ghost before = bytes@.subrange(0, i as int);
        let ghost after = bytes@.subrange(0, i + 1);
        assert(after.drop_last() =~= before);
        let b = bytes[i];
        if b == 39u8 {
            r.push(39u8);
            r.push(39u8);
            assert(r@ =~= seq![39u8] + double_quotes(after));
        } else {
            r.push(b);
            assert(r@ =~= seq![39u8] + double_quotes(after));
        }
        i = i + 1;
    }
    assert(bytes@.subrange(0, bytes@.len() as int) =~= bytes@);
    r.push(39u8);
    r
}

impl ShellType {
    /// The shell for a host: `windows_host` selects PowerShell; elsewhere the
    /// user's shell preference `shell_var` (unset: `None`) is matched for
    /// `bash`, `fish` and `zsh`, in that order.
    pub fn from_env(windows_host: bool, shell_var: Option<&str>) -> (r: ShellType)
        ensures
            r == shell_from(
                windows_host,
                match shell_var {
                    Some(v) => Some(v@),
                    None => None,
                },
            ),
    {
        if windows_host {
            return ShellType::PowerShell;
        }
        match shell_var {
            Some(v) => {
                if contains_str(v, "bash") {
                    ShellType::Bash
                } else if contains_str(v, "fish") {
                    ShellType::Fish
                } else if contains_str(v, "zsh") {
                    ShellType::Zsh
                } else {
                    ShellType::Unknown
                }
            },
            None => ShellType::Unknown,
        }
    }

    /// The shell's executable.
    pub fn program(&self) -> (r: &'static str)
        ensures
            r@ == program_of(*self),
    {
        match self {
            ShellType::Bash => "bash",
            ShellType::Fish => "fish",
            ShellType::PowerShell => "powershell",
            ShellType::Zsh => "zsh",
            ShellType::Unknown => "/bin/sh",
        }
    }

    /// The flags that precede the command string.
    pub fn flags(&self) -> (r: Vec<String>)
        ensures
            crate::install::views(r@) == flags_of(*self),
    {
        let mut r: Vec<String> = Vec::new();
        match self {
            ShellType::PowerShell => {
                r.push(String::from_str("-NoLogo"));
                r.push(String::from_str("-Command"));
            },
            ShellType::Unknown => {
                r.push(String::from_str("-cu"));
            },
            _ => {
                r.push(String::from_str("-c"));
            },
        }
        assert(crate::install::views(r@) =~= flags_of(*self));
        r
    }

    /// `argument` quoted in this shell's dialect, so the shell reads it as
    /// one word with no expansion.
    pub fn escape_argument(&self, argument: &str) -> (r: Vec<u8>)
        ensures
            r@ == quoted_for(*self, argument@),
    {
        match self {
            ShellType::Bash => quote_bash(argument),
            ShellType::Zsh => quote_bash(argument),
            ShellType::Fish => quote_fish(argument),
            ShellType::Unknown => quote_sh(argument),
            ShellType::PowerShell => quote_powershell(argument),
        }
    }

    /// The command string for this shell: `command`, then each of `args`
    /// after a space, quoted.
    pub fn command_line(&self, command: &str, args: &Vec<String>) -> (r: Vec<u8>)
        ensures
            r@ == command_line_of(*self, command@, crate::install::views(args@)),
    {
        let mut r = command.as_bytes_vec();
        let mut i: usize = 0;
        while i < args.len()
            invariant
                i <= args@.len(),
                r@ == command_line_of(
                    *self,
                    command@,
                    crate::install::views(args@.subrange(0, i as int)),
                ),
            decreases args.len() - i,
        {
            let ghost before = crate::install::views(args@.subrange(0, i as int));
            let ghost after = crate::install::views(args@.subrange(0, i + 1));
            assert(after.drop_last() =~= before);
            r.push(32u8);
            let mut q = self.escape_argument(args[i].as_str());
            r.append(&mut q);
            i = i + 1;
        }
        assert(args@.subrange(0, args@.len() as int) =~= args@);
        r
    }
}

} // verus!
