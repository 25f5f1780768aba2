//! Shells, the environment variables the tool sets, and the shell start-up
//! files that hold them.
use crate::text::{chars_of, has_prefix};
use vstd::prelude::*;
use vstd::string::*;

verus! {

/// A command shell whose start-up files may carry the tool's variables.
#[derive(Debug, Clone, Copy, PartialEq, Eq, Structural)]
pub enum Shell {
    BASH,
    ZSH,
    FISH,
    KSH,
    CSH,
    TCSH,
}

/// An environment variable that the tool sets.
#[derive(Debug, Clone, Copy, PartialEq, Eq, Structural)]
pub enum Var {
    /// The working directory.
    GWD,
    /// The states directory.
    GSD,
    /// The daemon directory.
    GDD,
    /// The project directory.
    GPD,
}

impl Shell {
    /// Every shell, in a fixed order.
    pub fn iterator() -> (r: Vec<Shell>)
        ensures
            r@ == seq![Shell::BASH, Shell::ZSH, Shell::FISH, Shell::KSH, Shell::CSH, Shell::TCSH],
    {
        let r = vec![Shell::BASH, Shell::ZSH, Shell::FISH, Shell::KSH, Shell::CSH, Shell::TCSH];
        assert(r@ =~= seq![Shell::BASH, Shell::ZSH, Shell::FISH, Shell::KSH, Shell::CSH, Shell::TCSH]);
        r
    }
}

/// The name of a variable.
pub open spec fn var_name(v: Var) -> Seq<char> {
    match v {
        Var::GWD => "GWD"@,
        Var::GSD => "GSD"@,
        Var::GDD => "GDD"@,
        Var::GPD => "GPD"@,
    }
}

impl Var {
    /// The variable's name.
    pub fn to_string(&self) -> (r: &'static str)
        ensures
            r@ == var_name(*self),
    {
        match *self {
            Var::GWD => "GWD",
            Var::GSD => "GSD",
            Var::GDD => "GDD",
            Var::GPD => "GPD",
        }
    }

    /// Every variable, in a fixed order.
    pub fn iterator() -> (r: Vec<Var>)
        ensures
            r@ == seq![Var::GWD, Var::GSD, Var::GDD, Var::GPD],
    {
        let r = vec![Var::GWD, Var::GSD, Var::GDD, Var::GPD];
        assert(r@ =~= seq![Var::GWD, Var::GSD, Var::GDD, Var::GPD]);
        r
    }
}

/// `input` with a leading `~` replaced by `home`, when the `~` stands alone
/// or is followed by `/`.
pub open spec fn tilde_expanded(input: Seq<char>, home: Seq<char>) -> Seq<char> {
    if input.len() > 0 && input[0] == '~' && (input.len() == 1 || input[1] == '/') {
        home + input.subrange(1, input.len() as int)
    } else {
        input
    }
}

/// Expands a leading `~` to the home directory `home`.
pub fn fix_tilde(input: &str, home: &str) -> (r: String)
    ensures
        r@ == tilde_expanded(input@, home@),
{
    let n = input.unicode_len();
    if n > 0 && input.get_char(0) == '~' && (n == 1 || input.get_char(1) == '/') {
        let mut r = String::from_str(home);
        r.append(input.substring_char(1, n));
        r
    } else {
        String::from_str(input)
    }
}

/// The start-up files that a shell may read, as written with `~`.
pub open spec fn cfg_candidates(shell: Shell) -> Seq<Seq<char>> {
    match shell {
        Shell::BASH => seq!["~/.bash_profile"@, "~/.bash_login"@, "~/.profile"@, "~/.bashrc"@],
        Shell::ZSH => seq!["~/.zprofile"@, "~/.zlogin"@, "~/.zshrc"@, "~/.zshenv"@],
        Shell::FISH => seq!["~/.config/fish/config.fish"@],
        Shell::KSH => seq!["~/.profile"@, "~/.kshrc"@],
        Shell::CSH => seq!["~/.login"@, "~/.cshrc"@],
        Shell::TCSH => seq!["~/.login"@, "~/.tcshrc"@, "~/.cshrc"@],
    }
}

fn candidates(shell: Shell) -> (r: Vec<&'static str>)
    ensures
        r@.map_values(|s: &str| s@) == cfg_candidates(shell),
{
    let r = match shell {
        Shell::BASH => vec!["~/.bash_profile", "~/.bash_login", "~/.profile", "~/.bashrc"],
        Shell::ZSH => vec!["~/.zprofile", "~/.zlogin", "~/.zshrc", "~/.zshenv"],
        Shell::FISH => vec!["~/.config/fish/config.fish"],
        Shell::KSH => vec!["~/.profile", "~/.kshrc"],
        Shell::CSH => vec!["~/.login", "~/.cshrc"],
        Shell::TCSH => vec!["~/.login", "~/.tcshrc", "~/.cshrc"],
    };
    assert(r@.map_values(|s: &str| s@) =~= cfg_candidates(shell));
    r
}

/// The start-up files that `shell` may read, with `~` expanded to `home`.
/// Which of them exist is for the caller to find out.
pub fn get_cfg_paths(shell: Shell, home: &str) -> (r: Vec<String>)
    ensures
        r@.len() == cfg_candidates(shell).len(),
        forall|i: int|
            0 <= i < r@.len() ==> #[trigger] r@[i]@ == tilde_expanded(cfg_candidates(shell)[i], home@),
{
    let list = candidates(shell);
    let mut r: Vec<String> = Vec::new();
    let mut i: usize = 0;
    while i < list.len()
        invariant
            list@.map_values(|s: &str| s@) == cfg_candidates(shell),
            i <= list.len(),
            r@.len() == i,
            forall|k: int|
                0 <= k < i ==> #[trigger] r@[k]@ == tilde_expanded(cfg_candidates(shell)[k], home@),
        decreases list.len() - i,
    {
        let p = fix_tilde(list[i], home);
        assert(list@[i as int]@ == cfg_candidates(shell)[i as int]);
        r.push(p);
        i = i + 1;
    }
    r
}

/// The line that sets `var` to `value` in a shell start-up file.
pub open spec fn env_line_text(var: Var, value: Seq<char>) -> Seq<char> {
    var_name(var) + "=\""@ + value + "\""@
}

/// The line `VAR="value"`.
pub fn env_line(var: Var, value: &str) -> (r: String)
    ensures
        r@ == env_line_text(var, value@),
{
    let mut r = String::from_str(var.to_string());
    r.append("=\"");
    r.append(value);
    r.append("\"");
    r
}

/// The line that marks where the tool appended its own setting.
pub open spec fn added_marker() -> Seq<char> {
    "# Added by Godwit."@
}

/// The lines of a start-up file once `var` is set by `replacement`: each
/// line that assigns `var` becomes `replacement`; when none does, a blank
/// line, a marker and `replacement` are appended.
pub open spec fn replaced_lines(lines: Seq<Seq<char>>, var: Var, replacement: Seq<char>) -> Seq<
    Seq<char>,
> {
    let prefix = var_name(var) + "="@;
    let mapped = lines.map_values(
        |l: Seq<char>|
            if has_prefix(l, prefix) {
                replacement
            } else {
                l
            },
    );
    if exists|i: int| 0 <= i < lines.len() && #[trigger] has_prefix(lines[i], prefix) {
        mapped
    } else {
        mapped + seq!["\n"@, added_marker(), replacement]
    }
}

/// Sets `var` in the lines of a start-up file to `replacement`.
pub fn replace_env_lines(lines: &Vec<String>, var: Var, replacement: &str) -> (r: Vec<String>)
    ensures
        r@.map_values(|l: String| l@) == replaced_lines(
            lines@.map_values(|l: String| l@),
            var,
            replacement@,
        ),
{
    let ghost lv = lines@.map_values(|l: String| l@);
    let ghost prefix_text = var_name(var) + "="@;
    let mut prefix_string = String::from_str(var.to_string());
    prefix_string.append("=");
    let prefix = chars_of(prefix_string.as_str());
    let mut found = false;
    let mut r: Vec<String> = Vec::new();
    let mut i: usize = 0;
    while i < lines.len()
        invariant
            lv == lines@.map_values(|l: String| l@),
            prefix@ == prefix_text,
            i <= lines.len(),
            r@.len() == i,
            forall|k: int|
                0 <= k < i ==> #[trigger] r@[k]@ == if has_prefix(lv[k], prefix_text) {
                    replacement@
                } else {
                    lv[k]
                },
            found <==> exists|k: int| 0 <= k < i && #[trigger] has_prefix(lv[k], prefix_text),
        decreases lines.len() - i,
    {
        let line = chars_of(lines[i].as_str());
        assert(line@ == lv[i as int]);
        if crate::text::starts_with(&line, &prefix) {
            assert(has_prefix(lv[i as int], prefix_text));
            found = true;
            r.push(String::from_str(replacement));
        } else {
            r.push(lines[i].clone());
            assert(!has_prefix(lv[i as int], prefix_text));
            assert(found <==> exists|k: int| 0 <= k < i + 1 && #[trigger] has_prefix(lv[k], prefix_text));
        }
        i = i + 1;
    }
    let ghost mapped = lv.map_values(
        |l: Seq<char>|
            if has_prefix(l, prefix_text) {
                replacement@
            } else {
                l
            },
    );
    assert(r@.map_values(|l: String| l@) =~= mapped);
    if !found {
        r.push(String::from_str("\n"));
        r.push(String::from_str("# Added by Godwit."));
        r.push(String::from_str(replacement));
        assert(r@.map_values(|l: String| l@) =~= mapped + seq!["\n"@, added_marker(), replacement@]);
    }
    r
}

} // verus!
