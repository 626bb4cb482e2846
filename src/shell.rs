//! The shell dialects that activation scripts can be written for.
use crate::text::{escape, escaped, lemma_unescape_escaped, same_text, unescaped};
use vstd::prelude::*;

verus! {

/// One supported shell dialect.
#[derive(Clone, Copy, Debug, PartialEq, Eq, Structural)]
pub enum Shell {
    Bash,
    Zsh,
    Fish,
    PowerShell,
    WindowsCmd,
}

/// Every supported dialect, in the order in which they are listed to users.
pub open spec fn available_shells() -> Seq<Shell> {
    seq![Shell::Bash, Shell::Zsh, Shell::Fish, Shell::PowerShell, Shell::WindowsCmd]
}

/// The dialect that a name selects, if any.
pub open spec fn shell_named(s: Seq<char>) -> Option<Shell> {
    if s == "bash"@ {
        Some(Shell::Bash)
    } else if s == "zsh"@ {
        Some(Shell::Zsh)
    } else if s == "fish"@ {
        Some(Shell::Fish)
    } else if s == "powershell"@ {
        Some(Shell::PowerShell)
    } else if s == "cmd"@ {
        Some(Shell::WindowsCmd)
    } else {
        None
    }
}

/// The dialects in listing order.
pub fn available_shells_vec() -> (r: Vec<Shell>)
    ensures
        r@ == available_shells(),
{
    let r = vec![Shell::Bash, Shell::Zsh, Shell::Fish, Shell::PowerShell, Shell::WindowsCmd];
    assert(r@ =~= available_shells());
    r
}

impl Shell {
    /// The name by which users select the dialect.
    pub open spec fn name_spec(self) -> Seq<char> {
        match self {
            Shell::Bash => "bash"@,
            Shell::Zsh => "zsh"@,
            Shell::Fish => "fish"@,
            Shell::PowerShell => "powershell"@,
            Shell::WindowsCmd => "cmd"@,
        }
    }

    /// Characters that must be escaped inside a quoted value.
    pub open spec fn specials(self) -> Seq<char> {
        match self {
            Shell::Bash | Shell::Zsh => "\\\"$`"@,
            Shell::Fish => "\\\"$"@,
            Shell::PowerShell => "`\"$"@,
            Shell::WindowsCmd => "^&|<>"@,
        }
    }

    /// The dialect's escape character, as a text of one character.
    pub open spec fn escape_mark(self) -> Seq<char> {
        match self {
            Shell::Bash | Shell::Zsh | Shell::Fish => "\\"@,
            Shell::PowerShell => "`"@,
            Shell::WindowsCmd => "^"@,
        }
    }

    /// A value as it stands inside the dialect's quotes.
    pub open spec fn quoted(self, v: Seq<char>) -> Seq<char> {
        escaped(v, self.specials(), self.escape_mark()[0])
    }

    pub open spec fn path_head(self) -> Seq<char> {
        match self {
            Shell::Bash | Shell::Zsh => "export PATH=\""@,
            Shell::Fish => "set -gx PATH \""@,
            Shell::PowerShell => "$env:PATH = \""@,
            Shell::WindowsCmd => "SET PATH="@,
        }
    }

    pub open spec fn path_tail(self) -> Seq<char> {
        match self {
            Shell::Bash | Shell::Zsh => "\":$PATH"@,
            Shell::Fish => "\" $PATH;"@,
            Shell::PowerShell => "\" + [IO.Path]::PathSeparator + $env:PATH"@,
            Shell::WindowsCmd => ";%PATH%"@,
        }
    }

    pub open spec fn env_head(self) -> Seq<char> {
        match self {
            Shell::Bash | Shell::Zsh => "export "@,
            Shell::Fish => "set -gx "@,
            Shell::PowerShell => "$env:"@,
            Shell::WindowsCmd => "SET "@,
        }
    }

    pub open spec fn env_mid(self) -> Seq<char> {
        match self {
            Shell::Bash | Shell::Zsh => "=\""@,
            Shell::Fish => " \""@,
            Shell::PowerShell => " = \""@,
            Shell::WindowsCmd => "="@,
        }
    }

    pub open spec fn env_tail(self) -> Seq<char> {
        match self {
            Shell::Bash | Shell::Zsh | Shell::PowerShell => "\""@,
            Shell::Fish => "\";"@,
            Shell::WindowsCmd => ""@,
        }
    }

    /// The statement that puts `dir` in front of the executable search path.
    pub open spec fn path_text(self, dir: Seq<char>) -> Seq<char> {
        self.path_head() + self.quoted(dir) + self.path_tail()
    }

    /// The statement that sets the environment variable `name` to `value`.
    pub open spec fn env_text(self, name: Seq<char>, value: Seq<char>) -> Seq<char> {
        self.env_head() + name + self.env_mid() + self.quoted(value) + self.env_tail()
    }

    /// The script that, once sourced, runs `fnm use` after every change of
    /// directory into one that names a Node version.
    pub open spec fn hook_text(self) -> Seq<char> {
        match self {
            Shell::Bash => "__fnm_use_if_file_found() {\n    if [[ -f .node-version || -f .nvmrc ]]; then\n        fnm use\n    fi\n}\n\n__fnmcd() {\n    \\cd \"$@\" || return $?\n    __fnm_use_if_file_found\n}\n\nalias cd=__fnmcd\n__fnm_use_if_file_found"@,
            Shell::Zsh => "autoload -U add-zsh-hook\n_fnm_autoload_hook () {\n    if [[ -f .node-version || -f .nvmrc ]]; then\n        fnm use\n    fi\n}\n\nadd-zsh-hook chpwd _fnm_autoload_hook \\\n    && _fnm_autoload_hook"@,
            Shell::Fish => "function _fnm_autoload_hook --on-variable PWD --description 'Change Node version on directory change'\n    status --is-command-substitution; and return\n    if test -f .node-version -o -f .nvmrc\n        fnm use\n    end\nend\n\n_fnm_autoload_hook"@,
            Shell::PowerShell => "function global:Set-FnmOnLoad {\n    If ((Test-Path .nvmrc) -Or (Test-Path .node-version)) {\n        fnm use\n    }\n}\nfunction global:Set-LocationWithFnm {\n    param($path)\n    Set-Location $path\n    Set-FnmOnLoad\n}\nSet-Alias cd_with_fnm Set-LocationWithFnm -Force\nRemove-Item alias:\\cd\nNew-Alias cd Set-LocationWithFnm\nSet-FnmOnLoad"@,
            Shell::WindowsCmd => "doskey cd=cd $* $T if exist .node-version (fnm use) else if exist .nvmrc (fnm use)"@,
        }
    }

    pub fn name(&self) -> (r: &'static str)
        ensures
            r@ == self.name_spec(),
    {
        match self {
            Shell::Bash => "bash",
            Shell::Zsh => "zsh",
            Shell::Fish => "fish",
            Shell::PowerShell => "powershell",
            Shell::WindowsCmd => "cmd",
        }
    }

    /// The dialect selected by `s`, or `None` for a name that is not supported.
    pub fn from_name(s: &str) -> (r: Option<Shell>)
        ensures
            r == shell_named(s@),
    {
        if same_text(s, "bash") {
            Some(Shell::Bash)
        } else if same_text(s, "zsh") {
            Some(Shell::Zsh)
        } else if same_text(s, "fish") {
            Some(Shell::Fish)
        } else if same_text(s, "powershell") {
            Some(Shell::PowerShell)
        } else if same_text(s, "cmd") {
            Some(Shell::WindowsCmd)
        } else {
            None
        }
    }

    fn specials_str(&self) -> (r: &'static str)
        ensures
            r@ == self.specials(),
    {
        match self {
            Shell::Bash | Shell::Zsh => "\\\"$`",
            Shell::Fish => "\\\"$",
            Shell::PowerShell => "`\"$",
            Shell::WindowsCmd => "^&|<>",
        }
    }

    fn escape_mark_str(&self) -> (r: &'static str)
        ensures
            r@ == self.escape_mark(),
            r@.len() == 1,
    {
        match self {
            Shell::Bash | Shell::Zsh | Shell::Fish => {
                proof { reveal_strlit("\\"); }
                "\\"
            },
            Shell::PowerShell => {
                proof { reveal_strlit("`"); }
                "`"
            },
            Shell::WindowsCmd => {
                proof { reveal_strlit("^"); }
                "^"
            },
        }
    }

    fn quote(&self, v: &str) -> (r: String)
        ensures
            r@ == self.quoted(v@),
    {
        escape(v, self.specials_str(), self.escape_mark_str())
    }

    fn path_head_str(&self) -> (r: &'static str)
        ensures
            r@ == self.path_head(),
    {
        match self {
            Shell::Bash | Shell::Zsh => "export PATH=\"",
            Shell::Fish => "set -gx PATH \"",
            Shell::PowerShell => "$env:PATH = \"",
            Shell::WindowsCmd => "SET PATH=",
        }
    }

    fn path_tail_str(&self) -> (r: &'static str)
        ensures
            r@ == self.path_tail(),
    {
        match self {
            Shell::Bash | Shell::Zsh => "\":$PATH",
            Shell::Fish => "\" $PATH;",
            Shell::PowerShell => "\" + [IO.Path]::PathSeparator + $env:PATH",
            Shell::WindowsCmd => ";%PATH%",
        }
    }

    fn env_head_str(&self) -> (r: &'static str)
        ensures
            r@ == self.env_head(),
    {
        match self {
            Shell::Bash | Shell::Zsh => "export ",
            Shell::Fish => "set -gx ",
            Shell::PowerShell => "$env:",
            Shell::WindowsCmd => "SET ",
        }
    }

    fn env_mid_str(&self) -> (r: &'static str)
        ensures
            r@ == self.env_mid(),
    {
        match self {
            Shell::Bash | Shell::Zsh => "=\"",
            Shell::Fish => " \"",
            Shell::PowerShell => " = \"",
            Shell::WindowsCmd => "=",
        }
    }

    fn env_tail_str(&self) -> (r: &'static str)
        ensures
            r@ == self.env_tail(),
    {
        match self {
            Shell::Bash | Shell::Zsh | Shell::PowerShell => "\"",
            Shell::Fish => "\";",
            Shell::WindowsCmd => "",
        }
    }

    /// The statement that puts `dir` in front of the executable search path.
    pub fn path(&self, dir: &str) -> (r: String)
        ensures
            r@ == self.path_text(dir@),
    {
        let mut r = String::from_str(self.path_head_str());
        let q = self.quote(dir);
        r.append(q.as_str());
        r.append(self.path_tail_str());
        r
    }

    /// The statement that sets the environment variable `name` to `value`.
    pub fn set_env_var(&self, name: &str, value: &str) -> (r: String)
        ensures
            r@ == self.env_text(name@, value@),
    {
        let mut r = String::from_str(self.env_head_str());
        r.append(name);
        r.append(self.env_mid_str());
        let q = self.quote(value);
        r.append(q.as_str());
        r.append(self.env_tail_str());
        r
    }
    /// The script that installs the directory-change hook.
    pub fn use_on_cd(&self) -> (r: String)
        ensures
            r@ == self.hook_text(),
    {
        let text = match self {
            Shell::Bash => "__fnm_use_if_file_found() {\n    if [[ -f .node-version || -f .nvmrc ]]; then\n        fnm use\n    fi\n}\n\n__fnmcd() {\n    \\cd \"$@\" || return $?\n    __fnm_use_if_file_found\n}\n\nalias cd=__fnmcd\n__fnm_use_if_file_found",
            Shell::Zsh => "autoload -U add-zsh-hook\n_fnm_autoload_hook () {\n    if [[ -f .node-version || -f .nvmrc ]]; then\n        fnm use\n    fi\n}\n\nadd-zsh-hook chpwd _fnm_autoload_hook \\\n    && _fnm_autoload_hook",
            Shell::Fish => "function _fnm_autoload_hook --on-variable PWD --description 'Change Node version on directory change'\n    status --is-command-substitution; and return\n    if test -f .node-version -o -f .nvmrc\n        fnm use\n    end\nend\n\n_fnm_autoload_hook",
            Shell::PowerShell => "function global:Set-FnmOnLoad {\n    If ((Test-Path .nvmrc) -Or (Test-Path .node-version)) {\n        fnm use\n    }\n}\nfunction global:Set-LocationWithFnm {\n    param($path)\n    Set-Location $path\n    Set-FnmOnLoad\n}\nSet-Alias cd_with_fnm Set-LocationWithFnm -Force\nRemove-Item alias:\\cd\nNew-Alias cd Set-LocationWithFnm\nSet-FnmOnLoad",
            Shell::WindowsCmd => "doskey cd=cd $* $T if exist .node-version (fnm use) else if exist .nvmrc (fnm use)",
        };
        String::from_str(text)
    }
}

/// Each dialect is selected by its own name.
pub proof fn lemma_name_selects_shell(sh: Shell)
    ensures
        shell_named(sh.name_spec()) == Some(sh),
{
    reveal_strlit("bash");
    reveal_strlit("zsh");
    reveal_strlit("fish");
    reveal_strlit("powershell");
    reveal_strlit("cmd");
    assert("bash"@[0] == 'b');
    assert("zsh"@[0] == 'z');
    assert("fish"@[0] == 'f');
    assert("powershell"@[0] == 'p');
    assert("cmd"@[0] == 'c');
}

/// Whatever the value, reading the dialect's quoted form back by its escape
/// rule gives the value: a quote or a substitution in it cannot end the
/// quoted text early.
pub proof fn lemma_quoting_round_trip(sh: Shell, v: Seq<char>)
    ensures
        unescaped(sh.quoted(v), sh.escape_mark()[0]) == v,
{
    reveal_strlit("\\");
    reveal_strlit("`");
    reveal_strlit("^");
    reveal_strlit("\\\"$`");
    reveal_strlit("\\\"$");
    reveal_strlit("`\"$");
    reveal_strlit("^&|<>");
    let e = sh.escape_mark()[0];
    assert(sh.specials()[0] == e);
    lemma_unescape_escaped(v, sh.specials(), e);
}

} // verus!
