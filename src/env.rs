//! The `env` command: choosing the dialect and writing the activation script.
use crate::config::FnmConfig;
use crate::multishell::{binary_dir, binary_dir_of};
use crate::shell::{available_shells, available_shells_vec, Shell};
use vstd::prelude::*;

verus! {

/// The arguments of the `env` command.
#[derive(Clone, Copy, Debug)]
pub struct Env {
    /// The shell syntax to use; inferred when missing.
    pub shell: Option<Shell>,
    /// Deprecated: a session path per shell is the default now.
    pub multi: bool,
    /// Also print the script that changes Node versions on every directory change.
    pub use_on_cd: bool,
}

impl Default for Env {
    fn default() -> (r: Env)
        ensures
            r.shell is None,
            !r.multi,
            !r.use_on_cd,
    {
        Env { shell: None, multi: false, use_on_cd: false }
    }
}

/// Why the `env` command failed.
#[derive(Clone, Copy, Debug, PartialEq, Eq, Structural)]
pub enum Error {
    /// No shell was given and none could be inferred.
    CantInferShell,
}

/// One line of the list of supported shells.
pub open spec fn bullet(sh: Shell) -> Seq<char> {
    "* "@ + sh.name_spec()
}

/// The shells as a bulleted list, one per line.
pub open spec fn bullet_list(shells: Seq<Shell>) -> Seq<char>
    decreases shells.len(),
{
    if shells.len() == 0 {
        seq![]
    } else if shells.len() == 1 {
        bullet(shells[0])
    } else {
        bullet_list(shells.drop_last()) + "\n"@ + bullet(shells.last())
    }
}

/// Every supported shell as a bulleted list, one per line.
pub fn shells_as_string() -> (r: String)
    ensures
        r@ == bullet_list(available_shells()),
{
    let shells = available_shells_vec();
    let n = shells.len();
    let mut r = String::new();
    let mut i: usize = 0;
    while i < n
        invariant
            n == shells@.len(),
            i <= n,
            r@ == bullet_list(shells@.take(i as int)),
        decreases n - i,
    {
        let sh = shells[i];
        proof {
            let t = shells@.take(i + 1);
            assert(t.drop_last() =~= shells@.take(i as int));
            assert(t.last() == sh);
            if i == 0 {
                assert(shells@.take(0) =~= Seq::<Shell>::empty());
                assert(t.len() == 1 && t[0] == sh);
            }
        }
        if i > 0 {
            r.append("\n");
        }
        r.append("* ");
        r.append(sh.name());
        i = i + 1;
    }
    assert(shells@.take(n as int) =~= shells@);
    r
}

/// What a failure reports to the user.
pub open spec fn error_message(e: Error) -> Seq<char> {
    match e {
        Error::CantInferShell => "Can't infer shell!\nfnm can't infer your shell based on the process tree.\nMaybe it is unsupported? we support the following shells:\n"@
            + bullet_list(available_shells()),
    }
}

impl Error {
    /// The report of the failure, for the diagnostic stream.
    pub fn message(&self) -> (r: String)
        ensures
            r@ == error_message(*self),
    {
        match self {
            Error::CantInferShell => {
                let mut r = String::from_str(
                    "Can't infer shell!\nfnm can't infer your shell based on the process tree.\nMaybe it is unsupported? we support the following shells:\n",
                );
                let list = shells_as_string();
                r.append(list.as_str());
                r
            },
        }
    }
}

/// The dialect chosen from what inference found.
pub open spec fn inference_outcome(found: Option<Shell>) -> Result<Shell, Error> {
    match found {
        Some(sh) => Ok(sh),
        None => Err(Error::CantInferShell),
    }
}

/// The warning written to the diagnostic stream when the deprecated flag is set.
pub open spec fn deprecation_text() -> Seq<char> {
    "warning: --multi is deprecated. This is now the default."@
}

/// The lines of the activation script, in order.
pub open spec fn script_lines(
    shell: Shell,
    multishell_path: Seq<char>,
    config: FnmConfig,
    use_on_cd: bool,
    windows: bool,
) -> Seq<Seq<char>> {
    seq![
        shell.path_text(binary_dir_of(multishell_path, windows)),
        shell.env_text("FNM_MULTISHELL_PATH"@, multishell_path),
        shell.env_text("FNM_DIR"@, config.base_dir@),
        shell.env_text("FNM_LOGLEVEL"@, config.log_level.name_spec()),
        shell.env_text("FNM_NODE_DIST_MIRROR"@, config.node_dist_mirror@),
    ] + if use_on_cd {
        seq![shell.hook_text()]
    } else {
        seq![]
    }
}

/// The script's texts are exactly `lines`, in order.
pub open spec fn holds_lines(script: Seq<String>, lines: Seq<Seq<char>>) -> bool {
    &&& script.len() == lines.len()
    &&& forall|i: int| 0 <= i < script.len() ==> #[trigger] script[i]@ == lines[i]
}

impl Env {
    /// The dialect to write for: the one given, without asking `infer`; else
    /// the one `infer` finds, and `CantInferShell` when it finds none.
    pub fn resolve_shell<F: FnOnce() -> Option<Shell>>(&self, infer: F) -> (r: Result<Shell, Error>)
        requires
            self.shell is None ==> infer.requires(()),
        ensures
            self.shell is Some ==> r == Ok::<Shell, Error>(self.shell->0),
            self.shell is None ==> exists|found: Option<Shell>|
                infer.ensures((), found) && r == inference_outcome(found),
    {
        match self.shell {
            Some(sh) => Ok(sh),
            None => {
                let found = infer();
                let r = match found {
                    Some(sh) => Ok(sh),
                    None => Err(Error::CantInferShell),
                };
                assert(infer.ensures((), found) && r == inference_outcome(found));
                r
            },
        }
    }

    /// The warning to report, when the deprecated flag is set.
    pub fn deprecation_warning(&self) -> (r: Option<String>)
        ensures
            r is Some <==> self.multi,
            r is Some ==> r->0@ == deprecation_text(),
    {
        if self.multi {
            Some(String::from_str("warning: --multi is deprecated. This is now the default."))
        } else {
            None
        }
    }

    /// The activation script for `shell`, with the session symlink at
    /// `multishell_path`: one statement per line.
    pub fn script(&self, shell: Shell, multishell_path: &str, config: &FnmConfig, windows: bool) -> (r: Vec<String>)
        ensures
            holds_lines(r@, script_lines(shell, multishell_path@, *config, self.use_on_cd, windows)),
    {
        let mut r: Vec<String> = Vec::new();
        let bin = binary_dir(multishell_path, windows);
        r.push(shell.path(bin.as_str()));
        r.push(shell.set_env_var("FNM_MULTISHELL_PATH", multishell_path));
        r.push(shell.set_env_var("FNM_DIR", config.base_dir.as_str()));
        r.push(shell.set_env_var("FNM_LOGLEVEL", config.log_level.as_str()));
        r.push(shell.set_env_var("FNM_NODE_DIST_MIRROR", config.node_dist_mirror.as_str()));
        if self.use_on_cd {
            r.push(shell.use_on_cd());
        }
        r
    }

    /// The whole command: resolve the dialect (asking `infer` only when none
    /// was given), then obtain the session path from `make_symlink`, then
    /// write the script. When no dialect can be had, nothing else is done and
    /// no line is written.
    pub fn activate<F: FnOnce() -> Option<Shell>, G: FnOnce() -> String>(
        &self,
        config: &FnmConfig,
        windows: bool,
        infer: F,
        make_symlink: G,
    ) -> (r: Result<Vec<String>, Error>)
        requires
            self.shell is None ==> infer.requires(()),
            make_symlink.requires(()),
        ensures
            self.shell is Some ==> r is Ok,
            self.shell is None ==> exists|found: Option<Shell>|
                infer.ensures((), found) && (r is Err <==> found is None),
            r is Err ==> r == Err::<Vec<String>, Error>(Error::CantInferShell),
            r is Ok ==> exists|sh: Shell, path: String|
                {
                    &&& make_symlink.ensures((), path)
                    &&& self.shell is Some ==> sh == self.shell->0
                    &&& self.shell is None ==> infer.ensures((), Some(sh))
                    &&& holds_lines(r->Ok_0@, script_lines(sh, path@, *config, self.use_on_cd, windows))
                },
    {
        let shell = match self.resolve_shell(infer) {
            Ok(sh) => sh,
            Err(e) => {
                return Err(e);
            },
        };
        let path = make_symlink();
        let lines = self.script(shell, path.as_str(), config, windows);
        assert(make_symlink.ensures((), path));
        Ok(lines)
    }
}

} // verus!
