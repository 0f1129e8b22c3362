use vstd::prelude::*;
use crate::config::Config;
use crate::hint::Hint;
use crate::profile::{config_model, create_profile, created, known};
use vstd::string::StringExecFns;
use colored::Colorize;

verus! {

/// The command line: one command, or none.
pub struct Cli {
    pub command: Option<Commands>,
}

/// The commands.
pub enum Commands {
    /// Set up a profile: clone a remote into it, or start it empty.
    Init(InitArgs),
    /// Synchronise the active profile with its remote.
    Sync,
    /// Track files in the active profile.
    Add { paths: Vec<String> },
    /// Stop tracking files.
    Remove { paths: Vec<String> },
    /// Inspect profiles.
    Profile(ProfileArgs),
}

/// The arguments of `init`.
pub struct InitArgs {
    /// A remote repository to clone.
    pub repo: Option<String>,
    /// The name of the profile to create.
    pub profile: String,
}

/// Why `init` was refused.
#[derive(Debug, Clone, Copy, PartialEq, Eq, Structural)]
pub enum InitCmdError {
    ProfileAlreadyPresent,
}

/// Where a new profile's repository comes from.
pub enum RepoSource {
    /// Clone this remote and check out its worktree.
    Clone(String),
    /// Start with an empty repository.
    Empty,
}

/// What `init` is to do: set up the repository, and once that succeeded,
/// write the configuration.
pub struct InitStep {
    pub source: RepoSource,
    pub config: Config,
}

/// The arguments of `profile`.
pub struct ProfileArgs {
    pub command: ProfileCommands,
}

/// The `profile` subcommands.
pub enum ProfileCommands {
    /// Show the active profile.
    Info,
}

/// Errors of the `profile` command.
#[derive(Debug, Clone, Copy, PartialEq, Eq, Structural)]
pub enum ProfileCommandError {
    /// No configuration exists yet: `init` was never run.
    NotInitialized,
}

/// `s` stands somewhere in `r`, character for character.
pub open spec fn holds_block(r: Seq<char>, s: Seq<char>) -> bool {
    exists|i: int| 0 <= i && i + s.len() <= r.len() && #[trigger] r.subrange(i, i + s.len()) == s
}

/// Relies on colored's `Colorize::bright_blue` and its `Display`: the text is
/// written as it is, between escape sequences where the terminal takes
/// colours; only reset sequences inside it are changed.
#[verifier::external_body]
fn emphasize(s: &str) -> (r: String)
    ensures
        !s@.contains('\x1b') ==> holds_block(r@, s@),
{
    s.bright_blue().to_string()
}

proof fn lemma_block_kept(pre: Seq<char>, r: Seq<char>, s: Seq<char>)
    requires
        holds_block(r, s),
    ensures
        holds_block(pre + r, s),
{
    let i = choose|i: int| 0 <= i && i + s.len() <= r.len() && #[trigger] r.subrange(i, i + s.len()) == s;
    assert((pre + r).subrange(pre.len() + i, pre.len() + i + s.len()) =~= r.subrange(i, i + s.len()));
}

proof fn lemma_block_prefix(r: Seq<char>, longer: Seq<char>, s: Seq<char>)
    requires
        holds_block(r, s),
        longer.len() >= r.len(),
        longer.take(r.len() as int) == r,
    ensures
        holds_block(longer, s),
{
    let i = choose|i: int| 0 <= i && i + s.len() <= r.len() && #[trigger] r.subrange(i, i + s.len()) == s;
    assert(longer.subrange(i, i + s.len()) =~= r.subrange(i, i + s.len()));
}

impl InitArgs {
    /// Decides what `init` does, given the configuration as it stands (none
    /// where no file exists) and whether the profile's directory exists.
    pub fn run(&self, current: &Option<Config>, profile_dir_exists: bool) -> (r: Result<InitStep, InitCmdError>)
        requires
            current matches Some(c) ==> c.wf(),
        ensures
            (profile_dir_exists || known(config_model(*current), self.profile@)) <==> r is Err,
            r matches Ok(step) ==> {
                &&& (step.config.active(), step.config.names()) == created(config_model(*current), self.profile@)
                &&& step.config.wf()
                &&& match (step.source, self.repo) {
                    (RepoSource::Clone(u), Some(url)) => u@ == url@,
                    (RepoSource::Empty, None) => true,
                    _ => false,
                }
            },
    {
        match create_profile(current, self.profile.as_str(), profile_dir_exists) {
            Err(_) => Err(InitCmdError::ProfileAlreadyPresent),
            Ok(config) => {
                let source = match &self.repo {
                    Some(url) => RepoSource::Clone(url.clone()),
                    None => RepoSource::Empty,
                };
                Ok(InitStep { source, config })
            },
        }
    }

    /// The hint shown when the profile already exists.
    pub fn already_exists_hint(&self) -> (r: Hint)
        ensures
            r.spec_title() == "Profile \""@ + self.profile@ + "\" already exists"@,
            r.spec_before_text()
                == "It seems like the selected profile already exists. To continue, use any of the following commands:"@,
            r.spec_items().len() == 2,
            holds_block(r.spec_items()[0], "dotm init (URL) --profile <PROFILE>"@),
            !self.profile@.contains('\x1b') ==> holds_block(r.spec_items()[1], "dotm profile remove "@ + self.profile@),
    {
        let mut title = String::from_str("Profile \"");
        title.append(self.profile.as_str());
        title.append("\" already exists");
        let mut create = String::from_str("Use \"");
        let init_cmd = "dotm init (URL) --profile <PROFILE>";
        proof {
            reveal_strlit("dotm init (URL) --profile <PROFILE>");
        }
        let em = emphasize(init_cmd);
        let ghost c0 = create@;
        create.append(em.as_str());
        proof { lemma_block_kept(c0, em@, init_cmd@); }
        let ghost c2 = create@;
        create.append("\" to create a new profile");
        proof { assert(create@.take(c2.len() as int) =~= c2); lemma_block_prefix(c2, create@, init_cmd@); }
        let mut remove_cmd = String::from_str("dotm profile remove ");
        remove_cmd.append(self.profile.as_str());
        let mut remove = String::from_str("Use \"");
        proof {
            reveal_strlit("dotm profile remove ");
            if !self.profile@.contains('\x1b') {
                assert(!remove_cmd@.contains('\x1b')) by {
                    if remove_cmd@.contains('\x1b') {
                        let k = choose|k: int| 0 <= k < remove_cmd@.len() && remove_cmd@[k] == '\x1b';
                        if k >= 20 {
                            assert(self.profile@[k - 20] == '\x1b');
                        }
                    }
                }
            }
        }
        let em2 = emphasize(remove_cmd.as_str());
        let ghost r0 = remove@;
        remove.append(em2.as_str());
        proof { if !self.profile@.contains('\x1b') { lemma_block_kept(r0, em2@, remove_cmd@); } }
        let ghost r2 = remove@;
        remove.append("\" to remove the profile");
        proof { if !self.profile@.contains('\x1b') { assert(remove@.take(r2.len() as int) =~= r2); lemma_block_prefix(r2, remove@, remove_cmd@); } }
        let mut items: Vec<String> = Vec::new();
        items.push(create);
        items.push(remove);
        Hint::builder()
            .with_title(title.as_str())
            .with_before_text("It seems like the selected profile already exists. To continue, use any of the following commands:")
            .with_items(items)
            .build()
    }
}

impl ProfileArgs {
    /// Runs the `profile` command on the configuration as it stands: `info`
    /// gives the name of the active profile.
    pub fn run(&self, current: &Option<Config>) -> (r: Result<String, ProfileCommandError>)
        ensures
            current is None ==> r == Err::<String, ProfileCommandError>(ProfileCommandError::NotInitialized),
            current matches Some(c) ==> (r matches Ok(name) && name@ == c.active()),
    {
        match current {
            None => Err(ProfileCommandError::NotInitialized),
            Some(c) => match self.command {
                ProfileCommands::Info => Ok(c.profile.clone()),
            },
        }
    }
}

} // verus!
