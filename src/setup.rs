//! Where the settings file lives, what a new one holds, and the steps that
//! create it when it is missing.

use vstd::prelude::*;

verus! {

/// The self-documenting file written when none exists: every recognized key
/// with its meaning, an example, and examples of aliases.
pub const DEFAULT_CONTENT: &'static str = r#"# Negma Configuration File

###############################################################
#                                                             #
#                 Negma - NixOS Manager Config                #
#                                                             #
# This file controls how Negma manages your NixOS system.     #
# It is automatically created and updated by Negma.           #
#                                                             #
###############################################################

# === Basic Configuration ===

# EDITOR specifies your preferred editor for editing config files.
# Example: EDITOR = helix
EDITOR = nano

# GIT specifies your system configuration git repo (optional).
# Example: GIT = https://github.com/username/nixos-config
GIT = 

# KEEP specifies how many system generations to keep when cleanup is called.
# 0 = keep current, 1 = keep current + last one, etc.
# Example: KEEP = 5
KEEP = 5

# === Advanced Configuration ===

# SYSTEM_FLAKE specifies a flake URI or local path for nixos-rebuild.
# Example: SYSTEM_FLAKE = github:username/nixos-config
SYSTEM_FLAKE = 

# REBUILD_FLAGS specifies additional flags for nixos-rebuild.
# Example: REBUILD_FLAGS = --impure --show-trace
REBUILD_FLAGS =

# CHANNEL specifies your preferred Nix channel.
# Example: CHANNEL = nixos-unstable
CHANNEL = 

# AUTO_GC specifies if automatic garbage collection should run during rebuild.
# Valid values: true / false
AUTO_GC = true

# GC_AGE_DAYS specifies the maximum age (in days) before GC removal.
# Example: GC_AGE_DAYS = 15
GC_AGE_DAYS = 15

# FORMATTER specifies which Nix formatter to use for autofmt operations.
# Supported: nixfmt-rfc-style, alejandra, nixpkgs-fmt, etc.
# Example: FORMATTER = alejandra
FORMATTER = alejandra

# AUTO_FMT specifies whether Negma should auto-format system config before rebuild.
# Valid values: true / false
AUTO_FMT = true

# === Aliases ===
# Aliases allow you to create shortcuts for common commands.
# Example:
# alias mk = build
# alias bkup = backup

"#;

/// The settings directory below the home directory `home`.
pub open spec fn config_dir_spec(home: Seq<char>) -> Seq<char> {
    home + seq!['/', '.', 'c', 'o', 'n', 'f', 'i', 'g', '/', 'n', 'e', 'g', 'm', 'a']
}

/// The settings file below the home directory `home`.
pub open spec fn config_path_spec(home: Seq<char>) -> Seq<char> {
    config_dir_spec(home) + seq!['/', 'c', 'o', 'n', 'f', 'i', 'g', '.', 'c', 'f', 'g']
}

/// The settings directory, `<home>/.config/negma`.
pub fn config_dir(home: &str) -> (r: String)
    ensures
        r@ == config_dir_spec(home@),
{
    let mut r = String::from_str(home);
    r.append("/.config/negma");
    proof {
        reveal_strlit("/.config/negma");
    }
    assert(r@ =~= config_dir_spec(home@));
    r
}

/// The settings file, `<home>/.config/negma/config.cfg`.
pub fn config_path(home: &str) -> (r: String)
    ensures
        r@ == config_path_spec(home@),
{
    let mut r = config_dir(home);
    r.append("/config.cfg");
    proof {
        reveal_strlit("/config.cfg");
    }
    assert(r@ =~= config_path_spec(home@));
    r
}

/// The marker file whose change time records the last automatic collection.
pub fn gc_marker_path(home: &str) -> (r: String)
    ensures
        r@ == config_dir_spec(home@) + "/auto_gc_marker"@,
{
    let mut r = config_dir(home);
    r.append("/auto_gc_marker");
    r
}

/// One file-system step of creating the settings file.
pub enum SetupStep {
    /// Create the directory and all its missing parents.
    CreateDirs(String),
    /// Create the file and write `DEFAULT_CONTENT` into it.
    WriteDefaults(String),
}

/// A file-system step as values.
pub enum SetupStepView {
    CreateDirs(Seq<char>),
    WriteDefaults(Seq<char>),
}

impl View for SetupStep {
    type V = SetupStepView;

    open spec fn view(&self) -> SetupStepView {
        match self {
            SetupStep::CreateDirs(p) => SetupStepView::CreateDirs(p@),
            SetupStep::WriteDefaults(p) => SetupStepView::WriteDefaults(p@),
        }
    }
}

/// The steps that make sure a settings file exists below `home`, given
/// whether it exists already: none when it does, else the directory and then
/// the file.
pub open spec fn setup_plan_spec(home: Seq<char>, exists: bool) -> Seq<SetupStepView> {
    if exists {
        Seq::empty()
    } else {
        seq![
            SetupStepView::CreateDirs(config_dir_spec(home)),
            SetupStepView::WriteDefaults(config_path_spec(home)),
        ]
    }
}

/// The paths that exist once `steps` have been carried out on `paths`.
pub open spec fn after_steps(paths: Set<Seq<char>>, steps: Seq<SetupStepView>) -> Set<Seq<char>>
    decreases steps.len(),
{
    if steps.len() == 0 {
        paths
    } else {
        let before = after_steps(paths, steps.drop_last());
        match steps.last() {
            SetupStepView::CreateDirs(p) => before.insert(p),
            SetupStepView::WriteDefaults(p) => before.insert(p),
        }
    }
}

/// The steps that make sure a settings file exists below `home`.
pub fn setup_plan(home: &str, exists: bool) -> (r: Vec<SetupStep>)
    ensures
        r@.map_values(|s: SetupStep| s@) == setup_plan_spec(home@, exists),
{
    let mut r: Vec<SetupStep> = Vec::new();
    if !exists {
        r.push(SetupStep::CreateDirs(config_dir(home)));
        r.push(SetupStep::WriteDefaults(config_path(home)));
    }
    assert(r@.map_values(|s: SetupStep| s@) =~= setup_plan_spec(home@, exists));
    r
}

/// Setting up creates the file once: on a missing file the plan writes it
/// exactly once, after its directory, and a second plan on what the first left
/// behind does nothing.
pub proof fn lemma_setup_once(home: Seq<char>, paths: Set<Seq<char>>)
    ensures
        ({
            let first = setup_plan_spec(home, paths.contains(config_path_spec(home)));
            let after = after_steps(paths, first);
            &&& after.contains(config_path_spec(home))
            &&& paths.contains(config_path_spec(home)) ==> after == paths
            &&& !paths.contains(config_path_spec(home)) ==> first == seq![
                SetupStepView::CreateDirs(config_dir_spec(home)),
                SetupStepView::WriteDefaults(config_path_spec(home)),
            ]
            &&& setup_plan_spec(home, after.contains(config_path_spec(home))).len() == 0
        }),
{
    let first = setup_plan_spec(home, paths.contains(config_path_spec(home)));
    if !paths.contains(config_path_spec(home)) {
        assert(first.drop_last().drop_last() =~= Seq::<SetupStepView>::empty());
        assert(first.drop_last() =~= seq![SetupStepView::CreateDirs(config_dir_spec(home))]);
    }
}

} // verus!
