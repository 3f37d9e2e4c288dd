//! Which outside tool a command line asks for, and with which arguments.

use vstd::prelude::*;
use crate::config::{opt_chars, CFG};

verus! {

/// The views of a list of strings.
pub open spec fn strings_view(v: Seq<String>) -> Seq<Seq<char>> {
    Seq::new(v.len(), |i: int| v[i]@)
}

/// The system profile that system generations are listed and switched in.
pub open spec fn system_profile() -> Seq<char> {
    "/nix/var/nix/profiles/system"@
}

/// What the first argument asks for.
#[derive(Clone, Copy, Debug, PartialEq, Eq, Structural)]
pub enum Route {
    /// No command: show the help.
    Help,
    /// `home <subcommand>`: Home Manager.
    Home,
    /// `edit-cfg`: open the settings file.
    EditConfig,
    /// `nix <subcommand>`, run with superuser rights.
    Nix,
    /// `nix <subcommand>` without superuser rights: refused.
    NeedsRoot,
    /// Any other command: refused.
    Unknown,
}

/// What the arguments `args` (program name first) ask for.
pub open spec fn route_spec(args: Seq<Seq<char>>, issu: bool) -> Route {
    if args.len() < 2 {
        Route::Help
    } else if args[1] == "home"@ {
        Route::Home
    } else if args[1] == "edit-cfg"@ {
        Route::EditConfig
    } else if args[1] == "nix"@ {
        if issu {
            Route::Nix
        } else {
            Route::NeedsRoot
        }
    } else {
        Route::Unknown
    }
}

/// Whether `s` is the word `w`.
fn is_word(s: &String, w: &str) -> (r: bool)
    ensures
        r == (s@ == w@),
{
    let t = String::from_str(w);
    *s == t
}

/// A string holding `w`.
fn owned(w: &str) -> (r: String)
    ensures
        r@ == w@,
{
    String::from_str(w)
}

/// What the arguments ask for; `issu` tells whether the process has
/// superuser rights, which the `nix` commands need.
pub fn route(args: &Vec<String>, issu: bool) -> (r: Route)
    ensures
        r == route_spec(strings_view(args@), issu),
{
    if args.len() < 2 {
        Route::Help
    } else if is_word(&args[1], "home") {
        Route::Home
    } else if is_word(&args[1], "edit-cfg") {
        Route::EditConfig
    } else if is_word(&args[1], "nix") {
        if issu {
            Route::Nix
        } else {
            Route::NeedsRoot
        }
    } else {
        Route::Unknown
    }
}

/// A Home Manager subcommand.
pub enum HomeAction {
    /// No subcommand was given.
    Missing,
    /// Open the Home Manager configuration, then format it if asked to.
    Edit,
    /// Format the Home Manager configuration.
    Fmt,
    /// Copy `home.nix` beside itself as `home.nix.bak`.
    Backup,
    /// Run `home-manager` with these arguments.
    HomeManager(Vec<String>),
    /// A subcommand nobody knows.
    Unknown,
}

/// A Home Manager subcommand as values.
pub enum HomeActionView {
    Missing,
    Edit,
    Fmt,
    Backup,
    HomeManager(Seq<Seq<char>>),
    Unknown,
}

impl View for HomeAction {
    type V = HomeActionView;

    open spec fn view(&self) -> HomeActionView {
        match self {
            HomeAction::Missing => HomeActionView::Missing,
            HomeAction::Edit => HomeActionView::Edit,
            HomeAction::Fmt => HomeActionView::Fmt,
            HomeAction::Backup => HomeActionView::Backup,
            HomeAction::HomeManager(a) => HomeActionView::HomeManager(strings_view(a@)),
            HomeAction::Unknown => HomeActionView::Unknown,
        }
    }
}

/// What `home <sub> [generation]` asks for: `make` switches, `gc` expires
/// old generations, `clean` keeps only the current one, `list-generations`
/// lists them, and `rollback` switches to the generation given or back one.
pub open spec fn home_action_spec(args: Seq<Seq<char>>) -> HomeActionView {
    if args.len() < 3 {
        HomeActionView::Missing
    } else {
        let sub = args[2];
        if sub == "edit"@ {
            HomeActionView::Edit
        } else if sub == "fmt"@ {
            HomeActionView::Fmt
        } else if sub == "backup"@ {
            HomeActionView::Backup
        } else if sub == "make"@ {
            HomeActionView::HomeManager(seq!["switch"@])
        } else if sub == "gc"@ {
            HomeActionView::HomeManager(seq!["expire-generations"@, "-d"@])
        } else if sub == "clean"@ {
            HomeActionView::HomeManager(seq!["expire-generations"@, "0"@])
        } else if sub == "list-generations"@ {
            HomeActionView::HomeManager(seq!["generations"@])
        } else if sub == "rollback"@ {
            HomeActionView::HomeManager(
                seq![
                    "switch"@,
                    if args.len() > 3 {
                        args[3]
                    } else {
                        "--rollback"@
                    },
                ],
            )
        } else {
            HomeActionView::Unknown
        }
    }
}

/// What `home <sub> [generation]` asks for.
pub fn home_action(args: &Vec<String>) -> (r: HomeAction)
    ensures
        r@ == home_action_spec(strings_view(args@)),
{
    if args.len() < 3 {
        return HomeAction::Missing;
    }
    let sub = &args[2];
    let mut a: Vec<String> = Vec::new();
    if is_word(sub, "edit") {
        return HomeAction::Edit;
    } else if is_word(sub, "fmt") {
        return HomeAction::Fmt;
    } else if is_word(sub, "backup") {
        return HomeAction::Backup;
    } else if is_word(sub, "make") {
        a.push(owned("switch"));
        assert(strings_view(a@) =~= seq!["switch"@]);
    } else if is_word(sub, "gc") {
        a.push(owned("expire-generations"));
        a.push(owned("-d"));
        assert(strings_view(a@) =~= seq!["expire-generations"@, "-d"@]);
    } else if is_word(sub, "clean") {
        a.push(owned("expire-generations"));
        a.push(owned("0"));
        assert(strings_view(a@) =~= seq!["expire-generations"@, "0"@]);
    } else if is_word(sub, "list-generations") {
        a.push(owned("generations"));
        assert(strings_view(a@) =~= seq!["generations"@]);
    } else if is_word(sub, "rollback") {
        a.push(owned("switch"));
        if args.len() > 3 {
            a.push(args[3].clone());
            assert(strings_view(a@) =~= seq!["switch"@, args@[3]@]);
        } else {
            a.push(owned("--rollback"));
            assert(strings_view(a@) =~= seq!["switch"@, "--rollback"@]);
        }
    } else {
        return HomeAction::Unknown;
    }
    HomeAction::HomeManager(a)
}

/// A NixOS subcommand.
pub enum NixAction {
    /// No subcommand was given.
    Missing,
    /// Open the system configuration, then format it if asked to.
    Edit,
    /// Format the system configuration directory.
    Fmt,
    /// Run `nix-env` with these arguments.
    NixEnv(Vec<String>),
    /// A subcommand nobody knows.
    Unknown,
}

/// A NixOS subcommand as values.
pub enum NixActionView {
    Missing,
    Edit,
    Fmt,
    NixEnv(Seq<Seq<char>>),
    Unknown,
}

impl View for NixAction {
    type V = NixActionView;

    open spec fn view(&self) -> NixActionView {
        match self {
            NixAction::Missing => NixActionView::Missing,
            NixAction::Edit => NixActionView::Edit,
            NixAction::Fmt => NixActionView::Fmt,
            NixAction::NixEnv(a) => NixActionView::NixEnv(strings_view(a@)),
            NixAction::Unknown => NixActionView::Unknown,
        }
    }
}

/// What `nix <sub> [generation]` asks for: `gc` collects garbage, `make`
/// rebuilds and switches, and `list-generations`, `rollback` and `clean` act
/// on the system profile.
pub open spec fn nix_action_spec(args: Seq<Seq<char>>) -> NixActionView {
    if args.len() < 3 {
        NixActionView::Missing
    } else {
        let sub = args[2];
        if sub == "edit"@ {
            NixActionView::Edit
        } else if sub == "fmt"@ {
            NixActionView::Fmt
        } else if sub == "gc"@ {
            NixActionView::NixEnv(seq!["collect-garbage"@, "-d"@])
        } else if sub == "make"@ {
            NixActionView::NixEnv(seq!["rebuild"@, "switch"@])
        } else if sub == "list-generations"@ {
            NixActionView::NixEnv(seq!["--profile"@, system_profile(), "--list-generations"@])
        } else if sub == "rollback"@ {
            if args.len() > 3 {
                NixActionView::NixEnv(
                    seq!["--profile"@, system_profile(), "--switch-generation"@, args[3]],
                )
            } else {
                NixActionView::NixEnv(seq!["--profile"@, system_profile(), "--rollback"@])
            }
        } else if sub == "clean"@ {
            NixActionView::NixEnv(
                seq!["--profile"@, system_profile(), "--delete-generations"@, "old"@],
            )
        } else {
            NixActionView::Unknown
        }
    }
}

/// What `nix <sub> [generation]` asks for.
pub fn nix_action(args: &Vec<String>) -> (r: NixAction)
    ensures
        r@ == nix_action_spec(strings_view(args@)),
{
    if args.len() < 3 {
        return NixAction::Missing;
    }
    let sub = &args[2];
    let mut a: Vec<String> = Vec::new();
    if is_word(sub, "edit") {
        return NixAction::Edit;
    } else if is_word(sub, "fmt") {
        return NixAction::Fmt;
    } else if is_word(sub, "gc") {
        a.push(owned("collect-garbage"));
        a.push(owned("-d"));
        assert(strings_view(a@) =~= seq!["collect-garbage"@, "-d"@]);
    } else if is_word(sub, "make") {
        a.push(owned("rebuild"));
        a.push(owned("switch"));
        assert(strings_view(a@) =~= seq!["rebuild"@, "switch"@]);
    } else if is_word(sub, "list-generations") {
        a.push(owned("--profile"));
        a.push(owned("/nix/var/nix/profiles/system"));
        a.push(owned("--list-generations"));
        assert(strings_view(a@) =~= seq!["--profile"@, system_profile(), "--list-generations"@]);
    } else if is_word(sub, "rollback") {
        a.push(owned("--profile"));
        a.push(owned("/nix/var/nix/profiles/system"));
        if args.len() > 3 {
            a.push(owned("--switch-generation"));
            a.push(args[3].clone());
            assert(strings_view(a@) =~= seq![
                "--profile"@,
                system_profile(),
                "--switch-generation"@,
                args@[3]@,
            ]);
        } else {
            a.push(owned("--rollback"));
            assert(strings_view(a@) =~= seq!["--profile"@, system_profile(), "--rollback"@]);
        }
    } else if is_word(sub, "clean") {
        a.push(owned("--profile"));
        a.push(owned("/nix/var/nix/profiles/system"));
        a.push(owned("--delete-generations"));
        a.push(owned("old"));
        assert(strings_view(a@) =~= seq![
            "--profile"@,
            system_profile(),
            "--delete-generations"@,
            "old"@,
        ]);
    } else {
        return NixAction::Unknown;
    }
    NixAction::NixEnv(a)
}

/// The formatter to run after an edit: the configured one, when formatting
/// after edits is switched on.
pub fn formatter_after_edit(cfg: &CFG) -> (r: Option<String>)
    ensures
        opt_chars(r) == if cfg.auto_fmt {
            opt_chars(cfg.formatter)
        } else {
            None
        },
{
    if cfg.auto_fmt {
        match &cfg.formatter {
            Some(f) => Some(f.clone()),
            None => None,
        }
    } else {
        None
    }
}

/// The Home Manager configuration directory below the home directory `home`.
pub fn home_manager_dir(home: &str) -> (r: String)
    ensures
        r@ == home@ + "/.config/home-manager"@,
{
    let mut r = String::from_str(home);
    r.append("/.config/home-manager");
    r
}

} // verus!
