use negma::config::CFG;
use negma::route::{
    formatter_after_edit, home_action, home_manager_dir, nix_action, route, HomeAction, NixAction,
    Route,
};
use negma::setup::gc_marker_path;

fn argv(words: &[&str]) -> Vec<String> {
    words.iter().map(|w| w.to_string()).collect()
}

#[test]
fn route_by_first_argument() {
    assert_eq!(route(&argv(&["negma"]), false), Route::Help);
    assert_eq!(route(&argv(&["negma", "home", "make"]), false), Route::Home);
    assert_eq!(route(&argv(&["negma", "edit-cfg"]), false), Route::EditConfig);
    assert_eq!(route(&argv(&["negma", "nix", "gc"]), true), Route::Nix);
    assert_eq!(route(&argv(&["negma", "nix", "gc"]), false), Route::NeedsRoot);
    assert_eq!(route(&argv(&["negma", "frobnicate"]), true), Route::Unknown);
}

#[test]
fn home_subcommands() {
    assert!(matches!(home_action(&argv(&["negma", "home"])), HomeAction::Missing));
    assert!(matches!(home_action(&argv(&["negma", "home", "edit"])), HomeAction::Edit));
    assert!(matches!(home_action(&argv(&["negma", "home", "fmt"])), HomeAction::Fmt));
    assert!(matches!(home_action(&argv(&["negma", "home", "backup"])), HomeAction::Backup));
    assert!(matches!(home_action(&argv(&["negma", "home", "nope"])), HomeAction::Unknown));
    let expect = |words: &[&str], want: &[&str]| match home_action(&argv(words)) {
        HomeAction::HomeManager(a) => assert_eq!(a, argv(want)),
        _ => panic!("expected a home-manager run"),
    };
    expect(&["negma", "home", "make"], &["switch"]);
    expect(&["negma", "home", "gc"], &["expire-generations", "-d"]);
    expect(&["negma", "home", "clean"], &["expire-generations", "0"]);
    expect(&["negma", "home", "list-generations"], &["generations"]);
    expect(&["negma", "home", "rollback"], &["switch", "--rollback"]);
    expect(&["negma", "home", "rollback", "42"], &["switch", "42"]);
}

#[test]
fn nix_subcommands() {
    assert!(matches!(nix_action(&argv(&["negma", "nix"])), NixAction::Missing));
    assert!(matches!(nix_action(&argv(&["negma", "nix", "edit"])), NixAction::Edit));
    assert!(matches!(nix_action(&argv(&["negma", "nix", "fmt"])), NixAction::Fmt));
    assert!(matches!(nix_action(&argv(&["negma", "nix", "x"])), NixAction::Unknown));
    let expect = |words: &[&str], want: &[&str]| match nix_action(&argv(words)) {
        NixAction::NixEnv(a) => assert_eq!(a, argv(want)),
        _ => panic!("expected a nix-env run"),
    };
    let p = "/nix/var/nix/profiles/system";
    expect(&["negma", "nix", "gc"], &["collect-garbage", "-d"]);
    expect(&["negma", "nix", "make"], &["rebuild", "switch"]);
    expect(&["negma", "nix", "list-generations"], &["--profile", p, "--list-generations"]);
    expect(&["negma", "nix", "rollback"], &["--profile", p, "--rollback"]);
    expect(&["negma", "nix", "rollback", "7"], &["--profile", p, "--switch-generation", "7"]);
    expect(&["negma", "nix", "clean"], &["--profile", p, "--delete-generations", "old"]);
}

#[test]
fn formatter_runs_after_edit_only_when_switched_on() {
    let mut cfg = CFG::defaults();
    assert_eq!(formatter_after_edit(&cfg), None);
    cfg.formatter = Some("alejandra".to_string());
    assert_eq!(formatter_after_edit(&cfg), None);
    cfg.auto_fmt = true;
    assert_eq!(formatter_after_edit(&cfg), Some("alejandra".to_string()));
    cfg.formatter = None;
    assert_eq!(formatter_after_edit(&cfg), None);
}

#[test]
fn derived_paths() {
    assert_eq!(home_manager_dir("/home/ada"), "/home/ada/.config/home-manager");
    assert_eq!(gc_marker_path("/home/ada"), "/home/ada/.config/negma/auto_gc_marker");
}
