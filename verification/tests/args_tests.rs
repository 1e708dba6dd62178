use rg_bridge::args::{build_args, split_globs, RgOptions};

fn default_options() -> RgOptions {
    RgOptions {
        case_insensitive: false,
        search_hidden: false,
        follow_symlinks: false,
        globs: None,
    }
}

#[test]
fn default_options_give_base_arguments() {
    let args = build_args("TODO", "/tmp/proj", &default_options());
    assert_eq!(args, vec!["--json", "TODO", "/tmp/proj"]);
}

#[test]
fn case_and_hidden_flags_follow_the_root_path_in_order() {
    let options = RgOptions {
        case_insensitive: true,
        search_hidden: true,
        ..default_options()
    };
    let args = build_args("TODO", "/tmp/proj", &options);
    assert_eq!(args, vec!["--json", "TODO", "/tmp/proj", "-i", "--hidden"]);
}

#[test]
fn follow_symlinks_adds_its_flag() {
    let options = RgOptions {
        follow_symlinks: true,
        ..default_options()
    };
    let args = build_args("q", "p", &options);
    assert_eq!(args, vec!["--json", "q", "p", "-L"]);
}

#[test]
fn globs_become_repeated_flags_with_empty_tokens_dropped() {
    let options = RgOptions {
        globs: Some(String::from("*.rs, ; *.md")),
        ..default_options()
    };
    let args = build_args("q", "p", &options);
    assert_eq!(args, vec!["--json", "q", "p", "-g", "*.rs", "-g", "*.md"]);
}

#[test]
fn whitespace_only_glob_text_adds_no_flags() {
    let options = RgOptions {
        globs: Some(String::from("  ;  ,  ")),
        ..default_options()
    };
    let args = build_args("q", "p", &options);
    assert_eq!(args, vec!["--json", "q", "p"]);
}

#[test]
fn split_globs_trims_and_splits_on_both_separators() {
    assert_eq!(split_globs("*.rs, ; *.md"), vec!["*.rs", "*.md"]);
    assert_eq!(split_globs("a;b,c"), vec!["a", "b", "c"]);
    assert_eq!(split_globs("  !*.log  "), vec!["!*.log"]);
    assert_eq!(split_globs(""), Vec::<String>::new());
    assert_eq!(split_globs(",,;;"), Vec::<String>::new());
}

#[test]
fn all_flags_and_globs_combine() {
    let options = RgOptions {
        case_insensitive: true,
        search_hidden: true,
        follow_symlinks: true,
        globs: Some(String::from("src/**;!target")),
    };
    let args = build_args("needle", "/srv", &options);
    assert_eq!(
        args,
        vec!["--json", "needle", "/srv", "-i", "--hidden", "-L", "-g", "src/**", "-g", "!target"]
    );
}
