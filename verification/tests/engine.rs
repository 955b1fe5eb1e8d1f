use breathes::hooks::{
    build_report, detect, detection_rules, glob_matches, log_paths, render_report, run_hooks,
    verify, Hook, HookExecution, HooksError, Language, LanguageOutcome,
};

fn names(list: &[&str]) -> Vec<String> {
    list.iter().map(|s| s.to_string()).collect()
}

#[test]
fn detect_only_cargo_toml_is_rust() {
    let langs = detect(&names(&["Cargo.toml"]));
    assert_eq!(langs, vec![Language::Rust]);
}

#[test]
fn detect_rust_and_node_in_registry_order() {
    let langs = detect(&names(&["package.json", "Cargo.toml"]));
    assert_eq!(langs, vec![Language::Rust, Language::Node]);
}

#[test]
fn detect_csharp_once_for_two_projects() {
    let langs = detect(&names(&["app.csproj", "lib.csproj"]));
    assert_eq!(langs, vec![Language::CSharp]);
}

#[test]
fn detect_only_build_gradle_is_gradle() {
    let langs = detect(&names(&["build.gradle"]));
    assert_eq!(langs, vec![Language::Gradle]);
}

#[test]
fn detect_only_build_gradle_kts_is_kotlin() {
    let langs = detect(&names(&["build.gradle.kts"]));
    assert_eq!(langs, vec![Language::Kotlin]);
}

#[test]
fn detect_empty_directory_is_empty() {
    let langs = detect(&names(&[]));
    assert!(langs.is_empty());
}

#[test]
fn detect_ignores_unknown_files() {
    let langs = detect(&names(&["README.md", "LICENSE", "src"]));
    assert!(langs.is_empty());
}

#[test]
fn registry_has_fourteen_rules() {
    assert_eq!(detection_rules().len(), 14);
}

#[test]
fn glob_matches_suffix_pattern() {
    assert!(glob_matches("*.csproj", "app.csproj"));
    assert!(glob_matches("*.csproj", ".csproj"));
    assert!(!glob_matches("*.csproj", "appcsproj"));
    assert!(!glob_matches("*.csproj", "app.csproj.bak"));
}

#[test]
fn glob_question_mark_matches_one_character() {
    assert!(glob_matches("a?c", "abc"));
    assert!(!glob_matches("a?c", "ac"));
    assert!(!glob_matches("a?c", "abbc"));
}

#[test]
fn catalog_counts_per_language() {
    assert_eq!(Hook::get(Language::Rust).len(), 8);
    assert_eq!(Hook::get(Language::Maven).len(), 4);
    assert_eq!(Hook::get(Language::Java).len(), 1);
    assert_eq!(Hook::get(Language::Kotlin).len(), 2);
    assert_eq!(Hook::get(Language::Swift).len(), 5);
}

#[test]
fn catalog_first_rust_hook_checks_the_project() {
    let hooks = Hook::get(Language::Rust);
    assert_eq!(hooks[0].command, "cargo verify-project");
    assert_eq!(hooks[0].file, "project.log");
    assert_eq!(hooks[7].command, "cargo outdated");
}

#[test]
fn catalog_languages_are_consistent() {
    let all = [
        Language::Node,
        Language::Rust,
        Language::Java,
        Language::Python,
        Language::Go,
        Language::Php,
        Language::Ruby,
        Language::CMake,
        Language::CSharp,
        Language::Maven,
        Language::Kotlin,
        Language::Gradle,
        Language::Swift,
        Language::Dart,
        Language::Elixir,
    ];
    for language in all {
        let hooks = Hook::get(language);
        assert!(!hooks.is_empty());
        for hook in &hooks {
            assert_eq!(hook.language, language);
        }
        for i in 0..hooks.len() {
            for j in (i + 1)..hooks.len() {
                assert_ne!(hooks[i].file, hooks[j].file);
            }
        }
    }
}

#[test]
fn marker_files_match_languages() {
    assert_eq!(Language::get_file(&Language::Rust), "Cargo.toml");
    assert_eq!(Language::get_file(&Language::CSharp), "*.csproj");
    assert_eq!(Language::get_file(&Language::Elixir), "mix.exs");
}

#[test]
fn language_from_name() {
    assert_eq!(Language::from(String::from("Swift")), Language::Swift);
    assert_eq!(Language::from(String::from("CMake")), Language::CMake);
    assert_eq!(Language::from(String::from("unknown")), Language::Rust);
}

fn exec(code: Option<i32>, millis: u64) -> HookExecution {
    HookExecution { exit_code: code, duration_millis: millis }
}

fn stub_hooks(count: usize) -> Vec<Hook> {
    let files = ["one.log", "two.log", "three.log"];
    (0..count)
        .map(|i| Hook {
            language: Language::Rust,
            description: "stub",
            success: "ok",
            failure: "failed",
            file: files[i],
            command: "true",
        })
        .collect()
}

#[test]
fn verify_three_passing_hooks_succeeds() {
    let hooks = stub_hooks(3);
    let execs = vec![exec(Some(0), 5), exec(Some(0), 6), exec(Some(0), 7)];
    let (outcome, details) = verify(Language::Rust, &hooks, &execs);
    assert!(outcome.succeeded);
    assert_eq!(outcome.total_millis, 18);
    assert_eq!(details.len(), 3);
    for d in &details {
        assert!(d.succeeded);
    }
}

#[test]
fn verify_runs_later_hooks_after_a_failure() {
    let hooks = stub_hooks(3);
    let execs = vec![exec(Some(0), 5), exec(Some(2), 6), exec(Some(0), 7)];
    let (outcome, details) = verify(Language::Rust, &hooks, &execs);
    assert!(!outcome.succeeded);
    assert_eq!(details.len(), 3);
    assert!(details[0].succeeded);
    assert!(!details[1].succeeded);
    assert!(details[2].succeeded);
}

#[test]
fn verify_spawn_failure_is_an_ordinary_failure() {
    let hooks = stub_hooks(1);
    let execs = vec![exec(None, 0)];
    let (outcome, details) = verify(Language::Rust, &hooks, &execs);
    assert!(!outcome.succeeded);
    assert!(!details[0].succeeded);
}

#[test]
fn hook_outcome_paths_follow_the_layout() {
    let hooks = stub_hooks(1);
    let execs = vec![exec(Some(0), 1)];
    let (_, details) = verify(Language::Rust, &hooks, &execs);
    assert_eq!(details[0].stdout_path, ".breathes/Rust/stdout/one.log");
    assert_eq!(details[0].stderr_path, ".breathes/Rust/stderr/one.log");
}

#[test]
fn log_paths_use_the_language_name() {
    let (out, err) = log_paths(Language::CSharp, "audit.log");
    assert_eq!(out, ".breathes/CSharp/stdout/audit.log");
    assert_eq!(err, ".breathes/CSharp/stderr/audit.log");
}

#[test]
fn run_hooks_empty_detection_is_no_language_detected() {
    let r = run_hooks(&Vec::new(), &Vec::new());
    assert!(matches!(r, Err(HooksError::NoLanguageDetected)));
}

fn passing_executions(language: Language) -> Vec<HookExecution> {
    Hook::get(language).iter().map(|_| exec(Some(0), 1)).collect()
}

#[test]
fn run_hooks_all_passing_is_ok() {
    let languages = vec![Language::Rust, Language::Go];
    let executions = vec![passing_executions(Language::Rust), passing_executions(Language::Go)];
    let r = run_hooks(&languages, &executions);
    let report = r.expect("run should succeed");
    assert!(report.all_succeeded);
    assert_eq!(report.rows.len(), 2);
    assert_eq!(report.rows[0].language, Language::Rust);
    assert_eq!(report.rows[1].language, Language::Go);
    assert_eq!(report.total_millis, 11);
}

#[test]
fn run_hooks_one_failure_flips_the_aggregate() {
    let languages = vec![Language::Rust, Language::Go];
    let mut go = passing_executions(Language::Go);
    go[1] = exec(Some(1), 1);
    let executions = vec![passing_executions(Language::Rust), go];
    let r = run_hooks(&languages, &executions);
    match r {
        Err(HooksError::AggregateFailure(report)) => {
            assert!(!report.all_succeeded);
            assert!(report.rows[0].succeeded);
            assert!(!report.rows[1].succeeded);
        }
        _ => panic!("expected an aggregate failure"),
    }
}

#[test]
fn report_aggregates_rows() {
    let rows = vec![
        LanguageOutcome { language: Language::Rust, succeeded: true, total_millis: 10 },
        LanguageOutcome { language: Language::Node, succeeded: false, total_millis: 32 },
    ];
    let report = build_report(rows);
    assert!(!report.all_succeeded);
    assert_eq!(report.total_millis, 42);
}

#[test]
fn report_renders_every_cell() {
    let rows = vec![
        LanguageOutcome { language: Language::Rust, succeeded: true, total_millis: 10 },
        LanguageOutcome { language: Language::Node, succeeded: false, total_millis: 32 },
    ];
    let report = build_report(rows);
    let text = render_report(&report);
    assert!(text.contains("Language"));
    assert!(text.contains("Status"));
    assert!(text.contains("Elapsed"));
    assert!(text.contains("Rust"));
    assert!(text.contains("Node"));
    assert!(text.contains("Success"));
    assert!(text.contains("Failure"));
    assert!(text.contains("10ms"));
    assert!(text.contains("32ms"));
    assert!(text.contains("All"));
    assert!(text.contains("42ms"));
}

#[test]
fn detect_full_registry_order() {
    let langs = detect(&names(&[
        "requirements.txt",
        "mix.exs",
        "CMakeLists.txt",
        "package.json",
        "composer.json",
        "Package.swift",
        "build.gradle.kts",
        "build.gradle",
        "pubspec.yaml",
        "Gemfile",
        "go.mod",
        "pom.xml",
        "x.csproj",
        "Cargo.toml",
    ]));
    assert_eq!(
        langs,
        vec![
            Language::Rust,
            Language::CSharp,
            Language::Java,
            Language::Go,
            Language::Ruby,
            Language::Dart,
            Language::Kotlin,
            Language::Swift,
            Language::Php,
            Language::Node,
            Language::CMake,
            Language::Elixir,
            Language::Gradle,
            Language::Python,
        ]
    );
}

#[test]
fn verify_total_saturates() {
    let hooks = stub_hooks(2);
    let execs = vec![exec(Some(0), u64::MAX), exec(Some(0), 5)];
    let (outcome, _) = verify(Language::Rust, &hooks, &execs);
    assert!(outcome.succeeded);
    assert_eq!(outcome.total_millis, u64::MAX);
}
