use breathes::api::{project_path_gitlab, Provider};
use breathes::commit::{vcs, Commit, Role};
use breathes::config::BreathConfig;
use breathes::utils::ZenOption;

#[test]
fn vcs_prefers_git() {
    assert_eq!(vcs(true, false), "git");
    assert_eq!(vcs(true, true), "git");
    assert_eq!(vcs(false, true), "hg");
    assert_eq!(vcs(false, false), "git");
}

#[test]
fn roles_in_declaration_order() {
    let all = Role::all();
    assert_eq!(all.len(), 10);
    assert_eq!(all[0], Role::Team);
    assert_eq!(all[9], Role::Customer);
    assert_eq!(all[2].name(), "Developer");
}

#[test]
fn new_commit_is_blank() {
    let c = Commit::new();
    assert!(c.t.is_empty());
    assert!(c.scopes.is_empty());
    assert!(c.summary.is_empty());
    assert!(c.resolves.is_empty());
}

#[test]
fn commit_message_renders_every_section() {
    let commit = Commit {
        t: String::from("feat"),
        scopes: vec![String::from("core"), String::from("ui")],
        summary: String::from("add things"),
        why: String::from("because\n\nreasons"),
        who: String::from("ana"),
        roles: vec![String::from("Developer"), String::from("Tester")],
        what: String::from("stuff"),
        benefits: String::from("speed"),
        breaking_changes: String::from("none"),
        notes: String::from("n1"),
        resolves: vec![String::from("12 ~ title"), String::from(" 34")],
    };
    let expected = "feat(core,ui) ~ add things\n\
        \n\tWhy changes?\n\n\
        \t\t* because\n\
        \n\n\
        \t\t* reasons\n\
        \n\tBreaking Changes:\n\n\
        \t\t* none\n\
        \n\tWhat changes?\n\n\
        \t\t* stuff\n\
        \n\tWho changes?\n\n\
        \t\t* @ana ~ Developer Tester \n\
        \n\tBenefits:\n\n\
        \t\t* speed\n\
        \n\tNotes:\n\n\
        \t\t* n1\n\
        \n\tResolves\n\n\
        \t\tFixes #12\n\
        \t\tFixes #34\n\
        \n\n";
    assert_eq!(commit.message(), expected);
}

#[test]
fn commit_message_of_blank_commit() {
    let c = Commit::new();
    let message = c.message();
    assert!(message.starts_with("() ~ \n"));
    assert!(message.contains("\n\tResolves\n\n"));
    assert!(message.ends_with("\n\n"));
}

#[test]
fn zen_options_in_menu_order() {
    let all = ZenOption::all();
    assert_eq!(all.len(), 10);
    assert_eq!(all[0], ZenOption::Quit);
    assert_eq!(all[9], ZenOption::ListTags);
}

#[test]
fn zen_option_labels() {
    assert_eq!(ZenOption::Edit.label(), "Editor");
    assert_eq!(ZenOption::ListTags.label(), "List Tags");
}

#[test]
fn zen_option_from_name() {
    assert_eq!(ZenOption::from("Editor"), ZenOption::Edit);
    assert_eq!(ZenOption::from("Health"), ZenOption::Health);
    assert_eq!(ZenOption::from("nonsense"), ZenOption::Quit);
}

#[test]
fn initial_config_types() {
    let config = BreathConfig::default();
    assert!(config.breathes.scopes.is_empty());
    assert_eq!(config.breathes.types.len(), 13);
    assert_eq!(config.breathes.types[0], "feat");
    assert_eq!(config.breathes.types[12], "bump");
    assert!(config.documentation.doc.is_empty());
    assert!(config.documentation.man.is_empty());
}

#[test]
fn provider_default_bases() {
    assert_eq!(Provider::GitHub.default_base(), "https://api.github.com");
    assert_eq!(Provider::GitLab.default_base(), "https://gitlab.com/api/v4");
}

#[test]
fn gitlab_project_path_is_percent_encoded() {
    assert_eq!(project_path_gitlab("group", "proj"), "group%2Fproj");
    assert_eq!(project_path_gitlab("a b", "c"), "a%20b%2Fc");
}
