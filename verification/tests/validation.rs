use breathes::doc::is_safe_command;
use breathes::utils::{command_line, str_le, types, u64_string, EmailValidator};

#[test]
fn safe_commands_are_accepted() {
    assert!(is_safe_command("cargo build"));
    assert!(is_safe_command("  cargo test --release"));
    assert!(is_safe_command("doxygen Doxyfile"));
    assert!(is_safe_command("mkdir out"));
}

#[test]
fn shell_metacharacters_are_rejected() {
    assert!(!is_safe_command("cargo build; rm x"));
    assert!(!is_safe_command("cargo build | tee log"));
    assert!(!is_safe_command("cargo build && echo"));
    assert!(!is_safe_command("touch `date`"));
    assert!(!is_safe_command("cp $HOME x"));
}

#[test]
fn parent_steps_and_absolute_paths_are_rejected() {
    assert!(!is_safe_command("cp ../secret here"));
    assert!(!is_safe_command("/bin/ls"));
    assert!(!is_safe_command("  /usr/bin/make"));
}

#[test]
fn unknown_binaries_are_rejected() {
    assert!(!is_safe_command("python run.py"));
    assert!(!is_safe_command(""));
    assert!(!is_safe_command("   "));
}

#[test]
fn valid_addresses_pass() {
    let v = EmailValidator;
    assert!(v.validate("dev@hackia.org"));
    assert!(v.validate("a.b+c_d@sub-domain.example.co"));
    assert!(v.validate("x9@a1.de"));
}

#[test]
fn invalid_addresses_fail() {
    let v = EmailValidator;
    assert!(!v.validate(""));
    assert!(!v.validate("plainaddress"));
    assert!(!v.validate("@example.org"));
    assert!(!v.validate("a@nodot"));
    assert!(!v.validate("a@.org"));
    assert!(!v.validate("a@b..org"));
    assert!(!v.validate("a@b.o"));
    assert!(!v.validate("a@b.or9"));
    assert!(!v.validate("a b@example.org"));
    assert!(!v.validate("a@example.org."));
    assert!(!v.validate("a@@example.org"));
}

#[test]
fn types_are_sorted() {
    let input = vec![
        String::from("fix"),
        String::from("feat"),
        String::from("chore"),
        String::from("feat"),
    ];
    let sorted = types(input);
    assert_eq!(sorted, vec!["chore", "feat", "feat", "fix"]);
}

#[test]
fn types_of_empty_list() {
    assert!(types(Vec::new()).is_empty());
}

#[test]
fn str_le_is_lexicographic() {
    assert!(str_le("abc", "abd"));
    assert!(str_le("ab", "abc"));
    assert!(!str_le("b", "abc"));
    assert!(str_le("", "a"));
    assert!(str_le("same", "same"));
}

#[test]
fn numbers_render_in_decimal() {
    assert_eq!(u64_string(0), "0");
    assert_eq!(u64_string(7), "7");
    assert_eq!(u64_string(1234567890), "1234567890");
}

#[test]
fn command_lines_join_program_and_argument() {
    assert_eq!(command_line("git", "add ."), "git add .");
    assert_eq!(command_line("aerc", ""), "aerc");
}
