use vstd::prelude::*;
use vstd::string::StrSliceExecFns;

use crate::utils::str_eq;
use crate::utils::u64_string;
use crate::utils::decimal_text;

verus! {

/// One supported ecosystem/toolchain the engine knows how to verify.
#[derive(Clone, Copy, Hash, Eq, PartialEq, Structural, Debug)]
pub enum Language {
    Node,
    Rust,
    Java,
    Python,
    Go,
    Php,
    Ruby,
    CMake,
    CSharp,
    Maven,
    Kotlin,
    Gradle,
    Swift,
    Dart,
    Elixir,
}

impl Language {
    /// The marker pattern whose presence in a project root signals this language.
    pub open spec fn marker_spec(language: Language) -> Seq<char> {
        match language {
            Language::Node => "package.json"@,
            Language::Rust => "Cargo.toml"@,
            Language::Java => "pom.xml"@,
            Language::Python => "requirements.txt"@,
            Language::Go => "go.mod"@,
            Language::Php => "composer.json"@,
            Language::Ruby => "Gemfile"@,
            Language::CMake => "CMakeLists.txt"@,
            Language::CSharp => "*.csproj"@,
            Language::Maven => "pom.xml"@,
            Language::Kotlin => "build.gradle.kts"@,
            Language::Gradle => "build.gradle"@,
            Language::Swift => "Package.swift"@,
            Language::Dart => "pubspec.yaml"@,
            Language::Elixir => "mix.exs"@,
        }
    }

    /// The display name of the language, used for the state directory
    /// layout and the report table.
    pub open spec fn name_spec(language: Language) -> Seq<char> {
        match language {
            Language::Node => "Node"@,
            Language::Rust => "Rust"@,
            Language::Java => "Java"@,
            Language::Python => "Python"@,
            Language::Go => "Go"@,
            Language::Php => "Php"@,
            Language::Ruby => "Ruby"@,
            Language::CMake => "CMake"@,
            Language::CSharp => "CSharp"@,
            Language::Maven => "Maven"@,
            Language::Kotlin => "Kotlin"@,
            Language::Gradle => "Gradle"@,
            Language::Swift => "Swift"@,
            Language::Dart => "Dart"@,
            Language::Elixir => "Elixir"@,
        }
    }

    pub fn get_file(language: &Language) -> (r: &'static str)
        ensures
            r@ == Language::marker_spec(*language),
    {
        match language {
            Language::Node => "package.json",
            Language::Rust => "Cargo.toml",
            Language::Java => "pom.xml",
            Language::Python => "requirements.txt",
            Language::Go => "go.mod",
            Language::Php => "composer.json",
            Language::Ruby => "Gemfile",
            Language::CMake => "CMakeLists.txt",
            Language::CSharp => "*.csproj",
            Language::Maven => "pom.xml",
            Language::Kotlin => "build.gradle.kts",
            Language::Gradle => "build.gradle",
            Language::Swift => "Package.swift",
            Language::Dart => "pubspec.yaml",
            Language::Elixir => "mix.exs",
        }
    }

    pub fn name(&self) -> (r: &'static str)
        ensures
            r@ == Language::name_spec(*self),
    {
        match self {
            Language::Node => "Node",
            Language::Rust => "Rust",
            Language::Java => "Java",
            Language::Python => "Python",
            Language::Go => "Go",
            Language::Php => "Php",
            Language::Ruby => "Ruby",
            Language::CMake => "CMake",
            Language::CSharp => "CSharp",
            Language::Maven => "Maven",
            Language::Kotlin => "Kotlin",
            Language::Gradle => "Gradle",
            Language::Swift => "Swift",
            Language::Dart => "Dart",
            Language::Elixir => "Elixir",
        }
    }
}

/// The language whose display name is the given text; an unknown name
/// falls back to Rust.
pub open spec fn language_of_name(s: Seq<char>) -> Language {
    if s == "Node"@ {
        Language::Node
    } else if s == "Rust"@ {
        Language::Rust
    } else if s == "Java"@ {
        Language::Java
    } else if s == "Python"@ {
        Language::Python
    } else if s == "Go"@ {
        Language::Go
    } else if s == "Php"@ {
        Language::Php
    } else if s == "Ruby"@ {
        Language::Ruby
    } else if s == "CMake"@ {
        Language::CMake
    } else if s == "CSharp"@ {
        Language::CSharp
    } else if s == "Maven"@ {
        Language::Maven
    } else if s == "Kotlin"@ {
        Language::Kotlin
    } else if s == "Gradle"@ {
        Language::Gradle
    } else if s == "Swift"@ {
        Language::Swift
    } else if s == "Dart"@ {
        Language::Dart
    } else if s == "Elixir"@ {
        Language::Elixir
    } else {
        Language::Rust
    }
}

impl From<String> for Language {
    fn from(value: String) -> (r: Language) {
        if str_eq(value.as_str(), "Node") {
            return Language::Node;
        }
        if str_eq(value.as_str(), "Rust") {
            return Language::Rust;
        }
        if str_eq(value.as_str(), "Java") {
            return Language::Java;
        }
        if str_eq(value.as_str(), "Python") {
            return Language::Python;
        }
        if str_eq(value.as_str(), "Go") {
            return Language::Go;
        }
        if str_eq(value.as_str(), "Php") {
            return Language::Php;
        }
        if str_eq(value.as_str(), "Ruby") {
            return Language::Ruby;
        }
        if str_eq(value.as_str(), "CMake") {
            return Language::CMake;
        }
        if str_eq(value.as_str(), "CSharp") {
            return Language::CSharp;
        }
        if str_eq(value.as_str(), "Maven") {
            return Language::Maven;
        }
        if str_eq(value.as_str(), "Kotlin") {
            return Language::Kotlin;
        }
        if str_eq(value.as_str(), "Gradle") {
            return Language::Gradle;
        }
        if str_eq(value.as_str(), "Swift") {
            return Language::Swift;
        }
        if str_eq(value.as_str(), "Dart") {
            return Language::Dart;
        }
        if str_eq(value.as_str(), "Elixir") {
            return Language::Elixir;
        }
        Language::Rust
    }
}

impl vstd::std_specs::convert::FromSpecImpl<String> for Language {
    open spec fn obeys_from_spec() -> bool {
        true
    }

    open spec fn from_spec(value: String) -> Language {
        language_of_name(value@)
    }
}

/// One verification step for a language: the command to run, the messages
/// to show, and the log file that captures its output.
#[derive(Clone, Copy, Debug)]
pub struct Hook {
    pub language: Language,
    pub description: &'static str,
    pub success: &'static str,
    pub failure: &'static str,
    pub file: &'static str,
    pub command: &'static str,
}

impl Hook {
    /// The hook catalog: the ordered hook list of every language, as
    /// mathematical data. The order is intentional sequencing (a validity
    /// check before a build, a build before tests) and is preserved.
    pub open spec fn catalog(language: Language) -> Seq<Hook> {
        match language {
            Language::Maven => seq![
                Hook {
                    language: Language::Maven,
                    description: "Checking for outdated dependencies.",
                    success: "No outdated dependencies found",
                    failure: "Outdated dependencies found",
                    file: "tree.log",
                    command: "mvn dependency:tree",
                },
                Hook {
                    language: Language::Maven,
                    description: "Checking for security vulnerabilities.",
                    success: "No vulnerabilities found",
                    failure: "Vulnerabilities found",
                    file: "audit.log",
                    command: "mvn dependency-check:check",
                },
                Hook {
                    language: Language::Maven,
                    description: "Running tests for your Maven project.",
                    success: "Tests passed",
                    failure: "Tests failed",
                    file: "test.log",
                    command: "mvn test",
                },
                Hook {
                    language: Language::Maven,
                    description: "Checking for outdated packages in your project.",
                    success: "No outdated packages found",
                    failure: "Outdated packages found",
                    file: "outdated.log",
                    command: "mvn versions:display-dependency-updates",
                },
            ],
            Language::Gradle => seq![
                Hook {
                    language: Language::Gradle,
                    description: "Checking for outdated dependencies.",
                    success: "No outdated dependencies found",
                    failure: "Outdated dependencies found",
                    file: "outdated.log",
                    command: "gradle dependencyUpdates",
                },
                Hook {
                    language: Language::Gradle,
                    description: "Checking for security vulnerabilities.",
                    success: "No vulnerabilities found",
                    failure: "Vulnerabilities found",
                    file: "audit.log",
                    command: "gradle dependencyCheckAnalyze",
                },
                Hook {
                    language: Language::Gradle,
                    description: "Running tests for your Gradle project.",
                    success: "Tests passed",
                    failure: "Tests failed",
                    file: "test.log",
                    command: "gradle test",
                },
            ],
            Language::Node => seq![
                Hook {
                    language: Language::Node,
                    description: "Checking for outdated packages in your project.",
                    success: "No outdated packages found",
                    failure: "Outdated packages found",
                    file: "outdated.log",
                    command: "npm outdated",
                },
                Hook {
                    language: Language::Node,
                    description: "Testings your project.",
                    success: "Tests passed",
                    failure: "Tests failed",
                    file: "test.log",
                    command: "npm run test",
                },
                Hook {
                    language: Language::Node,
                    description: "Auditing your project.",
                    success: "No vulnerabilities founded",
                    failure: "Vulnerabilities founded",
                    file: "audit.log",
                    command: "npm audit",
                },
            ],
            Language::Rust => seq![
                Hook {
                    language: Language::Rust,
                    description: "Checking the configuration",
                    success: "Project is valid",
                    failure: "Project not valid",
                    file: "project.log",
                    command: "cargo verify-project",
                },
                Hook {
                    language: Language::Rust,
                    description: "Checking build capability",
                    success: "Can build the project",
                    failure: "Cargo check detect failure",
                    file: "check.log",
                    command: "cargo check",
                },
                Hook {
                    language: Language::Rust,
                    description: "Checking for security vulnerabilities",
                    success: "No vulnerabilities found",
                    failure: "Vulnerabilities found",
                    file: "audit.log",
                    command: "cargo audit",
                },
                Hook {
                    language: Language::Rust,
                    description: "Checks for formatting issues in your Rust code.",
                    success: "Respect the code format standard",
                    failure: "Not respect code format standard",
                    file: "fmt.log",
                    command: "cargo fmt --check",
                },
                Hook {
                    language: Language::Rust,
                    description: "Checks for linting issues and suggests code improvements.",
                    success: "No vulnerabilities found",
                    failure: "Vulnerabilities found",
                    file: "clippy.log",
                    command: "cargo clippy -- -D clippy::all -W warnings -D clippy::pedantic -D clippy::nursery -A clippy::multiple_crate_versions",
                },
                Hook {
                    language: Language::Rust,
                    description: "Testing your project.",
                    success: "Tests passed",
                    failure: "Tests failed",
                    file: "test.log",
                    command: "cargo test --no-fail-fast",
                },
                Hook {
                    language: Language::Rust,
                    description: "Generating documentation for your project.",
                    success: "Documentation generated",
                    failure: "Failed to generate documentation",
                    file: "doc.log",
                    command: "cargo doc --no-deps --document-private-items",
                },
                Hook {
                    language: Language::Rust,
                    description: "Checking for outdated packages in your project.",
                    success: "No outdated packages found",
                    failure: "Outdated packages found",
                    file: "outdated.log",
                    command: "cargo outdated",
                },
            ],
            Language::Java => seq![
                Hook {
                    language: Language::Java,
                    description: "Checking for outdated packages in your project.",
                    success: "No outdated packages found",
                    failure: "Outdated packages found",
                    file: "outdated.log",
                    command: "mvn versions:display-dependency-updates",
                },
            ],
            Language::Python => seq![
                Hook {
                    language: Language::Python,
                    description: "Checking for outdated packages in your project.",
                    success: "No outdated packages found",
                    failure: "Outdated packages found",
                    file: "outdated.log",
                    command: "pip list --outdated",
                },
                Hook {
                    language: Language::Python,
                    description: "Checking for security vulnerabilities.",
                    success: "No vulnerabilities found",
                    failure: "Vulnerabilities found",
                    file: "audit.log",
                    command: "pip audit",
                },
            ],
            Language::Go => seq![
                Hook {
                    language: Language::Go,
                    description: "Testing your project.",
                    success: "Tests passed",
                    failure: "Test failed",
                    file: "test.log",
                    command: "go test -v",
                },
                Hook {
                    language: Language::Go,
                    description: "Checking for outdated packages.",
                    success: "No outdated packages found",
                    failure: "Outdated packages found",
                    file: "outdated.log",
                    command: "go list -u -m -json all",
                },
                Hook {
                    language: Language::Go,
                    description: "Checking for security vulnerabilities.",
                    success: "No vulnerabilities found",
                    failure: "Vulnerabilities found",
                    file: "audit.log",
                    command: "go list -u -m -json all",
                },
            ],
            Language::Php => seq![
                Hook {
                    language: Language::Php,
                    description: "Checking platform requirements.",
                    success: "All requirements are met",
                    failure: "Missing requirements found",
                    file: "reqs.log",
                    command: "composer check-platform-reqs",
                },
                Hook {
                    language: Language::Php,
                    description: "Checking for security vulnerabilities.",
                    success: "No vulnerabilities found",
                    failure: "Vulnerabilities found",
                    file: "audit.log",
                    command: "composer audit",
                },
                Hook {
                    language: Language::Php,
                    description: "Checking outdated packages.",
                    success: "No outdated packages found",
                    failure: "Outdated packages found",
                    file: "outdated.log",
                    command: "composer outdated",
                },
                Hook {
                    language: Language::Php,
                    description: "Running tests for your PHP project.",
                    success: "Tests passed",
                    failure: "Tests failed",
                    file: "test.log",
                    command: "composer run test",
                },
            ],
            Language::Ruby => seq![
                Hook {
                    language: Language::Ruby,
                    description: "Checking for outdated gems.",
                    success: "No outdated gems found",
                    failure: "Outdated gems found",
                    file: "outdated.log",
                    command: "bundle outdated",
                },
                Hook {
                    language: Language::Ruby,
                    description: "Checking for security vulnerabilities.",
                    success: "No vulnerabilities found",
                    failure: "Vulnerabilities found",
                    file: "audit.log",
                    command: "bundle audit",
                },
                Hook {
                    language: Language::Ruby,
                    description: "Running tests for your Ruby project.",
                    success: "Tests passed",
                    failure: "Tests failed",
                    file: "test.log",
                    command: "bundle exec rspec",
                },
            ],
            Language::CMake => seq![
                Hook {
                    language: Language::CMake,
                    description: "Validating CMake configuration files.",
                    success: "CMake configuration is valid",
                    failure: "CMake configuration validation failed",
                    file: "cmake.log",
                    command: "cmake .",
                },
                Hook {
                    language: Language::CMake,
                    description: "Validating CMake configuration files.",
                    success: "Build success",
                    failure: "Build failed",
                    file: "make.log",
                    command: "make",
                },
                Hook {
                    language: Language::CMake,
                    description: "Validating CMake configuration files.",
                    success: "Test success",
                    failure: "test failures",
                    file: "test.log",
                    command: "make test",
                },
            ],
            Language::CSharp => seq![
                Hook {
                    language: Language::CSharp,
                    description: "Checking for code formatting",
                    success: "Code formatting is correct",
                    failure: "Code formatting issues found",
                    file: "format.log",
                    command: "dotnet format --verify-no-changes",
                },
                Hook {
                    language: Language::CSharp,
                    description: "Running unit tests",
                    success: "All tests passed",
                    failure: "Some tests failed",
                    file: "test.log",
                    command: "dotnet test",
                },
                Hook {
                    language: Language::CSharp,
                    description: "Building the project",
                    success: "Build successful",
                    failure: "Build failed",
                    file: "build.log",
                    command: "dotnet build",
                },
                Hook {
                    language: Language::CSharp,
                    description: "Checking for dependency updates",
                    success: "Dependencies are up to date",
                    failure: "Dependency updates available",
                    file: "deps.log",
                    command: "dotnet restore",
                },
                Hook {
                    language: Language::CSharp,
                    description: "Checking for security vulnerabilities",
                    success: "No vulnerabilities found",
                    failure: "Vulnerabilities found",
                    file: "audit.log",
                    command: "dotnet audit",
                },
            ],
            Language::Kotlin => seq![
                Hook {
                    language: Language::Kotlin,
                    description: "Checking for code formatting",
                    success: "Code formatting is correct",
                    failure: "Code formatting issues found",
                    file: "format.log",
                    command: "ktlint --reporter=plain",
                },
                Hook {
                    language: Language::Kotlin,
                    description: "Running unit tests",
                    success: "All tests passed",
                    failure: "Some tests failed",
                    file: "test.log",
                    command: "kotlinc -script test.kts",
                },
            ],
            Language::Swift => seq![
                Hook {
                    language: Language::Swift,
                    description: "Checking for code formatting",
                    success: "Code formatting is correct",
                    failure: "Code formatting issues found",
                    file: "format.log",
                    command: "swiftformat --lint .",
                },
                Hook {
                    language: Language::Swift,
                    description: "Running unit tests",
                    success: "All tests passed",
                    failure: "Some tests failed",
                    file: "test.log",
                    command: "swift test",
                },
                Hook {
                    language: Language::Swift,
                    description: "Checking for security vulnerabilities",
                    success: "No vulnerabilities found",
                    failure: "Vulnerabilities found",
                    file: "audit.log",
                    command: "swift package audit",
                },
                Hook {
                    language: Language::Swift,
                    description: "Building the project",
                    success: "Build successful",
                    failure: "Build failed",
                    file: "build.log",
                    command: "swift build",
                },
                Hook {
                    language: Language::Swift,
                    description: "Running integration tests",
                    success: "All integration tests passed",
                    failure: "Some integration tests failed",
                    file: "integration.log",
                    command: "swift test --parallel",
                },
            ],
            Language::Dart => seq![
                Hook {
                    language: Language::Dart,
                    description: "Checking for code formatting",
                    success: "Code formatting is correct",
                    failure: "Code formatting issues found",
                    file: "format.log",
                    command: "dart format --set-exit-if-changed",
                },
                Hook {
                    language: Language::Dart,
                    description: "Running unit tests",
                    success: "All tests passed",
                    failure: "Some tests failed",
                    file: "test.log",
                    command: "dart test",
                },
                Hook {
                    language: Language::Dart,
                    description: "Running integration tests",
                    success: "All integration tests passed",
                    failure: "Some integration tests failed",
                    file: "integration.log",
                    command: "dart test --integration",
                },
                Hook {
                    language: Language::Dart,
                    description: "Checking for security vulnerabilities",
                    success: "No vulnerabilities found",
                    failure: "Vulnerabilities found",
                    file: "audit.log",
                    command: "dart pub audit",
                },
                Hook {
                    language: Language::Dart,
                    description: "Building the project",
                    success: "Build successful",
                    failure: "Build failed",
                    file: "build.log",
                    command: "dart compile exe bin/main.dart",
                },
            ],
            Language::Elixir => seq![
                Hook {
                    language: Language::Elixir,
                    description: "Checking for code formatting",
                    success: "Code formatting is correct",
                    failure: "Code formatting issues found",
                    file: "format.log",
                    command: "mix format --check-formatted",
                },
                Hook {
                    language: Language::Elixir,
                    description: "Running unit tests",
                    success: "All tests passed",
                    failure: "Some tests failed",
                    file: "test.log",
                    command: "mix test",
                },
                Hook {
                    language: Language::Elixir,
                    description: "Running integration tests",
                    success: "All integration tests passed",
                    failure: "Some integration tests failed",
                    file: "integration.log",
                    command: "mix test --integration",
                },
                Hook {
                    language: Language::Elixir,
                    description: "Checking for security vulnerabilities",
                    success: "No vulnerabilities found",
                    failure: "Vulnerabilities found",
                    file: "audit.log",
                    command: "mix audit",
                },
                Hook {
                    language: Language::Elixir,
                    description: "Building the project",
                    success: "Build successful",
                    failure: "Build failed",
                    file: "build.log",
                    command: "mix compile",
                },
            ],
        }
    }

    /// The ordered hook list of one language; the order encodes intentional
    /// sequencing and `Hook::get` returns exactly the `catalog` sequence.
    pub fn get(language: Language) -> (hooks: Vec<Hook>)
        ensures
            hooks@ == Hook::catalog(language),
    {
        let mut hooks: Vec<Hook> = Vec::new();
        match language {
            Language::Maven => {
                hooks.push(Hook {
                    language: Language::Maven,
                    description: "Checking for outdated dependencies.",
                    success: "No outdated dependencies found",
                    failure: "Outdated dependencies found",
                    file: "tree.log",
                    command: "mvn dependency:tree",
                });
                hooks.push(Hook {
                    language: Language::Maven,
                    description: "Checking for security vulnerabilities.",
                    success: "No vulnerabilities found",
                    failure: "Vulnerabilities found",
                    file: "audit.log",
                    command: "mvn dependency-check:check",
                });
                hooks.push(Hook {
                    language: Language::Maven,
                    description: "Running tests for your Maven project.",
                    success: "Tests passed",
                    failure: "Tests failed",
                    file: "test.log",
                    command: "mvn test",
                });
                hooks.push(Hook {
                    language: Language::Maven,
                    description: "Checking for outdated packages in your project.",
                    success: "No outdated packages found",
                    failure: "Outdated packages found",
                    file: "outdated.log",
                    command: "mvn versions:display-dependency-updates",
                });
            }
            Language::Gradle => {
                hooks.push(Hook {
                    language: Language::Gradle,
                    description: "Checking for outdated dependencies.",
                    success: "No outdated dependencies found",
                    failure: "Outdated dependencies found",
                    file: "outdated.log",
                    command: "gradle dependencyUpdates",
                });
                hooks.push(Hook {
                    language: Language::Gradle,
                    description: "Checking for security vulnerabilities.",
                    success: "No vulnerabilities found",
                    failure: "Vulnerabilities found",
                    file: "audit.log",
                    command: "gradle dependencyCheckAnalyze",
                });
                hooks.push(Hook {
                    language: Language::Gradle,
                    description: "Running tests for your Gradle project.",
                    success: "Tests passed",
                    failure: "Tests failed",
                    file: "test.log",
                    command: "gradle test",
                });
            }
            Language::Node => {
                hooks.push(Hook {
                    language: Language::Node,
                    description: "Checking for outdated packages in your project.",
                    success: "No outdated packages found",
                    failure: "Outdated packages found",
                    file: "outdated.log",
                    command: "npm outdated",
                });
                hooks.push(Hook {
                    language: Language::Node,
                    description: "Testings your project.",
                    success: "Tests passed",
                    failure: "Tests failed",
                    file: "test.log",
                    command: "npm run test",
                });
                hooks.push(Hook {
                    language: Language::Node,
                    description: "Auditing your project.",
                    success: "No vulnerabilities founded",
                    failure: "Vulnerabilities founded",
                    file: "audit.log",
                    command: "npm audit",
                });
            }
            Language::Rust => {
                hooks.push(Hook {
                    language: Language::Rust,
                    description: "Checking the configuration",
                    success: "Project is valid",
                    failure: "Project not valid",
                    file: "project.log",
                    command: "cargo verify-project",
                });
                hooks.push(Hook {
                    language: Language::Rust,
                    description: "Checking build capability",
                    success: "Can build the project",
                    failure: "Cargo check detect failure",
                    file: "check.log",
                    command: "cargo check",
                });
                hooks.push(Hook {
                    language: Language::Rust,
                    description: "Checking for security vulnerabilities",
                    success: "No vulnerabilities found",
                    failure: "Vulnerabilities found",
                    file: "audit.log",
                    command: "cargo audit",
                });
                hooks.push(Hook {
                    language: Language::Rust,
                    description: "Checks for formatting issues in your Rust code.",
                    success: "Respect the code format standard",
                    failure: "Not respect code format standard",
                    file: "fmt.log",
                    command: "cargo fmt --check",
                });
                hooks.push(Hook {
                    language: Language::Rust,
                    description: "Checks for linting issues and suggests code improvements.",
                    success: "No vulnerabilities found",
                    failure: "Vulnerabilities found",
                    file: "clippy.log",
                    command: "cargo clippy -- -D clippy::all -W warnings -D clippy::pedantic -D clippy::nursery -A clippy::multiple_crate_versions",
                });
                hooks.push(Hook {
                    language: Language::Rust,
                    description: "Testing your project.",
                    success: "Tests passed",
                    failure: "Tests failed",
                    file: "test.log",
                    command: "cargo test --no-fail-fast",
                });
                hooks.push(Hook {
                    language: Language::Rust,
                    description: "Generating documentation for your project.",
                    success: "Documentation generated",
                    failure: "Failed to generate documentation",
                    file: "doc.log",
                    command: "cargo doc --no-deps --document-private-items",
                });
                hooks.push(Hook {
                    language: Language::Rust,
                    description: "Checking for outdated packages in your project.",
                    success: "No outdated packages found",
                    failure: "Outdated packages found",
                    file: "outdated.log",
                    command: "cargo outdated",
                });
            }
            Language::Java => {
                hooks.push(Hook {
                    language: Language::Java,
                    description: "Checking for outdated packages in your project.",
                    success: "No outdated packages found",
                    failure: "Outdated packages found",
                    file: "outdated.log",
                    command: "mvn versions:display-dependency-updates",
                });
            }
            Language::Python => {
                hooks.push(Hook {
                    language: Language::Python,
                    description: "Checking for outdated packages in your project.",
                    success: "No outdated packages found",
                    failure: "Outdated packages found",
                    file: "outdated.log",
                    command: "pip list --outdated",
                });
                hooks.push(Hook {
                    language: Language::Python,
                    description: "Checking for security vulnerabilities.",
                    success: "No vulnerabilities found",
                    failure: "Vulnerabilities found",
                    file: "audit.log",
                    command: "pip audit",
                });
            }
            Language::Go => {
                hooks.push(Hook {
                    language: Language::Go,
                    description: "Testing your project.",
                    success: "Tests passed",
                    failure: "Test failed",
                    file: "test.log",
                    command: "go test -v",
                });
                hooks.push(Hook {
                    language: Language::Go,
                    description: "Checking for outdated packages.",
                    success: "No outdated packages found",
                    failure: "Outdated packages found",
                    file: "outdated.log",
                    command: "go list -u -m -json all",
                });
                hooks.push(Hook {
                    language: Language::Go,
                    description: "Checking for security vulnerabilities.",
                    success: "No vulnerabilities found",
                    failure: "Vulnerabilities found",
                    file: "audit.log",
                    command: "go list -u -m -json all",
                });
            }
            Language::Php => {
                hooks.push(Hook {
                    language: Language::Php,
                    description: "Checking platform requirements.",
                    success: "All requirements are met",
                    failure: "Missing requirements found",
                    file: "reqs.log",
                    command: "composer check-platform-reqs",
                });
                hooks.push(Hook {
                    language: Language::Php,
                    description: "Checking for security vulnerabilities.",
                    success: "No vulnerabilities found",
                    failure: "Vulnerabilities found",
                    file: "audit.log",
                    command: "composer audit",
                });
                hooks.push(Hook {
                    language: Language::Php,
                    description: "Checking outdated packages.",
                    success: "No outdated packages found",
                    failure: "Outdated packages found",
                    file: "outdated.log",
                    command: "composer outdated",
                });
                hooks.push(Hook {
                    language: Language::Php,
                    description: "Running tests for your PHP project.",
                    success: "Tests passed",
                    failure: "Tests failed",
                    file: "test.log",
                    command: "composer run test",
                });
            }
            Language::Ruby => {
                hooks.push(Hook {
                    language: Language::Ruby,
                    description: "Checking for outdated gems.",
                    success: "No outdated gems found",
                    failure: "Outdated gems found",
                    file: "outdated.log",
                    command: "bundle outdated",
                });
                hooks.push(Hook {
                    language: Language::Ruby,
                    description: "Checking for security vulnerabilities.",
                    success: "No vulnerabilities found",
                    failure: "Vulnerabilities found",
                    file: "audit.log",
                    command: "bundle audit",
                });
                hooks.push(Hook {
                    language: Language::Ruby,
                    description: "Running tests for your Ruby project.",
                    success: "Tests passed",
                    failure: "Tests failed",
                    file: "test.log",
                    command: "bundle exec rspec",
                });
            }
            Language::CMake => {
                hooks.push(Hook {
                    language: Language::CMake,
                    description: "Validating CMake configuration files.",
                    success: "CMake configuration is valid",
                    failure: "CMake configuration validation failed",
                    file: "cmake.log",
                    command: "cmake .",
                });
                hooks.push(Hook {
                    language: Language::CMake,
                    description: "Validating CMake configuration files.",
                    success: "Build success",
                    failure: "Build failed",
                    file: "make.log",
                    command: "make",
                });
                hooks.push(Hook {
                    language: Language::CMake,
                    description: "Validating CMake configuration files.",
                    success: "Test success",
                    failure: "test failures",
                    file: "test.log",
                    command: "make test",
                });
            }
            Language::CSharp => {
                hooks.push(Hook {
                    language: Language::CSharp,
                    description: "Checking for code formatting",
                    success: "Code formatting is correct",
                    failure: "Code formatting issues found",
                    file: "format.log",
                    command: "dotnet format --verify-no-changes",
                });
                hooks.push(Hook {
                    language: Language::CSharp,
                    description: "Running unit tests",
                    success: "All tests passed",
                    failure: "Some tests failed",
                    file: "test.log",
                    command: "dotnet test",
                });
                hooks.push(Hook {
                    language: Language::CSharp,
                    description: "Building the project",
                    success: "Build successful",
                    failure: "Build failed",
                    file: "build.log",
                    command: "dotnet build",
                });
                hooks.push(Hook {
                    language: Language::CSharp,
                    description: "Checking for dependency updates",
                    success: "Dependencies are up to date",
                    failure: "Dependency updates available",
                    file: "deps.log",
                    command: "dotnet restore",
                });
                hooks.push(Hook {
                    language: Language::CSharp,
                    description: "Checking for security vulnerabilities",
                    success: "No vulnerabilities found",
                    failure: "Vulnerabilities found",
                    file: "audit.log",
                    command: "dotnet audit",
                });
            }
            Language::Kotlin => {
                hooks.push(Hook {
                    language: Language::Kotlin,
                    description: "Checking for code formatting",
                    success: "Code formatting is correct",
                    failure: "Code formatting issues found",
                    file: "format.log",
                    command: "ktlint --reporter=plain",
                });
                hooks.push(Hook {
                    language: Language::Kotlin,
                    description: "Running unit tests",
                    success: "All tests passed",
                    failure: "Some tests failed",
                    file: "test.log",
                    command: "kotlinc -script test.kts",
                });
            }
            Language::Swift => {
                hooks.push(Hook {
                    language: Language::Swift,
                    description: "Checking for code formatting",
                    success: "Code formatting is correct",
                    failure: "Code formatting issues found",
                    file: "format.log",
                    command: "swiftformat --lint .",
                });
                hooks.push(Hook {
                    language: Language::Swift,
                    description: "Running unit tests",
                    success: "All tests passed",
                    failure: "Some tests failed",
                    file: "test.log",
                    command: "swift test",
                });
                hooks.push(Hook {
                    language: Language::Swift,
                    description: "Checking for security vulnerabilities",
                    success: "No vulnerabilities found",
                    failure: "Vulnerabilities found",
                    file: "audit.log",
                    command: "swift package audit",
                });
                hooks.push(Hook {
                    language: Language::Swift,
                    description: "Building the project",
                    success: "Build successful",
                    failure: "Build failed",
                    file: "build.log",
                    command: "swift build",
                });
                hooks.push(Hook {
                    language: Language::Swift,
                    description: "Running integration tests",
                    success: "All integration tests passed",
                    failure: "Some integration tests failed",
                    file: "integration.log",
                    command: "swift test --parallel",
                });
            }
            Language::Dart => {
                hooks.push(Hook {
                    language: Language::Dart,
                    description: "Checking for code formatting",
                    success: "Code formatting is correct",
                    failure: "Code formatting issues found",
                    file: "format.log",
                    command: "dart format --set-exit-if-changed",
                });
                hooks.push(Hook {
                    language: Language::Dart,
                    description: "Running unit tests",
                    success: "All tests passed",
                    failure: "Some tests failed",
                    file: "test.log",
                    command: "dart test",
                });
                hooks.push(Hook {
                    language: Language::Dart,
                    description: "Running integration tests",
                    success: "All integration tests passed",
                    failure: "Some integration tests failed",
                    file: "integration.log",
                    command: "dart test --integration",
                });
                hooks.push(Hook {
                    language: Language::Dart,
                    description: "Checking for security vulnerabilities",
                    success: "No vulnerabilities found",
                    failure: "Vulnerabilities found",
                    file: "audit.log",
                    command: "dart pub audit",
                });
                hooks.push(Hook {
                    language: Language::Dart,
                    description: "Building the project",
                    success: "Build successful",
                    failure: "Build failed",
                    file: "build.log",
                    command: "dart compile exe bin/main.dart",
                });
            }
            Language::Elixir => {
                hooks.push(Hook {
                    language: Language::Elixir,
                    description: "Checking for code formatting",
                    success: "Code formatting is correct",
                    failure: "Code formatting issues found",
                    file: "format.log",
                    command: "mix format --check-formatted",
                });
                hooks.push(Hook {
                    language: Language::Elixir,
                    description: "Running unit tests",
                    success: "All tests passed",
                    failure: "Some tests failed",
                    file: "test.log",
                    command: "mix test",
                });
                hooks.push(Hook {
                    language: Language::Elixir,
                    description: "Running integration tests",
                    success: "All integration tests passed",
                    failure: "Some integration tests failed",
                    file: "integration.log",
                    command: "mix test --integration",
                });
                hooks.push(Hook {
                    language: Language::Elixir,
                    description: "Checking for security vulnerabilities",
                    success: "No vulnerabilities found",
                    failure: "Vulnerabilities found",
                    file: "audit.log",
                    command: "mix audit",
                });
                hooks.push(Hook {
                    language: Language::Elixir,
                    description: "Building the project",
                    success: "Build successful",
                    failure: "Build failed",
                    file: "build.log",
                    command: "mix compile",
                });
            }
        }
        proof {
            assert(hooks@ =~= Hook::catalog(language));
        }
        hooks
    }

    /// No two hooks of one language share a log file name, so no two hooks
    /// of a run ever write the same log path.
    pub proof fn lemma_log_files_unique(language: Language)
        ensures
            forall|i: int, j: int|
                0 <= i < j < Hook::catalog(language).len()
                    ==> Hook::catalog(language)[i].file@ != Hook::catalog(language)[j].file@,
    {
        broadcast use vstd::string::group_string_axioms;

        match language {
            Language::Maven => {
                reveal_strlit("audit.log");
                reveal_strlit("outdated.log");
                reveal_strlit("test.log");
                reveal_strlit("tree.log");
                assert("audit.log"@.len() == 9);
                assert("outdated.log"@.len() == 12);
                assert("test.log"@.len() == 8);
                assert("tree.log"@.len() == 8);
                assert(Hook::catalog(language)[0].file@ != Hook::catalog(language)[1].file@);
                assert("tree.log"@[1] != "test.log"@[1]);
                assert(Hook::catalog(language)[0].file@ != Hook::catalog(language)[2].file@);
                assert(Hook::catalog(language)[0].file@ != Hook::catalog(language)[3].file@);
                assert(Hook::catalog(language)[1].file@ != Hook::catalog(language)[2].file@);
                assert(Hook::catalog(language)[1].file@ != Hook::catalog(language)[3].file@);
                assert(Hook::catalog(language)[2].file@ != Hook::catalog(language)[3].file@);
            }
            Language::Gradle => {
                reveal_strlit("audit.log");
                reveal_strlit("outdated.log");
                reveal_strlit("test.log");
                assert("audit.log"@.len() == 9);
                assert("outdated.log"@.len() == 12);
                assert("test.log"@.len() == 8);
                assert(Hook::catalog(language)[0].file@ != Hook::catalog(language)[1].file@);
                assert(Hook::catalog(language)[0].file@ != Hook::catalog(language)[2].file@);
                assert(Hook::catalog(language)[1].file@ != Hook::catalog(language)[2].file@);
            }
            Language::Node => {
                reveal_strlit("audit.log");
                reveal_strlit("outdated.log");
                reveal_strlit("test.log");
                assert("audit.log"@.len() == 9);
                assert("outdated.log"@.len() == 12);
                assert("test.log"@.len() == 8);
                assert(Hook::catalog(language)[0].file@ != Hook::catalog(language)[1].file@);
                assert(Hook::catalog(language)[0].file@ != Hook::catalog(language)[2].file@);
                assert(Hook::catalog(language)[1].file@ != Hook::catalog(language)[2].file@);
            }
            Language::Rust => {
                reveal_strlit("audit.log");
                reveal_strlit("check.log");
                reveal_strlit("clippy.log");
                reveal_strlit("doc.log");
                reveal_strlit("fmt.log");
                reveal_strlit("outdated.log");
                reveal_strlit("project.log");
                reveal_strlit("test.log");
                assert("audit.log"@.len() == 9);
                assert("check.log"@.len() == 9);
                assert("clippy.log"@.len() == 10);
                assert("doc.log"@.len() == 7);
                assert("fmt.log"@.len() == 7);
                assert("outdated.log"@.len() == 12);
                assert("project.log"@.len() == 11);
                assert("test.log"@.len() == 8);
                assert(Hook::catalog(language)[0].file@ != Hook::catalog(language)[1].file@);
                assert(Hook::catalog(language)[0].file@ != Hook::catalog(language)[2].file@);
                assert(Hook::catalog(language)[0].file@ != Hook::catalog(language)[3].file@);
                assert(Hook::catalog(language)[0].file@ != Hook::catalog(language)[4].file@);
                assert(Hook::catalog(language)[0].file@ != Hook::catalog(language)[5].file@);
                assert(Hook::catalog(language)[0].file@ != Hook::catalog(language)[6].file@);
                assert(Hook::catalog(language)[0].file@ != Hook::catalog(language)[7].file@);
                assert("check.log"@[0] != "audit.log"@[0]);
                assert(Hook::catalog(language)[1].file@ != Hook::catalog(language)[2].file@);
                assert(Hook::catalog(language)[1].file@ != Hook::catalog(language)[3].file@);
                assert(Hook::catalog(language)[1].file@ != Hook::catalog(language)[4].file@);
                assert(Hook::catalog(language)[1].file@ != Hook::catalog(language)[5].file@);
                assert(Hook::catalog(language)[1].file@ != Hook::catalog(language)[6].file@);
                assert(Hook::catalog(language)[1].file@ != Hook::catalog(language)[7].file@);
                assert(Hook::catalog(language)[2].file@ != Hook::catalog(language)[3].file@);
                assert(Hook::catalog(language)[2].file@ != Hook::catalog(language)[4].file@);
                assert(Hook::catalog(language)[2].file@ != Hook::catalog(language)[5].file@);
                assert(Hook::catalog(language)[2].file@ != Hook::catalog(language)[6].file@);
                assert(Hook::catalog(language)[2].file@ != Hook::catalog(language)[7].file@);
                assert(Hook::catalog(language)[3].file@ != Hook::catalog(language)[4].file@);
                assert(Hook::catalog(language)[3].file@ != Hook::catalog(language)[5].file@);
                assert("fmt.log"@[0] != "doc.log"@[0]);
                assert(Hook::catalog(language)[3].file@ != Hook::catalog(language)[6].file@);
                assert(Hook::catalog(language)[3].file@ != Hook::catalog(language)[7].file@);
                assert(Hook::catalog(language)[4].file@ != Hook::catalog(language)[5].file@);
                assert(Hook::catalog(language)[4].file@ != Hook::catalog(language)[6].file@);
                assert(Hook::catalog(language)[4].file@ != Hook::catalog(language)[7].file@);
                assert(Hook::catalog(language)[5].file@ != Hook::catalog(language)[6].file@);
                assert(Hook::catalog(language)[5].file@ != Hook::catalog(language)[7].file@);
                assert(Hook::catalog(language)[6].file@ != Hook::catalog(language)[7].file@);
            }
            Language::Java => {
                reveal_strlit("outdated.log");
                assert("outdated.log"@.len() == 12);
            }
            Language::Python => {
                reveal_strlit("audit.log");
                reveal_strlit("outdated.log");
                assert("audit.log"@.len() == 9);
                assert("outdated.log"@.len() == 12);
                assert(Hook::catalog(language)[0].file@ != Hook::catalog(language)[1].file@);
            }
            Language::Go => {
                reveal_strlit("audit.log");
                reveal_strlit("outdated.log");
                reveal_strlit("test.log");
                assert("audit.log"@.len() == 9);
                assert("outdated.log"@.len() == 12);
                assert("test.log"@.len() == 8);
                assert(Hook::catalog(language)[0].file@ != Hook::catalog(language)[1].file@);
                assert(Hook::catalog(language)[0].file@ != Hook::catalog(language)[2].file@);
                assert(Hook::catalog(language)[1].file@ != Hook::catalog(language)[2].file@);
            }
            Language::Php => {
                reveal_strlit("audit.log");
                reveal_strlit("outdated.log");
                reveal_strlit("reqs.log");
                reveal_strlit("test.log");
                assert("audit.log"@.len() == 9);
                assert("outdated.log"@.len() == 12);
                assert("reqs.log"@.len() == 8);
                assert("test.log"@.len() == 8);
                assert(Hook::catalog(language)[0].file@ != Hook::catalog(language)[1].file@);
                assert(Hook::catalog(language)[0].file@ != Hook::catalog(language)[2].file@);
                assert("reqs.log"@[0] != "test.log"@[0]);
                assert(Hook::catalog(language)[0].file@ != Hook::catalog(language)[3].file@);
                assert(Hook::catalog(language)[1].file@ != Hook::catalog(language)[2].file@);
                assert(Hook::catalog(language)[1].file@ != Hook::catalog(language)[3].file@);
                assert(Hook::catalog(language)[2].file@ != Hook::catalog(language)[3].file@);
            }
            Language::Ruby => {
                reveal_strlit("audit.log");
                reveal_strlit("outdated.log");
                reveal_strlit("test.log");
                assert("audit.log"@.len() == 9);
                assert("outdated.log"@.len() == 12);
                assert("test.log"@.len() == 8);
                assert(Hook::catalog(language)[0].file@ != Hook::catalog(language)[1].file@);
                assert(Hook::catalog(language)[0].file@ != Hook::catalog(language)[2].file@);
                assert(Hook::catalog(language)[1].file@ != Hook::catalog(language)[2].file@);
            }
            Language::CMake => {
                reveal_strlit("cmake.log");
                reveal_strlit("make.log");
                reveal_strlit("test.log");
                assert("cmake.log"@.len() == 9);
                assert("make.log"@.len() == 8);
                assert("test.log"@.len() == 8);
                assert(Hook::catalog(language)[0].file@ != Hook::catalog(language)[1].file@);
                assert(Hook::catalog(language)[0].file@ != Hook::catalog(language)[2].file@);
                assert("make.log"@[0] != "test.log"@[0]);
                assert(Hook::catalog(language)[1].file@ != Hook::catalog(language)[2].file@);
            }
            Language::CSharp => {
                reveal_strlit("audit.log");
                reveal_strlit("build.log");
                reveal_strlit("deps.log");
                reveal_strlit("format.log");
                reveal_strlit("test.log");
                assert("audit.log"@.len() == 9);
                assert("build.log"@.len() == 9);
                assert("deps.log"@.len() == 8);
                assert("format.log"@.len() == 10);
                assert("test.log"@.len() == 8);
                assert(Hook::catalog(language)[0].file@ != Hook::catalog(language)[1].file@);
                assert(Hook::catalog(language)[0].file@ != Hook::catalog(language)[2].file@);
                assert(Hook::catalog(language)[0].file@ != Hook::catalog(language)[3].file@);
                assert(Hook::catalog(language)[0].file@ != Hook::catalog(language)[4].file@);
                assert(Hook::catalog(language)[1].file@ != Hook::catalog(language)[2].file@);
                assert("test.log"@[0] != "deps.log"@[0]);
                assert(Hook::catalog(language)[1].file@ != Hook::catalog(language)[3].file@);
                assert(Hook::catalog(language)[1].file@ != Hook::catalog(language)[4].file@);
                assert(Hook::catalog(language)[2].file@ != Hook::catalog(language)[3].file@);
                assert("build.log"@[0] != "audit.log"@[0]);
                assert(Hook::catalog(language)[2].file@ != Hook::catalog(language)[4].file@);
                assert(Hook::catalog(language)[3].file@ != Hook::catalog(language)[4].file@);
            }
            Language::Kotlin => {
                reveal_strlit("format.log");
                reveal_strlit("test.log");
                assert("format.log"@.len() == 10);
                assert("test.log"@.len() == 8);
                assert(Hook::catalog(language)[0].file@ != Hook::catalog(language)[1].file@);
            }
            Language::Swift => {
                reveal_strlit("audit.log");
                reveal_strlit("build.log");
                reveal_strlit("format.log");
                reveal_strlit("integration.log");
                reveal_strlit("test.log");
                assert("audit.log"@.len() == 9);
                assert("build.log"@.len() == 9);
                assert("format.log"@.len() == 10);
                assert("integration.log"@.len() == 15);
                assert("test.log"@.len() == 8);
                assert(Hook::catalog(language)[0].file@ != Hook::catalog(language)[1].file@);
                assert(Hook::catalog(language)[0].file@ != Hook::catalog(language)[2].file@);
                assert(Hook::catalog(language)[0].file@ != Hook::catalog(language)[3].file@);
                assert(Hook::catalog(language)[0].file@ != Hook::catalog(language)[4].file@);
                assert(Hook::catalog(language)[1].file@ != Hook::catalog(language)[2].file@);
                assert(Hook::catalog(language)[1].file@ != Hook::catalog(language)[3].file@);
                assert(Hook::catalog(language)[1].file@ != Hook::catalog(language)[4].file@);
                assert("audit.log"@[0] != "build.log"@[0]);
                assert(Hook::catalog(language)[2].file@ != Hook::catalog(language)[3].file@);
                assert(Hook::catalog(language)[2].file@ != Hook::catalog(language)[4].file@);
                assert(Hook::catalog(language)[3].file@ != Hook::catalog(language)[4].file@);
            }
            Language::Dart => {
                reveal_strlit("audit.log");
                reveal_strlit("build.log");
                reveal_strlit("format.log");
                reveal_strlit("integration.log");
                reveal_strlit("test.log");
                assert("audit.log"@.len() == 9);
                assert("build.log"@.len() == 9);
                assert("format.log"@.len() == 10);
                assert("integration.log"@.len() == 15);
                assert("test.log"@.len() == 8);
                assert(Hook::catalog(language)[0].file@ != Hook::catalog(language)[1].file@);
                assert(Hook::catalog(language)[0].file@ != Hook::catalog(language)[2].file@);
                assert(Hook::catalog(language)[0].file@ != Hook::catalog(language)[3].file@);
                assert(Hook::catalog(language)[0].file@ != Hook::catalog(language)[4].file@);
                assert(Hook::catalog(language)[1].file@ != Hook::catalog(language)[2].file@);
                assert(Hook::catalog(language)[1].file@ != Hook::catalog(language)[3].file@);
                assert(Hook::catalog(language)[1].file@ != Hook::catalog(language)[4].file@);
                assert(Hook::catalog(language)[2].file@ != Hook::catalog(language)[3].file@);
                assert(Hook::catalog(language)[2].file@ != Hook::catalog(language)[4].file@);
                assert("audit.log"@[0] != "build.log"@[0]);
                assert(Hook::catalog(language)[3].file@ != Hook::catalog(language)[4].file@);
            }
            Language::Elixir => {
                reveal_strlit("audit.log");
                reveal_strlit("build.log");
                reveal_strlit("format.log");
                reveal_strlit("integration.log");
                reveal_strlit("test.log");
                assert("audit.log"@.len() == 9);
                assert("build.log"@.len() == 9);
                assert("format.log"@.len() == 10);
                assert("integration.log"@.len() == 15);
                assert("test.log"@.len() == 8);
                assert(Hook::catalog(language)[0].file@ != Hook::catalog(language)[1].file@);
                assert(Hook::catalog(language)[0].file@ != Hook::catalog(language)[2].file@);
                assert(Hook::catalog(language)[0].file@ != Hook::catalog(language)[3].file@);
                assert(Hook::catalog(language)[0].file@ != Hook::catalog(language)[4].file@);
                assert(Hook::catalog(language)[1].file@ != Hook::catalog(language)[2].file@);
                assert(Hook::catalog(language)[1].file@ != Hook::catalog(language)[3].file@);
                assert(Hook::catalog(language)[1].file@ != Hook::catalog(language)[4].file@);
                assert(Hook::catalog(language)[2].file@ != Hook::catalog(language)[3].file@);
                assert(Hook::catalog(language)[2].file@ != Hook::catalog(language)[4].file@);
                assert("audit.log"@[0] != "build.log"@[0]);
                assert(Hook::catalog(language)[3].file@ != Hook::catalog(language)[4].file@);
            }
        }
    }
}


/// A marker pattern: either an exact file name in the project root, or a
/// glob over the names in the project root.
#[derive(Clone, Copy, Debug)]
pub enum MarkerPattern {
    Exact(&'static str),
    Glob(&'static str),
}

/// One detection rule: a pattern whose presence signals a language.
#[derive(Clone, Copy, Debug)]
pub struct MarkerRule {
    pub language: Language,
    pub pattern: MarkerPattern,
}

/// The detection registry, in first-match order; several rules may map to
/// the same language.
pub open spec fn registry() -> Seq<MarkerRule> {
    seq![
        MarkerRule { language: Language::Rust, pattern: MarkerPattern::Exact("Cargo.toml") },
        MarkerRule { language: Language::CSharp, pattern: MarkerPattern::Glob("*.csproj") },
        MarkerRule { language: Language::Java, pattern: MarkerPattern::Exact("pom.xml") },
        MarkerRule { language: Language::Go, pattern: MarkerPattern::Exact("go.mod") },
        MarkerRule { language: Language::Ruby, pattern: MarkerPattern::Exact("Gemfile") },
        MarkerRule { language: Language::Dart, pattern: MarkerPattern::Exact("pubspec.yaml") },
        MarkerRule { language: Language::Kotlin, pattern: MarkerPattern::Exact("build.gradle.kts") },
        MarkerRule { language: Language::Swift, pattern: MarkerPattern::Exact("Package.swift") },
        MarkerRule { language: Language::Php, pattern: MarkerPattern::Exact("composer.json") },
        MarkerRule { language: Language::Node, pattern: MarkerPattern::Exact("package.json") },
        MarkerRule { language: Language::CMake, pattern: MarkerPattern::Exact("CMakeLists.txt") },
        MarkerRule { language: Language::Elixir, pattern: MarkerPattern::Exact("mix.exs") },
        MarkerRule { language: Language::Gradle, pattern: MarkerPattern::Exact("build.gradle") },
        MarkerRule { language: Language::Python, pattern: MarkerPattern::Exact("requirements.txt") },
    ]
}

/// The detection rules as a vector, in registry order.
pub fn detection_rules() -> (rules: Vec<MarkerRule>)
    ensures
        rules@ == registry(),
{
    let mut rules: Vec<MarkerRule> = Vec::new();
    rules.push(MarkerRule { language: Language::Rust, pattern: MarkerPattern::Exact("Cargo.toml") });
    rules.push(MarkerRule { language: Language::CSharp, pattern: MarkerPattern::Glob("*.csproj") });
    rules.push(MarkerRule { language: Language::Java, pattern: MarkerPattern::Exact("pom.xml") });
    rules.push(MarkerRule { language: Language::Go, pattern: MarkerPattern::Exact("go.mod") });
    rules.push(MarkerRule { language: Language::Ruby, pattern: MarkerPattern::Exact("Gemfile") });
    rules.push(MarkerRule { language: Language::Dart, pattern: MarkerPattern::Exact("pubspec.yaml") });
    rules.push(MarkerRule { language: Language::Kotlin, pattern: MarkerPattern::Exact("build.gradle.kts") });
    rules.push(MarkerRule { language: Language::Swift, pattern: MarkerPattern::Exact("Package.swift") });
    rules.push(MarkerRule { language: Language::Php, pattern: MarkerPattern::Exact("composer.json") });
    rules.push(MarkerRule { language: Language::Node, pattern: MarkerPattern::Exact("package.json") });
    rules.push(MarkerRule { language: Language::CMake, pattern: MarkerPattern::Exact("CMakeLists.txt") });
    rules.push(MarkerRule { language: Language::Elixir, pattern: MarkerPattern::Exact("mix.exs") });
    rules.push(MarkerRule { language: Language::Gradle, pattern: MarkerPattern::Exact("build.gradle") });
    rules.push(MarkerRule { language: Language::Python, pattern: MarkerPattern::Exact("requirements.txt") });
    proof {
        assert(rules@ =~= registry());
    }
    rules
}

/// Whether the glob pattern matches the whole name; `*` matches any
/// (possibly empty) run of characters and `?` matches one character.
pub open spec fn glob_match(p: Seq<char>, s: Seq<char>) -> bool
    decreases p.len(), s.len(),
{
    if p.len() == 0 {
        s.len() == 0
    } else if p[0] == '*' {
        glob_match(p.skip(1), s) || (s.len() > 0 && glob_match(p, s.skip(1)))
    } else {
        s.len() > 0 && (p[0] == '?' || p[0] == s[0]) && glob_match(p.skip(1), s.skip(1))
    }
}

fn glob_match_from(p: &str, plen: usize, s: &str, slen: usize, i: usize, j: usize) -> (r: bool)
    requires
        plen == p@.len(),
        slen == s@.len(),
        i <= plen,
        j <= slen,
    ensures
        r == glob_match(p@.skip(i as int), s@.skip(j as int)),
    decreases plen - i, slen - j,
{
    if i == plen {
        proof {
            assert(p@.skip(i as int) =~= Seq::<char>::empty());
        }
        j == slen
    } else {
        let c = p.get_char(i);
        proof {
            assert(p@.skip(i as int)[0] == p@[i as int]);
            assert(p@.skip(i as int).skip(1) =~= p@.skip(i as int + 1));
        }
        if c == '*' {
            if glob_match_from(p, plen, s, slen, i + 1, j) {
                true
            } else if j < slen {
                proof {
                    assert(s@.skip(j as int).skip(1) =~= s@.skip(j as int + 1));
                }
                glob_match_from(p, plen, s, slen, i, j + 1)
            } else {
                false
            }
        } else {
            if j == slen {
                false
            } else {
                let d = s.get_char(j);
                proof {
                    assert(s@.skip(j as int)[0] == s@[j as int]);
                    assert(s@.skip(j as int).skip(1) =~= s@.skip(j as int + 1));
                }
                if c == '?' || c == d {
                    glob_match_from(p, plen, s, slen, i + 1, j + 1)
                } else {
                    false
                }
            }
        }
    }
}

/// Whether the glob pattern matches the whole file name.
pub fn glob_matches(pattern: &str, name: &str) -> (r: bool)
    ensures
        r == glob_match(pattern@, name@),
{
    let plen = pattern.unicode_len();
    let slen = name.unicode_len();
    let r = glob_match_from(pattern, plen, name, slen, 0, 0);
    proof {
        assert(pattern@.skip(0) =~= pattern@);
        assert(name@.skip(0) =~= name@);
    }
    r
}

/// Whether one detection rule matches the given file name.
pub open spec fn rule_matches(rule: MarkerRule, name: Seq<char>) -> bool {
    match rule.pattern {
        MarkerPattern::Exact(p) => name == p@,
        MarkerPattern::Glob(p) => glob_match(p@, name),
    }
}

/// Whether a rule matches at least one of the names in the project root.
pub open spec fn rule_hits(rule: MarkerRule, names: Seq<Seq<char>>) -> bool {
    exists|k: int| 0 <= k < names.len() && rule_matches(rule, names[k])
}

fn entry_matches(rule: &MarkerRule, name: &str) -> (r: bool)
    ensures
        r == rule_matches(*rule, name@),
{
    match rule.pattern {
        MarkerPattern::Exact(p) => str_eq(name, p),
        MarkerPattern::Glob(p) => glob_matches(p, name),
    }
}

fn any_entry_matches(rule: &MarkerRule, entries: &Vec<String>) -> (r: bool)
    ensures
        r == rule_hits(*rule, entries.deep_view()),
{
    let ghost names = entries.deep_view();
    let mut k: usize = 0;
    while k < entries.len()
        invariant
            k <= entries.len(),
            names == entries.deep_view(),
            names.len() == entries@.len(),
            forall|m: int| 0 <= m < k ==> !rule_matches(*rule, names[m]),
        decreases entries.len() - k,
    {
        proof {
            assert(names[k as int] == entries@[k as int]@);
        }
        if entry_matches(rule, entries[k].as_str()) {
            return true;
        }
        k = k + 1;
    }
    false
}

fn contains_language(langs: &Vec<Language>, language: Language) -> (r: bool)
    ensures
        r == langs@.contains(language),
{
    let mut k: usize = 0;
    while k < langs.len()
        invariant
            k <= langs.len(),
            forall|m: int| 0 <= m < k ==> langs@[m] != language,
        decreases langs.len() - k,
    {
        if langs[k] == language {
            return true;
        }
        k = k + 1;
    }
    false
}

/// The languages detected from a project-root listing: for each registry
/// rule in order, its language is appended when the rule matches some name
/// and the language is not present yet.
pub open spec fn detect_rec(rules: Seq<MarkerRule>, names: Seq<Seq<char>>) -> Seq<Language>
    decreases rules.len(),
{
    if rules.len() == 0 {
        Seq::empty()
    } else {
        let prev = detect_rec(rules.drop_last(), names);
        let rule = rules.last();
        if rule_hits(rule, names) && !prev.contains(rule.language) {
            prev.push(rule.language)
        } else {
            prev
        }
    }
}

pub open spec fn detect_spec(names: Seq<Seq<char>>) -> Seq<Language> {
    detect_rec(registry(), names)
}

/// Scans a project-root listing against the registry, in registry order,
/// producing the detected languages without duplicates.
pub fn detect(entries: &Vec<String>) -> (langs: Vec<Language>)
    ensures
        langs@ == detect_spec(entries.deep_view()),
{
    let ghost names = entries.deep_view();
    let rules = detection_rules();
    let mut langs: Vec<Language> = Vec::new();
    let mut idx: usize = 0;
    while idx < rules.len()
        invariant
            idx <= rules.len(),
            rules@ == registry(),
            names == entries.deep_view(),
            langs@ == detect_rec(registry().take(idx as int), names),
        decreases rules.len() - idx,
    {
        let rule = rules[idx];
        let hit = any_entry_matches(&rule, entries);
        let dup = contains_language(&langs, rule.language);
        if hit && !dup {
            langs.push(rule.language);
        }
        proof {
            assert(registry().take(idx as int + 1).drop_last() =~= registry().take(idx as int));
            assert(registry().take(idx as int + 1).last() == registry()[idx as int]);
        }
        idx = idx + 1;
    }
    proof {
        assert(registry().take(rules@.len() as int) =~= registry());
    }
    langs
}

proof fn lemma_detect_rec_no_duplicates(rules: Seq<MarkerRule>, names: Seq<Seq<char>>)
    ensures
        forall|i: int, j: int|
            0 <= i < j < detect_rec(rules, names).len()
                ==> detect_rec(rules, names)[i] != detect_rec(rules, names)[j],
    decreases rules.len(),
{
    if rules.len() == 0 {
    } else {
        let prev = detect_rec(rules.drop_last(), names);
        let r = detect_rec(rules, names);
        lemma_detect_rec_no_duplicates(rules.drop_last(), names);
        if r != prev {
            let lang = rules.last().language;
            assert(r == prev.push(lang));
            assert(!prev.contains(lang));
            assert forall|i: int, j: int| 0 <= i < j < r.len() implies r[i] != r[j] by {
                if j == r.len() - 1 {
                    assert(r[i] == prev[i]);
                    if prev[i] == lang {
                        assert(prev.contains(lang));
                    }
                } else {
                    assert(r[i] == prev[i]);
                    assert(r[j] == prev[j]);
                }
            }
        }
    }
}

/// However many rules match the same language, a language appears at most
/// once in the detected sequence.
pub proof fn lemma_detect_no_duplicates(names: Seq<Seq<char>>)
    ensures
        forall|i: int, j: int|
            0 <= i < j < detect_spec(names).len()
                ==> detect_spec(names)[i] != detect_spec(names)[j],
{
    lemma_detect_rec_no_duplicates(registry(), names);
}


proof fn lemma_detect_rec_complete(rules: Seq<MarkerRule>, names: Seq<Seq<char>>)
    ensures
        forall|i: int|
            0 <= i < rules.len() && rule_hits(#[trigger] rules[i], names) ==> detect_rec(
                rules,
                names,
            ).contains(rules[i].language),
    decreases rules.len(),
{
    if rules.len() > 0 {
        let prev = detect_rec(rules.drop_last(), names);
        let r = detect_rec(rules, names);
        lemma_detect_rec_complete(rules.drop_last(), names);
        assert forall|i: int|
            0 <= i < rules.len() && rule_hits(#[trigger] rules[i], names) implies r.contains(
            rules[i].language,
        ) by {
            if i < rules.len() - 1 {
                assert(rules.drop_last()[i] == rules[i]);
                assert(prev.contains(rules[i].language));
                let w = choose|w: int| 0 <= w < prev.len() && prev[w] == rules[i].language;
                assert(r[w] == rules[i].language);
            } else {
                if prev.contains(rules[i].language) {
                    let w = choose|w: int| 0 <= w < prev.len() && prev[w] == rules[i].language;
                    assert(r[w] == rules[i].language);
                } else {
                    assert(r == prev.push(rules[i].language));
                    assert(r[r.len() - 1] == rules[i].language);
                }
            }
        }
    }
}

proof fn lemma_detect_rec_sound(rules: Seq<MarkerRule>, names: Seq<Seq<char>>)
    ensures
        forall|l: Language|
            detect_rec(rules, names).contains(l) ==> exists|i: int|
                0 <= i < rules.len() && #[trigger] rules[i].language == l && rule_hits(
                    rules[i],
                    names,
                ),
    decreases rules.len(),
{
    if rules.len() > 0 {
        let prev = detect_rec(rules.drop_last(), names);
        let r = detect_rec(rules, names);
        lemma_detect_rec_sound(rules.drop_last(), names);
        assert forall|l: Language| r.contains(l) implies exists|i: int|
            0 <= i < rules.len() && #[trigger] rules[i].language == l && rule_hits(
                rules[i],
                names,
            ) by {
            let w = choose|w: int| 0 <= w < r.len() && r[w] == l;
            if w < prev.len() {
                assert(prev[w] == l);
                assert(prev.contains(l));
                let i = choose|i: int|
                    0 <= i < rules.drop_last().len() && #[trigger] rules.drop_last()[i].language
                        == l && rule_hits(rules.drop_last()[i], names);
                assert(rules[i] == rules.drop_last()[i]);
                assert(rules[i].language == l && rule_hits(rules[i], names));
            } else {
                assert(r[w] == rules.last().language);
                assert(rules[rules.len() - 1].language == l && rule_hits(
                    rules[rules.len() - 1],
                    names,
                ));
            }
        }
    }
}

/// A language is detected exactly when some registry rule for it matches
/// one of the names in the project root.
pub proof fn lemma_detect_iff_rule_hits(names: Seq<Seq<char>>, l: Language)
    ensures
        detect_spec(names).contains(l) == exists|i: int|
            0 <= i < registry().len() && #[trigger] registry()[i].language == l && rule_hits(
                registry()[i],
                names,
            ),
{
    lemma_detect_rec_complete(registry(), names);
    lemma_detect_rec_sound(registry(), names);
    if exists|i: int|
        0 <= i < registry().len() && #[trigger] registry()[i].language == l && rule_hits(
            registry()[i],
            names,
        ) {
        let i = choose|i: int|
            0 <= i < registry().len() && #[trigger] registry()[i].language == l && rule_hits(
                registry()[i],
                names,
            );
        assert(rule_hits(registry()[i], names));
        assert(detect_spec(names).contains(registry()[i].language));
    }
}

/// What actually happened when one hook's command ran: the process exit
/// code (`None` when the process could not be spawned or was killed by a
/// signal) and the elapsed wall-clock time in milliseconds.
#[derive(Clone, Copy, Debug)]
pub struct HookExecution {
    pub exit_code: Option<i32>,
    pub duration_millis: u64,
}

/// A hook succeeded exactly when its process exited with code zero.
pub open spec fn execution_succeeded(e: HookExecution) -> bool {
    e.exit_code == Some(0i32)
}

/// The stdout log path of one hook under the fixed state directory.
pub open spec fn stdout_path_spec(language: Language, file: Seq<char>) -> Seq<char> {
    ".breathes/"@ + Language::name_spec(language) + "/stdout/"@ + file
}

/// The stderr log path of one hook under the fixed state directory.
pub open spec fn stderr_path_spec(language: Language, file: Seq<char>) -> Seq<char> {
    ".breathes/"@ + Language::name_spec(language) + "/stderr/"@ + file
}

/// The stdout and stderr log paths of one hook:
/// `.breathes/<Language>/stdout/<file>` and `.breathes/<Language>/stderr/<file>`.
pub fn log_paths(language: Language, file: &str) -> (r: (String, String))
    ensures
        r.0@ == stdout_path_spec(language, file@),
        r.1@ == stderr_path_spec(language, file@),
{
    let name = language.name();
    let out = String::from_str(".breathes/").concat(name).concat("/stdout/").concat(file);
    let err = String::from_str(".breathes/").concat(name).concat("/stderr/").concat(file);
    proof {
        assert(out@ =~= stdout_path_spec(language, file@));
        assert(err@ =~= stderr_path_spec(language, file@));
    }
    (out, err)
}

/// The recorded result of one executed hook, with the log locations that
/// captured its output.
#[derive(Debug)]
pub struct HookOutcome {
    pub hook: Hook,
    pub succeeded: bool,
    pub duration_millis: u64,
    pub stdout_path: String,
    pub stderr_path: String,
}

impl HookOutcome {
    /// The outcome of one executed hook; success is exactly exit code
    /// zero, and a hook whose process could not be spawned is an ordinary
    /// failure, not an abort.
    pub fn new(hook: &Hook, execution: &HookExecution) -> (o: HookOutcome)
        ensures
            o.hook == *hook,
            o.succeeded == execution_succeeded(*execution),
            o.duration_millis == execution.duration_millis,
            o.stdout_path@ == stdout_path_spec(hook.language, hook.file@),
            o.stderr_path@ == stderr_path_spec(hook.language, hook.file@),
    {
        let (stdout_path, stderr_path) = log_paths(hook.language, hook.file);
        let succeeded = match execution.exit_code {
            Some(code) => code == 0,
            None => false,
        };
        HookOutcome {
            hook: *hook,
            succeeded,
            duration_millis: execution.duration_millis,
            stdout_path,
            stderr_path,
        }
    }
}

/// The aggregated verdict of one language: the AND of its hook outcomes
/// and the total elapsed time.
#[derive(Clone, Copy, PartialEq, Eq, Structural, Debug)]
pub struct LanguageOutcome {
    pub language: Language,
    pub succeeded: bool,
    pub total_millis: u64,
}

/// Every hook of the sequence exited with code zero.
pub open spec fn all_hooks_succeeded(execs: Seq<HookExecution>) -> bool {
    forall|i: int| 0 <= i < execs.len() ==> execution_succeeded(execs[i])
}

/// The sum of the durations, saturating at `u64::MAX`.
pub open spec fn total_duration(execs: Seq<HookExecution>) -> int
    decreases execs.len(),
{
    if execs.len() == 0 {
        0
    } else {
        let prev = total_duration(execs.drop_last());
        if prev + execs.last().duration_millis <= u64::MAX {
            prev + execs.last().duration_millis
        } else {
            u64::MAX as int
        }
    }
}

proof fn lemma_total_duration_bounds(execs: Seq<HookExecution>)
    ensures
        0 <= total_duration(execs) <= u64::MAX,
    decreases execs.len(),
{
    if execs.len() > 0 {
        lemma_total_duration_bounds(execs.drop_last());
    }
}

/// The language outcome that a sequence of hook executions determines.
pub open spec fn verify_spec(language: Language, execs: Seq<HookExecution>) -> LanguageOutcome {
    LanguageOutcome {
        language,
        succeeded: all_hooks_succeeded(execs),
        total_millis: total_duration(execs) as u64,
    }
}

/// Aggregates one language's recorded hook executions, in order and
/// without skipping any: an outcome is recorded for every hook whether or
/// not an earlier hook failed, success is the AND over all of them, and
/// the total is the (saturating) sum of the durations.
pub fn verify(language: Language, hooks: &Vec<Hook>, executions: &Vec<HookExecution>) -> (r: (
    LanguageOutcome,
    Vec<HookOutcome>,
))
    requires
        executions@.len() == hooks@.len(),
    ensures
        r.0 == verify_spec(language, executions@),
        r.1@.len() == hooks@.len(),
        forall|i: int| 0 <= i < hooks@.len() ==> r.1@[i].hook == hooks@[i],
        forall|i: int|
            0 <= i < hooks@.len() ==> r.1@[i].succeeded == execution_succeeded(executions@[i]),
        forall|i: int|
            0 <= i < hooks@.len() ==> r.1@[i].duration_millis == executions@[i].duration_millis,
        forall|i: int|
            0 <= i < hooks@.len() ==> r.1@[i].stdout_path@ == stdout_path_spec(
                hooks@[i].language,
                hooks@[i].file@,
            ),
        forall|i: int|
            0 <= i < hooks@.len() ==> r.1@[i].stderr_path@ == stderr_path_spec(
                hooks@[i].language,
                hooks@[i].file@,
            ),
{
    let mut outcomes: Vec<HookOutcome> = Vec::new();
    let mut total: u64 = 0;
    let mut succeeded_all: bool = true;
    let mut k: usize = 0;
    while k < hooks.len()
        invariant
            k <= hooks@.len(),
            executions@.len() == hooks@.len(),
            outcomes@.len() == k,
            total as int == total_duration(executions@.take(k as int)),
            succeeded_all == (forall|i: int|
                0 <= i < k ==> execution_succeeded(executions@[i])),
            forall|i: int| 0 <= i < k ==> outcomes@[i].hook == hooks@[i],
            forall|i: int|
                0 <= i < k ==> outcomes@[i].succeeded == execution_succeeded(executions@[i]),
            forall|i: int|
                0 <= i < k ==> outcomes@[i].duration_millis == executions@[i].duration_millis,
            forall|i: int|
                0 <= i < k ==> outcomes@[i].stdout_path@ == stdout_path_spec(
                    hooks@[i].language,
                    hooks@[i].file@,
                ),
            forall|i: int|
                0 <= i < k ==> outcomes@[i].stderr_path@ == stderr_path_spec(
                    hooks@[i].language,
                    hooks@[i].file@,
                ),
        decreases hooks@.len() - k,
    {
        let hook = hooks[k];
        let execution = executions[k];
        let outcome = HookOutcome::new(&hook, &execution);
        succeeded_all = succeeded_all && outcome.succeeded;
        let millis = execution.duration_millis;
        if total <= u64::MAX - millis {
            total = total + millis;
        } else {
            total = u64::MAX;
        }
        outcomes.push(outcome);
        proof {
            assert(executions@.take(k as int + 1).drop_last() =~= executions@.take(k as int));
            assert(executions@.take(k as int + 1).last() == executions@[k as int]);
            lemma_total_duration_bounds(executions@.take(k as int));
        }
        k = k + 1;
    }
    proof {
        assert(executions@.take(hooks@.len() as int) =~= executions@);
    }
    (LanguageOutcome { language, succeeded: succeeded_all, total_millis: total }, outcomes)
}

/// The rows of a full run: one aggregated outcome per detected language,
/// in detection order.
pub open spec fn rows_spec(languages: Seq<Language>, executions: Seq<Vec<HookExecution>>) -> Seq<
    LanguageOutcome,
> {
    Seq::new(languages.len(), |i: int| verify_spec(languages[i], executions[i]@))
}

/// Every language row succeeded.
pub open spec fn rows_all_succeeded(rows: Seq<LanguageOutcome>) -> bool {
    forall|i: int| 0 <= i < rows.len() ==> rows[i].succeeded
}

/// The sum of the rows' totals, saturating at `u64::MAX`.
pub open spec fn rows_total(rows: Seq<LanguageOutcome>) -> int
    decreases rows.len(),
{
    if rows.len() == 0 {
        0
    } else {
        let prev = rows_total(rows.drop_last());
        if prev + rows.last().total_millis <= u64::MAX {
            prev + rows.last().total_millis
        } else {
            u64::MAX as int
        }
    }
}

proof fn lemma_rows_total_bounds(rows: Seq<LanguageOutcome>)
    ensures
        0 <= rows_total(rows) <= u64::MAX,
    decreases rows.len(),
{
    if rows.len() > 0 {
        lemma_rows_total_bounds(rows.drop_last());
    }
}

/// The per-language rows plus the synthesized aggregate row.
#[derive(Debug)]
pub struct Report {
    pub rows: Vec<LanguageOutcome>,
    pub all_succeeded: bool,
    pub total_millis: u64,
}

/// What a well-built report says about its rows: the aggregate verdict is
/// the AND over every row and the total is the (saturating) sum.
pub open spec fn report_matches(report: Report, rows: Seq<LanguageOutcome>) -> bool {
    &&& report.rows@ == rows
    &&& report.all_succeeded == rows_all_succeeded(rows)
    &&& report.total_millis == rows_total(rows) as u64
}

/// The engine's verdict when a run cannot succeed: either nothing was
/// detected (no hook ran), or some language failed (the report is carried
/// so the caller can display it).
#[derive(Debug)]
pub enum HooksError {
    NoLanguageDetected,
    AggregateFailure(Report),
}

/// Builds the report from the per-language rows: the rows in detection
/// order plus the aggregate row, which succeeds exactly when every row
/// succeeded.
pub fn build_report(rows: Vec<LanguageOutcome>) -> (report: Report)
    ensures
        report_matches(report, rows@),
{
    let mut all_succeeded: bool = true;
    let mut total: u64 = 0;
    let mut k: usize = 0;
    while k < rows.len()
        invariant
            k <= rows@.len(),
            total as int == rows_total(rows@.take(k as int)),
            all_succeeded == (forall|i: int| 0 <= i < k ==> rows@[i].succeeded),
        decreases rows@.len() - k,
    {
        all_succeeded = all_succeeded && rows[k].succeeded;
        let millis = rows[k].total_millis;
        if total <= u64::MAX - millis {
            total = total + millis;
        } else {
            total = u64::MAX;
        }
        proof {
            assert(rows@.take(k as int + 1).drop_last() =~= rows@.take(k as int));
            assert(rows@.take(k as int + 1).last() == rows@[k as int]);
            lemma_rows_total_bounds(rows@.take(k as int));
        }
        k = k + 1;
    }
    proof {
        assert(rows@.take(rows@.len() as int) =~= rows@);
    }
    Report { rows, all_succeeded, total_millis: total }
}

/// One full engine run over the recorded executions: the decision core of
/// the orchestrator. An empty detection set is the terminal
/// `NoLanguageDetected` error; otherwise every language is aggregated in
/// order, and the run succeeds exactly when every language succeeded,
/// failing with `AggregateFailure` carrying the full report otherwise.
pub fn run_hooks(languages: &Vec<Language>, executions: &Vec<Vec<HookExecution>>) -> (r: Result<
    Report,
    HooksError,
>)
    requires
        executions@.len() == languages@.len(),
        forall|i: int|
            0 <= i < languages@.len() ==> (#[trigger] executions@[i])@.len() == Hook::catalog(
                languages@[i],
            ).len(),
    ensures
        (languages@.len() == 0) == (r == Err::<Report, HooksError>(
            HooksError::NoLanguageDetected,
        )),
        (r is Ok) == (languages@.len() > 0 && rows_all_succeeded(
            rows_spec(languages@, executions@),
        )),
        (r matches Ok(report) ==> report_matches(report, rows_spec(languages@, executions@))),
        (r matches Err(HooksError::AggregateFailure(report)) ==> report_matches(
            report,
            rows_spec(languages@, executions@),
        )),
{
    if languages.len() == 0 {
        return Err(HooksError::NoLanguageDetected);
    }
    let ghost target = rows_spec(languages@, executions@);
    let mut rows: Vec<LanguageOutcome> = Vec::new();
    let mut k: usize = 0;
    while k < languages.len()
        invariant
            k <= languages@.len(),
            executions@.len() == languages@.len(),
            forall|i: int|
                0 <= i < languages@.len() ==> (#[trigger] executions@[i])@.len() == Hook::catalog(
                    languages@[i],
                ).len(),
            target == rows_spec(languages@, executions@),
            rows@.len() == k,
            forall|i: int| 0 <= i < k ==> rows@[i] == target[i],
        decreases languages@.len() - k,
    {
        let language = languages[k];
        let hooks = Hook::get(language);
        let (row, _outcomes) = verify(language, &hooks, &executions[k]);
        rows.push(row);
        k = k + 1;
    }
    proof {
        assert(rows@ =~= target);
    }
    let report = build_report(rows);
    if report.all_succeeded {
        Ok(report)
    } else {
        Err(HooksError::AggregateFailure(report))
    }
}


/// Flipping any single language's row to failure flips the aggregate
/// verdict to failure, however the other rows came out.
pub proof fn lemma_flip_one_language(
    rows1: Seq<LanguageOutcome>,
    rows2: Seq<LanguageOutcome>,
    k: int,
)
    requires
        rows1.len() == rows2.len(),
        0 <= k < rows1.len(),
        forall|i: int| 0 <= i < rows1.len() && i != k ==> rows1[i] == rows2[i],
        rows1[k].succeeded,
        !rows2[k].succeeded,
        rows_all_succeeded(rows1),
    ensures
        !rows_all_succeeded(rows2),
{
}

/// The status column text of a row.
pub open spec fn status_text(succeeded: bool) -> Seq<char> {
    if succeeded {
        "Success"@
    } else {
        "Failure"@
    }
}

fn status_str(succeeded: bool) -> (r: &'static str)
    ensures
        r@ == status_text(succeeded),
{
    if succeeded {
        "Success"
    } else {
        "Failure"
    }
}

/// The elapsed column text of a row: the milliseconds in decimal.
pub open spec fn elapsed_text(millis: u64) -> Seq<char> {
    decimal_text(millis as int) + "ms"@
}

/// The table cells of the report: a header row, one row per language in
/// order, and the aggregate row.
pub open spec fn report_cells(report: Report) -> Seq<Seq<Seq<char>>> {
    seq![seq!["Language"@, "Status"@, "Elapsed"@]] + Seq::new(
        report.rows@.len(),
        |i: int|
            seq![
                Language::name_spec(report.rows@[i].language),
                status_text(report.rows@[i].succeeded),
                elapsed_text(report.rows@[i].total_millis),
            ],
    ) + seq![seq!["All"@, status_text(report.all_succeeded), elapsed_text(report.total_millis)]]
}

/// The rendered table of some cell texts; what the text looks like is the
/// table crate's concern, but it is a function of the cells alone.
pub uninterp spec fn table_text(cells: Seq<Seq<Seq<char>>>) -> Seq<char>;

/// Relies on tabled's `Builder`: `From<Vec<Vec<String>>>` records the rows
/// in order and `build` renders them with the default style, so the output
/// is a function of the cell texts alone.
#[verifier::external_body]
fn render_table(cells: &Vec<Vec<String>>) -> (r: String)
    ensures
        r@ == table_text(cells.deep_view()),
{
    let builder = tabled::builder::Builder::from(cells.clone());
    format!("{}", builder.build())
}

fn outcome_cells(outcome: &LanguageOutcome) -> (row: Vec<String>)
    ensures
        row.deep_view() =~= seq![
            Language::name_spec(outcome.language),
            status_text(outcome.succeeded),
            elapsed_text(outcome.total_millis),
        ],
{
    let mut row: Vec<String> = Vec::new();
    row.push(String::from_str(outcome.language.name()));
    row.push(String::from_str(status_str(outcome.succeeded)));
    row.push(u64_string(outcome.total_millis).concat("ms"));
    row
}

proof fn lemma_report_cells_index(report: Report)
    ensures
        report_cells(report).len() == report.rows@.len() + 2,
        report_cells(report)[0] == seq!["Language"@, "Status"@, "Elapsed"@],
        forall|i: int|
            0 <= i < report.rows@.len() ==> #[trigger] report_cells(report)[i + 1] == seq![
                Language::name_spec(report.rows@[i].language),
                status_text(report.rows@[i].succeeded),
                elapsed_text(report.rows@[i].total_millis),
            ],
        report_cells(report)[report.rows@.len() as int + 1] == seq![
            "All"@,
            status_text(report.all_succeeded),
            elapsed_text(report.total_millis),
        ],
{
    let rows = report.rows@;
    let hdr = seq![seq!["Language"@, "Status"@, "Elapsed"@]];
    let mid = Seq::new(
        rows.len(),
        |i: int|
            seq![
                Language::name_spec(rows[i].language),
                status_text(rows[i].succeeded),
                elapsed_text(rows[i].total_millis),
            ],
    );
    let tl = seq![seq!["All"@, status_text(report.all_succeeded), elapsed_text(report.total_millis)]];
    assert(report_cells(report) == hdr + mid + tl);
    assert((hdr + mid + tl)[0] == (hdr + mid)[0]);
    assert((hdr + mid)[0] == hdr[0]);
    assert forall|i: int| 0 <= i < rows.len() implies #[trigger] (hdr + mid + tl)[i + 1] == mid[i] by {
        assert((hdr + mid + tl)[i + 1] == (hdr + mid)[i + 1]);
        assert((hdr + mid)[i + 1] == mid[i]);
    }
    assert((hdr + mid + tl)[rows.len() as int + 1] == tl[0]);
}

/// Renders the report as the console table `Language | Status | Elapsed`,
/// one row per language in order, then the `All` aggregate row.
pub fn render_report(report: &Report) -> (s: String)
    ensures
        s@ == table_text(report_cells(*report)),
{
    let ghost target = report_cells(*report);
    proof {
        lemma_report_cells_index(*report);
    }
    let mut cells: Vec<Vec<String>> = Vec::new();
    let mut header: Vec<String> = Vec::new();
    header.push(String::from_str("Language"));
    header.push(String::from_str("Status"));
    header.push(String::from_str("Elapsed"));
    proof {
        assert(header.deep_view() =~= seq!["Language"@, "Status"@, "Elapsed"@]);
    }
    cells.push(header);
    proof {
        assert(cells.deep_view() =~~= target.take(1));
    }
    let mut k: usize = 0;
    while k < report.rows.len()
        invariant
            k <= report.rows@.len(),
            target == report_cells(*report),
            target.len() == report.rows@.len() + 2,
            forall|i: int|
                0 <= i < report.rows@.len() ==> #[trigger] target[i + 1] == seq![
                    Language::name_spec(report.rows@[i].language),
                    status_text(report.rows@[i].succeeded),
                    elapsed_text(report.rows@[i].total_millis),
                ],
            cells@.len() == k + 1,
            cells.deep_view() == target.take(k as int + 1),
        decreases report.rows@.len() - k,
    {
        let row = outcome_cells(&report.rows[k]);
        let ghost prev = cells@;
        cells.push(row);
        proof {
            assert(cells@ == prev.push(row));
            assert(row.deep_view() == target[k as int + 1]);
            assert(cells.deep_view() =~~= target.take(k as int + 2));
        }
        k = k + 1;
    }
    let mut last: Vec<String> = Vec::new();
    last.push(String::from_str("All"));
    last.push(String::from_str(status_str(report.all_succeeded)));
    last.push(u64_string(report.total_millis).concat("ms"));
    proof {
        assert(last.deep_view() =~= seq![
            "All"@,
            status_text(report.all_succeeded),
            elapsed_text(report.total_millis),
        ]);
    }
    let ghost prev = cells@;
    cells.push(last);
    proof {
        let ghost n = report.rows@.len() as int;
        assert(cells@ == prev.push(last));
        assert(last.deep_view() == target[n + 1]);
        assert(prev.len() == n + 1);
        assert forall|m: int| 0 <= m < target.len() implies cells.deep_view()[m] == target[m] by {
            assert(cells.deep_view()[m] == cells@[m].deep_view());
            if m < n + 1 {
                assert(cells@[m] == prev[m]);
                assert(Seq::new(prev.len() as nat, |i: int| prev[i].deep_view()) == target.take(
                    n + 1,
                ));
                assert(prev[m].deep_view() == target.take(n + 1)[m]);
                assert(target.take(n + 1)[m] == target[m]);
            } else {
                assert(cells@[m] == last);
            }
        }
        assert(cells.deep_view() =~~= target);
    }
    render_table(&cells)
}


} // verus!
