//! Runtime configuration for the code-execution feature: which command
//! runs a submitted snippet of each supported language, and how.

use vstd::prelude::*;
use crate::errors::{ErrorKind, GameError};
use crate::text::{seq_eq_nocase, str_eq_nocase};

verus! {

/// What running one code snippet produced.
#[derive(Debug)]
pub struct ExecutionResult {
    pub stdout: String,
    pub stderr: String,
    pub exit_code: i32,
    pub execution_time_ms: u64,
}

/// A request to run one code snippet.
#[derive(Debug)]
pub struct LanguageExecutionRequest {
    pub language: String,
    pub code: String,
    pub timeout_ms: Option<u64>,
}

/// How a language's runtime takes the code.
#[derive(Clone, Copy, Debug, PartialEq, Eq, Structural)]
pub enum ExecutionMode {
    /// The code is passed as a command-line argument.
    Inline,
    /// The code is written to a temporary file named as an argument.
    File,
}

/// How to invoke one language's runtime.
#[derive(Debug)]
pub struct LanguageConfig {
    pub command: Vec<String>,
    pub fallback_command: Option<Vec<String>>,
    pub execution_mode: ExecutionMode,
    pub extension: String,
}

impl LanguageConfig {
    /// The runtime configuration for a language, matched
    /// ASCII-case-insensitively. Python and bash carry a fallback command;
    /// an unsupported language fails with [`ErrorKind::InvalidState`].
    pub fn get_config(language: &str) -> (r: Result<LanguageConfig, GameError>)
        ensures
            r is Err <==> !(seq_eq_nocase(language@, "python"@) || seq_eq_nocase(
                language@,
                "javascript"@,
            ) || seq_eq_nocase(language@, "gdscript"@) || seq_eq_nocase(language@, "csharp"@)
                || seq_eq_nocase(language@, "ruby"@) || seq_eq_nocase(language@, "bash"@)),
            r matches Err(e) ==> e.kind == ErrorKind::InvalidState,
            seq_eq_nocase(language@, "python"@) ==> (r matches Ok(c) && c.execution_mode
                == ExecutionMode::Inline && c.extension@ == ".py"@ && c.command@.len() == 2
                && c.command@[0]@ == "python"@ && c.command@[1]@ == "-c"@ && (
            c.fallback_command matches Some(f) && f@.len() == 2 && f@[0]@ == "python3"@ && f@[1]@
                == "-c"@)),
            seq_eq_nocase(language@, "javascript"@) ==> (r matches Ok(c) && c.execution_mode
                == ExecutionMode::Inline && c.extension@ == ".js"@ && c.command@.len() == 2
                && c.command@[0]@ == "node"@ && c.command@[1]@ == "-e"@ && c.fallback_command
                is None),
            seq_eq_nocase(language@, "gdscript"@) ==> (r matches Ok(c) && c.execution_mode
                == ExecutionMode::File && c.extension@ == ".gd"@ && c.command@.len() == 3
                && c.command@[0]@ == "godot"@ && c.command@[1]@ == "--headless"@ && c.command@[2]@
                == "--script"@ && c.fallback_command is None),
            seq_eq_nocase(language@, "csharp"@) ==> (r matches Ok(c) && c.execution_mode
                == ExecutionMode::File && c.extension@ == ".csx"@ && c.command@.len() == 2
                && c.command@[0]@ == "dotnet"@ && c.command@[1]@ == "script"@ && c.fallback_command
                is None),
            seq_eq_nocase(language@, "ruby"@) ==> (r matches Ok(c) && c.execution_mode
                == ExecutionMode::Inline && c.extension@ == ".rb"@ && c.command@.len() == 2
                && c.command@[0]@ == "ruby"@ && c.command@[1]@ == "-e"@ && c.fallback_command
                is None),
            seq_eq_nocase(language@, "bash"@) ==> (r matches Ok(c) && c.execution_mode
                == ExecutionMode::Inline && c.extension@ == ".sh"@ && c.command@.len() == 2
                && c.command@[0]@ == "bash"@ && c.command@[1]@ == "-c"@ && (
            c.fallback_command matches Some(f) && f@.len() == 2 && f@[0]@ == "sh"@ && f@[1]@
                == "-c"@)),
    {
        proof {
            reveal_strlit("python");
            reveal_strlit("javascript");
            reveal_strlit("gdscript");
            reveal_strlit("csharp");
            reveal_strlit("ruby");
            reveal_strlit("bash");
        }
        if str_eq_nocase(language, "python") {
            proof {
                if seq_eq_nocase(language@, "csharp"@) {
                    assert(crate::text::chars_eq_nocase(language@[0], "python"@[0]));
                    assert(crate::text::chars_eq_nocase(language@[0], "csharp"@[0]));
                    assert(false);
                }
            }
            let mut command: Vec<String> = Vec::new();
            command.push(String::from_str("python"));
            command.push(String::from_str("-c"));
            let mut fallback: Vec<String> = Vec::new();
            fallback.push(String::from_str("python3"));
            fallback.push(String::from_str("-c"));
            Ok(
                LanguageConfig {
                    command,
                    fallback_command: Some(fallback),
                    execution_mode: ExecutionMode::Inline,
                    extension: String::from_str(".py"),
                },
            )
        } else if str_eq_nocase(language, "javascript") {
            let mut command: Vec<String> = Vec::new();
            command.push(String::from_str("node"));
            command.push(String::from_str("-e"));
            Ok(
                LanguageConfig {
                    command,
                    fallback_command: None,
                    execution_mode: ExecutionMode::Inline,
                    extension: String::from_str(".js"),
                },
            )
        } else if str_eq_nocase(language, "gdscript") {
            let mut command: Vec<String> = Vec::new();
            command.push(String::from_str("godot"));
            command.push(String::from_str("--headless"));
            command.push(String::from_str("--script"));
            Ok(
                LanguageConfig {
                    command,
                    fallback_command: None,
                    execution_mode: ExecutionMode::File,
                    extension: String::from_str(".gd"),
                },
            )
        } else if str_eq_nocase(language, "csharp") {
            let mut command: Vec<String> = Vec::new();
            command.push(String::from_str("dotnet"));
            command.push(String::from_str("script"));
            Ok(
                LanguageConfig {
                    command,
                    fallback_command: None,
                    execution_mode: ExecutionMode::File,
                    extension: String::from_str(".csx"),
                },
            )
        } else if str_eq_nocase(language, "ruby") {
            proof {
                if seq_eq_nocase(language@, "bash"@) {
                    assert(crate::text::chars_eq_nocase(language@[0], "ruby"@[0]));
                    assert(crate::text::chars_eq_nocase(language@[0], "bash"@[0]));
                    assert(false);
                }
            }
            let mut command: Vec<String> = Vec::new();
            command.push(String::from_str("ruby"));
            command.push(String::from_str("-e"));
            Ok(
                LanguageConfig {
                    command,
                    fallback_command: None,
                    execution_mode: ExecutionMode::Inline,
                    extension: String::from_str(".rb"),
                },
            )
        } else if str_eq_nocase(language, "bash") {
            let mut command: Vec<String> = Vec::new();
            command.push(String::from_str("bash"));
            command.push(String::from_str("-c"));
            let mut fallback: Vec<String> = Vec::new();
            fallback.push(String::from_str("sh"));
            fallback.push(String::from_str("-c"));
            Ok(
                LanguageConfig {
                    command,
                    fallback_command: Some(fallback),
                    execution_mode: ExecutionMode::Inline,
                    extension: String::from_str(".sh"),
                },
            )
        } else {
            Err(GameError::invalid_state(String::from_str("Unsupported language")))
        }
    }
}

} // verus!
