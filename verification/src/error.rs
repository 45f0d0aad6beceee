//! The errors of the tool and their messages.

use vstd::prelude::*;

use crate::text::{join_with, joined, texts};

verus! {

/// Everything that can stop the tool. Paths are carried as text.
#[derive(Debug)]
pub enum MoldyError {
    /// The configuration file is not where it is looked for.
    ConfigMissing(String),
    /// The configuration file could not be read or parsed.
    ConfigParse(String),
    /// No template has the requested key; the keys that exist come along.
    TemplateKeyMissing(String, Vec<String>),
    /// A template's source directory does not exist.
    TemplatePathMissing(String),
    /// The target's parent directory does not exist.
    ParentDirMissing(String),
    /// Copying failed.
    CopyError(String),
    /// The file system refused a write.
    PermissionDenied(String),
    /// The command line was not understood.
    Usage(String),
}

impl MoldyError {
    /// The message shown for this error.
    pub open spec fn message(&self) -> Seq<char> {
        match self {
            MoldyError::ConfigMissing(path) => "Config file not found at '"@ + path@
                + "'\nCreate one with: mkdir -p ~/.config/moldy && touch ~/.config/moldy/config.toml"@,
            MoldyError::ConfigParse(msg) => "Failed to parse config: "@ + msg@,
            MoldyError::TemplateKeyMissing(key, available) => "Template '"@ + key@
                + "' not found in config"@ + if available@.len() == 0 {
                Seq::empty()
            } else {
                "\nAvailable templates: "@ + joined(texts(available@), ", "@)
            },
            MoldyError::TemplatePathMissing(path) => "Template source path does not exist: '"@
                + path@ + "'"@,
            MoldyError::ParentDirMissing(parent) => "Parent directory '"@ + parent@
                + "' does not exist"@,
            MoldyError::CopyError(msg) => "Copy error: "@ + msg@,
            MoldyError::PermissionDenied(msg) => "Permission denied: "@ + msg@,
            MoldyError::Usage(msg) => "Usage: moldy <TARGET_DIRECTORY> <PATH_IN_CONFIG>\n\n"@
                + msg@,
        }
    }

    /// Renders the message shown for this error.
    pub fn to_string(&self) -> (res: String)
        ensures
            res@ == self.message(),
    {
        match self {
            MoldyError::ConfigMissing(path) => {
                let mut s = String::from_str("Config file not found at '");
                s.append(path.as_str());
                s.append(
                    "'\nCreate one with: mkdir -p ~/.config/moldy && touch ~/.config/moldy/config.toml",
                );
                s
            },
            MoldyError::ConfigParse(msg) => {
                let mut s = String::from_str("Failed to parse config: ");
                s.append(msg.as_str());
                s
            },
            MoldyError::TemplateKeyMissing(key, available) => {
                let mut s = String::from_str("Template '");
                s.append(key.as_str());
                s.append("' not found in config");
                if available.len() != 0 {
                    s.append("\nAvailable templates: ");
                    let list = join_with(available, ", ");
                    s.append(list.as_str());
                }
                s
            },
            MoldyError::TemplatePathMissing(path) => {
                let mut s = String::from_str("Template source path does not exist: '");
                s.append(path.as_str());
                s.append("'");
                s
            },
            MoldyError::ParentDirMissing(parent) => {
                let mut s = String::from_str("Parent directory '");
                s.append(parent.as_str());
                s.append("' does not exist");
                s
            },
            MoldyError::CopyError(msg) => {
                let mut s = String::from_str("Copy error: ");
                s.append(msg.as_str());
                s
            },
            MoldyError::PermissionDenied(msg) => {
                let mut s = String::from_str("Permission denied: ");
                s.append(msg.as_str());
                s
            },
            MoldyError::Usage(msg) => {
                let mut s = String::from_str("Usage: moldy <TARGET_DIRECTORY> <PATH_IN_CONFIG>\n\n");
                s.append(msg.as_str());
                s
            },
        }
    }
}

/// A step of reading or writing whose failure stops the tool.
#[derive(Debug, Clone, Copy, PartialEq, Eq, Structural)]
pub enum IoStep {
    /// Reading the configuration file.
    ReadConfig,
    /// Parsing the configuration file.
    ParseConfig,
    /// Reading an entry while walking a template.
    ReadEntry,
    /// Placing an entry of a template relative to the template's root.
    RelativePath,
    /// Reading where a symbolic link points.
    ReadSymlink,
    /// Creating a symbolic link.
    CreateSymlink,
    /// Creating a directory.
    CreateDirectory,
    /// Copying a file.
    CopyFile,
    /// Showing the overwrite question.
    FlushPrompt,
    /// Reading the answer to the overwrite question.
    ReadAnswer,
}

/// The words that put a failure's own text in context.
pub open spec fn step_context(step: IoStep) -> Seq<char> {
    match step {
        IoStep::ReadConfig => "Failed to read config file: "@,
        IoStep::ParseConfig => "TOML parse error: "@,
        IoStep::ReadEntry => "Failed to read directory entry: "@,
        IoStep::RelativePath => "Failed to get relative path: "@,
        IoStep::ReadSymlink => "Failed to read symlink: "@,
        IoStep::CreateSymlink => "Failed to create symlink: "@,
        IoStep::CreateDirectory => "Failed to create directory: "@,
        IoStep::CopyFile => "Failed to copy file: "@,
        IoStep::FlushPrompt => "Failed to flush stdout: "@,
        IoStep::ReadAnswer => "Failed to read input: "@,
    }
}

/// The error for a failed step: the configuration steps give `ConfigParse`, the
/// steps that write give `PermissionDenied`, the others `CopyError`; each carries
/// the step's context followed by `detail`.
pub open spec fn step_failure(step: IoStep, detail: Seq<char>, e: MoldyError) -> bool {
    let text = step_context(step) + detail;
    match step {
        IoStep::ReadConfig | IoStep::ParseConfig => e matches MoldyError::ConfigParse(m) && m@
            == text,
        IoStep::CreateSymlink | IoStep::CreateDirectory | IoStep::CopyFile => e matches MoldyError::PermissionDenied(m) && m@ == text,
        _ => e matches MoldyError::CopyError(m) && m@ == text,
    }
}

/// The error for the failed step `step`, whose own account of the failure is `detail`.
pub fn failure_error(step: IoStep, detail: &str) -> (res: MoldyError)
    ensures
        step_failure(step, detail@, res),
{
    let context = match step {
        IoStep::ReadConfig => "Failed to read config file: ",
        IoStep::ParseConfig => "TOML parse error: ",
        IoStep::ReadEntry => "Failed to read directory entry: ",
        IoStep::RelativePath => "Failed to get relative path: ",
        IoStep::ReadSymlink => "Failed to read symlink: ",
        IoStep::CreateSymlink => "Failed to create symlink: ",
        IoStep::CreateDirectory => "Failed to create directory: ",
        IoStep::CopyFile => "Failed to copy file: ",
        IoStep::FlushPrompt => "Failed to flush stdout: ",
        IoStep::ReadAnswer => "Failed to read input: ",
    };
    let mut text = String::from_str(context);
    text.append(detail);
    match step {
        IoStep::ReadConfig | IoStep::ParseConfig => MoldyError::ConfigParse(text),
        IoStep::CreateSymlink | IoStep::CreateDirectory | IoStep::CopyFile => MoldyError::PermissionDenied(text),
        _ => MoldyError::CopyError(text),
    }
}

} // verus!
