//! The project data the surrounding application persists and edits. The
//! library holds the bare values; the application keeps mirror types with
//! its serialization derives and converts at the boundary.

use vstd::prelude::*;

verus! {

/// The kind of project a template produces.
#[derive(Clone, Copy, Debug, PartialEq, Eq, Structural)]
pub enum TemplateType {
    Web,
    Node,
    Python,
    Rust,
    Java,
    Typescript,
}

/// The configuration of a web project's three panes and framework.
#[derive(Clone, Debug)]
pub struct WebConfig {
    pub markup: String,
    pub styling: String,
    pub script: String,
    pub framework: String,
}

/// One file of a project.
#[derive(Clone, Debug)]
pub struct ProjectFile {
    pub name: String,
    pub content: String,
    pub language: String,
}

/// One project: its identity, template, files and timestamps.
#[derive(Clone, Debug)]
pub struct Project {
    pub id: String,
    pub name: String,
    pub template: TemplateType,
    pub web_config: Option<WebConfig>,
    pub files: Vec<ProjectFile>,
    pub created_at: String,
    pub updated_at: String,
    pub saved_path: Option<String>,
}

/// One entry of the recently-opened list.
#[derive(Clone, Debug)]
pub struct RecentProject {
    pub id: String,
    pub name: String,
    pub template: TemplateType,
    pub path: String,
    pub updated_at: String,
}

/// A user-saved template: a named set of starter files.
#[derive(Clone, Debug)]
pub struct CustomTemplate {
    pub id: String,
    pub name: String,
    pub template: TemplateType,
    pub files: Vec<ProjectFile>,
    pub created_at: String,
}

} // verus!
