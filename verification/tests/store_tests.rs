use codecell::models::{CustomTemplate, ProjectFile, RecentProject, TemplateType};
use codecell::project_store::{
    sort_templates_newest_first, temp_project_expired, updated_recent_list, ProjectError,
    ProjectManager,
};

fn recent(id: &str, name: &str) -> RecentProject {
    RecentProject {
        id: id.to_string(),
        name: name.to_string(),
        template: TemplateType::Python,
        path: format!("/projects/{}.json", id),
        updated_at: "2024-01-01T00:00:00Z".to_string(),
    }
}

fn template(id: &str, created_at: &str) -> CustomTemplate {
    CustomTemplate {
        id: id.to_string(),
        name: format!("template {}", id),
        template: TemplateType::Node,
        files: vec![ProjectFile {
            name: "index.js".to_string(),
            content: "console.log(1)".to_string(),
            language: "javascript".to_string(),
        }],
        created_at: created_at.to_string(),
    }
}

#[test]
fn store_paths_hang_off_the_data_directory() {
    let manager = ProjectManager::new("/data".to_string());
    assert_eq!(manager.data_dir, "/data");
    assert_eq!(manager.temp_dir, "/data/temp");
    assert_eq!(manager.temp_project_dir("p1"), "/data/temp/p1");
    assert_eq!(manager.meta_path("p1"), "/data/temp/p1/meta.json");
    assert_eq!(manager.projects_dir(), "/data/projects");
    assert_eq!(manager.recent_path(), "/data/recent.json");
    assert_eq!(manager.templates_dir(), "/data/templates");
    assert_eq!(manager.template_path("t1"), "/data/templates/t1.json");
}

#[test]
fn recent_list_moves_project_to_front_and_drops_duplicate() {
    let list = vec![recent("a", "A"), recent("b", "B"), recent("c", "C")];
    let updated = updated_recent_list(list, recent("b", "B renamed"));
    let ids: Vec<&str> = updated.iter().map(|p| p.id.as_str()).collect();
    assert_eq!(ids, vec!["b", "a", "c"]);
    assert_eq!(updated[0].name, "B renamed");
}

#[test]
fn recent_list_keeps_only_ten_newest() {
    let mut list = Vec::new();
    for i in 0..12 {
        list.push(recent(&format!("p{}", i), "old"));
    }
    let updated = updated_recent_list(list, recent("fresh", "new"));
    assert_eq!(updated.len(), 10);
    assert_eq!(updated[0].id, "fresh");
    assert_eq!(updated[1].id, "p0");
    assert_eq!(updated[9].id, "p8");
}

#[test]
fn recent_list_from_empty() {
    let updated = updated_recent_list(Vec::new(), recent("only", "Only"));
    assert_eq!(updated.len(), 1);
    assert_eq!(updated[0].id, "only");
}

#[test]
fn templates_sort_newest_first() {
    let sorted = sort_templates_newest_first(vec![
        template("a", "2024-01-05"),
        template("b", "2024-03-01"),
        template("c", "2023-12-31"),
        template("d", "2024-03-01"),
    ]);
    let dates: Vec<&str> = sorted.iter().map(|t| t.created_at.as_str()).collect();
    assert_eq!(dates, vec!["2024-03-01", "2024-03-01", "2024-01-05", "2023-12-31"]);
    assert_eq!(sorted.len(), 4);
}

#[test]
fn temp_projects_expire_strictly_after_the_limit() {
    let week = 7 * 24 * 60 * 60;
    assert!(!temp_project_expired(week, 7));
    assert!(temp_project_expired(week + 1, 7));
    assert!(!temp_project_expired(0, 7));
}

#[test]
fn project_error_messages_name_their_cause() {
    assert_eq!(
        ProjectError::Io("disk full".to_string()).message(),
        "IO error: disk full"
    );
    assert_eq!(
        ProjectError::Serialization("bad json".to_string()).message(),
        "Serialization error: bad json"
    );
    assert_eq!(
        ProjectError::NotFound("p9".to_string()).message(),
        "Project not found: p9"
    );
}
