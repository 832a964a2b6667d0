use codecell::language::{
    extract_java_class_name, plan_run, strip_session_marker, Artifact, Language,
};

#[test]
fn class_name_widget_is_derived_exactly() {
    let code = "import java.util.*;\n  public class Widget {\n}\n";
    assert_eq!(extract_java_class_name(code), Some("Widget".to_string()));
}

#[test]
fn class_name_default_when_no_declaration() {
    assert_eq!(extract_java_class_name("int x = 1;\nclass widget {}\n"), None);
    assert_eq!(extract_java_class_name(""), None);
}

#[test]
fn class_name_first_declaration_wins() {
    let code = "public class First {\npublic class Second {\n";
    assert_eq!(extract_java_class_name(code), Some("First".to_string()));
}

#[test]
fn class_name_stops_at_non_identifier() {
    assert_eq!(
        extract_java_class_name("public class My_Type2{"),
        Some("My_Type2".to_string())
    );
    // A marker followed by no identifier character yields nothing.
    assert_eq!(extract_java_class_name("public class {"), None);
}

#[test]
fn session_marker_is_stripped_everywhere() {
    assert_eq!(strip_session_marker("editor-abc"), "abc");
    assert_eq!(strip_session_marker("abc"), "abc");
    assert_eq!(strip_session_marker("editor-editor-x"), "x");
    assert_eq!(strip_session_marker("xeditor-y"), "xy");
    assert_eq!(strip_session_marker(""), "");
}

#[test]
fn python_plan_shapes_one_scratch_file() {
    let plan = plan_run(Language::Python, "print(1)", "editor-s1", "/tmp");
    assert_eq!(plan.source_path, "/tmp/codecell_s1.py");
    assert!(plan.scratch_dir.is_none());
    assert!(plan.compile.is_none());
    assert!(plan.compiled_artifact.is_none());
    assert_eq!(plan.run.program, "python3");
    assert_eq!(plan.run.args, vec!["/tmp/codecell_s1.py".to_string()]);
    assert!(plan.run.cwd.is_none());
}

#[test]
fn node_and_typescript_plans() {
    let node = plan_run(Language::Node, "", "editor-n", "/tmp");
    assert_eq!(node.source_path, "/tmp/codecell_n.js");
    assert_eq!(node.run.program, "node");
    assert_eq!(node.run.args, vec!["/tmp/codecell_n.js".to_string()]);

    let ts = plan_run(Language::Typescript, "", "editor-t", "/tmp");
    assert_eq!(ts.source_path, "/tmp/codecell_t.ts");
    assert_eq!(ts.run.program, "npx");
    assert_eq!(
        ts.run.args,
        vec!["tsx".to_string(), "/tmp/codecell_t.ts".to_string()]
    );
}

#[test]
fn rust_plan_compiles_to_explicit_binary() {
    let plan = plan_run(Language::Rust, "fn main() {}", "editor-r", "/tmp");
    assert_eq!(plan.source_path, "/tmp/codecell_r.rs");
    let compile = plan.compile.as_ref().expect("compiled pipeline");
    assert_eq!(compile.program, "rustc");
    assert_eq!(
        compile.args,
        vec![
            "/tmp/codecell_r.rs".to_string(),
            "-o".to_string(),
            "/tmp/codecell_r_bin".to_string()
        ]
    );
    assert_eq!(plan.compiled_artifact, Some("/tmp/codecell_r_bin".to_string()));
    assert_eq!(plan.run.program, "/tmp/codecell_r_bin");
    assert!(plan.run.args.is_empty());
}

#[test]
fn java_plan_uses_derived_name_and_scratch_directory() {
    let code = "public class Widget {\n  public static void main(String[] a) {}\n}";
    let plan = plan_run(Language::Java, code, "editor-j", "/tmp");
    assert_eq!(plan.scratch_dir, Some("/tmp/codecell_java_j".to_string()));
    assert_eq!(plan.source_path, "/tmp/codecell_java_j/Widget.java");
    let compile = plan.compile.as_ref().expect("compiled pipeline");
    assert_eq!(compile.program, "javac");
    assert_eq!(compile.args, vec!["/tmp/codecell_java_j/Widget.java".to_string()]);
    assert_eq!(compile.cwd, Some("/tmp/codecell_java_j".to_string()));
    assert_eq!(plan.run.program, "java");
    assert_eq!(plan.run.args, vec!["Widget".to_string()]);
    assert_eq!(plan.run.cwd, Some("/tmp/codecell_java_j".to_string()));
}

#[test]
fn java_plan_falls_back_to_default_name() {
    let plan = plan_run(Language::Java, "System.out.println(1);", "editor-j", "/tmp");
    assert_eq!(plan.source_path, "/tmp/codecell_java_j/Main.java");
    assert_eq!(plan.run.args, vec!["Main".to_string()]);
}

#[test]
fn artifact_layout_per_language() {
    let py = plan_run(Language::Python, "", "editor-s", "/tmp");
    assert!(py.scratch_dir.is_none());
    match Artifact::File(py.source_path.clone()) {
        Artifact::File(path) => assert_eq!(path, "/tmp/codecell_s.py"),
        Artifact::Dir(_) => unreachable!(),
    }
    let java = plan_run(Language::Java, "", "editor-s", "/tmp");
    match java.scratch_dir {
        Some(ref d) => assert_eq!(d, "/tmp/codecell_java_s"),
        None => panic!("java run owns a scratch directory"),
    }
}
