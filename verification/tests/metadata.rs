use devstack::generator::common::sanitize_name;
use devstack::project::Stack;

#[test]
fn mod_sanitizes_names() {
    assert_eq!(sanitize_name("My Fancy App"), "my-fancy-app");
    assert_eq!(sanitize_name("api__service"), "api-service");
    assert_eq!(sanitize_name("___"), "");
}

#[test]
fn stack_metadata_is_stable() {
    assert_eq!(Stack::Node.default_project_name(), "node-service");
    assert_eq!(Stack::Django.default_project_name(), "django-service");
    assert_eq!(Stack::Fastapi.app_port(), 8000);
}

#[test]
fn main_sanitizes_names() {
    assert_eq!(sanitize_name("My Fancy App"), "my-fancy-app");
    assert_eq!(sanitize_name("api__service"), "api-service");
    assert_eq!(sanitize_name("___"), "");
}

#[test]
fn defaults_match_stack() {
    assert_eq!(Stack::Node.default_project_name(), "node-service");
    assert_eq!(Stack::Django.default_project_name(), "django-service");
    assert_eq!(Stack::Fastapi.app_port(), 8000);
}
