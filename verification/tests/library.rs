use devstack::generator::common::{
    check_target_dir, resolve_target_dir, sanitize_name, validate_slug, GeneratorError,
};
use devstack::generator::shared::{compose_file, makefile, nginx_conf};
use devstack::generator::stacks;
use devstack::generator::{completion_message, files_for, prepare_project};
use devstack::project::{Project, Stack};

const STACKS: [Stack; 4] = [Stack::Node, Stack::Django, Stack::Flask, Stack::Fastapi];

fn is_valid_slug(s: &str) -> bool {
    let chars: Vec<char> = s.chars().collect();
    chars
        .iter()
        .all(|c| c.is_ascii_lowercase() || c.is_ascii_digit() || *c == '-')
        && !s.starts_with('-')
        && !s.ends_with('-')
        && !s.contains("--")
}

fn project(stack: Stack, name: &str) -> Project {
    Project {
        stack,
        name: name.to_string(),
        slug: sanitize_name(name),
        dir: "/work/out".to_string(),
    }
}

#[test]
fn sanitize_collapses_and_trims_separators() {
    assert_eq!(sanitize_name("--Hello,  World!!--"), "hello-world");
    assert_eq!(sanitize_name("ÄpfelShop 2024"), "pfelshop-2024");
    assert_eq!(sanitize_name("a"), "a");
    assert_eq!(sanitize_name(""), "");
    assert_eq!(sanitize_name("Café_Latte"), "caf-latte");
}

#[test]
fn sanitized_names_are_valid_slugs() {
    for name in ["My Fancy App", "  x  ", "__a__b__", "ÜBER-app", "1-2--3", "-"] {
        let slug = sanitize_name(name);
        assert!(is_valid_slug(&slug), "{:?} gave {:?}", name, slug);
    }
}

#[test]
fn sanitize_is_idempotent() {
    for name in ["My Fancy App", "api__service", "--x--y--", "Zeta 9"] {
        let slug = sanitize_name(name);
        assert_eq!(sanitize_name(&slug), slug);
    }
}

#[test]
fn valid_slugs_are_left_unchanged() {
    for slug in ["node-service", "a1-b2", "x"] {
        assert_eq!(sanitize_name(slug), slug);
    }
}

#[test]
fn slug_is_empty_exactly_without_letters_or_digits() {
    assert_eq!(sanitize_name("___ --- !!!"), "");
    assert_eq!(sanitize_name("_é_"), "");
    assert_eq!(sanitize_name("_7_"), "7");
}

#[test]
fn default_names_are_their_own_slugs() {
    for stack in STACKS {
        let name = stack.default_project_name();
        assert_eq!(sanitize_name(name), name);
        assert!(!name.is_empty());
    }
    assert_eq!(Stack::Flask.default_project_name(), "flask-service");
    assert_eq!(Stack::Fastapi.default_project_name(), "fastapi-service");
}

#[test]
fn validate_slug_refuses_only_the_empty_slug() {
    assert_eq!(validate_slug(""), Err(GeneratorError::EmptySlug));
    assert_eq!(validate_slug("a"), Ok(()));
    assert_eq!(
        GeneratorError::EmptySlug.message(),
        "project name must include at least one letter or number"
    );
}

#[test]
fn target_dir_check_refuses_only_non_empty_dirs_without_force() {
    assert_eq!(check_target_dir("/x", false, false, false), Ok(()));
    assert_eq!(check_target_dir("/x", true, false, false), Ok(()));
    assert_eq!(check_target_dir("/x", true, true, true), Ok(()));
    let refused = check_target_dir("/x", true, true, false);
    assert_eq!(
        refused,
        Err(GeneratorError::TargetNotEmpty {
            path: "/x".to_string()
        })
    );
    assert_eq!(
        refused.unwrap_err().message(),
        "target directory /x already exists and is not empty; use --force to continue"
    );
}

#[test]
fn target_dir_resolution() {
    assert_eq!(
        resolve_target_dir("/home/me", "my-app", Some("/tmp/my-api".to_string())),
        "/tmp/my-api"
    );
    assert_eq!(
        resolve_target_dir("/home/me", "my-app", Some("sub/dir".to_string())),
        "/home/me/sub/dir"
    );
    assert_eq!(resolve_target_dir("/home/me", "my-app", None), "/home/me/my-app");
    assert_eq!(resolve_target_dir("/home/me/", "my-app", None), "/home/me/my-app");
}

#[test]
fn prepare_project_uses_defaults_and_refuses_empty_slugs() {
    let p = prepare_project(Stack::Django, None, "/home/me", None).unwrap();
    assert_eq!(p.name, "django-service");
    assert_eq!(p.slug, "django-service");
    assert_eq!(p.dir, "/home/me/django-service");
    assert_eq!(p.stack, Stack::Django);

    let q = prepare_project(
        Stack::Node,
        Some("My Fancy App".to_string()),
        "/home/me",
        Some("/srv/app".to_string()),
    )
    .unwrap();
    assert_eq!(q.name, "My Fancy App");
    assert_eq!(q.slug, "my-fancy-app");
    assert_eq!(q.dir, "/srv/app");

    let r = prepare_project(Stack::Flask, Some("___".to_string()), "/home/me", None);
    assert_eq!(r.unwrap_err(), GeneratorError::EmptySlug);
}

#[test]
fn completion_message_names_slug_and_dir() {
    let p = project(Stack::Node, "My Fancy App");
    assert_eq!(
        completion_message(&p),
        "Created my-fancy-app at /work/out\nNext steps:\n  cd /work/out\n  docker compose up --build\n  visit http://localhost\n"
    );
}

#[test]
fn stack_metadata() {
    assert_eq!(Stack::Node.label(), "Node.js");
    assert_eq!(Stack::Django.label(), "Django");
    assert_eq!(Stack::Flask.label(), "Flask");
    assert_eq!(Stack::Fastapi.label(), "FastAPI");
    assert_eq!(Stack::Node.app_port(), 3000);
    assert_eq!(Stack::Django.app_port(), 8000);
    assert_eq!(Stack::Flask.app_port(), 8000);
    assert!(!Stack::Node.uses_beat());
    assert!(Stack::Django.uses_beat() && Stack::Flask.uses_beat() && Stack::Fastapi.uses_beat());
    assert!(Stack::Node.uses_node_modules_volume());
    assert!(!Stack::Fastapi.uses_node_modules_volume());
    for stack in STACKS {
        assert_eq!(stack.app_shell(), "docker compose exec app sh");
    }
}

#[test]
fn database_name_replaces_dashes() {
    assert_eq!(Stack::Django.database_name("my-fancy-app"), "my_fancy_app");
    assert_eq!(Stack::Node.database_name("plain"), "plain");
    assert_eq!(Stack::Flask.database_name("--"), "__");
    assert!(!Stack::Flask.database_name("a-b-c").contains('-'));
}

#[test]
fn title_names() {
    assert_eq!(project(Stack::Node, "my_fancy-app").title_name(), "My Fancy App");
    assert_eq!(project(Stack::Node, "  a--b  ").title_name(), "A B");
    assert_eq!(project(Stack::Node, "élan vital").title_name(), "élan Vital");
    assert_eq!(project(Stack::Node, "---").title_name(), "");
    let once = project(Stack::Node, "x_y z-w").title_name();
    assert_eq!(project(Stack::Node, &once).title_name(), once);
    assert!(!once.contains('-') && !once.contains('_') && !once.contains("  "));
}

#[test]
fn project_paths_are_distinct_and_scripts_executable() {
    for stack in STACKS {
        let files = files_for(&project(stack, "demo"));
        let mut paths: Vec<&str> = files.iter().map(|f| f.path).collect();
        let count = paths.len();
        paths.sort();
        paths.dedup();
        assert_eq!(paths.len(), count);
        for f in &files {
            if f.path.ends_with(".sh") {
                assert!(f.executable, "{}", f.path);
            }
        }
    }
}

#[test]
fn essentials_env_files_and_beat() {
    for stack in STACKS {
        let files = files_for(&project(stack, "demo"));
        let paths: Vec<&str> = files.iter().map(|f| f.path).collect();
        for essential in [
            "README.md",
            ".env",
            ".env.example",
            ".gitignore",
            ".dockerignore",
            "Makefile",
            "compose.yaml",
            ".github/workflows/ci.yml",
            "nginx/default.conf",
            "docker/Dockerfile",
            "docker/start.sh",
            "docker/worker.sh",
        ] {
            assert!(paths.contains(&essential), "{} in {:?}", essential, stack);
        }
        assert_eq!(files[1].contents, files[2].contents);
        assert_eq!(paths.contains(&"docker/beat.sh"), stack.uses_beat());
        let compose = &files[6].contents;
        assert_eq!(compose.contains("\n  beat:\n"), stack.uses_beat());
    }
}

#[test]
fn port_appears_in_env_compose_and_nginx() {
    for stack in STACKS {
        let files = files_for(&project(stack, "demo"));
        let port = stack.app_port().to_string();
        assert!(files[1].contents.contains(&format!("APP_PORT={}\n", port)));
        assert!(files[6].contents.contains(&format!("      - \"{}\"\n", port)));
        assert!(files[8].contents.contains(&format!("proxy_pass http://app:{};", port)));
    }
}

#[test]
fn stack_files_follow_the_shared_files() {
    for stack in STACKS {
        let p = project(stack, "demo");
        let all = files_for(&p);
        let extra = stacks::files_for(&p);
        assert_eq!(all.len(), 9 + extra.len());
        for (a, b) in all[9..].iter().zip(extra.iter()) {
            assert_eq!(a.path, b.path);
            assert_eq!(a.contents, b.contents);
            assert_eq!(a.executable, b.executable);
        }
    }
    assert_eq!(stacks::node::files(&project(Stack::Node, "demo")).len(), 7);
    assert_eq!(stacks::django::files(&project(Stack::Django, "demo")).len(), 17);
    assert_eq!(stacks::flask::files(&project(Stack::Flask, "demo")).len(), 11);
    assert_eq!(stacks::fastapi::files(&project(Stack::Fastapi, "demo")).len(), 8);
}

#[test]
fn nginx_site_uses_plain_nginx_variables() {
    for stack in STACKS {
        let site = nginx_conf(&project(stack, "demo"));
        assert!(!site.contains("$$"));
        assert!(site.contains("proxy_set_header Host $host;"));
        assert!(site.contains("proxy_set_header X-Real-IP $remote_addr;"));
        assert!(site.contains("proxy_set_header X-Forwarded-For $proxy_add_x_forwarded_for;"));
        assert!(site.contains("proxy_set_header X-Forwarded-Proto $scheme;"));
        assert!(site.contains("proxy_set_header Upgrade $http_upgrade;"));
        assert!(site.contains(&format!("proxy_pass http://app:{};", stack.app_port())));
    }
}

#[test]
fn compose_file_depends_on_the_stack_alone() {
    for stack in STACKS {
        let a = compose_file(&project(stack, "first one"));
        let b = compose_file(&project(stack, "second"));
        assert_eq!(a, b);
        assert!(a.starts_with("services:\n  app:\n"));
        assert_eq!(a.contains("  beat:\n"), stack.uses_beat());
        assert_eq!(a.contains("node_modules"), stack.uses_node_modules_volume());
        assert!(a.contains(&format!("    expose:\n      - \"{}\"", stack.app_port())));
    }
}

#[test]
fn makefile_is_shared_and_has_its_targets() {
    let m = makefile(&project(Stack::Node, "a"));
    for stack in STACKS {
        assert_eq!(makefile(&project(stack, "b")), m);
    }
    for target in ["up:\n", "down:\n", "logs:\n", "rebuild:\n", "db-shell:\n"] {
        assert!(m.contains(target));
    }
    assert!(m.contains("app-shell:\n\tdocker compose exec app sh\n"));
    assert!(m.contains("\"$$POSTGRES_USER\""));
}
