use vstd::prelude::*;
use crate::project::{
    spec_app_port, spec_app_shell, spec_database_name, spec_label, spec_title_case,
    spec_uses_beat, spec_uses_node_modules_volume, FileEntry, Project, Stack,
};
use crate::text::{decimal, u16_text};

verus! {

/// A plain file with the given path and contents.
pub fn text_file(path: &'static str, contents: String) -> (r: FileEntry)
    ensures
        r@ == (path@, contents@, false),
{
    FileEntry { path, contents, executable: false }
}

/// A file with the given path and contents that is made executable.
pub fn executable_file(path: &'static str, contents: String) -> (r: FileEntry)
    ensures
        r@ == (path@, contents@, true),
{
    FileEntry { path, contents, executable: true }
}

/// The decimal numeral of the stack's application port.
pub open spec fn spec_port_text(stack: Stack) -> Seq<char> {
    decimal(spec_app_port(stack) as nat)
}

pub open spec fn spec_readme_extra(stack: Stack) -> Seq<char> {
    match stack {
        Stack::Node => README_EXTRA_NODE@,
        Stack::Django => README_EXTRA_DJANGO@,
        Stack::Flask => README_EXTRA_FLASK@,
        Stack::Fastapi => README_EXTRA_FASTAPI@,
    }
}

/// The README: the project title, the stack's label and what the stack brings.
pub open spec fn spec_root_readme(stack: Stack, name: Seq<char>) -> Seq<char> {
    README_HEAD@ + spec_title_case(name) + README_AFTER_NAME@ + spec_label(stack)
        + README_AFTER_STACK@ + spec_readme_extra(stack) + README_TAIL@
}

/// The environment file: the slug as the app name, the stack's port and the
/// slug's database name.
pub open spec fn spec_env_file(stack: Stack, slug: Seq<char>) -> Seq<char> {
    ENV_HEAD@ + slug + ENV_AFTER_NAME@ + spec_port_text(stack) + ENV_AFTER_PORT@
        + spec_database_name(slug) + ENV_TAIL@
}

pub open spec fn spec_gitignore(stack: Stack) -> Seq<char> {
    match stack {
        Stack::Node => NODE_GITIGNORE@,
        _ => PYTHON_GITIGNORE@,
    }
}

pub open spec fn spec_dockerignore(stack: Stack) -> Seq<char> {
    match stack {
        Stack::Node => NODE_DOCKERIGNORE@,
        _ => PYTHON_DOCKERIGNORE@,
    }
}

pub open spec fn spec_makefile(stack: Stack) -> Seq<char> {
    MAKEFILE_HEAD@ + spec_app_shell() + MAKEFILE_TAIL@
}

/// `text` where `cond` holds, nothing otherwise.
pub open spec fn text_if(cond: bool, text: Seq<char>) -> Seq<char> {
    if cond {
        text
    } else {
        Seq::empty()
    }
}

/// The compose file: the app service exposing the stack's port, a worker, a beat
/// process where the stack uses one, nginx, Postgres and Redis, with a shared
/// `node_modules` volume where the stack uses one.
pub open spec fn spec_compose_file(stack: Stack) -> Seq<char> {
    let nm = spec_uses_node_modules_volume(stack);
    COMPOSE_HEAD@ + text_if(nm, COMPOSE_NODE_MODULES_MOUNT@) + COMPOSE_EXPOSE@ + spec_port_text(stack)
        + COMPOSE_AFTER_PORT@ + COMPOSE_WORKER_SERVICE@ + text_if(nm, COMPOSE_NODE_MODULES_MOUNT@)
        + text_if(spec_uses_beat(stack), COMPOSE_BEAT_SERVICE@) + COMPOSE_SERVICES@ + COMPOSE_VOLUMES@
        + text_if(nm, COMPOSE_NODE_MODULES_VOLUME@)
}

pub open spec fn spec_ci_workflow(stack: Stack) -> Seq<char> {
    match stack {
        Stack::Node => NODE_CI@,
        _ => PYTHON_CI@,
    }
}

/// The nginx site, proxying to the stack's port.
pub open spec fn spec_nginx_conf(stack: Stack) -> Seq<char> {
    NGINX_HEAD@ + spec_port_text(stack) + NGINX_TAIL@
}

/// The files every project gets, whatever its stack, in the order they are written.
pub open spec fn spec_base_files(project: Project) -> Seq<(Seq<char>, Seq<char>, bool)> {
    let stack = project.stack;
    seq![
        ("README.md"@, spec_root_readme(stack, project.name@), false),
        (".env"@, spec_env_file(stack, project.slug@), false),
        (".env.example"@, spec_env_file(stack, project.slug@), false),
        (".gitignore"@, spec_gitignore(stack), false),
        (".dockerignore"@, spec_dockerignore(stack), false),
        ("Makefile"@, spec_makefile(stack), false),
        ("compose.yaml"@, spec_compose_file(stack), false),
        (".github/workflows/ci.yml"@, spec_ci_workflow(stack), false),
        ("nginx/default.conf"@, spec_nginx_conf(stack), false),
    ]
}

/// The files every project gets, whatever its stack.
pub fn base_files(project: &Project) -> (r: Vec<FileEntry>)
    ensures
        crate::project::entries_view(r@) == spec_base_files(*project),
{
    let v = vec![
        text_file("README.md", root_readme(project)),
        text_file(".env", env_file(project)),
        text_file(".env.example", env_file(project)),
        text_file(".gitignore", gitignore(project)),
        text_file(".dockerignore", dockerignore(project)),
        text_file("Makefile", makefile(project)),
        text_file("compose.yaml", compose_file(project)),
        text_file(".github/workflows/ci.yml", ci_workflow(project)),
        text_file("nginx/default.conf", nginx_conf(project)),
    ];
    assert(crate::project::entries_view(v@) =~= spec_base_files(*project));
    v
}

/// The project's README.
pub fn root_readme(project: &Project) -> (r: String)
    ensures
        r@ == spec_root_readme(project.stack, project.name@),
{
    let extra = match project.stack {
        Stack::Node => README_EXTRA_NODE,
        Stack::Django => README_EXTRA_DJANGO,
        Stack::Flask => README_EXTRA_FLASK,
        Stack::Fastapi => README_EXTRA_FASTAPI,
    };
    let name = project.title_name();
    let mut s = String::from_str(README_HEAD);
    s.append(name.as_str());
    s.append(README_AFTER_NAME);
    s.append(project.stack.label());
    s.append(README_AFTER_STACK);
    s.append(extra);
    s.append(README_TAIL);
    s
}

/// The contents of `.env` and `.env.example`.
pub fn env_file(project: &Project) -> (r: String)
    ensures
        r@ == spec_env_file(project.stack, project.slug@),
{
    let port = u16_text(project.stack.app_port());
    let database = project.stack.database_name(project.slug.as_str());
    let mut s = String::from_str(ENV_HEAD);
    s.append(project.slug.as_str());
    s.append(ENV_AFTER_NAME);
    s.append(port.as_str());
    s.append(ENV_AFTER_PORT);
    s.append(database.as_str());
    s.append(ENV_TAIL);
    s
}

/// The `.gitignore` of the project's stack.
pub fn gitignore(project: &Project) -> (r: String)
    ensures
        r@ == spec_gitignore(project.stack),
{
    match project.stack {
        Stack::Node => String::from_str(NODE_GITIGNORE),
        Stack::Django | Stack::Flask | Stack::Fastapi => String::from_str(PYTHON_GITIGNORE),
    }
}

/// The `.dockerignore` of the project's stack.
pub fn dockerignore(project: &Project) -> (r: String)
    ensures
        r@ == spec_dockerignore(project.stack),
{
    match project.stack {
        Stack::Node => String::from_str(NODE_DOCKERIGNORE),
        Stack::Django | Stack::Flask | Stack::Fastapi => String::from_str(PYTHON_DOCKERIGNORE),
    }
}

/// The Makefile with the everyday Docker commands.
pub fn makefile(project: &Project) -> (r: String)
    ensures
        r@ == spec_makefile(project.stack),
{
    let mut s = String::from_str(MAKEFILE_HEAD);
    s.append(project.stack.app_shell());
    s.append(MAKEFILE_TAIL);
    s
}

/// The compose file of the project's stack.
pub fn compose_file(project: &Project) -> (r: String)
    ensures
        r@ == spec_compose_file(project.stack),
{
    let stack = project.stack;
    let node_modules = stack.uses_node_modules_volume();
    let port = u16_text(stack.app_port());
    let mut s = String::from_str(COMPOSE_HEAD);
    if node_modules {
        s.append(COMPOSE_NODE_MODULES_MOUNT);
    }
    s.append(COMPOSE_EXPOSE);
    s.append(port.as_str());
    s.append(COMPOSE_AFTER_PORT);
    s.append(COMPOSE_WORKER_SERVICE);
    if node_modules {
        s.append(COMPOSE_NODE_MODULES_MOUNT);
    }
    if stack.uses_beat() {
        s.append(COMPOSE_BEAT_SERVICE);
    }
    s.append(COMPOSE_SERVICES);
    s.append(COMPOSE_VOLUMES);
    if node_modules {
        s.append(COMPOSE_NODE_MODULES_VOLUME);
    }
    proof {
        let nm = spec_uses_node_modules_volume(stack);
        let e = Seq::<char>::empty();
        assert(s@ =~= spec_compose_file(stack)) by {
            if nm {
                assert(!spec_uses_beat(stack));
            } else {
                assert(spec_uses_beat(stack));
                assert(COMPOSE_HEAD@ + e =~= COMPOSE_HEAD@);
            }
        }
    }
    s
}

/// The GitHub Actions workflow of the project's stack.
pub fn ci_workflow(project: &Project) -> (r: String)
    ensures
        r@ == spec_ci_workflow(project.stack),
{
    match project.stack {
        Stack::Node => String::from_str(NODE_CI),
        Stack::Django | Stack::Flask | Stack::Fastapi => String::from_str(PYTHON_CI),
    }
}

/// The nginx site that proxies to the app.
pub fn nginx_conf(project: &Project) -> (r: String)
    ensures
        r@ == spec_nginx_conf(project.stack),
{
    let port = u16_text(project.stack.app_port());
    let mut s = String::from_str(NGINX_HEAD);
    s.append(port.as_str());
    s.append(NGINX_TAIL);
    s
}

/// The Dockerfile shared by the Python stacks.
pub fn python_dockerfile() -> (r: String)
    ensures
        r@ == PYTHON_DOCKERFILE@,
{
    String::from_str(PYTHON_DOCKERFILE)
}

pub const README_EXTRA_NODE: &'static str = r#"The generated app includes Express, BullMQ, Postgres wiring, Redis, an nginx edge, and a worker service."#;

pub const README_EXTRA_DJANGO: &'static str = r#"The generated app includes Django, Postgres, Redis, Celery worker and beat processes, and an nginx edge."#;

pub const README_EXTRA_FLASK: &'static str = r#"The generated app includes Flask, Postgres, Redis, Celery worker and beat processes, and an nginx edge."#;

pub const README_EXTRA_FASTAPI: &'static str = r#"The generated app includes FastAPI, Postgres, Redis, Celery worker and beat processes, and an nginx edge."#;

pub const README_HEAD: &'static str = r#"# "#;

pub const README_AFTER_NAME: &'static str = r#"

Generated by DevStack for "#;

pub const README_AFTER_STACK: &'static str = r#".

"#;

pub const README_TAIL: &'static str = r#"

## Quickstart

```bash
docker compose up --build
```

The application is available at `http://localhost`.

## Included

- Dockerized app runtime
- Postgres with persistent storage
- Redis for caching and jobs
- Background worker service
- GitHub Actions CI
- `.env` and `.env.example`
- Opinionated project layout for shipping fast

## Handy commands

```bash
make up
make down
make logs
make app-shell
make db-shell
```

## Layout

```text
app/
docker/
nginx/
.github/workflows/
compose.yaml
Makefile
```
"#;

pub const ENV_HEAD: &'static str = r#"APP_NAME="#;

pub const ENV_AFTER_NAME: &'static str = r#"
APP_ENV=development
APP_PORT="#;

pub const ENV_AFTER_PORT: &'static str = r#"
POSTGRES_DB="#;

pub const ENV_TAIL: &'static str = r#"
POSTGRES_USER=devstack
POSTGRES_PASSWORD=devstack
POSTGRES_HOST=postgres
POSTGRES_PORT=5432
REDIS_URL=redis://redis:6379/0
SECRET_KEY=change-me-now
ALLOWED_HOSTS=localhost,127.0.0.1
CORS_ORIGINS=http://localhost,http://127.0.0.1
CELERY_BROKER_URL=redis://redis:6379/0
CELERY_RESULT_BACKEND=redis://redis:6379/1
"#;

pub const NODE_GITIGNORE: &'static str = r#"node_modules
.env
.DS_Store
dist
coverage
"#;

pub const PYTHON_GITIGNORE: &'static str = r#"__pycache__/
*.pyc
.pytest_cache/
.venv/
.env
.DS_Store
"#;

pub const NODE_DOCKERIGNORE: &'static str = r#"node_modules
npm-debug.log
.git
"#;

pub const PYTHON_DOCKERIGNORE: &'static str = r#"__pycache__/
*.pyc
.venv/
.git
"#;

pub const MAKEFILE_HEAD: &'static str = r#"up:
	docker compose up --build

down:
	docker compose down

logs:
	docker compose logs -f

rebuild:
	docker compose build --no-cache

app-shell:
	"#;

pub const MAKEFILE_TAIL: &'static str = r#"

db-shell:
	docker compose exec postgres sh -lc 'psql -U "$$POSTGRES_USER" -d "$$POSTGRES_DB"'
"#;

pub const COMPOSE_WORKER_SERVICE: &'static str = r#"
  worker:
    build:
      context: .
      dockerfile: docker/Dockerfile
    command: sh /workspace/docker/worker.sh
    env_file:
      - .env
    depends_on:
      postgres:
        condition: service_healthy
      redis:
        condition: service_healthy
    volumes:
      - ./app:/workspace/app
      - ./docker:/workspace/docker
"#;

pub const COMPOSE_BEAT_SERVICE: &'static str = r#"
  beat:
    build:
      context: .
      dockerfile: docker/Dockerfile
    command: sh /workspace/docker/beat.sh
    env_file:
      - .env
    depends_on:
      postgres:
        condition: service_healthy
      redis:
        condition: service_healthy
    volumes:
      - ./app:/workspace/app
      - ./docker:/workspace/docker
"#;

pub const COMPOSE_NODE_MODULES_MOUNT: &'static str = r#"      - node_modules:/workspace/app/node_modules
"#;

pub const COMPOSE_VOLUMES: &'static str = r#"
volumes:
  postgres_data:
  redis_data:
"#;

pub const COMPOSE_NODE_MODULES_VOLUME: &'static str = r#"  node_modules:
"#;

pub const COMPOSE_HEAD: &'static str = r#"services:
  app:
    build:
      context: .
      dockerfile: docker/Dockerfile
    command: sh /workspace/docker/start.sh
    env_file:
      - .env
    depends_on:
      postgres:
        condition: service_healthy
      redis:
        condition: service_healthy
    volumes:
      - ./app:/workspace/app
      - ./docker:/workspace/docker
"#;

pub const COMPOSE_EXPOSE: &'static str = r#"    expose:
      - ""#;

pub const COMPOSE_AFTER_PORT: &'static str = r#""

"#;

pub const COMPOSE_SERVICES: &'static str = r#"  nginx:
    image: nginx:1.27-alpine
    depends_on:
      - app
    ports:
      - "80:80"
    volumes:
      - ./nginx/default.conf:/etc/nginx/conf.d/default.conf:ro

  postgres:
    image: postgres:16-alpine
    env_file:
      - .env
    environment:
      POSTGRES_DB: ${POSTGRES_DB}
      POSTGRES_USER: ${POSTGRES_USER}
      POSTGRES_PASSWORD: ${POSTGRES_PASSWORD}
    healthcheck:
      test: ["CMD-SHELL", "pg_isready -U $${POSTGRES_USER} -d $${POSTGRES_DB}"]
      interval: 5s
      timeout: 5s
      retries: 20
    ports:
      - "5432:5432"
    volumes:
      - postgres_data:/var/lib/postgresql/data

  redis:
    image: redis:7-alpine
    healthcheck:
      test: ["CMD", "redis-cli", "ping"]
      interval: 5s
      timeout: 3s
      retries: 20
    ports:
      - "6379:6379"
    volumes:
      - redis_data:/data
"#;

pub const NODE_CI: &'static str = r#"name: ci

on:
  push:
  pull_request:

jobs:
  verify:
    runs-on: ubuntu-latest
    steps:
      - uses: actions/checkout@v4
      - uses: actions/setup-node@v4
        with:
          node-version: "22"
      - name: Install dependencies
        working-directory: app
        run: npm install
      - name: Syntax check
        working-directory: app
        run: |
          node --check src/index.js
          node --check src/worker.js
      - name: Validate Compose
        run: docker compose config
      - name: Build containers
        run: docker compose build
"#;

pub const PYTHON_CI: &'static str = r#"name: ci

on:
  push:
  pull_request:

jobs:
  verify:
    runs-on: ubuntu-latest
    steps:
      - uses: actions/checkout@v4
      - uses: actions/setup-python@v5
        with:
          python-version: "3.12"
      - name: Install dependencies
        run: |
          python -m pip install --upgrade pip
          pip install -r app/requirements.txt
      - name: Compile source
        run: python -m compileall app
      - name: Validate Compose
        run: docker compose config
      - name: Build containers
        run: docker compose build
"#;

pub const NGINX_HEAD: &'static str = r#"server {
    listen 80;
    server_name _;
    client_max_body_size 32m;

    location / {
        proxy_pass http://app:"#;

pub const NGINX_TAIL: &'static str = r#";
        proxy_http_version 1.1;
        proxy_set_header Host $host;
        proxy_set_header X-Real-IP $remote_addr;
        proxy_set_header X-Forwarded-For $proxy_add_x_forwarded_for;
        proxy_set_header X-Forwarded-Proto $scheme;
        proxy_set_header Upgrade $http_upgrade;
        proxy_set_header Connection "upgrade";
    }
}
"#;

pub const PYTHON_DOCKERFILE: &'static str = r#"FROM python:3.12-slim
WORKDIR /workspace/app
ENV PYTHONDONTWRITEBYTECODE=1
ENV PYTHONUNBUFFERED=1
RUN apt-get update && apt-get install -y build-essential libpq-dev curl && rm -rf /var/lib/apt/lists/*
COPY app/requirements.txt /tmp/requirements.txt
RUN pip install --upgrade pip && pip install -r /tmp/requirements.txt
CMD ["sh", "/workspace/docker/start.sh"]
"#;

} // verus!
