//! Laws on the texts of the shared files. `reveal_strlit` takes a string literal
//! itself, not a constant, so the texts these laws read are written out again in
//! their proofs.

use vstd::prelude::*;
use crate::generator::shared::{
    spec_readme_extra, README_AFTER_NAME, README_AFTER_STACK, README_HEAD, README_TAIL,
    spec_base_files, spec_compose_file, spec_env_file, spec_makefile, spec_nginx_conf,
    spec_port_text, text_if, COMPOSE_AFTER_PORT, COMPOSE_BEAT_SERVICE, COMPOSE_EXPOSE, COMPOSE_HEAD,
    COMPOSE_NODE_MODULES_MOUNT, COMPOSE_NODE_MODULES_VOLUME, COMPOSE_SERVICES, COMPOSE_VOLUMES,
    COMPOSE_WORKER_SERVICE, ENV_AFTER_NAME, ENV_AFTER_PORT, ENV_HEAD, ENV_TAIL, MAKEFILE_HEAD,
    MAKEFILE_TAIL, NGINX_HEAD, NGINX_TAIL,
};
use crate::project::{
    spec_label, spec_title_case, spec_app_port, spec_app_shell, spec_database_name, spec_uses_beat,
    spec_uses_node_modules_volume, Project, Stack,
};
use crate::text::{decimal, has_infix, lemma_infix_chars, lemma_infix_middle};

verus! {

/// The port of each stack and its numeral: `3000` for Node.js, `8000` for the
/// Python stacks.
pub proof fn law_port_text(stack: Stack)
    ensures
        spec_app_port(stack) == (if stack == Stack::Node { 3000u16 } else { 8000u16 }),
        spec_port_text(stack) == (if stack == Stack::Node { "3000"@ } else { "8000"@ }),
{
    reveal_with_fuel(decimal, 5);
    reveal_strlit("3000");
    reveal_strlit("8000");
    if stack == Stack::Node {
        assert(spec_port_text(stack) =~= "3000"@);
    } else {
        assert(spec_port_text(stack) =~= "8000"@);
    }
}

/// The port the app listens on is the one `.env` sets, the one the compose file
/// exposes and the one nginx proxies to.
pub proof fn law_port_is_shared(project: Project)
    ensures
        ({
            let port = spec_port_text(project.stack);
            let files = spec_base_files(project);
            &&& has_infix(files[1].1, "APP_PORT="@ + port + "\n"@)
            &&& has_infix(files[6].1, "    expose:\n      - \""@ + port + "\""@)
            &&& has_infix(files[8].1, "proxy_pass http://app:"@ + port + ";"@)
        }),
{
    let stack = project.stack;
    let port = spec_port_text(stack);
    reveal_strlit(r#"
APP_ENV=development
APP_PORT="#);
    reveal_strlit(r#"
POSTGRES_DB="#);
    reveal_strlit("APP_PORT=");
    reveal_strlit("\n");
    let slug = project.slug@;
    let env_pre = ENV_HEAD@ + slug + ENV_AFTER_NAME@.take(21);
    let env_post = ENV_AFTER_PORT@.skip(1) + spec_database_name(slug) + ENV_TAIL@;
    assert(ENV_AFTER_NAME@ =~= ENV_AFTER_NAME@.take(21) + "APP_PORT="@);
    assert(ENV_AFTER_PORT@ =~= "\n"@ + ENV_AFTER_PORT@.skip(1));
    assert(spec_env_file(stack, slug) =~= env_pre + ("APP_PORT="@ + port + "\n"@) + env_post);
    lemma_infix_middle(env_pre, "APP_PORT="@ + port + "\n"@, env_post);

    reveal_strlit(r#"    expose:
      - ""#);
    reveal_strlit(r#""

"#);
    reveal_strlit("    expose:\n      - \"");
    reveal_strlit("\"");
    let nm = spec_uses_node_modules_volume(stack);
    let compose_pre = COMPOSE_HEAD@ + text_if(nm, COMPOSE_NODE_MODULES_MOUNT@);
    let compose_post = COMPOSE_AFTER_PORT@.skip(1) + COMPOSE_WORKER_SERVICE@ + text_if(
        nm,
        COMPOSE_NODE_MODULES_MOUNT@,
    ) + text_if(spec_uses_beat(stack), COMPOSE_BEAT_SERVICE@) + COMPOSE_SERVICES@ + COMPOSE_VOLUMES@
        + text_if(nm, COMPOSE_NODE_MODULES_VOLUME@);
    assert(COMPOSE_EXPOSE@ =~= "    expose:\n      - \""@);
    assert(COMPOSE_AFTER_PORT@ =~= "\""@ + COMPOSE_AFTER_PORT@.skip(1));
    assert(spec_compose_file(stack) =~= compose_pre + ("    expose:\n      - \""@ + port + "\""@)
        + compose_post);
    lemma_infix_middle(compose_pre, "    expose:\n      - \""@ + port + "\""@, compose_post);

    reveal_strlit(r#"server {
    listen 80;
    server_name _;
    client_max_body_size 32m;

    location / {
        proxy_pass http://app:"#);
    reveal_strlit(r#";
        proxy_http_version 1.1;
        proxy_set_header Host $host;
        proxy_set_header X-Real-IP $remote_addr;
        proxy_set_header X-Forwarded-For $proxy_add_x_forwarded_for;
        proxy_set_header X-Forwarded-Proto $scheme;
        proxy_set_header Upgrade $http_upgrade;
        proxy_set_header Connection "upgrade";
    }
}
"#);
    reveal_strlit("proxy_pass http://app:");
    reveal_strlit(";");
    let nginx_pre = NGINX_HEAD@.take(99);
    let nginx_post = NGINX_TAIL@.skip(1);
    assert(NGINX_HEAD@ =~= nginx_pre + "proxy_pass http://app:"@);
    assert(NGINX_TAIL@ =~= ";"@ + nginx_post);
    assert(spec_nginx_conf(stack) =~= nginx_pre + ("proxy_pass http://app:"@ + port + ";"@) + nginx_post);
    lemma_infix_middle(nginx_pre, "proxy_pass http://app:"@ + port + ";"@, nginx_post);
}

/// The nginx site uses nginx's own variable syntax, with no `$$` anywhere, and
/// forwards the host and the upgrade header to the app.
pub proof fn law_nginx_site_uses_plain_variables(stack: Stack)
    ensures
        ({
            let site = spec_nginx_conf(stack);
            &&& forall|i: int| 0 <= i < site.len() - 1 ==> !(#[trigger] site[i] == '$' && site[i + 1] == '$')
            &&& has_infix(site, "proxy_set_header Host $host;"@)
            &&& has_infix(site, "proxy_set_header Upgrade $http_upgrade;"@)
        }),
{
    reveal_strlit(r#"server {
    listen 80;
    server_name _;
    client_max_body_size 32m;

    location / {
        proxy_pass http://app:"#);
    reveal_strlit(r#";
        proxy_http_version 1.1;
        proxy_set_header Host $host;
        proxy_set_header X-Real-IP $remote_addr;
        proxy_set_header X-Forwarded-For $proxy_add_x_forwarded_for;
        proxy_set_header X-Forwarded-Proto $scheme;
        proxy_set_header Upgrade $http_upgrade;
        proxy_set_header Connection "upgrade";
    }
}
"#);
    reveal_strlit("proxy_set_header Host $host;");
    reveal_strlit("proxy_set_header Upgrade $http_upgrade;");
    law_port_text(stack);
    reveal_strlit("3000");
    reveal_strlit("8000");
    let site = spec_nginx_conf(stack);
    let port = spec_port_text(stack);
    assert forall|i: int| 0 <= i < site.len() - 1 implies !(#[trigger] site[i] == '$' && site[i + 1] == '$') by {
        if i < NGINX_HEAD@.len() {
            assert(site[i] == NGINX_HEAD@[i]);
        } else if i < NGINX_HEAD@.len() + port.len() {
            assert(site[i] == port[i - NGINX_HEAD@.len()]);
        } else {
            assert(site[i] == NGINX_TAIL@[i - NGINX_HEAD@.len() - port.len()]);
            assert(site[i + 1] == NGINX_TAIL@[i + 1 - NGINX_HEAD@.len() - port.len()]);
        }
    }
    let pre = NGINX_HEAD@ + port;
    assert(NGINX_TAIL@ =~= NGINX_TAIL@.take(42) + "proxy_set_header Host $host;"@ + NGINX_TAIL@.skip(70));
    assert(site =~= (pre + NGINX_TAIL@.take(42)) + "proxy_set_header Host $host;"@ + NGINX_TAIL@.skip(70));
    lemma_infix_middle(pre + NGINX_TAIL@.take(42), "proxy_set_header Host $host;"@, NGINX_TAIL@.skip(70));
    assert(NGINX_TAIL@ =~= NGINX_TAIL@.take(249) + "proxy_set_header Upgrade $http_upgrade;"@ + NGINX_TAIL@.skip(288));
    assert(site =~= (pre + NGINX_TAIL@.take(249)) + "proxy_set_header Upgrade $http_upgrade;"@ + NGINX_TAIL@.skip(288));
    lemma_infix_middle(pre + NGINX_TAIL@.take(249), "proxy_set_header Upgrade $http_upgrade;"@, NGINX_TAIL@.skip(288));
}

/// The Makefile is the same for every project. It has the targets `up`, `down`,
/// `logs`, `rebuild`, `app-shell` and `db-shell`, and `app-shell` runs the
/// command that opens a shell in the app container.
pub proof fn law_makefile_targets(a: Stack, b: Stack)
    ensures
        spec_makefile(a) == spec_makefile(b),
        ({
            let make = spec_makefile(a);
            &&& has_infix(make, "up:\n"@)
            &&& has_infix(make, "down:\n"@)
            &&& has_infix(make, "logs:\n"@)
            &&& has_infix(make, "rebuild:\n"@)
            &&& has_infix(make, "app-shell:\n\t"@ + spec_app_shell() + "\n"@)
            &&& has_infix(make, "db-shell:\n"@)
        }),
{
    reveal_strlit(r#"up:
	docker compose up --build

down:
	docker compose down

logs:
	docker compose logs -f

rebuild:
	docker compose build --no-cache

app-shell:
	"#);
    reveal_strlit(r#"

db-shell:
	docker compose exec postgres sh -lc 'psql -U "$$POSTGRES_USER" -d "$$POSTGRES_DB"'
"#);
    reveal_strlit("up:\n");
    reveal_strlit("down:\n");
    reveal_strlit("logs:\n");
    reveal_strlit("rebuild:\n");
    reveal_strlit("app-shell:\n\t");
    reveal_strlit("db-shell:\n");
    reveal_strlit("\n");
    let make = spec_makefile(a);
    let shell = spec_app_shell();
    assert(MAKEFILE_HEAD@ =~= MAKEFILE_HEAD@.take(0) + "up:\n"@ + MAKEFILE_HEAD@.skip(4));
    assert(make =~= MAKEFILE_HEAD@.take(0) + "up:\n"@ + (MAKEFILE_HEAD@.skip(4) + shell + MAKEFILE_TAIL@));
    lemma_infix_middle(MAKEFILE_HEAD@.take(0), "up:\n"@, MAKEFILE_HEAD@.skip(4) + shell + MAKEFILE_TAIL@);
    assert(MAKEFILE_HEAD@ =~= MAKEFILE_HEAD@.take(32) + "down:\n"@ + MAKEFILE_HEAD@.skip(38));
    assert(make =~= MAKEFILE_HEAD@.take(32) + "down:\n"@ + (MAKEFILE_HEAD@.skip(38) + shell + MAKEFILE_TAIL@));
    lemma_infix_middle(MAKEFILE_HEAD@.take(32), "down:\n"@, MAKEFILE_HEAD@.skip(38) + shell + MAKEFILE_TAIL@);
    assert(MAKEFILE_HEAD@ =~= MAKEFILE_HEAD@.take(60) + "logs:\n"@ + MAKEFILE_HEAD@.skip(66));
    assert(make =~= MAKEFILE_HEAD@.take(60) + "logs:\n"@ + (MAKEFILE_HEAD@.skip(66) + shell + MAKEFILE_TAIL@));
    lemma_infix_middle(MAKEFILE_HEAD@.take(60), "logs:\n"@, MAKEFILE_HEAD@.skip(66) + shell + MAKEFILE_TAIL@);
    assert(MAKEFILE_HEAD@ =~= MAKEFILE_HEAD@.take(91) + "rebuild:\n"@ + MAKEFILE_HEAD@.skip(100));
    assert(make =~= MAKEFILE_HEAD@.take(91) + "rebuild:\n"@ + (MAKEFILE_HEAD@.skip(100) + shell + MAKEFILE_TAIL@));
    lemma_infix_middle(MAKEFILE_HEAD@.take(91), "rebuild:\n"@, MAKEFILE_HEAD@.skip(100) + shell + MAKEFILE_TAIL@);
    assert(MAKEFILE_HEAD@ =~= MAKEFILE_HEAD@.take(134) + "app-shell:\n\t"@);
    assert(MAKEFILE_TAIL@ =~= "\n"@ + MAKEFILE_TAIL@.skip(1));
    assert(make =~= MAKEFILE_HEAD@.take(134) + ("app-shell:\n\t"@ + shell + "\n"@) + MAKEFILE_TAIL@.skip(1));
    lemma_infix_middle(MAKEFILE_HEAD@.take(134), "app-shell:\n\t"@ + shell + "\n"@, MAKEFILE_TAIL@.skip(1));
    assert(MAKEFILE_TAIL@ =~= MAKEFILE_TAIL@.take(2) + "db-shell:\n"@ + MAKEFILE_TAIL@.skip(12));
    assert(make =~= (MAKEFILE_HEAD@ + shell + MAKEFILE_TAIL@.take(2)) + "db-shell:\n"@ + MAKEFILE_TAIL@.skip(12));
    lemma_infix_middle(MAKEFILE_HEAD@ + shell + MAKEFILE_TAIL@.take(2), "db-shell:\n"@, MAKEFILE_TAIL@.skip(12));
}

/// No run `beat:` stands in the compose file of a stack without a beat process.
#[verifier::rlimit(100)]
proof fn lemma_compose_without_beat(stack: Stack)
    requires
        !spec_uses_beat(stack),
    ensures
        ({
            let site = spec_compose_file(stack);
            forall|i: int| 0 <= i < site.len() - 4 ==> !(#[trigger] site[i] == 'b' && site[i + 1] == 'e' && site[i + 2] == 'a' && site[i + 3] == 't' && site[i + 4] == ':')
        }),
{
    reveal_strlit(r#"services:
  app:
    build:
      context: .
      dockerfile: docker/Dockerfile
    command: sh /workspace/docker/start.sh
    env_file:
      - .env
    depends_on:
      postgres:
        condition: service_healthy
      redis:
        condition: service_healthy
    volumes:
      - ./app:/workspace/app
      - ./docker:/workspace/docker
"#);
    reveal_strlit(r#"    expose:
      - ""#);
    reveal_strlit(r#""

"#);
    reveal_strlit(r#"
  worker:
    build:
      context: .
      dockerfile: docker/Dockerfile
    command: sh /workspace/docker/worker.sh
    env_file:
      - .env
    depends_on:
      postgres:
        condition: service_healthy
      redis:
        condition: service_healthy
    volumes:
      - ./app:/workspace/app
      - ./docker:/workspace/docker
"#);
    reveal_strlit(r#"      - node_modules:/workspace/app/node_modules
"#);
    reveal_strlit(r#"
  beat:
    build:
      context: .
      dockerfile: docker/Dockerfile
    command: sh /workspace/docker/beat.sh
    env_file:
      - .env
    depends_on:
      postgres:
        condition: service_healthy
      redis:
        condition: service_healthy
    volumes:
      - ./app:/workspace/app
      - ./docker:/workspace/docker
"#);
    reveal_strlit(r#"  nginx:
    image: nginx:1.27-alpine
    depends_on:
      - app
    ports:
      - "80:80"
    volumes:
      - ./nginx/default.conf:/etc/nginx/conf.d/default.conf:ro

  postgres:
    image: postgres:16-alpine
    env_file:
      - .env
    environment:
      POSTGRES_DB: ${POSTGRES_DB}
      POSTGRES_USER: ${POSTGRES_USER}
      POSTGRES_PASSWORD: ${POSTGRES_PASSWORD}
    healthcheck:
      test: ["CMD-SHELL", "pg_isready -U $${POSTGRES_USER} -d $${POSTGRES_DB}"]
      interval: 5s
      timeout: 5s
      retries: 20
    ports:
      - "5432:5432"
    volumes:
      - postgres_data:/var/lib/postgresql/data

  redis:
    image: redis:7-alpine
    healthcheck:
      test: ["CMD", "redis-cli", "ping"]
      interval: 5s
      timeout: 3s
      retries: 20
    ports:
      - "6379:6379"
    volumes:
      - redis_data:/data
"#);
    reveal_strlit(r#"
volumes:
  postgres_data:
  redis_data:
"#);
    reveal_strlit(r#"  node_modules:
"#);
    law_port_text(stack);
    reveal_strlit("3000");
}

/// No run `node_` stands in the compose file of a stack without a shared
/// `node_modules` volume.
#[verifier::rlimit(100)]
proof fn lemma_compose_without_node_modules(stack: Stack)
    requires
        !spec_uses_node_modules_volume(stack),
    ensures
        ({
            let site = spec_compose_file(stack);
            forall|i: int| 0 <= i < site.len() - 4 ==> !(#[trigger] site[i] == 'n' && site[i + 1] == 'o' && site[i + 2] == 'd' && site[i + 3] == 'e' && site[i + 4] == '_')
        }),
{
    reveal_strlit(r#"services:
  app:
    build:
      context: .
      dockerfile: docker/Dockerfile
    command: sh /workspace/docker/start.sh
    env_file:
      - .env
    depends_on:
      postgres:
        condition: service_healthy
      redis:
        condition: service_healthy
    volumes:
      - ./app:/workspace/app
      - ./docker:/workspace/docker
"#);
    reveal_strlit(r#"    expose:
      - ""#);
    reveal_strlit(r#""

"#);
    reveal_strlit(r#"
  worker:
    build:
      context: .
      dockerfile: docker/Dockerfile
    command: sh /workspace/docker/worker.sh
    env_file:
      - .env
    depends_on:
      postgres:
        condition: service_healthy
      redis:
        condition: service_healthy
    volumes:
      - ./app:/workspace/app
      - ./docker:/workspace/docker
"#);
    reveal_strlit(r#"      - node_modules:/workspace/app/node_modules
"#);
    reveal_strlit(r#"
  beat:
    build:
      context: .
      dockerfile: docker/Dockerfile
    command: sh /workspace/docker/beat.sh
    env_file:
      - .env
    depends_on:
      postgres:
        condition: service_healthy
      redis:
        condition: service_healthy
    volumes:
      - ./app:/workspace/app
      - ./docker:/workspace/docker
"#);
    reveal_strlit(r#"  nginx:
    image: nginx:1.27-alpine
    depends_on:
      - app
    ports:
      - "80:80"
    volumes:
      - ./nginx/default.conf:/etc/nginx/conf.d/default.conf:ro

  postgres:
    image: postgres:16-alpine
    env_file:
      - .env
    environment:
      POSTGRES_DB: ${POSTGRES_DB}
      POSTGRES_USER: ${POSTGRES_USER}
      POSTGRES_PASSWORD: ${POSTGRES_PASSWORD}
    healthcheck:
      test: ["CMD-SHELL", "pg_isready -U $${POSTGRES_USER} -d $${POSTGRES_DB}"]
      interval: 5s
      timeout: 5s
      retries: 20
    ports:
      - "5432:5432"
    volumes:
      - postgres_data:/var/lib/postgresql/data

  redis:
    image: redis:7-alpine
    healthcheck:
      test: ["CMD", "redis-cli", "ping"]
      interval: 5s
      timeout: 3s
      retries: 20
    ports:
      - "6379:6379"
    volumes:
      - redis_data:/data
"#);
    reveal_strlit(r#"
volumes:
  postgres_data:
  redis_data:
"#);
    reveal_strlit(r#"  node_modules:
"#);
    law_port_text(stack);
    reveal_strlit("8000");
}

/// The compose file depends on the stack alone. It starts with the app service,
/// has a beat service exactly when the stack runs beat, and mentions
/// `node_modules` exactly when the stack shares a `node_modules` volume.
pub proof fn law_compose_file_parts(p: Project, q: Project)
    ensures
        spec_base_files(p)[6].0 == "compose.yaml"@,
        spec_base_files(p)[6].1 == spec_compose_file(p.stack),
        p.stack == q.stack ==> spec_base_files(p)[6].1 == spec_base_files(q)[6].1,
        ({
            let site = spec_compose_file(p.stack);
            &&& site.len() >= 17 && site.subrange(0, 17) == "services:\n  app:\n"@
            &&& has_infix(site, "  beat:\n"@) <==> spec_uses_beat(p.stack)
            &&& has_infix(site, "node_modules"@) <==> spec_uses_node_modules_volume(p.stack)
        }),
{
    let stack = p.stack;
    let site = spec_compose_file(stack);
    let nm = spec_uses_node_modules_volume(stack);
    let beat = spec_uses_beat(stack);
    let port = spec_port_text(stack);
    reveal_strlit(r#"services:
  app:
    build:
      context: .
      dockerfile: docker/Dockerfile
    command: sh /workspace/docker/start.sh
    env_file:
      - .env
    depends_on:
      postgres:
        condition: service_healthy
      redis:
        condition: service_healthy
    volumes:
      - ./app:/workspace/app
      - ./docker:/workspace/docker
"#);
    reveal_strlit(r#"
  beat:
    build:
      context: .
      dockerfile: docker/Dockerfile
    command: sh /workspace/docker/beat.sh
    env_file:
      - .env
    depends_on:
      postgres:
        condition: service_healthy
      redis:
        condition: service_healthy
    volumes:
      - ./app:/workspace/app
      - ./docker:/workspace/docker
"#);
    reveal_strlit(r#"      - node_modules:/workspace/app/node_modules
"#);
    reveal_strlit("services:\n  app:\n");
    reveal_strlit("  beat:\n");
    reveal_strlit("node_modules");
    assert(site.subrange(0, 17) =~= "services:\n  app:\n"@);
    let x = COMPOSE_HEAD@ + text_if(nm, COMPOSE_NODE_MODULES_MOUNT@) + COMPOSE_EXPOSE@ + port
        + COMPOSE_AFTER_PORT@ + COMPOSE_WORKER_SERVICE@ + text_if(nm, COMPOSE_NODE_MODULES_MOUNT@);
    let y = COMPOSE_SERVICES@ + COMPOSE_VOLUMES@ + text_if(nm, COMPOSE_NODE_MODULES_VOLUME@);
    assert(site =~= x + text_if(beat, COMPOSE_BEAT_SERVICE@) + y);
    if beat {
        let b = COMPOSE_BEAT_SERVICE@;
        assert(b =~= b.take(1) + "  beat:\n"@ + b.skip(9));
        assert(site =~= (x + b.take(1)) + "  beat:\n"@ + (b.skip(9) + y));
        lemma_infix_middle(x + b.take(1), "  beat:\n"@, b.skip(9) + y);
    } else if has_infix(site, "  beat:\n"@) {
        lemma_compose_without_beat(stack);
        let i = lemma_infix_chars(site, "  beat:\n"@);
        assert(site[i + 2] == "  beat:\n"@[2]);
        assert(site[i + 3] == "  beat:\n"@[3]);
        assert(site[i + 4] == "  beat:\n"@[4]);
        assert(site[i + 5] == "  beat:\n"@[5]);
        assert(site[i + 6] == "  beat:\n"@[6]);
        assert(site[i + 2] == 'b');
    }
    if nm {
        let m = COMPOSE_NODE_MODULES_MOUNT@;
        let rest = COMPOSE_EXPOSE@ + port + COMPOSE_AFTER_PORT@ + COMPOSE_WORKER_SERVICE@
            + text_if(nm, COMPOSE_NODE_MODULES_MOUNT@) + text_if(beat, COMPOSE_BEAT_SERVICE@) + y;
        assert(m =~= m.take(8) + "node_modules"@ + m.skip(20));
        assert(site =~= (COMPOSE_HEAD@ + m.take(8)) + "node_modules"@ + (m.skip(20) + rest));
        lemma_infix_middle(COMPOSE_HEAD@ + m.take(8), "node_modules"@, m.skip(20) + rest);
    } else if has_infix(site, "node_modules"@) {
        lemma_compose_without_node_modules(stack);
        let i = lemma_infix_chars(site, "node_modules"@);
        assert(site[i] == "node_modules"@[0]);
        assert(site[i + 1] == "node_modules"@[1]);
        assert(site[i + 2] == "node_modules"@[2]);
        assert(site[i + 3] == "node_modules"@[3]);
        assert(site[i + 4] == "node_modules"@[4]);
        assert(site[i] == 'n');
    }
}

/// `.env` opens by naming the app after the slug, and names the database after
/// the slug with underscores for dashes.
pub proof fn law_env_names(project: Project)
    ensures
        ({
            let env = spec_base_files(project)[1].1;
            let slug = project.slug@;
            &&& env.len() >= slug.len() + 10
            &&& env.subrange(0, (slug.len() + 10) as int) == "APP_NAME="@ + slug + "\n"@
            &&& has_infix(env, "\nPOSTGRES_DB="@ + spec_database_name(slug) + "\n"@)
        }),
{
    reveal_strlit("APP_NAME=");
    reveal_strlit("\n");
    reveal_strlit("\nPOSTGRES_DB=");
    reveal_strlit(r#"
APP_ENV=development
APP_PORT="#);
    reveal_strlit(r#"
POSTGRES_USER=devstack
POSTGRES_PASSWORD=devstack
POSTGRES_HOST=postgres
POSTGRES_PORT=5432
REDIS_URL=redis://redis:6379/0
SECRET_KEY=change-me-now
ALLOWED_HOSTS=localhost,127.0.0.1
CORS_ORIGINS=http://localhost,http://127.0.0.1
CELERY_BROKER_URL=redis://redis:6379/0
CELERY_RESULT_BACKEND=redis://redis:6379/1
"#);
    let stack = project.stack;
    let slug = project.slug@;
    let env = spec_env_file(stack, slug);
    let db = spec_database_name(slug);
    let port = spec_port_text(stack);
    assert(ENV_HEAD@ =~= "APP_NAME="@);
    assert(ENV_AFTER_NAME@[0] == '\n');
    assert(env.subrange(0, (slug.len() + 10) as int) =~= "APP_NAME="@ + slug + "\n"@);
    assert(ENV_TAIL@ =~= "\n"@ + ENV_TAIL@.skip(1));
    let pre = ENV_HEAD@ + slug + ENV_AFTER_NAME@ + port;
    assert(env =~= pre + ("\nPOSTGRES_DB="@ + db + "\n"@) + ENV_TAIL@.skip(1));
    lemma_infix_middle(pre, "\nPOSTGRES_DB="@ + db + "\n"@, ENV_TAIL@.skip(1));
}

/// The files that differ by stack fit it: a Node.js project ignores
/// `node_modules` and sets up Node in CI, a Python project ignores
/// `__pycache__/` and sets up Python; every project keeps `.env` out of git,
/// and the README names the stack by its label.
pub proof fn law_stack_specific_files(project: Project)
    ensures
        ({
            let files = spec_base_files(project);
            let node = project.stack == Stack::Node;
            let ignored = if node { "node_modules\n"@ } else { "__pycache__/\n"@ };
            &&& files[3].0 == ".gitignore"@ && files[4].0 == ".dockerignore"@
            &&& files[3].1.len() >= ignored.len() && files[3].1.subrange(0, ignored.len() as int) == ignored
            &&& files[4].1.len() >= ignored.len() && files[4].1.subrange(0, ignored.len() as int) == ignored
            &&& has_infix(files[3].1, "\n.env\n"@)
            &&& has_infix(files[7].1, if node { "uses: actions/setup-node@v4"@ } else { "uses: actions/setup-python@v5"@ })
            &&& has_infix(files[0].1, "Generated by DevStack for "@ + spec_label(project.stack) + ".\n"@)
        }),
{
    reveal_strlit("node_modules\n");
    reveal_strlit("__pycache__/\n");
    reveal_strlit("\n.env\n");
    reveal_strlit("uses: actions/setup-node@v4");
    reveal_strlit("uses: actions/setup-python@v5");
    reveal_strlit("Generated by DevStack for ");
    reveal_strlit(".\n");
    reveal_strlit("\n\nGenerated by DevStack for ");
    reveal_strlit(".\n\n");
    reveal_strlit(r#"node_modules
.env
.DS_Store
dist
coverage
"#);
    reveal_strlit(r#"__pycache__/
*.pyc
.pytest_cache/
.venv/
.env
.DS_Store
"#);
    reveal_strlit(r#"node_modules
npm-debug.log
.git
"#);
    reveal_strlit(r#"__pycache__/
*.pyc
.venv/
.git
"#);
    reveal_strlit(r#"name: ci

on:
  push:
  pull_request:

jobs:
  verify:
    runs-on: ubuntu-latest
    steps:
      - uses: actions/checkout@v4
      - uses: actions/setup-node@v4
        with:
          node-version: "22"
      - name: Install dependencies
        working-directory: app
        run: npm install
      - name: Syntax check
        working-directory: app
        run: |
          node --check src/index.js
          node --check src/worker.js
      - name: Validate Compose
        run: docker compose config
      - name: Build containers
        run: docker compose build
"#);
    reveal_strlit(r#"name: ci

on:
  push:
  pull_request:

jobs:
  verify:
    runs-on: ubuntu-latest
    steps:
      - uses: actions/checkout@v4
      - uses: actions/setup-python@v5
        with:
          python-version: "3.12"
      - name: Install dependencies
        run: |
          python -m pip install --upgrade pip
          pip install -r app/requirements.txt
      - name: Compile source
        run: python -m compileall app
      - name: Validate Compose
        run: docker compose config
      - name: Build containers
        run: docker compose build
"#);
    let files = spec_base_files(project);
    let stack = project.stack;
    let node = stack == Stack::Node;
    let ignored = if node { "node_modules\n"@ } else { "__pycache__/\n"@ };
    assert(files[3].1.subrange(0, ignored.len() as int) =~= ignored);
    assert(files[4].1.subrange(0, ignored.len() as int) =~= ignored);
    let g = files[3].1;
    if node {
        assert(g =~= g.take(12) + "\n.env\n"@ + g.skip(18));
        lemma_infix_middle(g.take(12), "\n.env\n"@, g.skip(18));
        let c = files[7].1;
        assert(c =~= c.take(135) + "uses: actions/setup-node@v4"@ + c.skip(162));
        lemma_infix_middle(c.take(135), "uses: actions/setup-node@v4"@, c.skip(162));
    } else {
        assert(g =~= g.take(40) + "\n.env\n"@ + g.skip(46));
        lemma_infix_middle(g.take(40), "\n.env\n"@, g.skip(46));
        let c = files[7].1;
        assert(c =~= c.take(135) + "uses: actions/setup-python@v5"@ + c.skip(164));
        lemma_infix_middle(c.take(135), "uses: actions/setup-python@v5"@, c.skip(164));
    }
    let title = spec_title_case(project.name@);
    let label = spec_label(stack);
    let x = README_HEAD@ + title + "\n\n"@;
    reveal_strlit("\n\n");
    assert(README_AFTER_NAME@ =~= "\n\n"@ + "Generated by DevStack for "@);
    reveal_strlit("\n");
    assert(README_AFTER_STACK@ =~= ".\n"@ + "\n"@);
    let y = "\n"@ + spec_readme_extra(stack) + README_TAIL@;
    assert(files[0].1 =~= x + ("Generated by DevStack for "@ + label + ".\n"@) + y);
    lemma_infix_middle(x, "Generated by DevStack for "@ + label + ".\n"@, y);
}

} // verus!
