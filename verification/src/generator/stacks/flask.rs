use vstd::prelude::*;
use crate::project::{entries_view, spec_database_name, FileEntry, Project};
use crate::generator::shared::{executable_file, python_dockerfile, text_file, PYTHON_DOCKERFILE};

verus! {

/// The files a Flask project adds to the shared ones: path, contents and
/// whether the file is executable, in the order in which they are written.
pub open spec fn spec_files(project: Project) -> Seq<(Seq<char>, Seq<char>, bool)> {
    seq![
        ("docker/Dockerfile"@, PYTHON_DOCKERFILE@, false),
        ("docker/start.sh"@, START_SCRIPT@, true),
        ("docker/worker.sh"@, WORKER_SCRIPT@, true),
        ("docker/beat.sh"@, BEAT_SCRIPT@, true),
        ("app/requirements.txt"@, REQUIREMENTS@, false),
        ("app/app/__init__.py"@, spec_app_init(project.slug@), false),
        ("app/app/config.py"@, spec_config_py(project.slug@, spec_database_name(project.slug@)), false),
        ("app/app/routes.py"@, spec_routes_py(project.slug@), false),
        ("app/app/tasks.py"@, TASKS_PY@, false),
        ("app/app/celery_app.py"@, CELERY_APP_PY@, false),
        ("app/app/wsgi.py"@, WSGI_PY@, false),
    ]
}

/// The files of a Flask project beyond the shared ones.
pub fn files(project: &Project) -> (r: Vec<FileEntry>)
    ensures
        entries_view(r@) == spec_files(*project),
{
    let v = vec![
        text_file("docker/Dockerfile", python_dockerfile()),
        executable_file("docker/start.sh", start_script()),
        executable_file("docker/worker.sh", worker_script()),
        executable_file("docker/beat.sh", beat_script()),
        text_file("app/requirements.txt", requirements()),
        text_file("app/app/__init__.py", app_init(project)),
        text_file("app/app/config.py", config_py(project)),
        text_file("app/app/routes.py", routes_py(project)),
        text_file("app/app/tasks.py", tasks_py()),
        text_file("app/app/celery_app.py", celery_app_py()),
        text_file("app/app/wsgi.py", wsgi_py()),
    ];
    assert(entries_view(v@) =~= spec_files(*project));
    v
}

pub const START_SCRIPT: &'static str = r#"#!/bin/sh
set -e
gunicorn --bind 0.0.0.0:${APP_PORT:-8000} "app.wsgi:app"
"#;

fn start_script() -> (r: String)
    ensures
        r@ == START_SCRIPT@,
{
    String::from_str(START_SCRIPT)
}

pub const WORKER_SCRIPT: &'static str = r#"#!/bin/sh
set -e
celery -A app.celery_app.celery_app worker --loglevel=info
"#;

fn worker_script() -> (r: String)
    ensures
        r@ == WORKER_SCRIPT@,
{
    String::from_str(WORKER_SCRIPT)
}

pub const BEAT_SCRIPT: &'static str = r#"#!/bin/sh
set -e
celery -A app.celery_app.celery_app beat --loglevel=info
"#;

fn beat_script() -> (r: String)
    ensures
        r@ == BEAT_SCRIPT@,
{
    String::from_str(BEAT_SCRIPT)
}

pub const REQUIREMENTS: &'static str = r#"celery[redis]==5.4.0
Flask==3.0.3
gunicorn==22.0.0
psycopg[binary]==3.2.1
redis==5.0.7
SQLAlchemy==2.0.36
"#;

fn requirements() -> (r: String)
    ensures
        r@ == REQUIREMENTS@,
{
    String::from_str(REQUIREMENTS)
}

pub const APP_INIT_HEAD: &'static str = r#"from flask import Flask
from .routes import register_routes

def create_app():
"#;

pub const APP_INIT_LINE_START: &'static str = r#"    app = Flask(""#;

pub const APP_INIT_LINE_END: &'static str = r#"")
"#;

pub const APP_INIT_TAIL: &'static str = r#"    app.config.from_object("app.config.Config")
    register_routes(app)
    return app
"#;

/// The contents of `app/app/__init__.py`, with the slug filled in.
pub open spec fn spec_app_init(slug: Seq<char>) -> Seq<char> {
    APP_INIT_HEAD@ + APP_INIT_LINE_START@ + slug + APP_INIT_LINE_END@ + APP_INIT_TAIL@
}

fn app_init(project: &Project) -> (r: String)
    ensures
        r@ == spec_app_init(project.slug@),
{
    let mut s = String::from_str(APP_INIT_HEAD);
    s.append(APP_INIT_LINE_START);
    s.append(project.slug.as_str());
    s.append(APP_INIT_LINE_END);
    s.append(APP_INIT_TAIL);
    s
}

pub const CONFIG_PY_HEAD: &'static str = r#"import os

class Config:
"#;

pub const CONFIG_PY_LINE_A_START: &'static str = r#"    APP_NAME = os.getenv("APP_NAME", ""#;

pub const CONFIG_PY_LINE_A_END: &'static str = r#"")
"#;

pub const CONFIG_PY_MID: &'static str = r#"    POSTGRES_HOST = os.getenv("POSTGRES_HOST", "postgres")
    POSTGRES_PORT = int(os.getenv("POSTGRES_PORT", "5432"))
"#;

pub const CONFIG_PY_LINE_B_START: &'static str = r#"    POSTGRES_DB = os.getenv("POSTGRES_DB", ""#;

pub const CONFIG_PY_LINE_B_END: &'static str = r#"")
"#;

pub const CONFIG_PY_TAIL: &'static str = r#"    POSTGRES_USER = os.getenv("POSTGRES_USER", "devstack")
    POSTGRES_PASSWORD = os.getenv("POSTGRES_PASSWORD", "devstack")
    REDIS_URL = os.getenv("REDIS_URL", "redis://redis:6379/0")
    CELERY_BROKER_URL = os.getenv("CELERY_BROKER_URL", REDIS_URL)
    CELERY_RESULT_BACKEND = os.getenv("CELERY_RESULT_BACKEND", "redis://redis:6379/1")
"#;

/// The contents of `app/app/config.py`, with the slug and the database name filled in.
pub open spec fn spec_config_py(slug: Seq<char>, database: Seq<char>) -> Seq<char> {
    CONFIG_PY_HEAD@ + CONFIG_PY_LINE_A_START@ + slug + CONFIG_PY_LINE_A_END@ + CONFIG_PY_MID@ + CONFIG_PY_LINE_B_START@ + database + CONFIG_PY_LINE_B_END@ + CONFIG_PY_TAIL@
}

fn config_py(project: &Project) -> (r: String)
    ensures
        r@ == spec_config_py(project.slug@, spec_database_name(project.slug@)),
{
    let database = project.stack.database_name(project.slug.as_str());
    let mut s = String::from_str(CONFIG_PY_HEAD);
    s.append(CONFIG_PY_LINE_A_START);
    s.append(project.slug.as_str());
    s.append(CONFIG_PY_LINE_A_END);
    s.append(CONFIG_PY_MID);
    s.append(CONFIG_PY_LINE_B_START);
    s.append(database.as_str());
    s.append(CONFIG_PY_LINE_B_END);
    s.append(CONFIG_PY_TAIL);
    s
}

pub const ROUTES_PY_HEAD: &'static str = r#"from flask import jsonify, request
from psycopg import connect
from redis import Redis
from .tasks import ping

def register_routes(app):
    @app.get("/")
    def home():
"#;

pub const ROUTES_PY_LINE_A_START: &'static str = r#"        return ""#;

pub const ROUTES_PY_LINE_A_END: &'static str = r#" is live"
"#;

pub const ROUTES_PY_MID: &'static str = r#"
    @app.get("/healthz")
    def healthz():
        return jsonify({"status": "ok", "stack": "flask"})

    @app.get("/readyz")
    def readyz():
        try:
            with connect(
                host=app.config["POSTGRES_HOST"],
                port=app.config["POSTGRES_PORT"],
                dbname=app.config["POSTGRES_DB"],
                user=app.config["POSTGRES_USER"],
                password=app.config["POSTGRES_PASSWORD"],
            ) as conn:
                with conn.cursor() as cursor:
                    cursor.execute("select 1")
                    cursor.fetchone()
            Redis.from_url(app.config["REDIS_URL"]).ping()
            return jsonify({"status": "ready"})
        except Exception as error:
            return jsonify({"status": "error", "message": str(error)}), 503

    @app.post("/jobs/ping")
    def queue_ping():
"#;

pub const ROUTES_PY_LINE_B_START: &'static str = r#"        task = ping.delay(request.get_json(silent=True) or {"service": ""#;

pub const ROUTES_PY_LINE_B_END: &'static str = r#""})
"#;

pub const ROUTES_PY_TAIL: &'static str = r#"        return jsonify({"queued": True, "task_id": task.id}), 202
"#;

/// The contents of `app/app/routes.py`, with the slug filled in.
pub open spec fn spec_routes_py(slug: Seq<char>) -> Seq<char> {
    ROUTES_PY_HEAD@ + ROUTES_PY_LINE_A_START@ + slug + ROUTES_PY_LINE_A_END@ + ROUTES_PY_MID@ + ROUTES_PY_LINE_B_START@ + slug + ROUTES_PY_LINE_B_END@ + ROUTES_PY_TAIL@
}

fn routes_py(project: &Project) -> (r: String)
    ensures
        r@ == spec_routes_py(project.slug@),
{
    let mut s = String::from_str(ROUTES_PY_HEAD);
    s.append(ROUTES_PY_LINE_A_START);
    s.append(project.slug.as_str());
    s.append(ROUTES_PY_LINE_A_END);
    s.append(ROUTES_PY_MID);
    s.append(ROUTES_PY_LINE_B_START);
    s.append(project.slug.as_str());
    s.append(ROUTES_PY_LINE_B_END);
    s.append(ROUTES_PY_TAIL);
    s
}

pub const TASKS_PY: &'static str = r#"from .celery_app import celery_app

@celery_app.task(name="tasks.ping")
def ping(payload):
    return {"received": payload}
"#;

fn tasks_py() -> (r: String)
    ensures
        r@ == TASKS_PY@,
{
    String::from_str(TASKS_PY)
}

pub const CELERY_APP_PY: &'static str = r#"from celery import Celery
from .config import Config

celery_app = Celery(
    "app",
    broker=Config.CELERY_BROKER_URL,
    backend=Config.CELERY_RESULT_BACKEND,
)
celery_app.conf.update(task_track_started=True)
"#;

fn celery_app_py() -> (r: String)
    ensures
        r@ == CELERY_APP_PY@,
{
    String::from_str(CELERY_APP_PY)
}

pub const WSGI_PY: &'static str = r#"from . import create_app

app = create_app()
"#;

fn wsgi_py() -> (r: String)
    ensures
        r@ == WSGI_PY@,
{
    String::from_str(WSGI_PY)
}

} // verus!
