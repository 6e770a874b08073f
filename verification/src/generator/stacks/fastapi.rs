use vstd::prelude::*;
use crate::project::{entries_view, spec_database_name, FileEntry, Project};
use crate::generator::shared::{executable_file, python_dockerfile, text_file, PYTHON_DOCKERFILE};

verus! {

/// The files a FastAPI project adds to the shared ones: path, contents and
/// whether the file is executable, in the order in which they are written.
pub open spec fn spec_files(project: Project) -> Seq<(Seq<char>, Seq<char>, bool)> {
    seq![
        ("docker/Dockerfile"@, PYTHON_DOCKERFILE@, false),
        ("docker/start.sh"@, START_SCRIPT@, true),
        ("docker/worker.sh"@, WORKER_SCRIPT@, true),
        ("docker/beat.sh"@, BEAT_SCRIPT@, true),
        ("app/requirements.txt"@, REQUIREMENTS@, false),
        ("app/app/config.py"@, spec_config_py(project.slug@, spec_database_name(project.slug@)), false),
        ("app/app/worker.py"@, WORKER_PY@, false),
        ("app/app/main.py"@, spec_main_py(project.slug@), false),
    ]
}

/// The files of a FastAPI project beyond the shared ones.
pub fn files(project: &Project) -> (r: Vec<FileEntry>)
    ensures
        entries_view(r@) == spec_files(*project),
{
    let v = vec![
        text_file("docker/Dockerfile", python_dockerfile()),
        executable_file("docker/start.sh", start_script()),
        executable_file("docker/worker.sh", worker_script()),
        executable_file("docker/beat.sh", beat_script()),
        text_file("app/requirements.txt", requirements()),
        text_file("app/app/config.py", config_py(project)),
        text_file("app/app/worker.py", worker_py()),
        text_file("app/app/main.py", main_py(project)),
    ];
    assert(entries_view(v@) =~= spec_files(*project));
    v
}

pub const START_SCRIPT: &'static str = r#"#!/bin/sh
set -e
uvicorn app.main:app --host 0.0.0.0 --port ${APP_PORT:-8000} --reload
"#;

fn start_script() -> (r: String)
    ensures
        r@ == START_SCRIPT@,
{
    String::from_str(START_SCRIPT)
}

pub const WORKER_SCRIPT: &'static str = r#"#!/bin/sh
set -e
celery -A app.worker.celery_app worker --loglevel=info
"#;

fn worker_script() -> (r: String)
    ensures
        r@ == WORKER_SCRIPT@,
{
    String::from_str(WORKER_SCRIPT)
}

pub const BEAT_SCRIPT: &'static str = r#"#!/bin/sh
set -e
celery -A app.worker.celery_app beat --loglevel=info
"#;

fn beat_script() -> (r: String)
    ensures
        r@ == BEAT_SCRIPT@,
{
    String::from_str(BEAT_SCRIPT)
}

pub const REQUIREMENTS: &'static str = r#"celery[redis]==5.4.0
fastapi==0.115.5
gunicorn==22.0.0
psycopg[binary]==3.2.1
redis==5.0.7
uvicorn[standard]==0.32.0
"#;

fn requirements() -> (r: String)
    ensures
        r@ == REQUIREMENTS@,
{
    String::from_str(REQUIREMENTS)
}

pub const CONFIG_PY_HEAD: &'static str = r#"import os

"#;

pub const CONFIG_PY_LINE_A_START: &'static str = r#"APP_NAME = os.getenv("APP_NAME", ""#;

pub const CONFIG_PY_LINE_A_END: &'static str = r#"")
"#;

pub const CONFIG_PY_MID: &'static str = r#"POSTGRES_HOST = os.getenv("POSTGRES_HOST", "postgres")
POSTGRES_PORT = int(os.getenv("POSTGRES_PORT", "5432"))
"#;

pub const CONFIG_PY_LINE_B_START: &'static str = r#"POSTGRES_DB = os.getenv("POSTGRES_DB", ""#;

pub const CONFIG_PY_LINE_B_END: &'static str = r#"")
"#;

pub const CONFIG_PY_TAIL: &'static str = r#"POSTGRES_USER = os.getenv("POSTGRES_USER", "devstack")
POSTGRES_PASSWORD = os.getenv("POSTGRES_PASSWORD", "devstack")
REDIS_URL = os.getenv("REDIS_URL", "redis://redis:6379/0")
CELERY_BROKER_URL = os.getenv("CELERY_BROKER_URL", REDIS_URL)
CELERY_RESULT_BACKEND = os.getenv("CELERY_RESULT_BACKEND", "redis://redis:6379/1")
"#;

/// The contents of `app/app/config.py`, with the slug and the database name filled in.
pub open spec fn spec_config_py(slug: Seq<char>, database: Seq<char>) -> Seq<char> {
    CONFIG_PY_HEAD@ + CONFIG_PY_LINE_A_START@ + slug + CONFIG_PY_LINE_A_END@ + CONFIG_PY_MID@ + CONFIG_PY_LINE_B_START@ + database + CONFIG_PY_LINE_B_END@ + CONFIG_PY_TAIL@
}

fn config_py(project: &Project) -> (r: String)
    ensures
        r@ == spec_config_py(project.slug@, spec_database_name(project.slug@)),
{
    let database = project.stack.database_name(project.slug.as_str());
    let mut s = String::from_str(CONFIG_PY_HEAD);
    s.append(CONFIG_PY_LINE_A_START);
    s.append(project.slug.as_str());
    s.append(CONFIG_PY_LINE_A_END);
    s.append(CONFIG_PY_MID);
    s.append(CONFIG_PY_LINE_B_START);
    s.append(database.as_str());
    s.append(CONFIG_PY_LINE_B_END);
    s.append(CONFIG_PY_TAIL);
    s
}

pub const WORKER_PY: &'static str = r#"from celery import Celery
from .config import CELERY_BROKER_URL, CELERY_RESULT_BACKEND

celery_app = Celery("app", broker=CELERY_BROKER_URL, backend=CELERY_RESULT_BACKEND)

@celery_app.task(name="tasks.ping")
def ping(payload):
    return {"received": payload}
"#;

fn worker_py() -> (r: String)
    ensures
        r@ == WORKER_PY@,
{
    String::from_str(WORKER_PY)
}

pub const MAIN_PY_HEAD: &'static str = r#"from fastapi import FastAPI, HTTPException
from psycopg import connect
from redis import Redis
from .config import APP_NAME, POSTGRES_DB, POSTGRES_HOST, POSTGRES_PASSWORD, POSTGRES_PORT, POSTGRES_USER, REDIS_URL
from .worker import ping

app = FastAPI(title=APP_NAME)

@app.get("/")
def home():
"#;

pub const MAIN_PY_LINE_A_START: &'static str = r#"    return {"message": ""#;

pub const MAIN_PY_LINE_A_END: &'static str = r#" is live"}
"#;

pub const MAIN_PY_MID: &'static str = r#"
@app.get("/healthz")
def healthz():
    return {"status": "ok", "stack": "fastapi"}

@app.get("/readyz")
def readyz():
    try:
        with connect(
            host=POSTGRES_HOST,
            port=POSTGRES_PORT,
            dbname=POSTGRES_DB,
            user=POSTGRES_USER,
            password=POSTGRES_PASSWORD,
        ) as conn:
            with conn.cursor() as cursor:
                cursor.execute("select 1")
                cursor.fetchone()
        Redis.from_url(REDIS_URL).ping()
        return {"status": "ready"}
    except Exception as error:
        raise HTTPException(status_code=503, detail=str(error))

@app.post("/jobs/ping")
def queue_ping(payload: dict | None = None):
"#;

pub const MAIN_PY_LINE_B_START: &'static str = r#"    task = ping.delay(payload or {"service": ""#;

pub const MAIN_PY_LINE_B_END: &'static str = r#""})
"#;

pub const MAIN_PY_TAIL: &'static str = r#"    return {"queued": True, "task_id": task.id}
"#;

/// The contents of `app/app/main.py`, with the slug filled in.
pub open spec fn spec_main_py(slug: Seq<char>) -> Seq<char> {
    MAIN_PY_HEAD@ + MAIN_PY_LINE_A_START@ + slug + MAIN_PY_LINE_A_END@ + MAIN_PY_MID@ + MAIN_PY_LINE_B_START@ + slug + MAIN_PY_LINE_B_END@ + MAIN_PY_TAIL@
}

fn main_py(project: &Project) -> (r: String)
    ensures
        r@ == spec_main_py(project.slug@),
{
    let mut s = String::from_str(MAIN_PY_HEAD);
    s.append(MAIN_PY_LINE_A_START);
    s.append(project.slug.as_str());
    s.append(MAIN_PY_LINE_A_END);
    s.append(MAIN_PY_MID);
    s.append(MAIN_PY_LINE_B_START);
    s.append(project.slug.as_str());
    s.append(MAIN_PY_LINE_B_END);
    s.append(MAIN_PY_TAIL);
    s
}

} // verus!
