use vstd::prelude::*;
use crate::project::{entries_view, spec_database_name, FileEntry, Project};
use crate::generator::shared::{executable_file, python_dockerfile, text_file, PYTHON_DOCKERFILE};

verus! {

/// The files a Django project adds to the shared ones: path, contents and
/// whether the file is executable, in the order in which they are written.
pub open spec fn spec_files(project: Project) -> Seq<(Seq<char>, Seq<char>, bool)> {
    seq![
        ("docker/Dockerfile"@, PYTHON_DOCKERFILE@, false),
        ("docker/start.sh"@, START_SCRIPT@, true),
        ("docker/worker.sh"@, WORKER_SCRIPT@, true),
        ("docker/beat.sh"@, BEAT_SCRIPT@, true),
        ("app/requirements.txt"@, REQUIREMENTS@, false),
        ("app/manage.py"@, MANAGE_PY@, true),
        ("app/config/__init__.py"@, CONFIG_INIT@, false),
        ("app/config/settings.py"@, spec_settings_py(spec_database_name(project.slug@)), false),
        ("app/config/urls.py"@, CONFIG_URLS@, false),
        ("app/config/wsgi.py"@, WSGI_PY@, false),
        ("app/config/asgi.py"@, ASGI_PY@, false),
        ("app/config/celery.py"@, CELERY_PY@, false),
        ("app/core/__init__.py"@, Seq::<char>::empty(), false),
        ("app/core/apps.py"@, APPS_PY@, false),
        ("app/core/urls.py"@, CORE_URLS@, false),
        ("app/core/views.py"@, spec_views_py(project.slug@), false),
        ("app/core/tasks.py"@, TASKS_PY@, false),
    ]
}

/// The files of a Django project beyond the shared ones.
pub fn files(project: &Project) -> (r: Vec<FileEntry>)
    ensures
        entries_view(r@) == spec_files(*project),
{
    let app_name = project.stack.database_name(project.slug.as_str());
    let v = vec![
        text_file("docker/Dockerfile", python_dockerfile()),
        executable_file("docker/start.sh", start_script()),
        executable_file("docker/worker.sh", worker_script()),
        executable_file("docker/beat.sh", beat_script()),
        text_file("app/requirements.txt", requirements()),
        executable_file("app/manage.py", manage_py()),
        text_file("app/config/__init__.py", config_init()),
        text_file("app/config/settings.py", settings_py(app_name.as_str())),
        text_file("app/config/urls.py", config_urls()),
        text_file("app/config/wsgi.py", wsgi_py()),
        text_file("app/config/asgi.py", asgi_py()),
        text_file("app/config/celery.py", celery_py()),
        text_file("app/core/__init__.py", String::new()),
        text_file("app/core/apps.py", apps_py()),
        text_file("app/core/urls.py", core_urls()),
        text_file("app/core/views.py", views_py(project)),
        text_file("app/core/tasks.py", tasks_py()),
    ];
    assert(entries_view(v@) =~= spec_files(*project));
    v
}

pub const START_SCRIPT: &'static str = r#"#!/bin/sh
set -e
python manage.py migrate
python manage.py runserver 0.0.0.0:${APP_PORT:-8000}
"#;

fn start_script() -> (r: String)
    ensures
        r@ == START_SCRIPT@,
{
    String::from_str(START_SCRIPT)
}

pub const WORKER_SCRIPT: &'static str = r#"#!/bin/sh
set -e
celery -A config worker --loglevel=info
"#;

fn worker_script() -> (r: String)
    ensures
        r@ == WORKER_SCRIPT@,
{
    String::from_str(WORKER_SCRIPT)
}

pub const BEAT_SCRIPT: &'static str = r#"#!/bin/sh
set -e
celery -A config beat --loglevel=info
"#;

fn beat_script() -> (r: String)
    ensures
        r@ == BEAT_SCRIPT@,
{
    String::from_str(BEAT_SCRIPT)
}

pub const REQUIREMENTS: &'static str = r#"Django==5.2.1
celery[redis]==5.4.0
gunicorn==22.0.0
psycopg[binary]==3.2.1
redis==5.0.7
"#;

fn requirements() -> (r: String)
    ensures
        r@ == REQUIREMENTS@,
{
    String::from_str(REQUIREMENTS)
}

pub const MANAGE_PY: &'static str = r#"#!/usr/bin/env python
import os
import sys

def main():
    os.environ.setdefault("DJANGO_SETTINGS_MODULE", "config.settings")
    from django.core.management import execute_from_command_line
    execute_from_command_line(sys.argv)

if __name__ == "__main__":
    main()
"#;

fn manage_py() -> (r: String)
    ensures
        r@ == MANAGE_PY@,
{
    String::from_str(MANAGE_PY)
}

pub const CONFIG_INIT: &'static str = r#"from .celery import app as celery_app

__all__ = ("celery_app",)
"#;

fn config_init() -> (r: String)
    ensures
        r@ == CONFIG_INIT@,
{
    String::from_str(CONFIG_INIT)
}

pub const SETTINGS_PY_HEAD: &'static str = r#"import os
from pathlib import Path

BASE_DIR = Path(__file__).resolve().parent.parent
SECRET_KEY = os.getenv("SECRET_KEY", "change-me-now")
DEBUG = os.getenv("APP_ENV", "development") != "production"
ALLOWED_HOSTS = [host.strip() for host in os.getenv("ALLOWED_HOSTS", "localhost,127.0.0.1").split(",") if host.strip()]
INSTALLED_APPS = [
    "django.contrib.admin",
    "django.contrib.auth",
    "django.contrib.contenttypes",
    "django.contrib.sessions",
    "django.contrib.messages",
    "django.contrib.staticfiles",
    "core",
]
MIDDLEWARE = [
    "django.middleware.security.SecurityMiddleware",
    "django.contrib.sessions.middleware.SessionMiddleware",
    "django.middleware.common.CommonMiddleware",
    "django.middleware.csrf.CsrfViewMiddleware",
    "django.contrib.auth.middleware.AuthenticationMiddleware",
    "django.contrib.messages.middleware.MessageMiddleware",
    "django.middleware.clickjacking.XFrameOptionsMiddleware",
]
ROOT_URLCONF = "config.urls"
TEMPLATES = [
    {
        "BACKEND": "django.template.backends.django.DjangoTemplates",
        "DIRS": [],
        "APP_DIRS": True,
        "OPTIONS": {
            "context_processors": [
                "django.template.context_processors.request",
                "django.contrib.auth.context_processors.auth",
                "django.contrib.messages.context_processors.messages",
            ],
        },
    }
]
WSGI_APPLICATION = "config.wsgi.application"
ASGI_APPLICATION = "config.asgi.application"
DATABASES = {
    "default": {
        "ENGINE": "django.db.backends.postgresql",
        "NAME": os.getenv("POSTGRES_DB"),
        "USER": os.getenv("POSTGRES_USER"),
        "PASSWORD": os.getenv("POSTGRES_PASSWORD"),
        "HOST": os.getenv("POSTGRES_HOST", "postgres"),
        "PORT": os.getenv("POSTGRES_PORT", "5432"),
    }
}
LANGUAGE_CODE = "en-us"
TIME_ZONE = "UTC"
USE_I18N = True
USE_TZ = True
STATIC_URL = "/static/"
STATIC_ROOT = BASE_DIR / "staticfiles"
DEFAULT_AUTO_FIELD = "django.db.models.BigAutoField"
CELERY_BROKER_URL = os.getenv("CELERY_BROKER_URL", "redis://redis:6379/0")
CELERY_RESULT_BACKEND = os.getenv("CELERY_RESULT_BACKEND", "redis://redis:6379/1")
"#;

pub const SETTINGS_PY_LINE_START: &'static str = r#"APP_NAME = ""#;

pub const SETTINGS_PY_LINE_END: &'static str = r#""
"#;

/// The contents of `app/config/settings.py`, with the app name filled in.
pub open spec fn spec_settings_py(app_name: Seq<char>) -> Seq<char> {
    SETTINGS_PY_HEAD@ + SETTINGS_PY_LINE_START@ + app_name + SETTINGS_PY_LINE_END@
}

fn settings_py(app_name: &str) -> (r: String)
    ensures
        r@ == spec_settings_py(app_name@),
{
    let mut s = String::from_str(SETTINGS_PY_HEAD);
    s.append(SETTINGS_PY_LINE_START);
    s.append(app_name);
    s.append(SETTINGS_PY_LINE_END);
    s
}

pub const CONFIG_URLS: &'static str = r#"from django.contrib import admin
from django.urls import include, path

urlpatterns = [
    path("admin/", admin.site.urls),
    path("", include("core.urls")),
]
"#;

fn config_urls() -> (r: String)
    ensures
        r@ == CONFIG_URLS@,
{
    String::from_str(CONFIG_URLS)
}

pub const WSGI_PY: &'static str = r#"import os
from django.core.wsgi import get_wsgi_application

os.environ.setdefault("DJANGO_SETTINGS_MODULE", "config.settings")
application = get_wsgi_application()
"#;

fn wsgi_py() -> (r: String)
    ensures
        r@ == WSGI_PY@,
{
    String::from_str(WSGI_PY)
}

pub const ASGI_PY: &'static str = r#"import os
from django.core.asgi import get_asgi_application

os.environ.setdefault("DJANGO_SETTINGS_MODULE", "config.settings")
application = get_asgi_application()
"#;

fn asgi_py() -> (r: String)
    ensures
        r@ == ASGI_PY@,
{
    String::from_str(ASGI_PY)
}

pub const CELERY_PY: &'static str = r#"import os
from celery import Celery

os.environ.setdefault("DJANGO_SETTINGS_MODULE", "config.settings")
app = Celery("config")
app.config_from_object("django.conf:settings", namespace="CELERY")
app.autodiscover_tasks()
"#;

fn celery_py() -> (r: String)
    ensures
        r@ == CELERY_PY@,
{
    String::from_str(CELERY_PY)
}

pub const APPS_PY: &'static str = r#"from django.apps import AppConfig

class CoreConfig(AppConfig):
    default_auto_field = "django.db.models.BigAutoField"
    name = "core"
"#;

fn apps_py() -> (r: String)
    ensures
        r@ == APPS_PY@,
{
    String::from_str(APPS_PY)
}

pub const CORE_URLS: &'static str = r#"from django.urls import path
from .views import healthz, home, ping_job, readyz

urlpatterns = [
    path("", home),
    path("healthz", healthz),
    path("readyz", readyz),
    path("jobs/ping", ping_job),
]
"#;

fn core_urls() -> (r: String)
    ensures
        r@ == CORE_URLS@,
{
    String::from_str(CORE_URLS)
}

pub const VIEWS_PY_HEAD: &'static str = r#"import json
import os
from django.db import connection
from django.http import HttpResponse, JsonResponse
from django.views.decorators.csrf import csrf_exempt
from redis import Redis
from .tasks import ping

def home(_request):
"#;

pub const VIEWS_PY_LINE_A_START: &'static str = r#"    return HttpResponse("DevStack "#;

pub const VIEWS_PY_LINE_A_END: &'static str = r#" is live")
"#;

pub const VIEWS_PY_MID: &'static str = r#"
def healthz(_request):
    return JsonResponse({"status": "ok", "stack": "django"})

def readyz(_request):
    try:
        with connection.cursor() as cursor:
            cursor.execute("select 1")
            cursor.fetchone()
        Redis.from_url(os.getenv("REDIS_URL", "redis://redis:6379/0")).ping()
        return JsonResponse({"status": "ready"})
    except Exception as error:
        return JsonResponse({"status": "error", "message": str(error)}, status=503)

@csrf_exempt
def ping_job(request):
    payload = {}
    if request.body:
        payload = json.loads(request.body.decode("utf-8"))
"#;

pub const VIEWS_PY_LINE_B_START: &'static str = r#"    task = ping.delay(payload or {"service": ""#;

pub const VIEWS_PY_LINE_B_END: &'static str = r#""})
"#;

pub const VIEWS_PY_TAIL: &'static str = r#"    return JsonResponse({"queued": True, "task_id": task.id}, status=202)
"#;

/// The contents of `app/core/views.py`, with the slug filled in.
pub open spec fn spec_views_py(slug: Seq<char>) -> Seq<char> {
    VIEWS_PY_HEAD@ + VIEWS_PY_LINE_A_START@ + slug + VIEWS_PY_LINE_A_END@ + VIEWS_PY_MID@ + VIEWS_PY_LINE_B_START@ + slug + VIEWS_PY_LINE_B_END@ + VIEWS_PY_TAIL@
}

fn views_py(project: &Project) -> (r: String)
    ensures
        r@ == spec_views_py(project.slug@),
{
    let mut s = String::from_str(VIEWS_PY_HEAD);
    s.append(VIEWS_PY_LINE_A_START);
    s.append(project.slug.as_str());
    s.append(VIEWS_PY_LINE_A_END);
    s.append(VIEWS_PY_MID);
    s.append(VIEWS_PY_LINE_B_START);
    s.append(project.slug.as_str());
    s.append(VIEWS_PY_LINE_B_END);
    s.append(VIEWS_PY_TAIL);
    s
}

pub const TASKS_PY: &'static str = r#"from celery import shared_task

@shared_task
def ping(payload):
    return {"received": payload}
"#;

fn tasks_py() -> (r: String)
    ensures
        r@ == TASKS_PY@,
{
    String::from_str(TASKS_PY)
}

} // verus!
