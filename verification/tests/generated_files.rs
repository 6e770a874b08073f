use devstack::generator::common::sanitize_name;
use devstack::generator::files_for;
use devstack::project::{Project, Stack};

fn expected_node_files() -> Vec<(&'static str, &'static str, bool)> {
    vec![
        ("README.md", r##"# My Fancy App

Generated by DevStack for Node.js.

The generated app includes Express, BullMQ, Postgres wiring, Redis, an nginx edge, and a worker service.

## Quickstart

```bash
docker compose up --build
```

The application is available at `http://localhost`.

## Included

- Dockerized app runtime
- Postgres with persistent storage
- Redis for caching and jobs
- Background worker service
- GitHub Actions CI
- `.env` and `.env.example`
- Opinionated project layout for shipping fast

## Handy commands

```bash
make up
make down
make logs
make app-shell
make db-shell
```

## Layout

```text
app/
docker/
nginx/
.github/workflows/
compose.yaml
Makefile
```
"##, false),
        (".env", r##"APP_NAME=my-fancy-app
APP_ENV=development
APP_PORT=3000
POSTGRES_DB=my_fancy_app
POSTGRES_USER=devstack
POSTGRES_PASSWORD=devstack
POSTGRES_HOST=postgres
POSTGRES_PORT=5432
REDIS_URL=redis://redis:6379/0
SECRET_KEY=change-me-now
ALLOWED_HOSTS=localhost,127.0.0.1
CORS_ORIGINS=http://localhost,http://127.0.0.1
CELERY_BROKER_URL=redis://redis:6379/0
CELERY_RESULT_BACKEND=redis://redis:6379/1
"##, false),
        (".env.example", r##"APP_NAME=my-fancy-app
APP_ENV=development
APP_PORT=3000
POSTGRES_DB=my_fancy_app
POSTGRES_USER=devstack
POSTGRES_PASSWORD=devstack
POSTGRES_HOST=postgres
POSTGRES_PORT=5432
REDIS_URL=redis://redis:6379/0
SECRET_KEY=change-me-now
ALLOWED_HOSTS=localhost,127.0.0.1
CORS_ORIGINS=http://localhost,http://127.0.0.1
CELERY_BROKER_URL=redis://redis:6379/0
CELERY_RESULT_BACKEND=redis://redis:6379/1
"##, false),
        (".gitignore", r##"node_modules
.env
.DS_Store
dist
coverage
"##, false),
        (".dockerignore", r##"node_modules
npm-debug.log
.git
"##, false),
        ("Makefile", r##"up:
	docker compose up --build

down:
	docker compose down

logs:
	docker compose logs -f

rebuild:
	docker compose build --no-cache

app-shell:
	docker compose exec app sh

db-shell:
	docker compose exec postgres sh -lc 'psql -U "$$POSTGRES_USER" -d "$$POSTGRES_DB"'
"##, false),
        ("compose.yaml", r##"services:
  app:
    build:
      context: .
      dockerfile: docker/Dockerfile
    command: sh /workspace/docker/start.sh
    env_file:
      - .env
    depends_on:
      postgres:
        condition: service_healthy
      redis:
        condition: service_healthy
    volumes:
      - ./app:/workspace/app
      - ./docker:/workspace/docker
      - node_modules:/workspace/app/node_modules
    expose:
      - "3000"


  worker:
    build:
      context: .
      dockerfile: docker/Dockerfile
    command: sh /workspace/docker/worker.sh
    env_file:
      - .env
    depends_on:
      postgres:
        condition: service_healthy
      redis:
        condition: service_healthy
    volumes:
      - ./app:/workspace/app
      - ./docker:/workspace/docker
      - node_modules:/workspace/app/node_modules
  nginx:
    image: nginx:1.27-alpine
    depends_on:
      - app
    ports:
      - "80:80"
    volumes:
      - ./nginx/default.conf:/etc/nginx/conf.d/default.conf:ro

  postgres:
    image: postgres:16-alpine
    env_file:
      - .env
    environment:
      POSTGRES_DB: ${POSTGRES_DB}
      POSTGRES_USER: ${POSTGRES_USER}
      POSTGRES_PASSWORD: ${POSTGRES_PASSWORD}
    healthcheck:
      test: ["CMD-SHELL", "pg_isready -U $${POSTGRES_USER} -d $${POSTGRES_DB}"]
      interval: 5s
      timeout: 5s
      retries: 20
    ports:
      - "5432:5432"
    volumes:
      - postgres_data:/var/lib/postgresql/data

  redis:
    image: redis:7-alpine
    healthcheck:
      test: ["CMD", "redis-cli", "ping"]
      interval: 5s
      timeout: 3s
      retries: 20
    ports:
      - "6379:6379"
    volumes:
      - redis_data:/data

volumes:
  postgres_data:
  redis_data:
  node_modules:
"##, false),
        (".github/workflows/ci.yml", r##"name: ci

on:
  push:
  pull_request:

jobs:
  verify:
    runs-on: ubuntu-latest
    steps:
      - uses: actions/checkout@v4
      - uses: actions/setup-node@v4
        with:
          node-version: "22"
      - name: Install dependencies
        working-directory: app
        run: npm install
      - name: Syntax check
        working-directory: app
        run: |
          node --check src/index.js
          node --check src/worker.js
      - name: Validate Compose
        run: docker compose config
      - name: Build containers
        run: docker compose build
"##, false),
        ("nginx/default.conf", r##"server {
    listen 80;
    server_name _;
    client_max_body_size 32m;

    location / {
        proxy_pass http://app:3000;
        proxy_http_version 1.1;
        proxy_set_header Host $host;
        proxy_set_header X-Real-IP $remote_addr;
        proxy_set_header X-Forwarded-For $proxy_add_x_forwarded_for;
        proxy_set_header X-Forwarded-Proto $scheme;
        proxy_set_header Upgrade $http_upgrade;
        proxy_set_header Connection "upgrade";
    }
}
"##, false),
        ("docker/Dockerfile", r##"FROM node:22-alpine
WORKDIR /workspace/app
COPY app/package*.json ./
RUN npm install
CMD ["sh", "/workspace/docker/start.sh"]
"##, false),
        ("docker/start.sh", r##"#!/bin/sh
set -e
npm install
npm run dev
"##, true),
        ("docker/worker.sh", r##"#!/bin/sh
set -e
npm install
npm run worker
"##, true),
        ("app/package.json", r##"{
  "name": "my-fancy-app",
  "version": "0.1.0",
  "private": true,
  "type": "module",
  "scripts": {
    "dev": "node src/index.js",
    "worker": "node src/worker.js"
  },
  "dependencies": {
    "bullmq": "^5.12.9",
    "dotenv": "^16.4.5",
    "express": "^4.19.2",
    "ioredis": "^5.4.1",
    "pg": "^8.12.0"
  }
}
"##, false),
        ("app/src/index.js", r##"import "dotenv/config";
import express from "express";
import { Pool } from "pg";
import Redis from "ioredis";
import { jobs } from "./queue.js";

const app = express();
const port = Number(process.env.APP_PORT || 3000);
const pool = new Pool({
  host: process.env.POSTGRES_HOST,
  port: Number(process.env.POSTGRES_PORT || 5432),
  database: process.env.POSTGRES_DB,
  user: process.env.POSTGRES_USER,
  password: process.env.POSTGRES_PASSWORD
});
const redis = new Redis(process.env.REDIS_URL);

app.use(express.json());

app.get("/healthz", (_req, res) => {
  res.json({ status: "ok", stack: "node", service: "my-fancy-app" });
});

app.get("/readyz", async (_req, res) => {
  try {
    await pool.query("select 1");
    await redis.ping();
    res.json({ status: "ready" });
  } catch (error) {
    res.status(503).json({ status: "error", message: error.message });
  }
});

app.post("/jobs/ping", async (_req, res) => {
  const job = await jobs.add("ping", { service: "my-fancy-app", at: new Date().toISOString() });
  res.status(202).json({ queued: true, id: job.id });
});

app.listen(port, "0.0.0.0", () => {
  console.log(`my-fancy-app listening on ${port}`);
});
"##, false),
        ("app/src/queue.js", r##"import "dotenv/config";
import Redis from "ioredis";
import { Queue } from "bullmq";

const connection = new Redis(process.env.REDIS_URL, {
  maxRetriesPerRequest: null
});

export const jobs = new Queue("jobs", { connection });
"##, false),
        ("app/src/worker.js", r##"import "dotenv/config";
import Redis from "ioredis";
import { Worker } from "bullmq";

const connection = new Redis(process.env.REDIS_URL, {
  maxRetriesPerRequest: null
});

new Worker(
  "jobs",
  async job => {
    console.log(`processed ${job.name}`, job.data);
  },
  { connection }
);

console.log("worker running");
"##, false),
    ]
}

#[test]
fn node_project_files_are_exact() {
    let project = Project {
        stack: Stack::Node,
        name: "my_fancy-app".to_string(),
        slug: sanitize_name("my_fancy-app"),
        dir: "/tmp/out".to_string(),
    };
    assert_eq!(project.slug, "my-fancy-app");
    let files = files_for(&project);
    let expected = expected_node_files();
    assert_eq!(files.len(), expected.len());
    for (entry, (path, contents, executable)) in files.iter().zip(expected.iter()) {
        assert_eq!(entry.path, *path);
        assert_eq!(entry.contents, *contents, "contents of {}", path);
        assert_eq!(entry.executable, *executable, "mode of {}", path);
    }
}

fn expected_django_files() -> Vec<(&'static str, &'static str, bool)> {
    vec![
        ("README.md", r##"# My Fancy App

Generated by DevStack for Django.

The generated app includes Django, Postgres, Redis, Celery worker and beat processes, and an nginx edge.

## Quickstart

```bash
docker compose up --build
```

The application is available at `http://localhost`.

## Included

- Dockerized app runtime
- Postgres with persistent storage
- Redis for caching and jobs
- Background worker service
- GitHub Actions CI
- `.env` and `.env.example`
- Opinionated project layout for shipping fast

## Handy commands

```bash
make up
make down
make logs
make app-shell
make db-shell
```

## Layout

```text
app/
docker/
nginx/
.github/workflows/
compose.yaml
Makefile
```
"##, false),
        (".env", r##"APP_NAME=my-fancy-app
APP_ENV=development
APP_PORT=8000
POSTGRES_DB=my_fancy_app
POSTGRES_USER=devstack
POSTGRES_PASSWORD=devstack
POSTGRES_HOST=postgres
POSTGRES_PORT=5432
REDIS_URL=redis://redis:6379/0
SECRET_KEY=change-me-now
ALLOWED_HOSTS=localhost,127.0.0.1
CORS_ORIGINS=http://localhost,http://127.0.0.1
CELERY_BROKER_URL=redis://redis:6379/0
CELERY_RESULT_BACKEND=redis://redis:6379/1
"##, false),
        (".env.example", r##"APP_NAME=my-fancy-app
APP_ENV=development
APP_PORT=8000
POSTGRES_DB=my_fancy_app
POSTGRES_USER=devstack
POSTGRES_PASSWORD=devstack
POSTGRES_HOST=postgres
POSTGRES_PORT=5432
REDIS_URL=redis://redis:6379/0
SECRET_KEY=change-me-now
ALLOWED_HOSTS=localhost,127.0.0.1
CORS_ORIGINS=http://localhost,http://127.0.0.1
CELERY_BROKER_URL=redis://redis:6379/0
CELERY_RESULT_BACKEND=redis://redis:6379/1
"##, false),
        (".gitignore", r##"__pycache__/
*.pyc
.pytest_cache/
.venv/
.env
.DS_Store
"##, false),
        (".dockerignore", r##"__pycache__/
*.pyc
.venv/
.git
"##, false),
        ("Makefile", r##"up:
	docker compose up --build

down:
	docker compose down

logs:
	docker compose logs -f

rebuild:
	docker compose build --no-cache

app-shell:
	docker compose exec app sh

db-shell:
	docker compose exec postgres sh -lc 'psql -U "$$POSTGRES_USER" -d "$$POSTGRES_DB"'
"##, false),
        ("compose.yaml", r##"services:
  app:
    build:
      context: .
      dockerfile: docker/Dockerfile
    command: sh /workspace/docker/start.sh
    env_file:
      - .env
    depends_on:
      postgres:
        condition: service_healthy
      redis:
        condition: service_healthy
    volumes:
      - ./app:/workspace/app
      - ./docker:/workspace/docker
    expose:
      - "8000"


  worker:
    build:
      context: .
      dockerfile: docker/Dockerfile
    command: sh /workspace/docker/worker.sh
    env_file:
      - .env
    depends_on:
      postgres:
        condition: service_healthy
      redis:
        condition: service_healthy
    volumes:
      - ./app:/workspace/app
      - ./docker:/workspace/docker

  beat:
    build:
      context: .
      dockerfile: docker/Dockerfile
    command: sh /workspace/docker/beat.sh
    env_file:
      - .env
    depends_on:
      postgres:
        condition: service_healthy
      redis:
        condition: service_healthy
    volumes:
      - ./app:/workspace/app
      - ./docker:/workspace/docker
  nginx:
    image: nginx:1.27-alpine
    depends_on:
      - app
    ports:
      - "80:80"
    volumes:
      - ./nginx/default.conf:/etc/nginx/conf.d/default.conf:ro

  postgres:
    image: postgres:16-alpine
    env_file:
      - .env
    environment:
      POSTGRES_DB: ${POSTGRES_DB}
      POSTGRES_USER: ${POSTGRES_USER}
      POSTGRES_PASSWORD: ${POSTGRES_PASSWORD}
    healthcheck:
      test: ["CMD-SHELL", "pg_isready -U $${POSTGRES_USER} -d $${POSTGRES_DB}"]
      interval: 5s
      timeout: 5s
      retries: 20
    ports:
      - "5432:5432"
    volumes:
      - postgres_data:/var/lib/postgresql/data

  redis:
    image: redis:7-alpine
    healthcheck:
      test: ["CMD", "redis-cli", "ping"]
      interval: 5s
      timeout: 3s
      retries: 20
    ports:
      - "6379:6379"
    volumes:
      - redis_data:/data

volumes:
  postgres_data:
  redis_data:
"##, false),
        (".github/workflows/ci.yml", r##"name: ci

on:
  push:
  pull_request:

jobs:
  verify:
    runs-on: ubuntu-latest
    steps:
      - uses: actions/checkout@v4
      - uses: actions/setup-python@v5
        with:
          python-version: "3.12"
      - name: Install dependencies
        run: |
          python -m pip install --upgrade pip
          pip install -r app/requirements.txt
      - name: Compile source
        run: python -m compileall app
      - name: Validate Compose
        run: docker compose config
      - name: Build containers
        run: docker compose build
"##, false),
        ("nginx/default.conf", r##"server {
    listen 80;
    server_name _;
    client_max_body_size 32m;

    location / {
        proxy_pass http://app:8000;
        proxy_http_version 1.1;
        proxy_set_header Host $host;
        proxy_set_header X-Real-IP $remote_addr;
        proxy_set_header X-Forwarded-For $proxy_add_x_forwarded_for;
        proxy_set_header X-Forwarded-Proto $scheme;
        proxy_set_header Upgrade $http_upgrade;
        proxy_set_header Connection "upgrade";
    }
}
"##, false),
        ("docker/Dockerfile", r##"FROM python:3.12-slim
WORKDIR /workspace/app
ENV PYTHONDONTWRITEBYTECODE=1
ENV PYTHONUNBUFFERED=1
RUN apt-get update && apt-get install -y build-essential libpq-dev curl && rm -rf /var/lib/apt/lists/*
COPY app/requirements.txt /tmp/requirements.txt
RUN pip install --upgrade pip && pip install -r /tmp/requirements.txt
CMD ["sh", "/workspace/docker/start.sh"]
"##, false),
        ("docker/start.sh", r##"#!/bin/sh
set -e
python manage.py migrate
python manage.py runserver 0.0.0.0:${APP_PORT:-8000}
"##, true),
        ("docker/worker.sh", r##"#!/bin/sh
set -e
celery -A config worker --loglevel=info
"##, true),
        ("docker/beat.sh", r##"#!/bin/sh
set -e
celery -A config beat --loglevel=info
"##, true),
        ("app/requirements.txt", r##"Django==5.2.1
celery[redis]==5.4.0
gunicorn==22.0.0
psycopg[binary]==3.2.1
redis==5.0.7
"##, false),
        ("app/manage.py", r##"#!/usr/bin/env python
import os
import sys

def main():
    os.environ.setdefault("DJANGO_SETTINGS_MODULE", "config.settings")
    from django.core.management import execute_from_command_line
    execute_from_command_line(sys.argv)

if __name__ == "__main__":
    main()
"##, true),
        ("app/config/__init__.py", r##"from .celery import app as celery_app

__all__ = ("celery_app",)
"##, false),
        ("app/config/settings.py", r##"import os
from pathlib import Path

BASE_DIR = Path(__file__).resolve().parent.parent
SECRET_KEY = os.getenv("SECRET_KEY", "change-me-now")
DEBUG = os.getenv("APP_ENV", "development") != "production"
ALLOWED_HOSTS = [host.strip() for host in os.getenv("ALLOWED_HOSTS", "localhost,127.0.0.1").split(",") if host.strip()]
INSTALLED_APPS = [
    "django.contrib.admin",
    "django.contrib.auth",
    "django.contrib.contenttypes",
    "django.contrib.sessions",
    "django.contrib.messages",
    "django.contrib.staticfiles",
    "core",
]
MIDDLEWARE = [
    "django.middleware.security.SecurityMiddleware",
    "django.contrib.sessions.middleware.SessionMiddleware",
    "django.middleware.common.CommonMiddleware",
    "django.middleware.csrf.CsrfViewMiddleware",
    "django.contrib.auth.middleware.AuthenticationMiddleware",
    "django.contrib.messages.middleware.MessageMiddleware",
    "django.middleware.clickjacking.XFrameOptionsMiddleware",
]
ROOT_URLCONF = "config.urls"
TEMPLATES = [
    {
        "BACKEND": "django.template.backends.django.DjangoTemplates",
        "DIRS": [],
        "APP_DIRS": True,
        "OPTIONS": {
            "context_processors": [
                "django.template.context_processors.request",
                "django.contrib.auth.context_processors.auth",
                "django.contrib.messages.context_processors.messages",
            ],
        },
    }
]
WSGI_APPLICATION = "config.wsgi.application"
ASGI_APPLICATION = "config.asgi.application"
DATABASES = {
    "default": {
        "ENGINE": "django.db.backends.postgresql",
        "NAME": os.getenv("POSTGRES_DB"),
        "USER": os.getenv("POSTGRES_USER"),
        "PASSWORD": os.getenv("POSTGRES_PASSWORD"),
        "HOST": os.getenv("POSTGRES_HOST", "postgres"),
        "PORT": os.getenv("POSTGRES_PORT", "5432"),
    }
}
LANGUAGE_CODE = "en-us"
TIME_ZONE = "UTC"
USE_I18N = True
USE_TZ = True
STATIC_URL = "/static/"
STATIC_ROOT = BASE_DIR / "staticfiles"
DEFAULT_AUTO_FIELD = "django.db.models.BigAutoField"
CELERY_BROKER_URL = os.getenv("CELERY_BROKER_URL", "redis://redis:6379/0")
CELERY_RESULT_BACKEND = os.getenv("CELERY_RESULT_BACKEND", "redis://redis:6379/1")
APP_NAME = "my_fancy_app"
"##, false),
        ("app/config/urls.py", r##"from django.contrib import admin
from django.urls import include, path

urlpatterns = [
    path("admin/", admin.site.urls),
    path("", include("core.urls")),
]
"##, false),
        ("app/config/wsgi.py", r##"import os
from django.core.wsgi import get_wsgi_application

os.environ.setdefault("DJANGO_SETTINGS_MODULE", "config.settings")
application = get_wsgi_application()
"##, false),
        ("app/config/asgi.py", r##"import os
from django.core.asgi import get_asgi_application

os.environ.setdefault("DJANGO_SETTINGS_MODULE", "config.settings")
application = get_asgi_application()
"##, false),
        ("app/config/celery.py", r##"import os
from celery import Celery

os.environ.setdefault("DJANGO_SETTINGS_MODULE", "config.settings")
app = Celery("config")
app.config_from_object("django.conf:settings", namespace="CELERY")
app.autodiscover_tasks()
"##, false),
        ("app/core/__init__.py", r##""##, false),
        ("app/core/apps.py", r##"from django.apps import AppConfig

class CoreConfig(AppConfig):
    default_auto_field = "django.db.models.BigAutoField"
    name = "core"
"##, false),
        ("app/core/urls.py", r##"from django.urls import path
from .views import healthz, home, ping_job, readyz

urlpatterns = [
    path("", home),
    path("healthz", healthz),
    path("readyz", readyz),
    path("jobs/ping", ping_job),
]
"##, false),
        ("app/core/views.py", r##"import json
import os
from django.db import connection
from django.http import HttpResponse, JsonResponse
from django.views.decorators.csrf import csrf_exempt
from redis import Redis
from .tasks import ping

def home(_request):
    return HttpResponse("DevStack my-fancy-app is live")

def healthz(_request):
    return JsonResponse({"status": "ok", "stack": "django"})

def readyz(_request):
    try:
        with connection.cursor() as cursor:
            cursor.execute("select 1")
            cursor.fetchone()
        Redis.from_url(os.getenv("REDIS_URL", "redis://redis:6379/0")).ping()
        return JsonResponse({"status": "ready"})
    except Exception as error:
        return JsonResponse({"status": "error", "message": str(error)}, status=503)

@csrf_exempt
def ping_job(request):
    payload = {}
    if request.body:
        payload = json.loads(request.body.decode("utf-8"))
    task = ping.delay(payload or {"service": "my-fancy-app"})
    return JsonResponse({"queued": True, "task_id": task.id}, status=202)
"##, false),
        ("app/core/tasks.py", r##"from celery import shared_task

@shared_task
def ping(payload):
    return {"received": payload}
"##, false),
    ]
}

#[test]
fn django_project_files_are_exact() {
    let project = Project {
        stack: Stack::Django,
        name: "My Fancy App".to_string(),
        slug: sanitize_name("My Fancy App"),
        dir: "/tmp/out".to_string(),
    };
    assert_eq!(project.slug, "my-fancy-app");
    let files = files_for(&project);
    let expected = expected_django_files();
    assert_eq!(files.len(), expected.len());
    for (entry, (path, contents, executable)) in files.iter().zip(expected.iter()) {
        assert_eq!(entry.path, *path);
        assert_eq!(entry.contents, *contents, "contents of {}", path);
        assert_eq!(entry.executable, *executable, "mode of {}", path);
    }
}

fn expected_flask_files() -> Vec<(&'static str, &'static str, bool)> {
    vec![
        ("README.md", r##"# Shop Api

Generated by DevStack for Flask.

The generated app includes Flask, Postgres, Redis, Celery worker and beat processes, and an nginx edge.

## Quickstart

```bash
docker compose up --build
```

The application is available at `http://localhost`.

## Included

- Dockerized app runtime
- Postgres with persistent storage
- Redis for caching and jobs
- Background worker service
- GitHub Actions CI
- `.env` and `.env.example`
- Opinionated project layout for shipping fast

## Handy commands

```bash
make up
make down
make logs
make app-shell
make db-shell
```

## Layout

```text
app/
docker/
nginx/
.github/workflows/
compose.yaml
Makefile
```
"##, false),
        (".env", r##"APP_NAME=shop-api
APP_ENV=development
APP_PORT=8000
POSTGRES_DB=shop_api
POSTGRES_USER=devstack
POSTGRES_PASSWORD=devstack
POSTGRES_HOST=postgres
POSTGRES_PORT=5432
REDIS_URL=redis://redis:6379/0
SECRET_KEY=change-me-now
ALLOWED_HOSTS=localhost,127.0.0.1
CORS_ORIGINS=http://localhost,http://127.0.0.1
CELERY_BROKER_URL=redis://redis:6379/0
CELERY_RESULT_BACKEND=redis://redis:6379/1
"##, false),
        (".env.example", r##"APP_NAME=shop-api
APP_ENV=development
APP_PORT=8000
POSTGRES_DB=shop_api
POSTGRES_USER=devstack
POSTGRES_PASSWORD=devstack
POSTGRES_HOST=postgres
POSTGRES_PORT=5432
REDIS_URL=redis://redis:6379/0
SECRET_KEY=change-me-now
ALLOWED_HOSTS=localhost,127.0.0.1
CORS_ORIGINS=http://localhost,http://127.0.0.1
CELERY_BROKER_URL=redis://redis:6379/0
CELERY_RESULT_BACKEND=redis://redis:6379/1
"##, false),
        (".gitignore", r##"__pycache__/
*.pyc
.pytest_cache/
.venv/
.env
.DS_Store
"##, false),
        (".dockerignore", r##"__pycache__/
*.pyc
.venv/
.git
"##, false),
        ("Makefile", r##"up:
	docker compose up --build

down:
	docker compose down

logs:
	docker compose logs -f

rebuild:
	docker compose build --no-cache

app-shell:
	docker compose exec app sh

db-shell:
	docker compose exec postgres sh -lc 'psql -U "$$POSTGRES_USER" -d "$$POSTGRES_DB"'
"##, false),
        ("compose.yaml", r##"services:
  app:
    build:
      context: .
      dockerfile: docker/Dockerfile
    command: sh /workspace/docker/start.sh
    env_file:
      - .env
    depends_on:
      postgres:
        condition: service_healthy
      redis:
        condition: service_healthy
    volumes:
      - ./app:/workspace/app
      - ./docker:/workspace/docker
    expose:
      - "8000"


  worker:
    build:
      context: .
      dockerfile: docker/Dockerfile
    command: sh /workspace/docker/worker.sh
    env_file:
      - .env
    depends_on:
      postgres:
        condition: service_healthy
      redis:
        condition: service_healthy
    volumes:
      - ./app:/workspace/app
      - ./docker:/workspace/docker

  beat:
    build:
      context: .
      dockerfile: docker/Dockerfile
    command: sh /workspace/docker/beat.sh
    env_file:
      - .env
    depends_on:
      postgres:
        condition: service_healthy
      redis:
        condition: service_healthy
    volumes:
      - ./app:/workspace/app
      - ./docker:/workspace/docker
  nginx:
    image: nginx:1.27-alpine
    depends_on:
      - app
    ports:
      - "80:80"
    volumes:
      - ./nginx/default.conf:/etc/nginx/conf.d/default.conf:ro

  postgres:
    image: postgres:16-alpine
    env_file:
      - .env
    environment:
      POSTGRES_DB: ${POSTGRES_DB}
      POSTGRES_USER: ${POSTGRES_USER}
      POSTGRES_PASSWORD: ${POSTGRES_PASSWORD}
    healthcheck:
      test: ["CMD-SHELL", "pg_isready -U $${POSTGRES_USER} -d $${POSTGRES_DB}"]
      interval: 5s
      timeout: 5s
      retries: 20
    ports:
      - "5432:5432"
    volumes:
      - postgres_data:/var/lib/postgresql/data

  redis:
    image: redis:7-alpine
    healthcheck:
      test: ["CMD", "redis-cli", "ping"]
      interval: 5s
      timeout: 3s
      retries: 20
    ports:
      - "6379:6379"
    volumes:
      - redis_data:/data

volumes:
  postgres_data:
  redis_data:
"##, false),
        (".github/workflows/ci.yml", r##"name: ci

on:
  push:
  pull_request:

jobs:
  verify:
    runs-on: ubuntu-latest
    steps:
      - uses: actions/checkout@v4
      - uses: actions/setup-python@v5
        with:
          python-version: "3.12"
      - name: Install dependencies
        run: |
          python -m pip install --upgrade pip
          pip install -r app/requirements.txt
      - name: Compile source
        run: python -m compileall app
      - name: Validate Compose
        run: docker compose config
      - name: Build containers
        run: docker compose build
"##, false),
        ("nginx/default.conf", r##"server {
    listen 80;
    server_name _;
    client_max_body_size 32m;

    location / {
        proxy_pass http://app:8000;
        proxy_http_version 1.1;
        proxy_set_header Host $host;
        proxy_set_header X-Real-IP $remote_addr;
        proxy_set_header X-Forwarded-For $proxy_add_x_forwarded_for;
        proxy_set_header X-Forwarded-Proto $scheme;
        proxy_set_header Upgrade $http_upgrade;
        proxy_set_header Connection "upgrade";
    }
}
"##, false),
        ("docker/Dockerfile", r##"FROM python:3.12-slim
WORKDIR /workspace/app
ENV PYTHONDONTWRITEBYTECODE=1
ENV PYTHONUNBUFFERED=1
RUN apt-get update && apt-get install -y build-essential libpq-dev curl && rm -rf /var/lib/apt/lists/*
COPY app/requirements.txt /tmp/requirements.txt
RUN pip install --upgrade pip && pip install -r /tmp/requirements.txt
CMD ["sh", "/workspace/docker/start.sh"]
"##, false),
        ("docker/start.sh", r##"#!/bin/sh
set -e
gunicorn --bind 0.0.0.0:${APP_PORT:-8000} "app.wsgi:app"
"##, true),
        ("docker/worker.sh", r##"#!/bin/sh
set -e
celery -A app.celery_app.celery_app worker --loglevel=info
"##, true),
        ("docker/beat.sh", r##"#!/bin/sh
set -e
celery -A app.celery_app.celery_app beat --loglevel=info
"##, true),
        ("app/requirements.txt", r##"celery[redis]==5.4.0
Flask==3.0.3
gunicorn==22.0.0
psycopg[binary]==3.2.1
redis==5.0.7
SQLAlchemy==2.0.36
"##, false),
        ("app/app/__init__.py", r##"from flask import Flask
from .routes import register_routes

def create_app():
    app = Flask("shop-api")
    app.config.from_object("app.config.Config")
    register_routes(app)
    return app
"##, false),
        ("app/app/config.py", r##"import os

class Config:
    APP_NAME = os.getenv("APP_NAME", "shop-api")
    POSTGRES_HOST = os.getenv("POSTGRES_HOST", "postgres")
    POSTGRES_PORT = int(os.getenv("POSTGRES_PORT", "5432"))
    POSTGRES_DB = os.getenv("POSTGRES_DB", "shop_api")
    POSTGRES_USER = os.getenv("POSTGRES_USER", "devstack")
    POSTGRES_PASSWORD = os.getenv("POSTGRES_PASSWORD", "devstack")
    REDIS_URL = os.getenv("REDIS_URL", "redis://redis:6379/0")
    CELERY_BROKER_URL = os.getenv("CELERY_BROKER_URL", REDIS_URL)
    CELERY_RESULT_BACKEND = os.getenv("CELERY_RESULT_BACKEND", "redis://redis:6379/1")
"##, false),
        ("app/app/routes.py", r##"from flask import jsonify, request
from psycopg import connect
from redis import Redis
from .tasks import ping

def register_routes(app):
    @app.get("/")
    def home():
        return "shop-api is live"

    @app.get("/healthz")
    def healthz():
        return jsonify({"status": "ok", "stack": "flask"})

    @app.get("/readyz")
    def readyz():
        try:
            with connect(
                host=app.config["POSTGRES_HOST"],
                port=app.config["POSTGRES_PORT"],
                dbname=app.config["POSTGRES_DB"],
                user=app.config["POSTGRES_USER"],
                password=app.config["POSTGRES_PASSWORD"],
            ) as conn:
                with conn.cursor() as cursor:
                    cursor.execute("select 1")
                    cursor.fetchone()
            Redis.from_url(app.config["REDIS_URL"]).ping()
            return jsonify({"status": "ready"})
        except Exception as error:
            return jsonify({"status": "error", "message": str(error)}), 503

    @app.post("/jobs/ping")
    def queue_ping():
        task = ping.delay(request.get_json(silent=True) or {"service": "shop-api"})
        return jsonify({"queued": True, "task_id": task.id}), 202
"##, false),
        ("app/app/tasks.py", r##"from .celery_app import celery_app

@celery_app.task(name="tasks.ping")
def ping(payload):
    return {"received": payload}
"##, false),
        ("app/app/celery_app.py", r##"from celery import Celery
from .config import Config

celery_app = Celery(
    "app",
    broker=Config.CELERY_BROKER_URL,
    backend=Config.CELERY_RESULT_BACKEND,
)
celery_app.conf.update(task_track_started=True)
"##, false),
        ("app/app/wsgi.py", r##"from . import create_app

app = create_app()
"##, false),
    ]
}

#[test]
fn flask_project_files_are_exact() {
    let project = Project {
        stack: Stack::Flask,
        name: "shop api".to_string(),
        slug: sanitize_name("shop api"),
        dir: "/tmp/out".to_string(),
    };
    assert_eq!(project.slug, "shop-api");
    let files = files_for(&project);
    let expected = expected_flask_files();
    assert_eq!(files.len(), expected.len());
    for (entry, (path, contents, executable)) in files.iter().zip(expected.iter()) {
        assert_eq!(entry.path, *path);
        assert_eq!(entry.contents, *contents, "contents of {}", path);
        assert_eq!(entry.executable, *executable, "mode of {}", path);
    }
}

fn expected_fastapi_files() -> Vec<(&'static str, &'static str, bool)> {
    vec![
        ("README.md", r##"# Billing Service 2

Generated by DevStack for FastAPI.

The generated app includes FastAPI, Postgres, Redis, Celery worker and beat processes, and an nginx edge.

## Quickstart

```bash
docker compose up --build
```

The application is available at `http://localhost`.

## Included

- Dockerized app runtime
- Postgres with persistent storage
- Redis for caching and jobs
- Background worker service
- GitHub Actions CI
- `.env` and `.env.example`
- Opinionated project layout for shipping fast

## Handy commands

```bash
make up
make down
make logs
make app-shell
make db-shell
```

## Layout

```text
app/
docker/
nginx/
.github/workflows/
compose.yaml
Makefile
```
"##, false),
        (".env", r##"APP_NAME=billing-service-2
APP_ENV=development
APP_PORT=8000
POSTGRES_DB=billing_service_2
POSTGRES_USER=devstack
POSTGRES_PASSWORD=devstack
POSTGRES_HOST=postgres
POSTGRES_PORT=5432
REDIS_URL=redis://redis:6379/0
SECRET_KEY=change-me-now
ALLOWED_HOSTS=localhost,127.0.0.1
CORS_ORIGINS=http://localhost,http://127.0.0.1
CELERY_BROKER_URL=redis://redis:6379/0
CELERY_RESULT_BACKEND=redis://redis:6379/1
"##, false),
        (".env.example", r##"APP_NAME=billing-service-2
APP_ENV=development
APP_PORT=8000
POSTGRES_DB=billing_service_2
POSTGRES_USER=devstack
POSTGRES_PASSWORD=devstack
POSTGRES_HOST=postgres
POSTGRES_PORT=5432
REDIS_URL=redis://redis:6379/0
SECRET_KEY=change-me-now
ALLOWED_HOSTS=localhost,127.0.0.1
CORS_ORIGINS=http://localhost,http://127.0.0.1
CELERY_BROKER_URL=redis://redis:6379/0
CELERY_RESULT_BACKEND=redis://redis:6379/1
"##, false),
        (".gitignore", r##"__pycache__/
*.pyc
.pytest_cache/
.venv/
.env
.DS_Store
"##, false),
        (".dockerignore", r##"__pycache__/
*.pyc
.venv/
.git
"##, false),
        ("Makefile", r##"up:
	docker compose up --build

down:
	docker compose down

logs:
	docker compose logs -f

rebuild:
	docker compose build --no-cache

app-shell:
	docker compose exec app sh

db-shell:
	docker compose exec postgres sh -lc 'psql -U "$$POSTGRES_USER" -d "$$POSTGRES_DB"'
"##, false),
        ("compose.yaml", r##"services:
  app:
    build:
      context: .
      dockerfile: docker/Dockerfile
    command: sh /workspace/docker/start.sh
    env_file:
      - .env
    depends_on:
      postgres:
        condition: service_healthy
      redis:
        condition: service_healthy
    volumes:
      - ./app:/workspace/app
      - ./docker:/workspace/docker
    expose:
      - "8000"


  worker:
    build:
      context: .
      dockerfile: docker/Dockerfile
    command: sh /workspace/docker/worker.sh
    env_file:
      - .env
    depends_on:
      postgres:
        condition: service_healthy
      redis:
        condition: service_healthy
    volumes:
      - ./app:/workspace/app
      - ./docker:/workspace/docker

  beat:
    build:
      context: .
      dockerfile: docker/Dockerfile
    command: sh /workspace/docker/beat.sh
    env_file:
      - .env
    depends_on:
      postgres:
        condition: service_healthy
      redis:
        condition: service_healthy
    volumes:
      - ./app:/workspace/app
      - ./docker:/workspace/docker
  nginx:
    image: nginx:1.27-alpine
    depends_on:
      - app
    ports:
      - "80:80"
    volumes:
      - ./nginx/default.conf:/etc/nginx/conf.d/default.conf:ro

  postgres:
    image: postgres:16-alpine
    env_file:
      - .env
    environment:
      POSTGRES_DB: ${POSTGRES_DB}
      POSTGRES_USER: ${POSTGRES_USER}
      POSTGRES_PASSWORD: ${POSTGRES_PASSWORD}
    healthcheck:
      test: ["CMD-SHELL", "pg_isready -U $${POSTGRES_USER} -d $${POSTGRES_DB}"]
      interval: 5s
      timeout: 5s
      retries: 20
    ports:
      - "5432:5432"
    volumes:
      - postgres_data:/var/lib/postgresql/data

  redis:
    image: redis:7-alpine
    healthcheck:
      test: ["CMD", "redis-cli", "ping"]
      interval: 5s
      timeout: 3s
      retries: 20
    ports:
      - "6379:6379"
    volumes:
      - redis_data:/data

volumes:
  postgres_data:
  redis_data:
"##, false),
        (".github/workflows/ci.yml", r##"name: ci

on:
  push:
  pull_request:

jobs:
  verify:
    runs-on: ubuntu-latest
    steps:
      - uses: actions/checkout@v4
      - uses: actions/setup-python@v5
        with:
          python-version: "3.12"
      - name: Install dependencies
        run: |
          python -m pip install --upgrade pip
          pip install -r app/requirements.txt
      - name: Compile source
        run: python -m compileall app
      - name: Validate Compose
        run: docker compose config
      - name: Build containers
        run: docker compose build
"##, false),
        ("nginx/default.conf", r##"server {
    listen 80;
    server_name _;
    client_max_body_size 32m;

    location / {
        proxy_pass http://app:8000;
        proxy_http_version 1.1;
        proxy_set_header Host $host;
        proxy_set_header X-Real-IP $remote_addr;
        proxy_set_header X-Forwarded-For $proxy_add_x_forwarded_for;
        proxy_set_header X-Forwarded-Proto $scheme;
        proxy_set_header Upgrade $http_upgrade;
        proxy_set_header Connection "upgrade";
    }
}
"##, false),
        ("docker/Dockerfile", r##"FROM python:3.12-slim
WORKDIR /workspace/app
ENV PYTHONDONTWRITEBYTECODE=1
ENV PYTHONUNBUFFERED=1
RUN apt-get update && apt-get install -y build-essential libpq-dev curl && rm -rf /var/lib/apt/lists/*
COPY app/requirements.txt /tmp/requirements.txt
RUN pip install --upgrade pip && pip install -r /tmp/requirements.txt
CMD ["sh", "/workspace/docker/start.sh"]
"##, false),
        ("docker/start.sh", r##"#!/bin/sh
set -e
uvicorn app.main:app --host 0.0.0.0 --port ${APP_PORT:-8000} --reload
"##, true),
        ("docker/worker.sh", r##"#!/bin/sh
set -e
celery -A app.worker.celery_app worker --loglevel=info
"##, true),
        ("docker/beat.sh", r##"#!/bin/sh
set -e
celery -A app.worker.celery_app beat --loglevel=info
"##, true),
        ("app/requirements.txt", r##"celery[redis]==5.4.0
fastapi==0.115.5
gunicorn==22.0.0
psycopg[binary]==3.2.1
redis==5.0.7
uvicorn[standard]==0.32.0
"##, false),
        ("app/app/config.py", r##"import os

APP_NAME = os.getenv("APP_NAME", "billing-service-2")
POSTGRES_HOST = os.getenv("POSTGRES_HOST", "postgres")
POSTGRES_PORT = int(os.getenv("POSTGRES_PORT", "5432"))
POSTGRES_DB = os.getenv("POSTGRES_DB", "billing_service_2")
POSTGRES_USER = os.getenv("POSTGRES_USER", "devstack")
POSTGRES_PASSWORD = os.getenv("POSTGRES_PASSWORD", "devstack")
REDIS_URL = os.getenv("REDIS_URL", "redis://redis:6379/0")
CELERY_BROKER_URL = os.getenv("CELERY_BROKER_URL", REDIS_URL)
CELERY_RESULT_BACKEND = os.getenv("CELERY_RESULT_BACKEND", "redis://redis:6379/1")
"##, false),
        ("app/app/worker.py", r##"from celery import Celery
from .config import CELERY_BROKER_URL, CELERY_RESULT_BACKEND

celery_app = Celery("app", broker=CELERY_BROKER_URL, backend=CELERY_RESULT_BACKEND)

@celery_app.task(name="tasks.ping")
def ping(payload):
    return {"received": payload}
"##, false),
        ("app/app/main.py", r##"from fastapi import FastAPI, HTTPException
from psycopg import connect
from redis import Redis
from .config import APP_NAME, POSTGRES_DB, POSTGRES_HOST, POSTGRES_PASSWORD, POSTGRES_PORT, POSTGRES_USER, REDIS_URL
from .worker import ping

app = FastAPI(title=APP_NAME)

@app.get("/")
def home():
    return {"message": "billing-service-2 is live"}

@app.get("/healthz")
def healthz():
    return {"status": "ok", "stack": "fastapi"}

@app.get("/readyz")
def readyz():
    try:
        with connect(
            host=POSTGRES_HOST,
            port=POSTGRES_PORT,
            dbname=POSTGRES_DB,
            user=POSTGRES_USER,
            password=POSTGRES_PASSWORD,
        ) as conn:
            with conn.cursor() as cursor:
                cursor.execute("select 1")
                cursor.fetchone()
        Redis.from_url(REDIS_URL).ping()
        return {"status": "ready"}
    except Exception as error:
        raise HTTPException(status_code=503, detail=str(error))

@app.post("/jobs/ping")
def queue_ping(payload: dict | None = None):
    task = ping.delay(payload or {"service": "billing-service-2"})
    return {"queued": True, "task_id": task.id}
"##, false),
    ]
}

#[test]
fn fastapi_project_files_are_exact() {
    let project = Project {
        stack: Stack::Fastapi,
        name: "Billing--Service 2".to_string(),
        slug: sanitize_name("Billing--Service 2"),
        dir: "/tmp/out".to_string(),
    };
    assert_eq!(project.slug, "billing-service-2");
    let files = files_for(&project);
    let expected = expected_fastapi_files();
    assert_eq!(files.len(), expected.len());
    for (entry, (path, contents, executable)) in files.iter().zip(expected.iter()) {
        assert_eq!(entry.path, *path);
        assert_eq!(entry.contents, *contents, "contents of {}", path);
        assert_eq!(entry.executable, *executable, "mode of {}", path);
    }
}
