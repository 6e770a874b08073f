use vstd::prelude::*;
use crate::project::{entries_view, FileEntry, Project};
use crate::generator::shared::{executable_file, text_file};

verus! {

/// The files a Node.js project adds to the shared ones: path, contents and
/// whether the file is executable, in the order in which they are written.
pub open spec fn spec_files(project: Project) -> Seq<(Seq<char>, Seq<char>, bool)> {
    seq![
        ("docker/Dockerfile"@, DOCKERFILE@, false),
        ("docker/start.sh"@, START_SCRIPT@, true),
        ("docker/worker.sh"@, WORKER_SCRIPT@, true),
        ("app/package.json"@, spec_package_json(project.slug@), false),
        ("app/src/index.js"@, spec_index_js(project.slug@), false),
        ("app/src/queue.js"@, QUEUE_JS@, false),
        ("app/src/worker.js"@, WORKER_JS@, false),
    ]
}

/// The files of a Node.js project beyond the shared ones.
pub fn files(project: &Project) -> (r: Vec<FileEntry>)
    ensures
        entries_view(r@) == spec_files(*project),
{
    let v = vec![
        text_file("docker/Dockerfile", dockerfile()),
        executable_file("docker/start.sh", start_script()),
        executable_file("docker/worker.sh", worker_script()),
        text_file("app/package.json", package_json(project)),
        text_file("app/src/index.js", index_js(project)),
        text_file("app/src/queue.js", queue_js()),
        text_file("app/src/worker.js", worker_js()),
    ];
    assert(entries_view(v@) =~= spec_files(*project));
    v
}

pub const DOCKERFILE: &'static str = r#"FROM node:22-alpine
WORKDIR /workspace/app
COPY app/package*.json ./
RUN npm install
CMD ["sh", "/workspace/docker/start.sh"]
"#;

fn dockerfile() -> (r: String)
    ensures
        r@ == DOCKERFILE@,
{
    String::from_str(DOCKERFILE)
}

pub const START_SCRIPT: &'static str = r#"#!/bin/sh
set -e
npm install
npm run dev
"#;

fn start_script() -> (r: String)
    ensures
        r@ == START_SCRIPT@,
{
    String::from_str(START_SCRIPT)
}

pub const WORKER_SCRIPT: &'static str = r#"#!/bin/sh
set -e
npm install
npm run worker
"#;

fn worker_script() -> (r: String)
    ensures
        r@ == WORKER_SCRIPT@,
{
    String::from_str(WORKER_SCRIPT)
}

pub const PACKAGE_JSON_HEAD: &'static str = r#"{
"#;

pub const PACKAGE_JSON_LINE_START: &'static str = r#"  "name": ""#;

pub const PACKAGE_JSON_LINE_END: &'static str = r#"",
"#;

pub const PACKAGE_JSON_TAIL: &'static str = r#"  "version": "0.1.0",
  "private": true,
  "type": "module",
  "scripts": {
    "dev": "node src/index.js",
    "worker": "node src/worker.js"
  },
  "dependencies": {
    "bullmq": "^5.12.9",
    "dotenv": "^16.4.5",
    "express": "^4.19.2",
    "ioredis": "^5.4.1",
    "pg": "^8.12.0"
  }
}
"#;

/// The contents of `app/package.json`, with the slug filled in.
pub open spec fn spec_package_json(slug: Seq<char>) -> Seq<char> {
    PACKAGE_JSON_HEAD@ + PACKAGE_JSON_LINE_START@ + slug + PACKAGE_JSON_LINE_END@ + PACKAGE_JSON_TAIL@
}

fn package_json(project: &Project) -> (r: String)
    ensures
        r@ == spec_package_json(project.slug@),
{
    let mut s = String::from_str(PACKAGE_JSON_HEAD);
    s.append(PACKAGE_JSON_LINE_START);
    s.append(project.slug.as_str());
    s.append(PACKAGE_JSON_LINE_END);
    s.append(PACKAGE_JSON_TAIL);
    s
}

pub const INDEX_JS_HEAD: &'static str = r#"import "dotenv/config";
import express from "express";
import { Pool } from "pg";
import Redis from "ioredis";
import { jobs } from "./queue.js";

const app = express();
const port = Number(process.env.APP_PORT || 3000);
const pool = new Pool({
  host: process.env.POSTGRES_HOST,
  port: Number(process.env.POSTGRES_PORT || 5432),
  database: process.env.POSTGRES_DB,
  user: process.env.POSTGRES_USER,
  password: process.env.POSTGRES_PASSWORD
});
const redis = new Redis(process.env.REDIS_URL);

app.use(express.json());

app.get("/healthz", (_req, res) => {
"#;

pub const INDEX_JS_LINE_A_START: &'static str = r#"  res.json({ status: "ok", stack: "node", service: ""#;

pub const INDEX_JS_LINE_A_END: &'static str = r#"" });
"#;

pub const INDEX_JS_MID_A: &'static str = r#"});

app.get("/readyz", async (_req, res) => {
  try {
    await pool.query("select 1");
    await redis.ping();
    res.json({ status: "ready" });
  } catch (error) {
    res.status(503).json({ status: "error", message: error.message });
  }
});

app.post("/jobs/ping", async (_req, res) => {
"#;

pub const INDEX_JS_LINE_B_START: &'static str = r#"  const job = await jobs.add("ping", { service: ""#;

pub const INDEX_JS_LINE_B_END: &'static str = r#"", at: new Date().toISOString() });
"#;

pub const INDEX_JS_MID_B: &'static str = r#"  res.status(202).json({ queued: true, id: job.id });
});

app.listen(port, "0.0.0.0", () => {
"#;

pub const INDEX_JS_LINE_C_START: &'static str = r#"  console.log(`"#;

pub const INDEX_JS_LINE_C_END: &'static str = r#" listening on ${port}`);
"#;

pub const INDEX_JS_TAIL: &'static str = r#"});
"#;

/// The contents of `app/src/index.js`, with the slug filled in.
pub open spec fn spec_index_js(slug: Seq<char>) -> Seq<char> {
    INDEX_JS_HEAD@ + INDEX_JS_LINE_A_START@ + slug + INDEX_JS_LINE_A_END@ + INDEX_JS_MID_A@ + INDEX_JS_LINE_B_START@ + slug + INDEX_JS_LINE_B_END@ + INDEX_JS_MID_B@ + INDEX_JS_LINE_C_START@ + slug + INDEX_JS_LINE_C_END@ + INDEX_JS_TAIL@
}

fn index_js(project: &Project) -> (r: String)
    ensures
        r@ == spec_index_js(project.slug@),
{
    let mut s = String::from_str(INDEX_JS_HEAD);
    s.append(INDEX_JS_LINE_A_START);
    s.append(project.slug.as_str());
    s.append(INDEX_JS_LINE_A_END);
    s.append(INDEX_JS_MID_A);
    s.append(INDEX_JS_LINE_B_START);
    s.append(project.slug.as_str());
    s.append(INDEX_JS_LINE_B_END);
    s.append(INDEX_JS_MID_B);
    s.append(INDEX_JS_LINE_C_START);
    s.append(project.slug.as_str());
    s.append(INDEX_JS_LINE_C_END);
    s.append(INDEX_JS_TAIL);
    s
}

pub const QUEUE_JS: &'static str = r#"import "dotenv/config";
import Redis from "ioredis";
import { Queue } from "bullmq";

const connection = new Redis(process.env.REDIS_URL, {
  maxRetriesPerRequest: null
});

export const jobs = new Queue("jobs", { connection });
"#;

fn queue_js() -> (r: String)
    ensures
        r@ == QUEUE_JS@,
{
    String::from_str(QUEUE_JS)
}

pub const WORKER_JS: &'static str = r#"import "dotenv/config";
import Redis from "ioredis";
import { Worker } from "bullmq";

const connection = new Redis(process.env.REDIS_URL, {
  maxRetriesPerRequest: null
});

new Worker(
  "jobs",
  async job => {
    console.log(`processed ${job.name}`, job.data);
  },
  { connection }
);

console.log("worker running");
"#;

fn worker_js() -> (r: String)
    ensures
        r@ == WORKER_JS@,
{
    String::from_str(WORKER_JS)
}

} // verus!
