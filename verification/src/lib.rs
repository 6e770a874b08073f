//! DevStack: the files of a ready-to-run backend project (Docker, Postgres, Redis,
//! nginx, a background worker, CI and env files) for a Node.js, Django, Flask or
//! FastAPI service, with the slug, target directory and contents of every file
//! stated exactly and proved by Verus.

pub mod content_laws;
pub mod generator;
pub mod laws;
pub mod naming_laws;
pub mod project;
pub mod stack_laws;
pub mod text;
