//! The rules of deploying an application to the Fermyon self-hosted Platform.
//!
//! A deployment logs in (`login`, `login_flow`), takes an application that the
//! platform can run (`manifest`), packages and uploads it (`buildinfo`,
//! `upload`), has the platform's channel use the new revision (`catalog`,
//! `deploy`), and waits for the application to become ready (`web_url`,
//! `readiness`, `routes`). A command from its login to the end of its deployment
//! is a `run`. What holds of every deployment is in `deploy_laws`,
//! what each of its steps comes to in `deploy_steps`, and what a login comes to in
//! `login_laws`.

pub mod buildinfo;
pub mod catalog;
pub mod deploy;
pub mod deploy_laws;
pub mod deploy_steps;
pub mod error;
pub mod login;
pub mod login_flow;
pub mod login_laws;
pub mod manifest;
pub mod outside;
pub mod readiness;
pub mod routes;
pub mod run;
pub mod text;
pub mod upload;
pub mod web_url;
