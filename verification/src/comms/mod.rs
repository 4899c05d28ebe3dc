//! The settings of the clients of the four other agents, and the rules by
//! which their answers are read. The HTTP exchanges themselves are made by
//! the caller.

pub mod analyseur;
pub mod auditeur;
pub mod chiffreur;
pub mod decideur;
pub mod dto;
pub mod health;
pub mod http;

use crate::config::{Config, spec_decideur_token};
use vstd::prelude::*;

verus! {

/// The clients of the four agents, as configured.
#[derive(Debug)]
pub struct AgentClients {
    pub auditeur: auditeur::AuditeurClient,
    pub decideur: decideur::DecideurClient,
    pub analyseur: analyseur::AnalyseurClient,
    pub chiffreur: chiffreur::ChiffreurClient,
}

impl AgentClients {
    /// The clients that `cfg` describes: each agent at its URL with the
    /// shared token, except the Décideur, which gets its own token where one
    /// is configured; the Auditeur also gets the backup path of events.
    pub fn from_config(cfg: &Config) -> (r: Self)
        ensures
            r.auditeur.url@ == cfg.auditeur_url@,
            r.auditeur.token@ == cfg.agent_token@,
            r.auditeur.backup_path@ == cfg.backup_events_path@,
            r.auditeur.dry_run == cfg.dry_run,
            r.decideur.url@ == cfg.decideur_url@,
            r.decideur.token@ == spec_decideur_token(*cfg),
            r.decideur.dry_run == cfg.dry_run,
            r.analyseur.url@ == cfg.analyseur_url@,
            r.analyseur.token@ == cfg.agent_token@,
            r.analyseur.dry_run == cfg.dry_run,
            r.chiffreur.url@ == cfg.chiffreur_url@,
            r.chiffreur.token@ == cfg.agent_token@,
            r.chiffreur.dry_run == cfg.dry_run,
    {
        let dry = cfg.dry_run;
        AgentClients {
            auditeur: auditeur::AuditeurClient::new(
                cfg.auditeur_url.clone(),
                cfg.agent_token.clone(),
                cfg.backup_events_path.clone(),
                dry,
            ),
            decideur: decideur::DecideurClient::new(
                cfg.decideur_url.clone(),
                String::from_str(cfg.decideur_token()),
                dry,
            ),
            analyseur: analyseur::AnalyseurClient::new(
                cfg.analyseur_url.clone(),
                cfg.agent_token.clone(),
                dry,
            ),
            chiffreur: chiffreur::ChiffreurClient::new(
                cfg.chiffreur_url.clone(),
                cfg.agent_token.clone(),
                dry,
            ),
        }
    }
}

} // verus!
