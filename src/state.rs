//! Records kept about profiles and accounts.
use vstd::prelude::*;

verus! {

/// A saved profile of the target application.
pub struct ProfileInfo {
    pub name: String,
    pub source_path: String,
    pub backup_path: String,
    pub created_at: String,
    pub last_updated: String,
}

/// An account of the target application as the agent lists it.
pub struct AntigravityAccount {
    pub id: String,
    pub name: String,
    pub email: String,
    pub api_key: String,
    /// The avatar, in base64.
    pub profile_url: String,
    /// The user's settings, in base64.
    pub user_settings: String,
    pub created_at: String,
    pub last_switched: String,
}

/// What the agent keeps while it runs: saved profiles and accounts by id, the
/// configuration directory, and the account in use, if any.
pub struct AppState {
    pub profiles: std::collections::HashMap<String, ProfileInfo>,
    pub config_dir: String,
    pub antigravity_accounts: std::collections::HashMap<String, AntigravityAccount>,
    pub current_account_id: Option<String>,
}

impl AppState {
    /// A state with nothing recorded, for the configuration directory
    /// `config_dir`.
    pub fn new(config_dir: String) -> (r: AppState)
        ensures
            r.profiles@ == Map::<String, ProfileInfo>::empty(),
            r.antigravity_accounts@ == Map::<String, AntigravityAccount>::empty(),
            r.config_dir@ == config_dir@,
            r.current_account_id.is_none(),
    {
        AppState {
            profiles: std::collections::HashMap::new(),
            config_dir,
            antigravity_accounts: std::collections::HashMap::new(),
            current_account_id: None,
        }
    }
}

} // verus!
