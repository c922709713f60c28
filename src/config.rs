use crate::rules::ContestRules;
use crate::window::Window;
use vstd::prelude::*;

verus! {

pub fn default_listen_addr() -> (r: String)
    ensures
        r@ == "0.0.0.0:3000"@,
{
    String::from_str("0.0.0.0:3000")
}

pub fn default_database_host() -> (r: String)
    ensures
        r@ == "localhost"@,
{
    String::from_str("localhost")
}

pub fn default_database_port() -> (r: u16)
    ensures
        r == 5432,
{
    5432
}

pub fn default_database_user() -> (r: String)
    ensures
        r@ == "postgres"@,
{
    String::from_str("postgres")
}

pub fn default_database_password() -> (r: String)
    ensures
        r@ == "contcont"@,
{
    String::from_str("contcont")
}

pub fn default_database_database() -> (r: String)
    ensures
        r@ == "postgres"@,
{
    String::from_str("postgres")
}

/// The directory of the static front end, as text; callers turn it into a path.
pub fn default_static_files_directory_path() -> (r: String)
    ensures
        r@ == "../frontend/dist"@,
{
    String::from_str("../frontend/dist")
}

pub fn default_literature_enabled() -> (r: bool)
    ensures
        r,
{
    true
}

pub fn default_art_enabled() -> (r: bool)
    ensures
        r,
{
    true
}

/// The settings of a contest, as plain values: addresses and paths as text,
/// the signing secret as bytes, and moments in seconds since the Unix epoch.
#[derive(Debug)]
pub struct Config {
    pub contest_name: String,
    pub listen_addr: String,
    pub base_url: String,
    pub database_host: String,
    pub database_port: u16,
    pub database_user: String,
    pub database_password: String,
    pub database_database: String,
    pub static_files_directory_path: String,
    pub jwt_secret: Vec<u8>,
    pub literature_enabled: bool,
    pub art_enabled: bool,
    pub submission_open_at: i64,
    pub submission_close_at: i64,
    pub voting_open_at: i64,
    pub voting_close_at: i64,
    pub misskey_base_url: Option<String>,
    pub misskey_api_key: Option<String>,
}

impl Config {
    /// The switches and windows that the contest rules read.
    pub fn rules(&self) -> (r: ContestRules)
        ensures
            r.literature_enabled == self.literature_enabled,
            r.art_enabled == self.art_enabled,
            r.submission == (Window {
                open_at: self.submission_open_at,
                close_at: self.submission_close_at,
            }),
            r.voting == (Window { open_at: self.voting_open_at, close_at: self.voting_close_at }),
    {
        ContestRules {
            literature_enabled: self.literature_enabled,
            art_enabled: self.art_enabled,
            submission: Window::new(self.submission_open_at, self.submission_close_at),
            voting: Window::new(self.voting_open_at, self.voting_close_at),
        }
    }
}

} // verus!
