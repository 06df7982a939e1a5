//! Configuration state: default branch and the optional credentials that
//! switch the AI and remote-API features on.
//!
//! Reading the environment happens outside the library; the merge of raw
//! environment values into a configuration is specified here.

use vstd::prelude::*;

verus! {

#[derive(Debug, Clone)]
pub struct Config {
    pub default_branch: String,
    pub openai_api_key: Option<String>,
    pub github_token: Option<String>,
}

impl Default for Config {
    /// The built-in configuration: branch `master`, no credentials.
    fn default() -> (r: Config)
        ensures
            r.default_branch@ == "master"@,
            r.openai_api_key is None,
            r.github_token is None,
    {
        Config {
            default_branch: String::from_str("master"),
            openai_api_key: None,
            github_token: None,
        }
    }
}

impl Config {
    /// Merge raw environment values into a configuration: the branch value
    /// overrides the `master` default; the primary token is preferred and
    /// the alternative token fills in only when the primary is absent.
    pub fn from_env_values(
        default_branch: Option<String>,
        openai_api_key: Option<String>,
        github_token: Option<String>,
        gh_token: Option<String>,
    ) -> (r: Config)
        ensures
            default_branch matches Some(b) ==> r.default_branch == b,
            default_branch is None ==> r.default_branch@ == "master"@,
            r.openai_api_key == openai_api_key,
            github_token is Some ==> r.github_token == github_token,
            github_token is None ==> r.github_token == gh_token,
    {
        let branch = match default_branch {
            Some(b) => b,
            None => String::from_str("master"),
        };
        let token = match github_token {
            Some(t) => Some(t),
            None => gh_token,
        };
        Config { default_branch: branch, openai_api_key, github_token: token }
    }

    pub fn get_default_branch(&self) -> (r: &str)
        ensures
            r@ == self.default_branch@,
    {
        self.default_branch.as_str()
    }

    pub fn has_openai_key(&self) -> (r: bool)
        ensures
            r == (self.openai_api_key is Some),
    {
        self.openai_api_key.is_some()
    }

    pub fn has_github_token(&self) -> (r: bool)
        ensures
            r == (self.github_token is Some),
    {
        self.github_token.is_some()
    }
}

} // verus!
