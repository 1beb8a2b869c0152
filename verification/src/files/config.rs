//! The configuration: the list of providers to ask.

use crate::files::ConfigFileStatus;
use crate::provider::{Failure, KloniError};
use crate::text::same_text;
use vstd::prelude::*;
use vstd::string::*;

verus! {

/// The content that a new configuration file is made with.
pub const CONFIG_DEFAULT: &'static str = r#"
[[providers]]
provider = "github"
base_url = "https://git.acme-enterprise.org"
token = "s3cr3t"
symbol = "GH"

[[providers]]
provider = "bitbucket"
base_url = "https://bitbucket.acme-enterprise.org"
token = "s3cr3t"
symbol = "BB"
"#;

/// The configuration of a run.
#[derive(Debug)]
pub struct Config {
    /// The providers, in the order in which they are asked.
    pub providers: Vec<Provider>,
}

/// One configured provider.
#[derive(Debug)]
pub struct Provider {
    /// The kind of API that the host speaks.
    pub provider: Type,
    /// The host's base URL, without the API's path.
    pub base_url: String,
    /// The token to authenticate with.
    pub token: String,
    /// The display symbol, if any.
    pub symbol: Option<String>,
}

/// The kinds of provider.
#[allow(non_camel_case_types)]
#[derive(Debug, PartialEq, Eq, Clone, Copy)]
pub enum Type {
    github,
    bitbucket,
}

/// The settings of a GitHub-style host.
#[derive(Debug)]
pub struct GithubConf {
    pub base_url: String,
    pub token: String,
    pub icon: Option<String>,
}

/// The settings of a Bitbucket-style host.
#[derive(Debug)]
pub struct BitbucketConf {
    pub base_url: String,
    pub token: String,
    pub icon: Option<String>,
}

/// Why there is no configuration to run with.
#[derive(Debug, PartialEq, Eq)]
pub enum ConfigError {
    /// The configuration file at this path has only just been made and
    /// still holds the default content.
    FirstRun(String),
}

impl ConfigError {
    /// The one-line message shown to the user.
    pub open spec fn message_text(self) -> Seq<char> {
        "It looks like kloni has been executed for the first time. Please provide the necessary repo provider config in '"@
            + self->FirstRun_0@ + "'"@
    }

    /// The one-line message shown to the user: it names the file to edit.
    pub fn message(&self) -> (text: String)
        ensures
            text@ == self.message_text(),
    {
        match self {
            ConfigError::FirstRun(path) => {
                let mut text = String::from_str(
                    "It looks like kloni has been executed for the first time. Please provide the necessary repo provider config in '",
                );
                text.append(path.as_str());
                text.append("'");
                text
            },
        }
    }
}

/// The kind of provider that a name in the configuration stands for.
pub open spec fn kind_of(name: Seq<char>) -> Option<Type> {
    if name == "github"@ {
        Some(Type::github)
    } else if name == "bitbucket"@ {
        Some(Type::bitbucket)
    } else {
        None
    }
}

impl Type {
    /// The kind of provider that `name` stands for. Any name but `github`
    /// and `bitbucket` makes the configuration invalid.
    pub fn from_name(name: &str) -> (r: Result<Type, KloniError>)
        ensures
            match r {
                Ok(kind) => kind_of(name@) == Some(kind),
                Err(e) => kind_of(name@) is None && e@ == Failure::InvalidConfiguration,
            },
    {
        if same_text(name, "github") {
            Ok(Type::github)
        } else if same_text(name, "bitbucket") {
            Ok(Type::bitbucket)
        } else {
            Err(KloniError::InvalidConfiguration)
        }
    }
}

impl Config {
    /// The path of the configuration file to read, unless the file has only
    /// just been made: then the run ends, and the user is pointed to it.
    pub fn get(status: ConfigFileStatus) -> (r: Result<String, ConfigError>)
        ensures
            match status {
                ConfigFileStatus::Created(path) => r == Err::<String, ConfigError>(
                    ConfigError::FirstRun(path),
                ),
                ConfigFileStatus::Existing(path) => r == Ok::<String, ConfigError>(path),
            },
    {
        match status {
            ConfigFileStatus::Created(path) => Err(ConfigError::FirstRun(path)),
            ConfigFileStatus::Existing(path) => Ok(path),
        }
    }

    /// A configuration is valid when it names at least one provider.
    pub open spec fn valid(&self) -> bool {
        self.providers@.len() > 0
    }

    /// Checks that the configuration names at least one provider.
    pub fn validate_config(config: &Config) -> (r: Result<(), KloniError>)
        ensures
            match r {
                Ok(_) => config.valid(),
                Err(e) => !config.valid() && e@ == Failure::InvalidConfiguration,
            },
    {
        if config.providers.len() == 0 {
            Err(KloniError::InvalidConfiguration)
        } else {
            Ok(())
        }
    }
}

} // verus!
