//! The periodic jobs: flushing the buffers, paging through the
//! administrative log, and listing the account's sessions.

pub mod admin_actions;
pub mod feed;
pub mod flush_buffers;
pub mod paginator;
pub mod user_sessions;

use crate::db::StoreConfig;
use vstd::prelude::*;

verus! {

/// The setting of the store that is missing.
#[derive(Clone, Copy, Debug, PartialEq, Eq, Structural)]
pub enum ConfigError {
    MissingUrl,
    MissingUser,
    MissingPassword,
    MissingDatabase,
}

/// The first of the four settings that is missing, in the order url, user,
/// password, database; none where all are present.
pub open spec fn first_missing(
    url: Option<String>,
    user: Option<String>,
    password: Option<String>,
    database: Option<String>,
) -> Option<ConfigError> {
    if url is None {
        Some(ConfigError::MissingUrl)
    } else if user is None {
        Some(ConfigError::MissingUser)
    } else if password is None {
        Some(ConfigError::MissingPassword)
    } else if database is None {
        Some(ConfigError::MissingDatabase)
    } else {
        None
    }
}

/// The configuration of the durable store from the four settings, or the
/// first of them that is missing.
pub fn clickhouse_client(
    url: Option<String>,
    user: Option<String>,
    password: Option<String>,
    database: Option<String>,
) -> (out: Result<StoreConfig, ConfigError>)
    ensures
        match out {
            Ok(config) => first_missing(url, user, password, database) is None && config.url@
                == url->0@ && config.user@ == user->0@ && config.password@ == password->0@
                && config.database@ == database->0@,
            Err(missing) => first_missing(url, user, password, database) == Some(missing),
        },
{
    let url = match url {
        Some(url) => url,
        None => {
            return Err(ConfigError::MissingUrl);
        },
    };
    let user = match user {
        Some(user) => user,
        None => {
            return Err(ConfigError::MissingUser);
        },
    };
    let password = match password {
        Some(password) => password,
        None => {
            return Err(ConfigError::MissingPassword);
        },
    };
    let database = match database {
        Some(database) => database,
        None => {
            return Err(ConfigError::MissingDatabase);
        },
    };
    Ok(crate::db::clickhouse(url, user, password, database))
}

} // verus!
