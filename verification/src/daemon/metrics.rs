//! The settings of the metrics recorder.

use vstd::prelude::*;
use vstd::string::StringExecFns;
use crate::daemon::error::UserError;

verus! {

/// Where the metrics go: the four settings of the InfluxDB connection.
#[derive(Debug, Clone, PartialEq, Eq)]
pub struct MetricsSettings {
    pub db: String,
    pub url: String,
    pub username: String,
    pub password: String,
}

/// The settings of the metrics recorder, as contracts see them, in the order
/// database, URL, user name, password.
pub struct MetricsView {
    pub db: Seq<char>,
    pub url: Seq<char>,
    pub username: Seq<char>,
    pub password: Seq<char>,
}

impl View for MetricsSettings {
    type V = MetricsView;

    open spec fn view(&self) -> MetricsView {
        MetricsView {
            db: self.db@,
            url: self.url@,
            username: self.username@,
            password: self.password@,
        }
    }
}

/// What an optional setting holds, as characters.
pub open spec fn setting_view(setting: Option<&str>) -> Option<Seq<char>> {
    match setting {
        Some(text) => Some(text@),
        None => None,
    }
}

/// The message of the error for the first setting that is missing, asked in
/// the order database, URL, user name, password; `None` if all are there.
pub open spec fn missing_setting(
    db: Option<Seq<char>>,
    url: Option<Seq<char>>,
    username: Option<Seq<char>>,
    password: Option<Seq<char>>,
) -> Option<Seq<char>> {
    if db is None {
        Some("missing metrics db provider configuration"@)
    } else if url is None {
        Some("missing metrics url provider configuration"@)
    } else if username is None {
        Some("missing metrics username provider configuration"@)
    } else if password is None {
        Some("missing metrics password provider configuration"@)
    } else {
        None
    }
}

/// Decides whether metrics are recorded and where they go.
///
/// Metrics are off when none of the four settings is given. As soon as one
/// is given all four are required: the first that is missing is a
/// `MissingArgument` error.
pub fn metrics_settings(
    db: Option<&str>,
    url: Option<&str>,
    username: Option<&str>,
    password: Option<&str>,
) -> (settings: Result<Option<MetricsSettings>, UserError>)
    ensures
        match settings {
            Ok(None) => db is None && url is None && username is None && password is None,
            Ok(Some(found)) => {
                &&& Some(found@.db) == setting_view(db)
                &&& Some(found@.url) == setting_view(url)
                &&& Some(found@.username) == setting_view(username)
                &&& Some(found@.password) == setting_view(password)
            },
            Err(err) => {
                &&& db is Some || url is Some || username is Some || password is Some
                &&& missing_setting(
                    setting_view(db),
                    setting_view(url),
                    setting_view(username),
                    setting_view(password),
                ) == Some(err@->MissingArgument_0)
                &&& err@ is MissingArgument
            },
        },
{
    let metrics_configured = db.is_some() || url.is_some() || username.is_some()
        || password.is_some();
    if !metrics_configured {
        return Ok(None);
    }
    let influx_db = match db {
        Some(value) => value,
        None => {
            return Err(
                UserError::MissingArgument(
                    String::from_str("missing metrics db provider configuration"),
                ),
            );
        },
    };
    let influx_url = match url {
        Some(value) => value,
        None => {
            return Err(
                UserError::MissingArgument(
                    String::from_str("missing metrics url provider configuration"),
                ),
            );
        },
    };
    let influx_username = match username {
        Some(value) => value,
        None => {
            return Err(
                UserError::MissingArgument(
                    String::from_str("missing metrics username provider configuration"),
                ),
            );
        },
    };
    let influx_password = match password {
        Some(value) => value,
        None => {
            return Err(
                UserError::MissingArgument(
                    String::from_str("missing metrics password provider configuration"),
                ),
            );
        },
    };
    Ok(
        Some(
            MetricsSettings {
                db: influx_db.to_owned(),
                url: influx_url.to_owned(),
                username: influx_username.to_owned(),
                password: influx_password.to_owned(),
            },
        ),
    )
}

} // verus!
