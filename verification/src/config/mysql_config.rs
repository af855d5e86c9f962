//! Location of the MySQL database as given by its own configuration file.

use crate::config::mysql_url_text;
use crate::text::{decimal, push_decimal};
use vstd::prelude::*;

verus! {

/// MySQL connection settings.
pub struct Config {
    pub ip: String,
    pub port: u32,
    pub username: String,
    pub password: String,
    pub database: String,
}

impl Config {
    /// The connection URL, `mysql://{username}:{password}@{ip}:{port}/{database}`,
    /// with the port in decimal.
    pub fn to_url(&self) -> (url: String)
        ensures
            url@ == mysql_url_text(
                self.username@,
                self.password@,
                self.ip@,
                decimal(self.port as nat),
                self.database@,
            ),
    {
        let mut url = String::from_str("mysql://");
        url.append(self.username.as_str());
        url.append(":");
        url.append(self.password.as_str());
        url.append("@");
        url.append(self.ip.as_str());
        url.append(":");
        push_decimal(&mut url, self.port as u64);
        url.append("/");
        url.append(self.database.as_str());
        assert(url@ =~= mysql_url_text(
            self.username@,
            self.password@,
            self.ip@,
            decimal(self.port as nat),
            self.database@,
        ));
        url
    }
}

} // verus!
