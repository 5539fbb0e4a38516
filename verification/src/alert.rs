//! The alert request: what is sent to the backend for one message.

use crate::config::{is_header_text, Config, ConfigView};
use vstd::prelude::*;
use vstd::string::*;

verus! {

/// The HTTP method of a request. Alerts are always posted.
#[derive(Clone, Copy, Debug, PartialEq, Eq, Structural)]
pub enum Method {
    Post,
}

/// One request to the backend's alert endpoint. It carries no body.
#[derive(Debug, PartialEq, Eq)]
pub struct AlertRequest {
    /// The HTTP method.
    pub method: Method,
    /// The full target URL.
    pub url: String,
    /// The name of the one header the request sets.
    pub header_name: String,
    /// The value of that header.
    pub header_value: String,
}

/// The mathematical content of an [`AlertRequest`].
pub struct AlertRequestView {
    pub method: Method,
    pub url: Seq<char>,
    pub header_name: Seq<char>,
    pub header_value: Seq<char>,
}

impl View for AlertRequest {
    type V = AlertRequestView;

    open spec fn view(&self) -> AlertRequestView {
        AlertRequestView {
            method: self.method,
            url: self.url@,
            header_name: self.header_name@,
            header_value: self.header_value@,
        }
    }
}

impl Clone for AlertRequest {
    fn clone(&self) -> (copy: Self)
        ensures
            copy@ == self@,
    {
        AlertRequest {
            method: self.method,
            url: self.url.clone(),
            header_name: self.header_name.clone(),
            header_value: self.header_value.clone(),
        }
    }
}

/// The alert request that a configuration calls for: a `POST` to the
/// backend base URL followed by `/alert`, with the API key in the header
/// `x-api-key`.
pub open spec fn alert_for(config: ConfigView) -> AlertRequestView {
    AlertRequestView {
        method: Method::Post,
        url: config.backend_url + "/alert"@,
        header_name: "x-api-key"@,
        header_value: config.api_key,
    }
}

impl AlertRequest {
    /// Builds the alert request for `config`.
    pub fn new(config: &Config) -> (request: AlertRequest)
        ensures
            request@ == alert_for(config@),
            is_header_text(request@.header_value),
    {
        let mut url = String::from_str(config.backend_url());
        url.append("/alert");
        AlertRequest {
            method: Method::Post,
            url,
            header_name: String::from_str("x-api-key"),
            header_value: String::from_str(config.api_key()),
        }
    }
}

} // verus!
