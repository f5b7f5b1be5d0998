//! Credentials of an installed application, as the API console hands them
//! out, and the secret the authenticator is given.

use google_drive3::oauth2::ApplicationSecret;
use vstd::prelude::*;

verus! {

/// `yup_oauth2::ApplicationSecret`, which `google_drive3` hands on as
/// `oauth2::ApplicationSecret`: a record of public fields.
#[verifier::external_type_specification]
pub struct ExApplicationSecret(google_drive3::oauth2::ApplicationSecret);

/// The credentials file.
#[derive(Debug)]
pub struct GDApiConfig {
    pub installed: InstalledApp,
}

/// The credentials of an installed application.
#[derive(Debug)]
pub struct InstalledApp {
    pub client_id: String,
    pub project_id: String,
    pub auth_uri: String,
    pub token_uri: String,
    pub auth_provider_x509_cert_url: String,
    pub client_secret: String,
    pub redirect_uris: Vec<String>,
}

impl InstalledApp {
    /// The secret for the authenticator: every field of the credentials
    /// under its own name, and nothing for what an installed application
    /// does not have.
    pub fn into_secret(self) -> (secret: ApplicationSecret)
        ensures
            secret.client_id == self.client_id,
            secret.client_secret == self.client_secret,
            secret.token_uri == self.token_uri,
            secret.auth_uri == self.auth_uri,
            secret.redirect_uris == self.redirect_uris,
            secret.project_id == Some(self.project_id),
            secret.client_email.is_none(),
            secret.auth_provider_x509_cert_url == Some(self.auth_provider_x509_cert_url),
            secret.client_x509_cert_url.is_none(),
    {
        ApplicationSecret {
            client_id: self.client_id,
            client_secret: self.client_secret,
            token_uri: self.token_uri,
            auth_uri: self.auth_uri,
            redirect_uris: self.redirect_uris,
            project_id: Some(self.project_id),
            client_email: None,
            auth_provider_x509_cert_url: Some(self.auth_provider_x509_cert_url),
            client_x509_cert_url: None,
        }
    }
}

impl GDApiConfig {
    /// The secret of the application the file is for.
    pub fn into_secret(self) -> (secret: ApplicationSecret)
        ensures
            secret.client_id == self.installed.client_id,
            secret.client_secret == self.installed.client_secret,
            secret.token_uri == self.installed.token_uri,
            secret.auth_uri == self.installed.auth_uri,
            secret.redirect_uris == self.installed.redirect_uris,
            secret.project_id == Some(self.installed.project_id),
            secret.client_email.is_none(),
            secret.auth_provider_x509_cert_url == Some(self.installed.auth_provider_x509_cert_url),
            secret.client_x509_cert_url.is_none(),
    {
        self.installed.into_secret()
    }
}

} // verus!
