//! Configuration of the blob service process: the values the command
//! line and environment provide, as plain data. Argument parsing itself
//! happens in the embedding layer, which fills this struct and hands it
//! over.

use vstd::prelude::*;

verus! {

/// Port the HTTP server listens on when none is given.
pub const DEFAULT_HTTP_PORT: u16 = 51001;

/// Bucket used when none is configured.
pub const DEFAULT_S3_BUCKET_NAME: &'static str = "commapp-blob";

/// Identity service endpoint used when none is configured.
pub const DEFAULT_IDENTITY_ENDPOINT: &'static str = "http://localhost:50054";

/// The subcommand the process was started with.
#[derive(PartialEq, Eq, Structural, Clone, Copy, Debug)]
pub enum Command {
    Server,
    Cleanup,
}

/// Configuration parsed from command-line arguments and environment
/// variables.
pub struct AppConfig {
    /// HTTP server listening port.
    pub http_port: u16,
    /// AWS Localstack service URL.
    pub localstack_endpoint: Option<String>,
    pub s3_bucket_name: String,
    /// Identity service endpoint.
    pub identity_endpoint: String,
    /// If set, blobs are deleted instantly after revoking the last
    /// holder.
    pub instant_delete: bool,
    pub command: Option<Command>,
}

impl Default for AppConfig {
    /// The configuration every value defaults to when nothing is given.
    fn default() -> (r: Self)
        ensures
            r.http_port == DEFAULT_HTTP_PORT,
            r.localstack_endpoint is None,
            r.s3_bucket_name@ == DEFAULT_S3_BUCKET_NAME@,
            r.identity_endpoint@ == DEFAULT_IDENTITY_ENDPOINT@,
            !r.instant_delete,
            r.command is None,
    {
        AppConfig {
            http_port: DEFAULT_HTTP_PORT,
            localstack_endpoint: None,
            s3_bucket_name: DEFAULT_S3_BUCKET_NAME.to_owned(),
            identity_endpoint: DEFAULT_IDENTITY_ENDPOINT.to_owned(),
            instant_delete: false,
            command: None,
        }
    }
}

impl AppConfig {
    /// Whether a bucket other than the default one is configured; the
    /// startup path logs the bucket name exactly in that case.
    pub fn uses_custom_s3_bucket(&self) -> (r: bool)
        ensures
            r == (self.s3_bucket_name@ != DEFAULT_S3_BUCKET_NAME@),
    {
        let default_name: String = DEFAULT_S3_BUCKET_NAME.to_owned();
        !(self.s3_bucket_name == default_name)
    }
}

} // verus!
