//! The worker's configuration, as the layered configuration sources
//! deliver it.  Parsing the sources is the shell's work; the core only
//! carries the enumerated options.

use vstd::prelude::*;

verus! {

/// The enumerated configuration options of the worker.
pub struct Settings {
    /// Hostname of this rendering server.
    pub hostname: String,
    /// Address to bind the listener to.
    pub bind_to_host: String,
    /// Port to listen on.
    pub port: usize,
    /// Path to the CA certificate.
    pub ca_cert_path: String,
    /// Path to the client certificate.
    pub client_cert_path: String,
    /// Path to the client certificate's key.
    pub client_key_path: String,
    /// Path to the certificate revocation list.
    pub revocation_list_path: String,
    /// Directory that holds the cached template bundles; cleared on start.
    pub temp_template_path: String,
    /// Ceiling on concurrently rendering worker tasks.
    pub max_rendering_threads: u64,
}

} // verus!
