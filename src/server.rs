use vstd::prelude::*;

use std::sync::Arc;

use crate::acceptor::Acceptor;
use crate::admission::AdmissionController;
use crate::config::ServerConfig;

verus! {

/// A server: its configuration and the admission controller that every
/// connection handler shares.
pub struct Server {
    config: ServerConfig,
    active_conns: AdmissionController,
}

impl Server {
    pub closed spec fn spec_max_connections(&self) -> usize {
        self.config.max_connections
    }

    pub closed spec fn spec_port(&self) -> u16 {
        self.config.port
    }

    pub closed spec fn spec_ip(&self) -> Seq<char> {
        self.config.ip@
    }

    /// The controller's limit is the configured one.
    pub closed spec fn wf(&self) -> bool {
        self.active_conns.limit() == self.config.max_connections
    }

    /// A server with the given configuration and no live connection, shared
    /// by reference with every task that needs it.
    pub fn new(config: ServerConfig) -> (r: Arc<Self>)
        ensures
            r.wf(),
            r.spec_max_connections() == config.max_connections,
            r.spec_port() == config.port,
            r.spec_ip() == config.ip@,
    {
        let max = config.max_connections;
        Arc::new(Server { config, active_conns: AdmissionController::new(max) })
    }

    pub fn config(&self) -> (r: &ServerConfig)
        ensures
            r.max_connections == self.spec_max_connections(),
            r.port == self.spec_port(),
            r.ip@ == self.spec_ip(),
    {
        &self.config
    }

    /// The controller shared by this server's connection handlers.
    pub fn admission(&self) -> (r: &AdmissionController)
        ensures
            self.wf() ==> r.limit() == self.spec_max_connections(),
    {
        &self.active_conns
    }

    /// The decisions of a fresh accept loop for this server.
    pub fn acceptor(&self) -> (r: Acceptor)
        ensures
            r.phase() == crate::acceptor::Phase::Listening,
    {
        Acceptor::new()
    }

    /// Stops the server and returns the number of connections that were live
    /// when it stopped, for the caller to report. Handlers already running go
    /// on to their end.
    pub fn shutdown(self: Arc<Self>) -> (r: usize) {
        self.active_conns.active()
    }
}

} // verus!
