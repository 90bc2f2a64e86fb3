//! The server on a system without Syphon.

use vstd::prelude::*;

verus! {

/// A Syphon server where there is no Syphon: it never comes to be.
#[derive(Debug)]
pub struct SyphonServer;

impl SyphonServer {
    /// Refuses, whatever the name.
    pub fn new(_server_name: &str) -> (server: Result<Self, String>)
        ensures
            server matches Err(complaint) && complaint@ == "Syphon is only supported on macOS"@,
    {
        Err("Syphon is only supported on macOS".to_owned())
    }

    /// Does nothing: there is nobody to tell.
    pub fn publish_surface(&mut self, _surface_id: u32)
        ensures
            *final(self) == *old(self),
    {
    }

    /// There are no clients.
    pub fn client_count(&self) -> (count: u32)
        ensures
            count == 0,
    {
        0
    }

    /// Does nothing: there is nobody to take leave of.
    pub fn stop(&mut self)
        ensures
            *final(self) == *old(self),
    {
    }
}

} // verus!
