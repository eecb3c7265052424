//! Plugins: background producers of application events.

use vstd::prelude::*;
use crate::configuration::Configuration;
use crate::events::{CubensisEvent, CubensisEventView};

verus! {

/// A plugin of the renderer. It runs beside the render loop and posts
/// events to it.
pub trait CubensisRendererPlugin {
    fn handle_event(&mut self, event: &CubensisEvent);

    /// Starts the plugin. The result says whether its thread is to be
    /// spawned now.
    fn start(&mut self) -> bool;

    fn shutdown(&mut self);
}

/// All plugins of the renderer.
pub trait CubensisPluginCollection {
    fn handle_event(&mut self, event: &CubensisEvent);

    fn start_all(&mut self);

    fn shutdown(&mut self);
}

/// What the file system reports of a watched file.
#[derive(Debug)]
pub enum WatchEvent {
    Create(String),
    Write(String),
    Other,
}

/// The event that a report of the file system is posted as, if it is
/// posted: a file that was made or written is a file edit.
pub open spec fn spec_file_event(event: WatchEvent) -> Option<CubensisEventView> {
    match event {
        WatchEvent::Create(path) => Some(CubensisEventView::FileEdit(path@)),
        WatchEvent::Write(path) => Some(CubensisEventView::FileEdit(path@)),
        WatchEvent::Other => None,
    }
}

/// The value of an optional event.
pub open spec fn posted_view(event: Option<CubensisEvent>) -> Option<CubensisEventView> {
    match event {
        Some(event) => Some(event@),
        None => None,
    }
}

/// The watcher of the configuration directory.
#[derive(Clone, Copy, Debug, PartialEq, Eq, Structural)]
pub struct FileWatcher {
    pub running: bool,
}

impl FileWatcher {
    /// The time for which changes are gathered before they are reported,
    /// in milliseconds.
    pub fn debounce_millis() -> (millis: u64)
        ensures
            millis == 500,
    {
        500
    }

    /// A watcher that does not run yet.
    pub fn new() -> (watcher: Self)
        ensures
            !watcher.running,
    {
        FileWatcher { running: false }
    }

    /// Turns a report of the file system into the event to post, if any.
    pub fn file_event(event: WatchEvent) -> (posted: Option<CubensisEvent>)
        ensures
            posted_view(posted) == spec_file_event(event),
    {
        match event {
            WatchEvent::Create(path) => Some(CubensisEvent::FileEdit(path)),
            WatchEvent::Write(path) => Some(CubensisEvent::FileEdit(path)),
            WatchEvent::Other => None,
        }
    }
}

impl CubensisRendererPlugin for FileWatcher {
    fn handle_event(&mut self, event: &CubensisEvent)
        ensures
            *final(self) == *old(self),
    {
    }

    /// A watcher is started once: a running watcher stays as it is.
    fn start(&mut self) -> (spawn: bool)
        ensures
            spawn == !old(self).running,
            final(self).running,
    {
        let spawn = !self.running;
        self.running = true;
        spawn
    }

    fn shutdown(&mut self)
        ensures
            !final(self).running,
    {
        self.running = false;
    }
}

/// The server of the remote-control socket.
#[derive(Debug)]
pub struct RpcServer {
    pub address: String,
    pub running: bool,
}

impl RpcServer {
    /// A server for the address of the settings that does not run yet.
    pub fn new(configuration: &Configuration) -> (server: Self)
        ensures
            !server.running,
            server.address@ == "127.0.0.1:"@ + crate::text::spec_decimal(
                configuration.network.port as nat,
            ),
    {
        RpcServer { address: configuration.network.get_address(), running: false }
    }
}

impl CubensisRendererPlugin for RpcServer {
    fn handle_event(&mut self, event: &CubensisEvent)
        ensures
            final(self).running == old(self).running,
            final(self).address == old(self).address,
    {
    }

    /// A server is started once: a running server stays as it is.
    fn start(&mut self) -> (spawn: bool)
        ensures
            spawn == !old(self).running,
            final(self).running,
            final(self).address == old(self).address,
    {
        let spawn = !self.running;
        self.running = true;
        spawn
    }

    fn shutdown(&mut self)
        ensures
            !final(self).running,
            final(self).address == old(self).address,
    {
        self.running = false;
    }
}

/// Which plugins are to be spawned.
#[derive(Clone, Copy, Debug, PartialEq, Eq, Structural)]
pub struct SpawnPlan {
    pub rpc: bool,
    pub file_watcher: bool,
}

/// The plugins of the application.
#[derive(Debug)]
pub struct PluginCollection {
    pub rpc: RpcServer,
    pub file_watcher: FileWatcher,
}

impl PluginCollection {
    pub fn new(configuration: &Configuration) -> (plugins: Self)
        ensures
            !plugins.rpc.running,
            !plugins.file_watcher.running,
            plugins.rpc.address@ == "127.0.0.1:"@ + crate::text::spec_decimal(
                configuration.network.port as nat,
            ),
    {
        PluginCollection { rpc: RpcServer::new(configuration), file_watcher: FileWatcher::new() }
    }

    /// Starts every plugin that does not run yet, and says which these
    /// are.
    pub fn start_plugins(&mut self) -> (plan: SpawnPlan)
        ensures
            plan.rpc == !old(self).rpc.running,
            plan.file_watcher == !old(self).file_watcher.running,
            final(self).rpc.running,
            final(self).file_watcher.running,
            final(self).rpc.address == old(self).rpc.address,
    {
        let rpc = self.rpc.start();
        let file_watcher = self.file_watcher.start();
        SpawnPlan { rpc, file_watcher }
    }
}

impl CubensisPluginCollection for PluginCollection {
    fn handle_event(&mut self, event: &CubensisEvent)
        ensures
            final(self).rpc.running == old(self).rpc.running,
            final(self).file_watcher == old(self).file_watcher,
            final(self).rpc.address == old(self).rpc.address,
    {
    }

    fn start_all(&mut self)
        ensures
            final(self).rpc.running,
            final(self).file_watcher.running,
            final(self).rpc.address == old(self).rpc.address,
    {
        self.start_plugins();
    }

    fn shutdown(&mut self)
        ensures
            !final(self).rpc.running,
            !final(self).file_watcher.running,
            final(self).rpc.address == old(self).rpc.address,
    {
        self.rpc.shutdown();
        self.file_watcher.shutdown();
    }
}

} // verus!
