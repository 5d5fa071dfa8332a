//! The real-time channel: its own fanout queue, independent of the clipboard
//! store's. The connection loop that drains a subscription onto a socket is
//! transport work and lives with the surrounding server, not here.

use vstd::prelude::*;

use crate::config::Config;
use crate::errors::AppError;
use crate::errors::AppResult;
use crate::fanout::fanout_channel;
use crate::fanout::fanout_send;
use crate::fanout::fanout_subscribe;
use crate::models::ClipboardData;

verus! {

/// Hands out subscriptions and publishes entries to them.
pub struct WebSocketService {
    tx: tokio::sync::broadcast::Sender<ClipboardData>,
}

impl WebSocketService {
    /// A fresh channel of the configured capacity.
    pub fn new(config: &Config) -> Self
        requires
            0 < config.websocket.channel_capacity <= usize::MAX / 2,
    {
        WebSocketService { tx: fanout_channel(config.websocket.channel_capacity) }
    }

    /// A new consumer; it observes entries published after this call,
    /// lossily.
    pub fn subscribe(&self) -> tokio::sync::broadcast::Receiver<ClipboardData> {
        fanout_subscribe(&self.tx)
    }

    /// Publish one entry to every current subscriber. Fails exactly when the
    /// channel reports that nobody is listening; delivery stays best-effort
    /// either way.
    pub fn broadcast(&self, data: ClipboardData) -> (r: AppResult<()>)
        ensures
            r matches Err(e) ==> e matches AppError::BroadcastError(m) && m@ == "channel closed"@,
    {
        if fanout_send(&self.tx, data) {
            Ok(())
        } else {
            Err(AppError::BroadcastError("channel closed".to_owned()))
        }
    }
}

} // verus!
