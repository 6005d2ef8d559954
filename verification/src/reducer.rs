//! The application-state reducer for sync events: a total function that
//! merges each message from the sync engine into the UI state, re-clamping
//! every navigation index whenever a collection is replaced.

use vstd::prelude::*;
use vstd::view::View as _;

use crate::state::{App, ConnectionState, nav_clamped, same_data, same_nav, same_shell};
use crate::sync::PollMessage;

verus! {

/// Replacing a collection never leaves an index out of bounds, and a
/// message that replaces nothing never disturbs the indices: applied to a
/// state whose indices were in bounds, every message leaves them in
/// bounds, so any sequence of messages does.
pub fn handle_poll_message(app: &mut App, msg: PollMessage)
    ensures
        old(app).nav_ok() ==> final(app).nav_ok(),
        match msg {
            PollMessage::InitialData { version, board, config, prompts, documents, activity } => {
                &&& final(app).version == Some(version)
                &&& final(app).board == Some(board)
                &&& final(app).config == Some(config)
                &&& final(app).prompts == prompts
                &&& final(app).documents == documents
                &&& final(app).activity == activity
                &&& final(app).connection == ConnectionState::Connected
                &&& !final(app).loading
                &&& final(app).view == old(app).view
                &&& final(app).overlay == old(app).overlay
                &&& final(app).should_quit == old(app).should_quit
                &&& final(app).focus == old(app).focus
                &&& final(app).poll_hashes == old(app).poll_hashes
                &&& nav_clamped(*old(app), *final(app))
                &&& final(app).nav_ok()
            },
            PollMessage::HashesChanged(h) => {
                &&& final(app).poll_hashes == Some(h)
                &&& same_data(*old(app), *final(app))
                &&& same_nav(*old(app), *final(app))
                &&& final(app).view == old(app).view
                &&& final(app).overlay == old(app).overlay
                &&& final(app).should_quit == old(app).should_quit
                &&& final(app).focus == old(app).focus
                &&& final(app).connection == old(app).connection
                &&& final(app).loading == old(app).loading
            },
            PollMessage::BoardUpdated(b) => {
                &&& final(app).board == Some(b)
                &&& final(app).version == old(app).version
                &&& final(app).config == old(app).config
                &&& final(app).prompts == old(app).prompts
                &&& final(app).documents == old(app).documents
                &&& final(app).activity == old(app).activity
                &&& same_shell(*old(app), *final(app))
                &&& nav_clamped(*old(app), *final(app))
                &&& final(app).nav_ok()
            },
            PollMessage::PromptsUpdated(prompts) => {
                &&& final(app).prompts == prompts
                &&& final(app).version == old(app).version
                &&& final(app).board == old(app).board
                &&& final(app).config == old(app).config
                &&& final(app).documents == old(app).documents
                &&& final(app).activity == old(app).activity
                &&& same_shell(*old(app), *final(app))
                &&& nav_clamped(*old(app), *final(app))
                &&& final(app).nav_ok()
            },
            PollMessage::DocumentsUpdated(documents) => {
                &&& final(app).documents == documents
                &&& final(app).version == old(app).version
                &&& final(app).board == old(app).board
                &&& final(app).config == old(app).config
                &&& final(app).prompts == old(app).prompts
                &&& final(app).activity == old(app).activity
                &&& same_shell(*old(app), *final(app))
                &&& nav_clamped(*old(app), *final(app))
                &&& final(app).nav_ok()
            },
            PollMessage::ActivityUpdated(activity) => {
                &&& final(app).activity == activity
                &&& final(app).version == old(app).version
                &&& final(app).board == old(app).board
                &&& final(app).config == old(app).config
                &&& final(app).prompts == old(app).prompts
                &&& final(app).documents == old(app).documents
                &&& same_shell(*old(app), *final(app))
                &&& nav_clamped(*old(app), *final(app))
                &&& final(app).nav_ok()
            },
            PollMessage::ConnectionLost => {
                &&& final(app).connection == ConnectionState::Disconnected
                &&& same_data(*old(app), *final(app))
                &&& same_nav(*old(app), *final(app))
                &&& final(app).view == old(app).view
                &&& final(app).overlay == old(app).overlay
                &&& final(app).should_quit == old(app).should_quit
                &&& final(app).focus == old(app).focus
                &&& final(app).poll_hashes == old(app).poll_hashes
                &&& final(app).loading == old(app).loading
            },
            PollMessage::ConnectionRestored => {
                &&& final(app).connection == ConnectionState::Connected
                &&& same_data(*old(app), *final(app))
                &&& same_nav(*old(app), *final(app))
                &&& final(app).view == old(app).view
                &&& final(app).overlay == old(app).overlay
                &&& final(app).should_quit == old(app).should_quit
                &&& final(app).focus == old(app).focus
                &&& final(app).poll_hashes == old(app).poll_hashes
                &&& final(app).loading == old(app).loading
            },
            PollMessage::Error(_) => *final(app) == *old(app),
        },
{
    match msg {
        PollMessage::InitialData { version, board, config, prompts, documents, activity } => {
            app.version = Some(version);
            app.board = Some(board);
            app.config = Some(config);
            app.prompts = prompts;
            app.documents = documents;
            app.activity = activity;
            app.connection = ConnectionState::Connected;
            app.loading = false;
            app.clamp_indices();
        }
        PollMessage::HashesChanged(hashes) => {
            app.poll_hashes = Some(hashes);
        }
        PollMessage::BoardUpdated(board) => {
            app.board = Some(board);
            app.clamp_indices();
        }
        PollMessage::PromptsUpdated(prompts) => {
            app.prompts = prompts;
            app.clamp_indices();
        }
        PollMessage::DocumentsUpdated(documents) => {
            app.documents = documents;
            app.clamp_indices();
        }
        PollMessage::ActivityUpdated(activity) => {
            app.activity = activity;
            app.clamp_indices();
        }
        PollMessage::ConnectionLost => {
            app.connection = ConnectionState::Disconnected;
        }
        PollMessage::ConnectionRestored => {
            app.connection = ConnectionState::Connected;
        }
        PollMessage::Error(_) => {}
    }
}

} // verus!

