//! The player: a client and a renderer, once they have been set up.
use crossbeam::channel::{Receiver, Sender};
use vstd::prelude::*;

use crate::advanced_client::{ClientError, ClientView, DrainPass, DrainSignal, DrainStep, EventNote, FileState, MpvAdvancedClient};
use crate::double::Double;
use crate::omt_client::{ClientRequest, RequestView};
use crate::render::{MpvRender, RenderSignal, RenderStep, RenderView};
use crate::shared::MpvEvent;

verus! {

/// A media player.
///
/// While `MpvPlayer` is Default so that it can be kept in an application easily, it won't
/// actually be able to do anything until it is initialized.
pub struct MpvPlayer {
    client: Option<MpvAdvancedClient>,
    render: Option<MpvRender>,
}

/// The mathematical content of a [`MpvPlayer`].
#[verifier::ext_equal]
pub struct PlayerView {
    /// The client, once there is one.
    pub client: Option<ClientView>,
    /// The renderer, once there is one.
    pub render: Option<RenderView>,
}

impl View for MpvPlayer {
    type V = PlayerView;

    closed spec fn view(&self) -> PlayerView {
        PlayerView {
            client: match self.client {
                Some(client) => Some(client@),
                None => None,
            },
            render: match self.render {
                Some(render) => Some(render@),
                None => None,
            },
        }
    }
}

impl PlayerView {
    /// Whether the player has been initialized and can number `n` more requests.
    pub open spec fn ready(self, n: int) -> bool {
        self.client is Some && self.client->0.ids_left() >= n
    }

    /// The player with another client.
    pub open spec fn with_client(self, client: ClientView) -> PlayerView {
        PlayerView { client: Some(client), ..self }
    }

    /// The player with another renderer.
    pub open spec fn with_render(self, render: RenderView) -> PlayerView {
        PlayerView { render: Some(render), ..self }
    }

    /// The player after its client has submitted the command made of `words`.
    pub open spec fn command(self, words: Seq<Seq<char>>, delivered: bool) -> PlayerView {
        self.with_client(self.client->0.command(words, delivered))
    }

    /// The player after its client has submitted the request to set the flag `name`.
    pub open spec fn set_flag(self, name: Seq<char>, value: bool, delivered: bool) -> PlayerView {
        self.with_client(self.client->0.set_flag(name, value, delivered))
    }
}

impl Default for MpvPlayer {
    fn default() -> (r: Self)
        ensures
            r.wf(),
            r@ == (PlayerView { client: None, render: None }),
    {
        MpvPlayer { client: None, render: None }
    }
}

/// The ends of a player's channels for those it works with.
pub struct Connections {
    /// For the thread that talks to mpv.
    pub requests: Receiver<ClientRequest>,
    /// For the callbacks of mpv's core.
    pub core_events: Sender<MpvEvent>,
    /// For the callbacks of mpv's renderer.
    pub render_events: Sender<MpvEvent>,
}

/// The quotient of width and height.
#[derive(Clone, Copy, Debug, PartialEq, Eq, Structural)]
pub enum AspectRatio {
    /// The first number divided by the second, which is positive.
    Quotient(Double, Double),
    /// One, for want of a positive height.
    One,
}

impl MpvPlayer {
    /// The client, once there is one.
    pub closed spec fn inner_client(self) -> Option<MpvAdvancedClient> {
        self.client
    }

    /// The renderer, once there is one.
    pub closed spec fn inner_render(self) -> Option<MpvRender> {
        self.render
    }

    /// The invariant of a player.
    pub closed spec fn wf(self) -> bool {
        self.client matches Some(client) ==> client.wf()
    }

    /// Sets up the client and the renderer. What is returned are the other ends of their channels.
    pub fn init_with_eframe(&mut self) -> (r: Connections)
        ensures
            final(self).wf(),
            final(self)@ == (PlayerView {
                client: Some(
                    ClientView {
                        next_id: 1,
                        outstanding: Map::empty(),
                        sent: Seq::empty(),
                        state: crate::advanced_client::initial_state(),
                        channel: crate::channel::channel_of_receiver(r.requests),
                        gone: false,
                        wakeups: crate::channel::channel_of_notifier(r.core_events),
                        polls: Seq::empty(),
                    },
                ),
                render: Some(
                    RenderView {
                        redraw: false,
                        wakeups: crate::channel::channel_of_notifier(r.render_events),
                        polls: Seq::empty(),
                    },
                ),
            }),
    {
        let (client, requests, core_events) = MpvAdvancedClient::new();
        let (render, render_events) = MpvRender::new();
        self.client = Some(client);
        self.render = Some(render);
        Connections { requests, core_events, render_events }
    }

    /// Whether the player has been initialized and can number `n` more requests.
    pub fn is_ready(&self, n: u64) -> (r: bool)
        ensures
            r == self@.ready(n as int),
    {
        match &self.client {
            Some(client) => client.ids_left() >= n,
            None => false,
        }
    }

    /// Whether there is a renderer.
    pub fn has_renderer(&self) -> (r: bool)
        ensures
            r == (self@.render is Some),
    {
        self.render.is_some()
    }

    /// The client.
    pub fn mpv(&self) -> (r: &MpvAdvancedClient)
        requires
            self@.client is Some,
        ensures
            self@.client == Some(r@),
            self.wf() ==> r.wf(),
    {
        self.client.as_ref().unwrap()
    }

    /// The client.
    pub fn mpv_mut(&mut self) -> (r: &mut MpvAdvancedClient)
        requires
            old(self)@.client is Some,
        ensures
            old(self)@.client == Some(r@),
            old(self).wf() ==> r.wf(),
            final(self)@ == old(self)@.with_client(final(r)@),
            final(r).wf() ==> final(self).wf(),
    {
        self.client.as_mut().unwrap()
    }

    /// Whether another callback of mpv's core was called.
    pub fn poll_wakeup(&mut self) -> (r: DrainSignal)
        requires
            old(self)@.client is Some,
        ensures
            old(self).wf() ==> final(self).wf(),
            match r {
                DrainSignal::Wakeup(event) => final(self)@ == old(self)@.with_client(
                    old(self)@.client->0.poll(Some(event)),
                ),
                DrainSignal::NoWakeup => final(self)@ == old(self)@.with_client(
                    old(self)@.client->0.poll(None),
                ),
                _ => false,
            },
    {
        self.mpv_mut().poll_wakeup()
    }

    /// Whether another callback of mpv's renderer was called.
    pub fn poll_redraw(&mut self) -> (r: RenderSignal)
        requires
            old(self)@.render is Some,
        ensures
            old(self).wf() ==> final(self).wf(),
            match r {
                RenderSignal::Event(event) => final(self)@ == old(self)@.with_render(
                    old(self)@.render->0.poll(Some(event)),
                ),
                RenderSignal::NoEvent => final(self)@ == old(self)@.with_render(
                    old(self)@.render->0.poll(None),
                ),
                RenderSignal::Frame(_) => false,
            },
    {
        self.render.as_mut().unwrap().poll_event()
    }

    /// One step of keeping mpv's connection alive and monitored.
    pub fn monitor_events(&mut self, pass: &mut DrainPass, signal: &DrainSignal) -> (r: Result<
        (DrainStep, Option<EventNote>),
        ClientError,
    >)
        requires
            old(self).wf(),
            old(self)@.client is Some,
            old(self)@.client->0.admits_signal(*signal),
        ensures
            final(self).wf(),
            final(self)@.client is Some,
            final(self)@.render == old(self)@.render,
            crate::advanced_client::drains(
                old(self)@.client->0,
                *old(pass),
                *signal,
                final(self)@.client->0,
                *final(pass),
                r,
            ),
    {
        self.mpv_mut().drain_events(pass, signal)
    }

    /// One step of finding out whether mpv has a frame to be drawn.
    pub fn queue_redraw(&mut self, signal: RenderSignal) -> (r: RenderStep)
        requires
            old(self).wf(),
            old(self)@.render is Some,
        ensures
            final(self).wf(),
            final(self)@ == old(self)@.with_render(
                RenderView {
                    redraw: MpvRender::redraw_after(old(self)@.render->0.redraw, signal),
                    ..old(self)@.render->0
                },
            ),
            r == crate::render::next_step(old(self)@.render->0.redraw, signal),
    {
        self.render.as_mut().unwrap().drain_events(signal)
    }

    /// Gives up the renderer, and then tells the thread that talks to mpv, if there is one, to
    /// leave its loop.
    pub fn shut_down(&mut self) -> (r: Result<(), ClientError>)
        requires
            old(self).wf(),
        ensures
            final(self).wf(),
            final(self)@ == (PlayerView {
                client: match old(self)@.client {
                    Some(client) => Some(client.exit(r is Ok)),
                    None => None,
                },
                render: None,
            }),
            old(self)@.client is Some && old(self)@.client->0.gone ==> r is Err,
            old(self)@.client is None ==> r is Ok,
    {
        self.render = None;
        if self.client.is_some() {
            self.mpv_mut().send_exit()
        } else {
            Ok(())
        }
    }

    /// Seek forward relatively from the current position. `secs` is the number of seconds, written
    /// out. This is less exact than `seek_absolute_async`.
    pub fn seek_forward_async(&mut self, secs: &str) -> (r: Result<(), ClientError>)
        requires
            old(self).wf(),
            old(self)@.ready(1),
        ensures
            final(self).wf(),
            old(self)@.client->0.gone ==> r is Err,
            final(self)@ == old(self)@.command(seq!["seek"@, secs@, "relative"@], r is Ok),
    {
        self.mpv_mut().seek_forward_async(secs)
    }

    /// See `seek_forward_async`.
    pub fn seek_backward_async(&mut self, secs: &str) -> (r: Result<(), ClientError>)
        requires
            old(self).wf(),
            old(self)@.ready(1),
        ensures
            final(self).wf(),
            old(self)@.client->0.gone ==> r is Err,
            final(self)@ == old(self)@.command(seq!["seek"@, "-"@ + secs@, "relative"@], r is Ok),
    {
        self.mpv_mut().seek_backward_async(secs)
    }

    /// Seek to a given position, in seconds, written out.
    pub fn seek_absolute_async(&mut self, secs: &str) -> (r: Result<(), ClientError>)
        requires
            old(self).wf(),
            old(self)@.ready(1),
        ensures
            final(self).wf(),
            old(self)@.client->0.gone ==> r is Err,
            final(self)@ == old(self)@.command(seq!["seek"@, secs@, "absolute"@], r is Ok),
    {
        self.mpv_mut().seek_absolute_async(secs)
    }

    /// Seek to a given relative percent position (may be negative).
    /// If `percent` of the playtime is bigger than the remaining playtime, mpv plays the next file;
    /// a position out of bounds it clamps to either 0 or 100.
    pub fn seek_percent_async(&mut self, percent: isize) -> (r: Result<(), ClientError>)
        requires
            old(self).wf(),
            old(self)@.ready(1),
        ensures
            final(self).wf(),
            old(self)@.client->0.gone ==> r is Err,
            final(self)@ == old(self)@.command(seq!["seek"@, crate::text::signed_decimal(percent as int), "relative-percent"@], r is Ok),
    {
        self.mpv_mut().seek_percent_async(percent)
    }

    /// Seek to the given percentage of the playtime.
    pub fn seek_percent_absolute_async(&mut self, percent: usize) -> (r: Result<(), ClientError>)
        requires
            old(self).wf(),
            old(self)@.ready(1),
        ensures
            final(self).wf(),
            old(self)@.client->0.gone ==> r is Err,
            final(self)@ == old(self)@.command(seq!["seek"@, crate::text::decimal(percent as nat), "absolute-percent"@], r is Ok),
    {
        self.mpv_mut().seek_percent_absolute_async(percent)
    }

    /// Revert the previous `seek_` call, can also revert itself.
    pub fn seek_revert_async(&mut self) -> (r: Result<(), ClientError>)
        requires
            old(self).wf(),
            old(self)@.ready(1),
        ensures
            final(self).wf(),
            old(self)@.client->0.gone ==> r is Err,
            final(self)@ == old(self)@.command(seq!["revert-seek"@], r is Ok),
    {
        self.mpv_mut().seek_revert_async()
    }

    /// Mark the current position as the position that will be sought to by `seek_revert_async`.
    pub fn seek_revert_mark_async(&mut self) -> (r: Result<(), ClientError>)
        requires
            old(self).wf(),
            old(self)@.ready(1),
        ensures
            final(self).wf(),
            old(self)@.client->0.gone ==> r is Err,
            final(self)@ == old(self)@.command(seq!["revert-seek"@, "mark"@], r is Ok),
    {
        self.mpv_mut().seek_revert_mark_async()
    }

    /// Seek exactly one frame, and pause.
    /// Noop on audio only streams.
    pub fn seek_frame_async(&mut self) -> (r: Result<(), ClientError>)
        requires
            old(self).wf(),
            old(self)@.ready(1),
        ensures
            final(self).wf(),
            old(self)@.client->0.gone ==> r is Err,
            final(self)@ == old(self)@.command(seq!["frame-step"@], r is Ok),
    {
        self.mpv_mut().seek_frame_async()
    }

    /// See `seek_frame_async`.
    pub fn seek_frame_backward_async(&mut self) -> (r: Result<(), ClientError>)
        requires
            old(self).wf(),
            old(self)@.ready(1),
        ensures
            final(self).wf(),
            old(self)@.client->0.gone ==> r is Err,
            final(self)@ == old(self)@.command(seq!["frame-back-step"@], r is Ok),
    {
        self.mpv_mut().seek_frame_backward_async()
    }

    /// Play the next item of the current playlist.
    /// Does nothing if the current item is the last item.
    pub fn playlist_next_weak_async(&mut self) -> (r: Result<(), ClientError>)
        requires
            old(self).wf(),
            old(self)@.ready(1),
        ensures
            final(self).wf(),
            old(self)@.client->0.gone ==> r is Err,
            final(self)@ == old(self)@.command(seq!["playlist-next"@, "weak"@], r is Ok),
    {
        self.mpv_mut().playlist_next_weak_async()
    }

    /// Play the next item of the current playlist.
    /// Terminates playback if the current item is the last item.
    pub fn playlist_next_force_async(&mut self) -> (r: Result<(), ClientError>)
        requires
            old(self).wf(),
            old(self)@.ready(1),
        ensures
            final(self).wf(),
            old(self)@.client->0.gone ==> r is Err,
            final(self)@ == old(self)@.command(seq!["playlist-next"@, "force"@], r is Ok),
    {
        self.mpv_mut().playlist_next_force_async()
    }

    /// See `playlist_next_weak_async`.
    pub fn playlist_previous_weak_async(&mut self) -> (r: Result<(), ClientError>)
        requires
            old(self).wf(),
            old(self)@.ready(1),
        ensures
            final(self).wf(),
            old(self)@.client->0.gone ==> r is Err,
            final(self)@ == old(self)@.command(seq!["playlist-prev"@, "weak"@], r is Ok),
    {
        self.mpv_mut().playlist_previous_weak_async()
    }

    /// See `playlist_next_force_async`.
    pub fn playlist_previous_force_async(&mut self) -> (r: Result<(), ClientError>)
        requires
            old(self).wf(),
            old(self)@.ready(1),
        ensures
            final(self).wf(),
            old(self)@.client->0.gone ==> r is Err,
            final(self)@ == old(self)@.command(seq!["playlist-prev"@, "force"@], r is Ok),
    {
        self.mpv_mut().playlist_previous_force_async()
    }

    /// Replaces the playlist by the file, which is played, with options for its playback.
    pub fn playlist_replace_async(&mut self, filename: &str, extra: Option<&str>) -> (r: Result<
        (),
        ClientError,
    >)
        requires
            old(self).wf(),
            old(self)@.ready(1),
        ensures
            final(self).wf(),
            old(self)@.client->0.gone ==> r is Err,
            final(self)@ == old(self)@.command(
                crate::advanced_client::load_words((filename, FileState::Replace, extra)),
                r is Ok,
            ),
    {
        let files: [(&str, FileState, Option<&str>); 1] = [(filename, FileState::Replace, extra)];
        let ghost client = self@.client->0;
        let ghost all = crate::advanced_client::load_requests(client.next_id, files@);
        proof {
            reveal_with_fuel(ClientView::submit_all, 2);
            assert(all.take(0) =~= Seq::<RequestView>::empty());
            assert(all.drop_last() =~= Seq::<RequestView>::empty());
            assert(all.last() == RequestView::Command(
                client.next_id,
                crate::advanced_client::load_words((filename, FileState::Replace, extra)),
            ));
        }
        self.mpv_mut().playlist_load_files_async(&files)
    }

    /// Plays the file in place of what is in the playlist.
    pub fn play(&mut self, filename: &str) -> (r: Result<(), ClientError>)
        requires
            old(self).wf(),
            old(self)@.ready(1),
        ensures
            final(self).wf(),
            old(self)@.client->0.gone ==> r is Err,
            final(self)@ == old(self)@.command(seq!["loadfile"@, filename@, "replace"@], r is Ok),
    {
        self.playlist_replace_async(filename, None)
    }

    /// Loads each of `files` in turn: its name, how it is added to the playlist, and options for
    /// its playback. Stops at the first that cannot be sent.
    pub fn playlist_load_files_async(
        &mut self,
        files: &[(&str, FileState, Option<&str>)],
    ) -> (r: Result<(), ClientError>)
        requires
            old(self).wf(),
            old(self)@.ready(files@.len() as int),
        ensures
            final(self).wf(),
            final(self)@.client is Some,
            final(self)@.render == old(self)@.render,
            old(self)@.client->0.submits(
                crate::advanced_client::load_requests(old(self)@.client->0.next_id, files@),
                final(self)@.client->0,
                r is Ok,
            ),
    {
        self.mpv_mut().playlist_load_files_async(files)
    }

    /// Remove every, except the current, item from the playlist.
    pub fn playlist_clear_async(&mut self) -> (r: Result<(), ClientError>)
        requires
            old(self).wf(),
            old(self)@.ready(1),
        ensures
            final(self).wf(),
            old(self)@.client->0.gone ==> r is Err,
            final(self)@ == old(self)@.command(seq!["playlist-clear"@], r is Ok),
    {
        self.mpv_mut().playlist_clear_async()
    }

    /// Remove the currently selected item from the playlist.
    pub fn playlist_remove_current_async(&mut self) -> (r: Result<(), ClientError>)
        requires
            old(self).wf(),
            old(self)@.ready(1),
        ensures
            final(self).wf(),
            old(self)@.client->0.gone ==> r is Err,
            final(self)@ == old(self)@.command(seq!["playlist-remove"@, "current"@], r is Ok),
    {
        self.mpv_mut().playlist_remove_current_async()
    }

    /// Remove item at `position` from the playlist.
    pub fn playlist_remove_index_async(&mut self, position: usize) -> (r: Result<(), ClientError>)
        requires
            old(self).wf(),
            old(self)@.ready(1),
        ensures
            final(self).wf(),
            old(self)@.client->0.gone ==> r is Err,
            final(self)@ == old(self)@.command(seq!["playlist-remove"@, crate::text::decimal(position as nat)], r is Ok),
    {
        self.mpv_mut().playlist_remove_index_async(position)
    }

    /// Move item `from` to the position of item `to`. mpv takes the item that moves first, and then
    /// the item whose place it takes.
    pub fn playlist_move_async(&mut self, from: usize, to: usize) -> (r: Result<(), ClientError>)
        requires
            old(self).wf(),
            old(self)@.ready(1),
        ensures
            final(self).wf(),
            old(self)@.client->0.gone ==> r is Err,
            final(self)@ == old(self)@.command(seq!["playlist-move"@, crate::text::decimal(from as nat), crate::text::decimal(to as nat)], r is Ok),
    {
        self.mpv_mut().playlist_move_async(from, to)
    }

    /// Shuffle the playlist.
    pub fn playlist_shuffle_async(&mut self) -> (r: Result<(), ClientError>)
        requires
            old(self).wf(),
            old(self)@.ready(1),
        ensures
            final(self).wf(),
            old(self)@.client->0.gone ==> r is Err,
            final(self)@ == old(self)@.command(seq!["playlist-shuffle"@], r is Ok),
    {
        self.mpv_mut().playlist_shuffle_async()
    }

    /// Pause the playback.
    pub fn pause_async(&mut self) -> (r: Result<(), ClientError>)
        requires
            old(self).wf(),
            old(self)@.ready(1),
        ensures
            final(self).wf(),
            old(self)@.client->0.gone ==> r is Err,
            final(self)@ == old(self)@.set_flag("pause"@, true, r is Ok),
    {
        self.mpv_mut().pause_async()
    }

    /// Resume the playback.
    pub fn unpause_async(&mut self) -> (r: Result<(), ClientError>)
        requires
            old(self).wf(),
            old(self)@.ready(1),
        ensures
            final(self).wf(),
            old(self)@.client->0.gone ==> r is Err,
            final(self)@ == old(self)@.set_flag("pause"@, false, r is Ok),
    {
        self.mpv_mut().unpause_async()
    }

    /// Whether the playback was paused when mpv last reported it.
    pub fn is_paused(&self) -> (r: bool)
        requires
            self@.client is Some,
        ensures
            r == self@.client->0.state.is_paused,
    {
        self.mpv().is_paused()
    }

    /// The position in percent of the playtime, as mpv last reported it.
    pub fn percent_pos(&self) -> (r: Double)
        requires
            self@.client is Some,
        ensures
            r == self@.client->0.state.percent_pos,
    {
        self.mpv().percent_pos()
    }

    /// The position in seconds, as mpv last reported it.
    pub fn time_pos(&self) -> (r: Double)
        requires
            self@.client is Some,
        ensures
            r == self@.client->0.state.time_pos,
    {
        self.mpv().time_pos()
    }

    /// The remaining playtime in seconds, as mpv last reported it.
    pub fn time_remaining(&self) -> (r: Double)
        requires
            self@.client is Some,
        ensures
            r == self@.client->0.state.time_remaining,
    {
        self.mpv().time_remaining()
    }

    /// The playtime in seconds, as mpv last reported it.
    pub fn duration(&self) -> (r: Double)
        requires
            self@.client is Some,
        ensures
            r == self@.client->0.state.duration,
    {
        self.mpv().duration()
    }

    /// The width of the video, as mpv last reported it.
    pub fn width(&self) -> (r: Double)
        requires
            self@.client is Some,
        ensures
            r == self@.client->0.state.width,
    {
        self.mpv().width()
    }

    /// The height of the video, as mpv last reported it.
    pub fn height(&self) -> (r: Double)
        requires
            self@.client is Some,
        ensures
            r == self@.client->0.state.height,
    {
        self.mpv().height()
    }

    /// Width and height of the video, each at least one.
    pub fn rect(&self) -> (r: (Double, Double))
        requires
            self@.client is Some,
        ensures
            r.0 == self@.client->0.state.width.spec_at_least_one(),
            r.1 == self@.client->0.state.height.spec_at_least_one(),
    {
        (self.width().at_least_one(), self.height().at_least_one())
    }

    /// The quotient of width and height, or one where the height is not positive.
    pub fn aspect_ratio(&self) -> (r: AspectRatio)
        requires
            self@.client is Some,
        ensures
            r == (if self@.client->0.state.height.spec_is_positive() {
                AspectRatio::Quotient(self@.client->0.state.width, self@.client->0.state.height)
            } else {
                AspectRatio::One
            }),
    {
        let h = self.height();
        if h.is_positive() {
            AspectRatio::Quotient(self.width(), h)
        } else {
            AspectRatio::One
        }
    }
}

/// What a player holds is what its client and its renderer hold.
pub proof fn player_shows_its_parts(player: MpvPlayer)
    ensures
        player@.client is Some <==> player.inner_client() is Some,
        player.inner_client() matches Some(client) ==> player@.client == Some(client@),
        player@.render is Some <==> player.inner_render() is Some,
        player.inner_render() matches Some(render) ==> player@.render == Some(render@),
{
}

} // verus!
