//! The reader task's state machine.
//!
//! The reader owns the registry and is driven by two streams: inbound
//! frames from the codec and management commands from the facades.  Each
//! step returns the actions the surrounding task must perform: frames to
//! write, waiters to fulfil or fail, pushes to hand to a channel's
//! dispatcher, callback notifications, and the shutdown broadcast.
//!
//! `W` is the waiter slot type, `D` the dispatcher handle type, `C` the
//! connection-level callback type; the crate treats all three as opaque.

use vstd::prelude::*;
use crate::error::ErrorKind;
use crate::frame::{Frame, Payload};
use crate::method;
use crate::method::MethodKey;
use crate::registry::{
    has_waiter_for, waiter_slot_for, ChannelRegistry, ChannelResource, Waiter,
};

verus! {

/// What the connection-level callback is told.
pub enum CallbackEvent {
    Blocked,
    Unblocked,
    Close { code: u16, text: String },
}

/// One instruction to the surrounding task.
pub enum Action<W, D> {
    /// Write this frame to the wire (a reader-originated reply).
    Send { frame: Frame },
    /// Hand this frame to the waiter that was pending for its key.
    Fulfil { slot: W, frame: Frame },
    /// Fail a pending waiter with this error.
    FailWaiter { slot: W, err: ErrorKind },
    /// Hand this frame to channel `channel`'s dispatcher.
    Dispatch { channel: u16, frame: Frame },
    /// The channel was torn down; its dispatcher is handed back so the
    /// task can shut it down.
    DispatcherClosed { dispatcher: D },
    /// Invoke the connection-level callback, if one is installed.
    NotifyCallback { event: CallbackEvent },
    /// Broadcast shutdown with this error.
    Shutdown { err: ErrorKind },
}

/// A management command, as the facades post it.  Every command is
/// acknowledged by the `CommandReply` the handler returns.
#[allow(inconsistent_fields)]
pub enum Command<W, D, C> {
    /// Insert a channel resource, at the given id or at the next free
    /// one; the reply carries the id, or `None` on failure.
    RegisterChannelResource { channel_id: Option<u16>, resource: ChannelResource<W, D> },
    /// Remove a channel; its pending waiters are failed.
    UnregisterChannelResource { channel_id: u16 },
    /// Attach an RPC waiter.
    RegisterResponder { channel_id: u16, key: MethodKey, slot: W },
    /// Install or replace the connection-level callback.
    RegisterConnectionCallback { callback: C },
}

impl<W, D, C> Command<W, D, C> {
    pub open spec fn wf(&self) -> bool {
        match self {
            Command::RegisterChannelResource { resource, .. } => resource.wf(),
            _ => true,
        }
    }
}

/// The acknowledgement of a management command.
pub enum CommandReply {
    ChannelRegistered { channel_id: Option<u16> },
    ChannelUnregistered,
    ResponderRegistered { result: Result<(), ErrorKind> },
    CallbackRegistered,
}

/// The reader's whole state: the registry it owns, the connection-level
/// callback slot, and whether it is still running.
pub struct ReaderState<W, D, C> {
    pub registry: ChannelRegistry<W, D>,
    pub callback: Option<C>,
    pub running: bool,
}

/// Appends one `FailWaiter { err }` action per pending waiter, in order.
fn fail_all_waiters<W, D>(
    waiters: Vec<Waiter<W>>,
    err: &ErrorKind,
    acts: &mut Vec<Action<W, D>>,
)
    ensures
        final(acts)@.len() == old(acts)@.len() + waiters@.len(),
        forall|i: int| 0 <= i < old(acts)@.len() ==> #[trigger] final(acts)@[i] == old(acts)@[i],
        forall|i: int| old(acts)@.len() <= i < final(acts)@.len()
            ==> #[trigger] final(acts)@[i] == (Action::FailWaiter::<W, D> {
                slot: waiters@[i - old(acts)@.len()].slot,
                err: *err,
            }),
{
    let ghost all = waiters@;
    let ghost base: int = acts@.len() as int;
    let mut ws = waiters;
    while ws.len() > 0
        invariant
            0 <= base,
            ws@.len() <= all.len(),
            ws@ == all.skip(all.len() - ws@.len()),
            acts@.len() == base + all.len() - ws@.len(),
            forall|i: int| 0 <= i < base ==> #[trigger] acts@[i] == old(acts)@[i],
            forall|i: int| base <= i < acts@.len()
                ==> #[trigger] acts@[i] == (Action::FailWaiter::<W, D> {
                    slot: all[i - base].slot,
                    err: *err,
                }),
        decreases ws@.len(),
    {
        let ghost done: int = all.len() - ws@.len();
        let ghost pre = ws@;
        let w = ws.remove(0);
        proof {
            assert(all.skip(done)[0] == all[done]);
            assert(w == all[done]);
            assert forall|i: int| 0 <= i < ws@.len() implies ws@[i] == all.skip(done + 1)[i] by {
                assert(ws@[i] == pre[i + 1]);
                assert(pre[i + 1] == all[done + 1 + i]);
                assert(all.skip(done + 1)[i] == all[done + 1 + i]);
            }
            assert(ws@ =~= all.skip(done + 1));
        }
        acts.push(Action::FailWaiter { slot: w.slot, err: err.copy_of() });
        proof {
            assert(acts@[base + done] == (Action::FailWaiter::<W, D> {
                slot: all[done].slot,
                err: *err,
            }));
        }
    }
}

impl<W, D, C> ReaderState<W, D, C> {
    pub open spec fn wf(&self) -> bool {
        self.registry.wf()
    }

    /// A fresh reader for channels `0..=channel_max`; nothing registered
    /// yet, no callback, running.
    pub fn new(channel_max: u16) -> (r: Self)
        requires
            channel_max >= 1,
        ensures
            r.wf(),
            r.registry.spec_channel_max() == channel_max,
            r.registry.next_id == 1,
            forall|id: u16| !r.registry.spec_registered(id),
            r.callback is None,
            r.running,
    {
        ReaderState { registry: ChannelRegistry::new(channel_max), callback: None, running: true }
    }

    /// Handles one management command and returns the acknowledgement
    /// plus the actions it entails (failed waiters of an unregistered
    /// channel, its dispatcher to shut down).
    pub fn handle_command(&mut self, cmd: Command<W, D, C>) -> (r: (
        CommandReply,
        Vec<Action<W, D>>,
    ))
        requires
            old(self).wf(),
            old(self).running,
            cmd.wf(),
        ensures
            final(self).wf(),
            final(self).running,
            final(self).registry.spec_channel_max() == old(self).registry.spec_channel_max(),
            match cmd {
                Command::RegisterChannelResource { channel_id, resource } => {
                    &&& final(self).callback == old(self).callback
                    &&& r.1@.len() == 0
                    &&& match channel_id {
                        Some(id) => {
                            let ok = id < old(self).registry.slots@.len()
                                && !old(self).registry.spec_registered(id);
                            &&& r.0 == (CommandReply::ChannelRegistered {
                                channel_id: if ok { Some(id) } else { None },
                            })
                            &&& ok ==> final(self).registry.slots@
                                == old(self).registry.slots@.update(id as int, Some(resource))
                            &&& !ok ==> final(self).registry == old(self).registry
                        },
                        None => match r.0 {
                            CommandReply::ChannelRegistered { channel_id: Some(id) } => {
                                &&& 1 <= id <= old(self).registry.spec_channel_max()
                                &&& !old(self).registry.spec_registered(id)
                                &&& final(self).registry.slots@
                                    == old(self).registry.slots@.update(id as int, Some(resource))
                            },
                            CommandReply::ChannelRegistered { channel_id: None } => {
                                &&& final(self).registry == old(self).registry
                                &&& forall|j: u16|
                                    1 <= j <= old(self).registry.spec_channel_max()
                                    ==> old(self).registry.spec_registered(j)
                            },
                            _ => false,
                        },
                    }
                },
                Command::UnregisterChannelResource { channel_id } => {
                    &&& final(self).callback == old(self).callback
                    &&& r.0 == (CommandReply::ChannelUnregistered {  })
                    &&& if old(self).registry.spec_registered(channel_id) {
                        let res = old(self).registry.spec_resource(channel_id);
                        &&& final(self).registry.slots@
                            == old(self).registry.slots@.update(channel_id as int, None)
                        &&& r.1@.len() == res.waiters@.len()
                            + (if res.dispatcher is Some { 1int } else { 0 })
                        &&& forall|i: int| 0 <= i < res.waiters@.len()
                            ==> ((#[trigger] r.1@[i]) matches Action::FailWaiter { slot, err }
                                && slot == res.waiters@[i].slot
                                && (err matches ErrorKind::ChannelClosed { code, text }
                                    && code == 200 && text@.len() == 0))
                        &&& (res.dispatcher matches Some(d)
                            ==> r.1@[res.waiters@.len() as int]
                                == (Action::DispatcherClosed::<W, D> { dispatcher: d }))
                    } else {
                        &&& final(self).registry == old(self).registry
                        &&& r.1@.len() == 0
                    }
                },
                Command::RegisterResponder { channel_id, key, slot } => {
                    &&& final(self).callback == old(self).callback
                    &&& r.1@.len() == 0
                    &&& match r.0 {
                        CommandReply::ResponderRegistered { result } => {
                            &&& (result is Ok) == (old(self).registry.spec_registered(channel_id)
                                && !has_waiter_for(
                                    old(self).registry.spec_resource(channel_id).waiters@,
                                    key,
                                ))
                            &&& match result {
                            Ok(()) => {
                                &&& old(self).registry.spec_registered(channel_id)
                                &&& !has_waiter_for(
                                    old(self).registry.spec_resource(channel_id).waiters@,
                                    key,
                                )
                                &&& waiter_slot_for(
                                    final(self).registry.spec_resource(channel_id).waiters@,
                                    key,
                                ) == Some(slot)
                                &&& forall|k2: MethodKey| k2 != key
                                    ==> waiter_slot_for(
                                        final(self).registry.spec_resource(channel_id).waiters@,
                                        k2,
                                    ) == waiter_slot_for(
                                        old(self).registry.spec_resource(channel_id).waiters@,
                                        k2,
                                    )
                                &&& final(self).registry.spec_resource(channel_id).dispatcher
                                    == old(self).registry.spec_resource(channel_id).dispatcher
                                &&& forall|c2: u16| c2 != channel_id
                                    ==> final(self).registry.spec_registered(c2)
                                        == old(self).registry.spec_registered(c2)
                                        && (old(self).registry.spec_registered(c2)
                                            ==> final(self).registry.spec_resource(c2)
                                                == old(self).registry.spec_resource(c2))
                            },
                            Err(e) => {
                                &&& final(self).registry == old(self).registry
                                &&& (e == (ErrorKind::DuplicateResponder)) == (
                                    old(self).registry.spec_registered(channel_id)
                                    && has_waiter_for(
                                        old(self).registry.spec_resource(channel_id).waiters@,
                                        key,
                                    ))
                                &&& (e matches ErrorKind::ChannelClosed { .. })
                                    == !old(self).registry.spec_registered(channel_id)
                            },
                            }
                        },
                        _ => false,
                    }
                },
                Command::RegisterConnectionCallback { callback } => {
                    &&& final(self).registry == old(self).registry
                    &&& final(self).callback == Some(callback)
                    &&& r.0 == (CommandReply::CallbackRegistered {  })
                    &&& r.1@.len() == 0
                },
            },
    {
        match cmd {
            Command::RegisterChannelResource { channel_id, resource } => {
                let id = match channel_id {
                    Some(id) => {
                        if self.registry.register_at(id, resource) {
                            Some(id)
                        } else {
                            None
                        }
                    },
                    None => self.registry.allocate(resource),
                };
                (CommandReply::ChannelRegistered { channel_id: id }, Vec::new())
            },
            Command::UnregisterChannelResource { channel_id } => {
                let mut acts: Vec<Action<W, D>> = Vec::new();
                match self.registry.unregister(channel_id) {
                    Some(res) => {
                        let err = ErrorKind::ChannelClosed { code: 200, text: String::new() };
                        fail_all_waiters(res.waiters, &err, &mut acts);
                        match res.dispatcher {
                            Some(d) => acts.push(Action::DispatcherClosed { dispatcher: d }),
                            None => {},
                        }
                    },
                    None => {},
                }
                (CommandReply::ChannelUnregistered, acts)
            },
            Command::RegisterResponder { channel_id, key, slot } => {
                let result = self.registry.register_responder(channel_id, key, slot);
                (CommandReply::ResponderRegistered { result }, Vec::new())
            },
            Command::RegisterConnectionCallback { callback } => {
                self.callback = Some(callback);
                (CommandReply::CallbackRegistered, Vec::new())
            },
        }
    }

    /// Routes one inbound frame, as the routing table of the reader task
    /// prescribes: connection-level methods on channel 0, channel close
    /// teardown, RPC fulfilment by method key, and content dispatch.
    pub fn handle_frame(&mut self, frame: Frame) -> (acts: Vec<Action<W, D>>)
        requires
            old(self).wf(),
            old(self).running,
        ensures
            final(self).wf(),
            final(self).callback == old(self).callback,
            final(self).registry.spec_channel_max() == old(self).registry.spec_channel_max(),
            match frame {
                Frame::Heartbeat => *final(self) == *old(self) && acts@.len() == 0,
                Frame::Method { channel, key, payload } => {
                    if channel == 0 {
                        if key == method::spec_connection_close() {
                            &&& !final(self).running
                            &&& final(self).registry == old(self).registry
                            &&& acts@.len() == 3
                            &&& acts@[0] matches Action::Send { frame: f }
                                && f matches Frame::Method { channel: fc, key: fk, .. }
                                && fc == 0 && fk == method::spec_connection_close_ok()
                            &&& acts@[1] matches Action::NotifyCallback { event }
                                && event matches CallbackEvent::Close { code, text }
                                && code == payload.spec_close_code()
                                && text@ == payload.spec_close_text()
                            &&& acts@[2] matches Action::Shutdown { err }
                                && err matches ErrorKind::ConnectionClosed { code, text }
                                && code == payload.spec_close_code()
                                && text@ == payload.spec_close_text()
                        } else if key == method::spec_connection_blocked() {
                            &&& *final(self) == *old(self)
                            &&& acts@.len() == 1
                            &&& acts@[0] matches Action::NotifyCallback { event }
                                && event is Blocked
                        } else if key == method::spec_connection_unblocked() {
                            &&& *final(self) == *old(self)
                            &&& acts@.len() == 1
                            &&& acts@[0] matches Action::NotifyCallback { event }
                                && event is Unblocked
                        } else {
                            Self::spec_rpc_or_drop(*old(self), *final(self), acts@, frame, 0, key)
                        }
                    } else {
                        if key == method::spec_channel_close() {
                            &&& final(self).running == old(self).running
                            &&& acts@.len() >= 1
                            &&& acts@[0] matches Action::Send { frame: f }
                                && f matches Frame::Method { channel: fc, key: fk, .. }
                                && fc == channel && fk == method::spec_channel_close_ok()
                            &&& if old(self).registry.spec_registered(channel) {
                                let res = old(self).registry.spec_resource(channel);
                                &&& final(self).registry.slots@
                                    == old(self).registry.slots@.update(channel as int, None)
                                &&& acts@.len() == 1 + res.waiters@.len()
                                    + (if res.dispatcher is Some { 1int } else { 0 })
                                &&& forall|i: int| 0 <= i < res.waiters@.len()
                                    ==> ((#[trigger] acts@[1 + i]) matches Action::FailWaiter { slot, err }
                                        && slot == res.waiters@[i].slot
                                        && (err matches ErrorKind::ChannelClosed { code, text }
                                            && code == payload.spec_close_code()
                                            && text@ == payload.spec_close_text()))
                                &&& (res.dispatcher matches Some(d)
                                    ==> acts@[1 + res.waiters@.len() as int]
                                        == (Action::DispatcherClosed::<W, D> { dispatcher: d }))
                            } else {
                                &&& final(self).registry == old(self).registry
                                &&& acts@.len() == 1
                            }
                        } else {
                            Self::spec_rpc_or_drop(
                                *old(self),
                                *final(self),
                                acts@,
                                frame,
                                channel,
                                key,
                            )
                        }
                    }
                },
                Frame::ContentHeader { channel, .. } => Self::spec_dispatch_or_drop(
                    *old(self),
                    *final(self),
                    acts@,
                    frame,
                    channel,
                ),
                Frame::ContentBody { channel, .. } => Self::spec_dispatch_or_drop(
                    *old(self),
                    *final(self),
                    acts@,
                    frame,
                    channel,
                ),
            },
    {
        match frame {
            Frame::Heartbeat => Vec::new(),
            Frame::Method { channel, key, payload } => {
                if channel == 0 {
                    if key == method::connection_close() {
                        let code = payload.close_code();
                        let text = payload.close_text();
                        self.running = false;
                        let mut acts: Vec<Action<W, D>> = Vec::new();
                        acts.push(
                            Action::Send {
                                frame: Frame::method(0, method::connection_close_ok()),
                            },
                        );
                        acts.push(
                            Action::NotifyCallback {
                                event: CallbackEvent::Close { code, text: text.clone() },
                            },
                        );
                        acts.push(
                            Action::Shutdown { err: ErrorKind::ConnectionClosed { code, text } },
                        );
                        acts
                    } else if key == method::connection_blocked() {
                        let mut acts: Vec<Action<W, D>> = Vec::new();
                        acts.push(Action::NotifyCallback { event: CallbackEvent::Blocked });
                        acts
                    } else if key == method::connection_unblocked() {
                        let mut acts: Vec<Action<W, D>> = Vec::new();
                        acts.push(Action::NotifyCallback { event: CallbackEvent::Unblocked });
                        acts
                    } else {
                        self.rpc_or_drop(Frame::Method { channel, key, payload }, 0, key)
                    }
                } else {
                    if key == method::channel_close() {
                        let code = payload.close_code();
                        let text = payload.close_text();
                        let mut acts: Vec<Action<W, D>> = Vec::new();
                        acts.push(
                            Action::Send {
                                frame: Frame::method(channel, method::channel_close_ok()),
                            },
                        );
                        match self.registry.unregister(channel) {
                            Some(res) => {
                                let err = ErrorKind::ChannelClosed { code, text };
                                fail_all_waiters(res.waiters, &err, &mut acts);
                                match res.dispatcher {
                                    Some(d) => acts.push(
                                        Action::DispatcherClosed { dispatcher: d },
                                    ),
                                    None => {},
                                }
                            },
                            None => {},
                        }
                        acts
                    } else {
                        self.rpc_or_drop(Frame::Method { channel, key, payload }, channel, key)
                    }
                }
            },
            Frame::ContentHeader { channel, body_size } => {
                self.dispatch_or_drop(Frame::ContentHeader { channel, body_size }, channel)
            },
            Frame::ContentBody { channel, payload } => {
                self.dispatch_or_drop(Frame::ContentBody { channel, payload }, channel)
            },
        }
    }

    /// What routing a method frame to a pending waiter means: the frame
    /// fulfils exactly the waiter registered for its key, which is then
    /// gone; with no waiter the frame goes to the channel's dispatcher,
    /// and with neither it is dropped.
    pub open spec fn spec_rpc_or_drop(
        pre: Self,
        post: Self,
        acts: Seq<Action<W, D>>,
        frame: Frame,
        channel: u16,
        key: MethodKey,
    ) -> bool {
        &&& post.running == pre.running
        &&& if pre.registry.spec_registered(channel)
            && has_waiter_for(pre.registry.spec_resource(channel).waiters@, key) {
            &&& acts.len() == 1
            &&& acts[0] matches Action::Fulfil { slot, frame: f } && f == frame
                && Some(slot) == waiter_slot_for(
                    pre.registry.spec_resource(channel).waiters@,
                    key,
                )
            &&& post.registry.spec_registered(channel)
            &&& waiter_slot_for(post.registry.spec_resource(channel).waiters@, key) is None
            &&& forall|k2: MethodKey| k2 != key
                ==> waiter_slot_for(post.registry.spec_resource(channel).waiters@, k2)
                    == waiter_slot_for(pre.registry.spec_resource(channel).waiters@, k2)
            &&& post.registry.spec_resource(channel).dispatcher
                == pre.registry.spec_resource(channel).dispatcher
            &&& forall|c2: u16| c2 != channel
                ==> post.registry.spec_registered(c2) == pre.registry.spec_registered(c2)
                    && (pre.registry.spec_registered(c2)
                        ==> post.registry.spec_resource(c2) == pre.registry.spec_resource(c2))
        } else {
            &&& post == pre
            &&& if pre.registry.spec_registered(channel)
                && pre.registry.spec_resource(channel).dispatcher is Some {
                acts.len() == 1 && (acts[0] matches Action::Dispatch { channel: c, frame: f }
                    && c == channel && f == frame)
            } else {
                acts.len() == 0
            }
        }
    }

    /// What routing a content frame means: to the dispatcher of its
    /// channel, or dropped when the channel has none.
    pub open spec fn spec_dispatch_or_drop(
        pre: Self,
        post: Self,
        acts: Seq<Action<W, D>>,
        frame: Frame,
        channel: u16,
    ) -> bool {
        &&& post == pre
        &&& if channel != 0 && pre.registry.spec_registered(channel)
            && pre.registry.spec_resource(channel).dispatcher is Some {
            acts.len() == 1 && (acts[0] matches Action::Dispatch { channel: c, frame: f }
                && c == channel && f == frame)
        } else {
            acts.len() == 0
        }
    }

    /// Fulfil the waiter pending for `key` on `channel`, or hand the
    /// frame to the channel's dispatcher, or drop it.
    fn rpc_or_drop(&mut self, frame: Frame, channel: u16, key: MethodKey) -> (acts: Vec<
        Action<W, D>,
    >)
        requires
            old(self).wf(),
        ensures
            final(self).wf(),
            final(self).callback == old(self).callback,
            final(self).registry.spec_channel_max() == old(self).registry.spec_channel_max(),
            Self::spec_rpc_or_drop(*old(self), *final(self), acts@, frame, channel, key),
    {
        match self.registry.take_responder(channel, key) {
            Some(slot) => {
                let mut acts: Vec<Action<W, D>> = Vec::new();
                acts.push(Action::Fulfil { slot, frame });
                acts
            },
            None => self.dispatch_or_drop_inner(frame, channel),
        }
    }

    /// Hand the frame to `channel`'s dispatcher when `channel != 0` and
    /// one is installed; drop it otherwise.
    fn dispatch_or_drop(&mut self, frame: Frame, channel: u16) -> (acts: Vec<Action<W, D>>)
        requires
            old(self).wf(),
        ensures
            final(self).wf(),
            *final(self) == *old(self),
            Self::spec_dispatch_or_drop(*old(self), *final(self), acts@, frame, channel),
    {
        if channel == 0 {
            Vec::new()
        } else {
            self.dispatch_or_drop_inner(frame, channel)
        }
    }

    fn dispatch_or_drop_inner(&mut self, frame: Frame, channel: u16) -> (acts: Vec<
        Action<W, D>,
    >)
        requires
            old(self).wf(),
        ensures
            final(self).wf(),
            *final(self) == *old(self),
            if old(self).registry.spec_registered(channel)
                && old(self).registry.spec_resource(channel).dispatcher is Some {
                acts@.len() == 1 && (acts@[0] matches Action::Dispatch { channel: c, frame: f }
                    && c == channel && f == frame)
            } else {
                acts@.len() == 0
            },
    {
        let has_dispatcher = if (channel as usize) < self.registry.slots.len() {
            match &self.registry.slots[channel as usize] {
                Some(res) => res.dispatcher.is_some(),
                None => false,
            }
        } else {
            false
        };
        if has_dispatcher {
            let mut acts: Vec<Action<W, D>> = Vec::new();
            acts.push(Action::Dispatch { channel, frame });
            acts
        } else {
            Vec::new()
        }
    }

    /// How many teardown actions the channels up to (excluding) `n`
    /// owe: one per pending waiter, one per installed dispatcher.
    pub open spec fn spec_drain_count(slots: Seq<Option<ChannelResource<W, D>>>, n: int) -> int
        decreases n,
    {
        if n <= 0 {
            0
        } else {
            Self::spec_drain_count(slots, n - 1) + match slots[n - 1] {
                Some(res) => res.waiters@.len() + (if res.dispatcher is Some {
                    1int
                } else {
                    0
                }),
                None => 0,
            }
        }
    }

    /// Tears the whole registry down on shutdown: every channel is
    /// unregistered, every pending waiter fails with `err`, and every
    /// dispatcher is handed back to be shut down.  Nothing is dropped
    /// silently: there is exactly one action per waiter or dispatcher
    /// that was registered.
    pub fn drain(&mut self, err: &ErrorKind) -> (acts: Vec<Action<W, D>>)
        requires
            old(self).wf(),
        ensures
            final(self).wf(),
            final(self).callback == old(self).callback,
            final(self).registry.spec_channel_max() == old(self).registry.spec_channel_max(),
            !final(self).running,
            forall|c: u16| !final(self).registry.spec_registered(c),
            forall|i: int| 0 <= i < acts@.len()
                ==> ((#[trigger] acts@[i]) matches Action::FailWaiter { err: e, .. } && e == *err)
                    || (acts@[i] matches Action::DispatcherClosed { .. }),
            acts@.len() == Self::spec_drain_count(
                old(self).registry.slots@,
                old(self).registry.slots@.len() as int,
            ),
    {
        self.running = false;
        let mut acts: Vec<Action<W, D>> = Vec::new();
        let ghost orig_slots = self.registry.slots@;
        let n = self.registry.slots.len();
        let mut id: usize = 0;
        while id < n
            invariant
                self.wf(),
                n == self.registry.slots@.len(),
                orig_slots.len() == n,
                id <= n,
                !self.running,
                self.callback == old(self).callback,
                self.registry.spec_channel_max() == old(self).registry.spec_channel_max(),
                forall|c: u16| c < id ==> !self.registry.spec_registered(c),
                forall|c: int| id <= c < n ==> self.registry.slots@[c] == orig_slots[c],
                acts@.len() == Self::spec_drain_count(orig_slots, id as int),
                forall|i: int| 0 <= i < acts@.len()
                    ==> ((#[trigger] acts@[i]) matches Action::FailWaiter { err: e, .. } && e == *err)
                        || (acts@[i] matches Action::DispatcherClosed { .. }),
            decreases n - id,
        {
            let ghost pre_reg = self.registry;
            let ghost pre_slots = self.registry.slots@;
            proof {
                assert(pre_slots[id as int] == orig_slots[id as int]);
                assert(Self::spec_drain_count(orig_slots, id as int + 1)
                    == Self::spec_drain_count(orig_slots, id as int) + match orig_slots[id as int] {
                    Some(res) => res.waiters@.len() + (if res.dispatcher is Some {
                        1int
                    } else {
                        0
                    }),
                    None => 0,
                });
            }
            match self.registry.unregister(id as u16) {
                Some(res) => {
                    fail_all_waiters(res.waiters, err, &mut acts);
                    match res.dispatcher {
                        Some(d) => acts.push(Action::DispatcherClosed { dispatcher: d }),
                        None => {},
                    }
                },
                None => {},
            }
            proof {
                assert(id < 65536);
                assert((id as u16) as int == id as int);
                assert forall|c: u16| c < id + 1 implies !self.registry.spec_registered(c) by {
                    if c as int == id as int {
                        assert(self.registry.slots@[id as int] is None);
                    } else {
                        assert(c < id);
                        assert(!pre_reg.spec_registered(c));
                        assert(self.registry.slots@[c as int] == pre_slots[c as int]);
                    }
                }
            }
            id = id + 1;
        }
        acts
    }
}

/// Concurrent RPCs on one channel never receive each other's
/// responses: routing the response for `k1` fulfils exactly the slot
/// registered under `k1` and leaves the waiter for any other key `k2`
/// pending, untouched.
pub proof fn lemma_responses_never_cross<W, D, C>(
    pre: ReaderState<W, D, C>,
    post: ReaderState<W, D, C>,
    acts: Seq<Action<W, D>>,
    frame: Frame,
    channel: u16,
    k1: MethodKey,
    k2: MethodKey,
)
    requires
        ReaderState::spec_rpc_or_drop(pre, post, acts, frame, channel, k1),
        pre.registry.spec_registered(channel),
        has_waiter_for(pre.registry.spec_resource(channel).waiters@, k1),
        has_waiter_for(pre.registry.spec_resource(channel).waiters@, k2),
        k2 != k1,
    ensures
        acts.len() == 1,
        acts[0] matches Action::Fulfil { slot, frame: f } && f == frame
            && Some(slot) == waiter_slot_for(pre.registry.spec_resource(channel).waiters@, k1),
        waiter_slot_for(post.registry.spec_resource(channel).waiters@, k2)
            == waiter_slot_for(pre.registry.spec_resource(channel).waiters@, k2),
        has_waiter_for(post.registry.spec_resource(channel).waiters@, k2),
{
}

/// A completed (or cancelled and then answered) RPC leaves no registry
/// entry behind: after its response is routed, no waiter for its key
/// remains on the channel, and every other channel and key is as it
/// was — later RPCs are unaffected.
pub proof fn lemma_rpc_leaves_no_entry<W, D, C>(
    pre: ReaderState<W, D, C>,
    post: ReaderState<W, D, C>,
    acts: Seq<Action<W, D>>,
    frame: Frame,
    channel: u16,
    k: MethodKey,
)
    requires
        ReaderState::spec_rpc_or_drop(pre, post, acts, frame, channel, k),
        pre.registry.spec_registered(channel),
        has_waiter_for(pre.registry.spec_resource(channel).waiters@, k),
    ensures
        !has_waiter_for(post.registry.spec_resource(channel).waiters@, k),
        forall|k2: MethodKey| k2 != k
            ==> waiter_slot_for(post.registry.spec_resource(channel).waiters@, k2)
                == waiter_slot_for(pre.registry.spec_resource(channel).waiters@, k2),
        forall|c2: u16| c2 != channel
            ==> post.registry.spec_registered(c2) == pre.registry.spec_registered(c2),
{
}

/// Routing a method response or a content frame never registers or
/// unregisters a channel: whatever was registered before the step is
/// registered after it.  Together with the registration commands'
/// contracts this keeps every facade-written frame on a channel that
/// is registered at write time: the entry is created (and acknowledged)
/// before the channel's opening method is enqueued, and only that
/// channel's own close tears it down.
pub proof fn lemma_routing_preserves_registration<W, D, C>(
    pre: ReaderState<W, D, C>,
    post: ReaderState<W, D, C>,
    acts: Seq<Action<W, D>>,
    frame: Frame,
    channel: u16,
    k: MethodKey,
)
    requires
        ReaderState::spec_rpc_or_drop(pre, post, acts, frame, channel, k)
            || ReaderState::spec_dispatch_or_drop(pre, post, acts, frame, channel),
    ensures
        forall|c: u16| post.registry.spec_registered(c) == pre.registry.spec_registered(c),
{
    if ReaderState::spec_rpc_or_drop(pre, post, acts, frame, channel, k) {
        if pre.registry.spec_registered(channel)
            && has_waiter_for(pre.registry.spec_resource(channel).waiters@, k) {
            assert forall|c: u16|
                post.registry.spec_registered(c) == pre.registry.spec_registered(c) by {
                if c != channel {
                } else {
                    assert(post.registry.spec_registered(channel));
                }
            }
        }
    }
}

} // verus!
