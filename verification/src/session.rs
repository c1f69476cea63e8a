use vstd::prelude::*;

use vstd::string::StringSliceAdditionalSpecFns;

use crate::beacon::Beacon;
use crate::command_handler::spec_alert_message;
use crate::command_handler::spec_cmd_message;
use crate::command_handler::AlertMessage;
use crate::command_handler::CommandHandler;
use crate::consts::SUBSCRIBE_NAME_CAPACITY;
use crate::consts::XP_DEFAULT_SENDING_PORT;
use crate::dataref::spec_subscription_message;
use crate::dataref::DataRef;
use crate::dataref_handler::DataRefHandler;
use crate::dataref_type::DataRefType;
use crate::dataref_type::DataRefValueType;
use crate::errors::XpError;
use crate::net::Endpoint;

verus! {

/// Where a session stands in its lifecycle; operations that talk to the
/// simulator are rejected before `Connected`.
#[derive(Clone, Copy, Debug, PartialEq, Eq, Structural)]
pub enum SessionState {
    Unconnected,
    Connecting,
    Connected,
    ShuttingDown,
    Closed,
}

/// One client session: the simulator's addresses, the optional beacon the
/// addresses were discovered from, the subscription registry, and the
/// command encoder. The embedding code binds the sockets and moves the
/// datagrams; every decision and every byte of framing is made here.
pub struct Session {
    pub state: SessionState,
    pub beacon: Option<Beacon>,
    /// Where the simulator receives: subscriptions, commands and alerts go
    /// here.
    pub xp_receiving_address: Endpoint,
    /// Where the simulator sends data back to this client.
    pub xp_sending_address: Endpoint,
    pub dataref_handler: DataRefHandler,
    pub command_handler: CommandHandler,
}

impl Session {
    pub open spec fn wf(self) -> bool {
        self.dataref_handler.wf()
    }

    /// The registered name-to-index mapping.
    pub open spec fn spec_names(self) -> Map<Seq<u8>, i32> {
        self.dataref_handler.spec_names()
    }

    /// The registered subscriptions by index.
    pub open spec fn spec_subs(self) -> Map<i32, DataRef> {
        self.dataref_handler.spec_subs()
    }

    /// A session aimed at explicitly given simulator addresses; no
    /// discovery is involved. The session still has to be `run` before it
    /// accepts operations.
    pub fn manual(xp_receiving_address: Endpoint, xp_sending_address: Endpoint) -> (s: Session)
        ensures
            s.wf(),
            s.state == SessionState::Connecting,
            s.beacon is None,
            s.xp_receiving_address == xp_receiving_address,
            s.xp_sending_address == xp_sending_address,
            s.spec_names() == crate::shared_map::empty_name_map(),
            s.spec_subs() == crate::shared_map::empty_dataref_map(),
            s.dataref_handler.index_counter == 1,
    {
        Session {
            state: SessionState::Connecting,
            beacon: None,
            xp_receiving_address,
            xp_sending_address,
            dataref_handler: DataRefHandler::new(),
            command_handler: CommandHandler::new(),
        }
    }

    /// A session whose addresses are derived from an intercepted beacon:
    /// the simulator receives at the announcement's source IP and the
    /// announced port, and sends from the same IP at the well-known
    /// default sending port. `NotFound` if the discovery holds no
    /// announcement.
    pub fn from_discovery(beacon: Beacon) -> (r: Result<Session, XpError>)
        ensures
            match r {
                Ok(s) => {
                    &&& beacon.data is Some
                    &&& s.wf()
                    &&& s.state == SessionState::Connecting
                    &&& s.beacon == Some(beacon)
                    &&& s.xp_receiving_address == (Endpoint {
                        ip: beacon.data->Some_0.source.ip,
                        port: beacon.data->Some_0.port,
                    })
                    &&& s.xp_sending_address == (Endpoint {
                        ip: beacon.data->Some_0.source.ip,
                        port: XP_DEFAULT_SENDING_PORT,
                    })
                    &&& s.spec_names() == crate::shared_map::empty_name_map()
                    &&& s.spec_subs() == crate::shared_map::empty_dataref_map()
                    &&& s.dataref_handler.index_counter == 1
                },
                Err(e) => {
                    &&& e == XpError::NotFound
                    &&& beacon.data is None
                },
            },
    {
        let (source_ip, announced_port) = match beacon.get_beacon() {
            Some(data) => (data.get_source().ip, data.get_port()),
            None => { return Err(XpError::NotFound) },
        };
        let receiving = Endpoint { ip: source_ip, port: announced_port };
        let sending = Endpoint { ip: source_ip, port: XP_DEFAULT_SENDING_PORT };
        Ok(
            Session {
                state: SessionState::Connecting,
                beacon: Some(beacon),
                xp_receiving_address: receiving,
                xp_sending_address: sending,
                dataref_handler: DataRefHandler::new(),
                command_handler: CommandHandler::new(),
            },
        )
    }

    pub fn get_beacon(&self) -> (b: &Option<Beacon>)
        ensures
            *b == self.beacon,
    {
        &self.beacon
    }

    /// Marks the session connected once the embedding code has bound and
    /// connected both transports; only a `Connecting` session can be run.
    pub fn run(&mut self) -> (r: Result<(), XpError>)
        ensures
            match r {
                Ok(()) => {
                    &&& old(self).state == SessionState::Connecting
                    &&& *final(self) == (Session { state: SessionState::Connected, ..*old(self) })
                },
                Err(e) => {
                    &&& e == XpError::NotConnected
                    &&& old(self).state != SessionState::Connecting
                    &&& *final(self) == *old(self)
                },
            },
    {
        if self.state == SessionState::Connecting {
            self.state = SessionState::Connected;
            Ok(())
        } else {
            Err(XpError::NotConnected)
        }
    }

    /// Registers a subscription and returns the subscribe-request datagram
    /// to send; rejected with `NotConnected` before `run`, and with
    /// `InvalidInput` if the name exceeds the 400-byte wire capacity.
    pub fn subscribe(&mut self, dataref: &str, frequency: i32, dataref_type: DataRefType) -> (r:
        Result<Vec<u8>, XpError>)
        requires
            old(self).wf(),
            old(self).state == SessionState::Connected ==> old(
                self,
            ).dataref_handler.index_counter < i32::MAX,
        ensures
            final(self).wf(),
            final(self).state == old(self).state,
            final(self).xp_receiving_address == old(self).xp_receiving_address,
            final(self).xp_sending_address == old(self).xp_sending_address,
            match r {
                Ok(msg) => {
                    &&& old(self).state == SessionState::Connected
                    &&& dataref.spec_bytes().len() <= SUBSCRIBE_NAME_CAPACITY
                    &&& msg@ == spec_subscription_message(
                        frequency,
                        old(self).dataref_handler.index_counter,
                        dataref.spec_bytes(),
                    )
                    &&& final(self).dataref_handler.index_counter == old(
                        self,
                    ).dataref_handler.index_counter + 1
                    &&& final(self).spec_names() == old(self).spec_names().insert(
                        dataref.spec_bytes(),
                        old(self).dataref_handler.index_counter,
                    )
                    &&& final(self).spec_names().contains_key(dataref.spec_bytes())
                    &&& final(self).spec_subs().contains_key(
                        old(self).dataref_handler.index_counter,
                    )
                    &&& ({
                        let sub = final(self).spec_subs()[old(self).dataref_handler.index_counter];
                        &&& sub.name@ == dataref.spec_bytes()
                        &&& sub.index == old(self).dataref_handler.index_counter
                        &&& sub.freq == frequency
                        &&& sub.value_type == dataref_type
                        &&& sub.raw is None
                    })
                },
                Err(e) => {
                    &&& *final(self) == *old(self)
                    &&& if old(self).state != SessionState::Connected {
                        e == XpError::NotConnected
                    } else {
                        e == XpError::InvalidInput && dataref.spec_bytes().len()
                            > SUBSCRIBE_NAME_CAPACITY
                    }
                },
            },
    {
        if self.state != SessionState::Connected {
            return Err(XpError::NotConnected);
        }
        self.dataref_handler.new_subscribe(dataref, frequency, dataref_type)
    }

    /// Removes a subscription and returns the frequency-zero request that
    /// stops the stream; the local registry is updated before the message
    /// is handed out. `NotFound` if the name is not subscribed.
    pub fn unsubscribe(&mut self, dataref: &str) -> (r: Result<Vec<u8>, XpError>)
        requires
            old(self).wf(),
        ensures
            final(self).wf(),
            final(self).state == old(self).state,
            match r {
                Ok(msg) => {
                    &&& old(self).state == SessionState::Connected
                    &&& old(self).spec_names().contains_key(dataref.spec_bytes())
                    &&& msg@ == spec_subscription_message(
                        0,
                        old(self).spec_names()[dataref.spec_bytes()],
                        dataref.spec_bytes(),
                    )
                    &&& final(self).spec_names() == old(self).spec_names().remove(
                        dataref.spec_bytes(),
                    )
                    &&& final(self).spec_subs() == old(self).spec_subs().remove(
                        old(self).spec_names()[dataref.spec_bytes()],
                    )
                },
                Err(e) => {
                    &&& *final(self) == *old(self)
                    &&& if old(self).state != SessionState::Connected {
                        e == XpError::NotConnected
                    } else {
                        e == XpError::NotFound && !old(self).spec_names().contains_key(
                            dataref.spec_bytes(),
                        )
                    }
                },
            },
    {
        if self.state != SessionState::Connected {
            return Err(XpError::NotConnected);
        }
        self.dataref_handler.unsubscribe(dataref)
    }

    /// Removes one registered subscription, if any is left, pairing its
    /// name with the stop-streaming datagram composed for it; `None` once
    /// the registry is empty. Served while the session is `Connected` or
    /// `ShuttingDown`.
    ///
    /// Unsubscribing everything is a loop of this step in the embedding
    /// code, which sends each datagram as it goes and aborts at the first
    /// send failure: the names not yet reached then stay registered.
    pub fn unsubscribe_next(&mut self) -> (r: Result<Option<(Vec<u8>, Vec<u8>)>, XpError>)
        requires
            old(self).wf(),
        ensures
            final(self).wf(),
            final(self).state == old(self).state,
            match r {
                Ok(step) => {
                    &&& (old(self).state == SessionState::Connected || old(self).state
                        == SessionState::ShuttingDown)
                    &&& match step {
                        Some(pair) => {
                            &&& old(self).spec_names().contains_key(pair.0@)
                            &&& pair.1@ == spec_subscription_message(
                                0,
                                old(self).spec_names()[pair.0@],
                                pair.0@,
                            )
                            &&& final(self).spec_names() == old(self).spec_names().remove(pair.0@)
                            &&& final(self).spec_subs() == old(self).spec_subs().remove(
                                old(self).spec_names()[pair.0@],
                            )
                        },
                        None => {
                            &&& old(self).spec_names() == crate::shared_map::empty_name_map()
                            &&& old(self).spec_subs() == crate::shared_map::empty_dataref_map()
                            &&& *final(self) == *old(self)
                        },
                    }
                },
                Err(e) => {
                    &&& *final(self) == *old(self)
                    &&& e == XpError::NotConnected
                    &&& old(self).state != SessionState::Connected
                    &&& old(self).state != SessionState::ShuttingDown
                },
            },
    {
        if !(self.state == SessionState::Connected || self.state == SessionState::ShuttingDown) {
            return Err(XpError::NotConnected);
        }
        Ok(self.dataref_handler.unsubscribe_next())
    }

    /// Encodes a fire-and-forget command datagram to send; rejected with
    /// `NotConnected` before `run`.
    pub fn cmd(&self, command: &str) -> (r: Result<Vec<u8>, XpError>)
        ensures
            match r {
                Ok(msg) => self.state == SessionState::Connected && msg@ == spec_cmd_message(
                    command.spec_bytes(),
                ),
                Err(e) => e == XpError::NotConnected && self.state != SessionState::Connected,
            },
    {
        if self.state != SessionState::Connected {
            return Err(XpError::NotConnected);
        }
        Ok(self.command_handler.cmd_message(command))
    }

    /// Encodes an alert datagram to send; rejected with `NotConnected`
    /// before `run`.
    pub fn alert(&self, message: AlertMessage) -> (r: Result<Vec<u8>, XpError>)
        requires
            message.wf(),
        ensures
            match r {
                Ok(msg) => self.state == SessionState::Connected && msg@ == spec_alert_message(
                    message,
                ),
                Err(e) => e == XpError::NotConnected && self.state != SessionState::Connected,
            },
    {
        if self.state != SessionState::Connected {
            return Err(XpError::NotConnected);
        }
        Ok(self.command_handler.alert_message(message))
    }

    /// The current value of a subscribed dataref; readable in any state.
    pub fn get_dataref(&self, dataref: &str) -> (r: Option<DataRefValueType>)
        requires
            self.wf(),
        ensures
            match r {
                Some(v) => self.spec_names().contains_key(dataref.spec_bytes()) && v
                    == self.spec_subs()[self.spec_names()[dataref.spec_bytes()]].spec_get(),
                None => !self.spec_names().contains_key(dataref.spec_bytes()),
            },
    {
        self.dataref_handler.get_dataref(dataref)
    }

    /// Starts teardown: a session that is not yet closed moves to
    /// `ShuttingDown`, in which `unsubscribe_next` is still served so the
    /// embedding code can send each stop-streaming datagram best-effort;
    /// a closed session stays closed.
    pub fn begin_shutdown(&mut self)
        ensures
            old(self).state == SessionState::Closed ==> *final(self) == *old(self),
            old(self).state != SessionState::Closed ==> *final(self) == (Session {
                state: SessionState::ShuttingDown,
                ..*old(self)
            }),
    {
        if self.state != SessionState::Closed {
            self.state = SessionState::ShuttingDown;
        }
    }

    /// Ends teardown: the session is closed and every later operation but
    /// reads is rejected; closing an already closed session is a no-op.
    pub fn finish_shutdown(&mut self)
        ensures
            *final(self) == (Session { state: SessionState::Closed, ..*old(self) }),
    {
        self.state = SessionState::Closed;
    }
}

} // verus!
