use vstd::prelude::*;

use crate::beacon_data::spec_is_beacon_frame;
use crate::beacon_data::BeaconData;
use crate::consts::XP_MULTICAST_PARSE_MAX_TRIES;
use crate::consts::XP_MULTICAST_TIMEOUT_MAX_TRIES;
use crate::consts::spec_xp_multicast_addr;
use crate::consts::xp_multicast_addr;
use crate::errors::XpError;
use crate::net::Endpoint;

verus! {

/// What one receive attempt on the multicast socket observed; the
/// embedding code performs the attempt and reports it here.
pub enum RecvOutcome {
    /// A datagram arrived, with its payload and source address.
    Datagram(Vec<u8>, Endpoint),
    /// The per-attempt timeout elapsed with nothing received.
    TimedOut,
    /// The receive itself failed.
    Failed,
}

/// What the discovery state machine decides after one receive attempt.
#[derive(Clone, Copy, Debug, PartialEq, Eq, Structural)]
pub enum InterceptStep {
    /// A beacon was decoded and stored; discovery is complete.
    Accepted,
    /// Try to receive again.
    Retry,
    /// Discovery failed for good, with the terminal error.
    GiveUp(XpError),
}

/// The per-attempt receive timeout: the caller's overall budget divided
/// evenly over the allowed number of attempts.
pub open spec fn spec_per_attempt_timeout_ms(timeout_ms: u64) -> u64 {
    timeout_ms / ((XP_MULTICAST_TIMEOUT_MAX_TRIES + 1) as u64)
}

/// The beacon-discovery state machine: where to listen, how long each
/// receive attempt may take, how many malformed datagrams and how many
/// timeouts have been tolerated so far, and the announcement once one is
/// decoded. The embedding code owns the socket; this type makes every
/// decision.
#[derive(Clone, Debug)]
pub struct Beacon {
    pub data: Option<BeaconData>,
    pub xp_multicast_address: Endpoint,
    pub timeout_duration_ms: u64,
    pub parse_tries: i32,
    pub timeout_tries: i32,
}

impl Beacon {
    /// The retry counters stay within their bounded budgets.
    pub open spec fn wf(self) -> bool {
        &&& 1 <= self.parse_tries <= XP_MULTICAST_PARSE_MAX_TRIES + 1
        &&& 1 <= self.timeout_tries <= XP_MULTICAST_TIMEOUT_MAX_TRIES + 1
    }

    /// A discovery listening on the default multicast group.
    pub fn new(timeout_ms: u64) -> (b: Beacon)
        ensures
            b.wf(),
            b.data is None,
            b.xp_multicast_address == spec_xp_multicast_addr(),
            b.timeout_duration_ms == spec_per_attempt_timeout_ms(timeout_ms),
            b.parse_tries == 1,
            b.timeout_tries == 1,
    {
        Beacon {
            data: None,
            xp_multicast_address: xp_multicast_addr(),
            timeout_duration_ms: timeout_ms / ((XP_MULTICAST_TIMEOUT_MAX_TRIES + 1) as u64),
            parse_tries: 1,
            timeout_tries: 1,
        }
    }

    /// A discovery listening on a caller-chosen group; rejected with
    /// `InvalidInput` if the address is not a multicast address.
    pub fn new_with_address(beacon_address: Endpoint, timeout_ms: u64) -> (r: Result<
        Beacon,
        XpError,
    >)
        ensures
            match r {
                Ok(b) => {
                    &&& beacon_address.ip.spec_is_multicast()
                    &&& b.wf()
                    &&& b.data is None
                    &&& b.xp_multicast_address == beacon_address
                    &&& b.timeout_duration_ms == spec_per_attempt_timeout_ms(timeout_ms)
                    &&& b.parse_tries == 1
                    &&& b.timeout_tries == 1
                },
                Err(e) => {
                    &&& e == XpError::InvalidInput
                    &&& !beacon_address.ip.spec_is_multicast()
                },
            },
    {
        if !beacon_address.ip.is_multicast() {
            return Err(XpError::InvalidInput);
        }
        Ok(
            Beacon {
                data: None,
                xp_multicast_address: beacon_address,
                timeout_duration_ms: timeout_ms / ((XP_MULTICAST_TIMEOUT_MAX_TRIES + 1) as u64),
                parse_tries: 1,
                timeout_tries: 1,
            },
        )
    }

    /// Resets the retry budgets for a fresh interception; called when the
    /// embedding code joins the multicast group and starts receiving.
    pub fn begin_intercept(&mut self)
        ensures
            final(self).wf(),
            final(self).parse_tries == 1,
            final(self).timeout_tries == 1,
            final(self).data == old(self).data,
            final(self).xp_multicast_address == old(self).xp_multicast_address,
            final(self).timeout_duration_ms == old(self).timeout_duration_ms,
    {
        self.parse_tries = 1;
        self.timeout_tries = 1;
    }

    /// Decodes one multicast datagram and stores the announcement.
    fn parse_beacon_message(&mut self, msg: &[u8], src_addr: Endpoint) -> (r: Result<(), XpError>)
        ensures
            match r {
                Ok(()) => {
                    &&& spec_is_beacon_frame(msg@)
                    &&& final(self).data matches Some(d) && d.spec_matches_frame(msg@, src_addr)
                },
                Err(e) => {
                    &&& e == XpError::ProtocolDecode
                    &&& !spec_is_beacon_frame(msg@)
                    &&& final(self).data == old(self).data
                },
            },
            final(self).xp_multicast_address == old(self).xp_multicast_address,
            final(self).timeout_duration_ms == old(self).timeout_duration_ms,
            final(self).parse_tries == old(self).parse_tries,
            final(self).timeout_tries == old(self).timeout_tries,
    {
        let beacon = BeaconData::from_bytes(msg, src_addr)?;
        self.data = Some(beacon);
        Ok(())
    }

    /// Advances discovery by one observed receive attempt, exactly as the
    /// bounded-retry policy prescribes.
    ///
    /// A decodable datagram completes discovery. A malformed one is
    /// retried until the parse budget is spent, then discovery fails with
    /// a data-format error. A timeout is retried until the timeout budget
    /// is spent, then discovery fails with a not-found error. A failed
    /// receive is terminal at once.
    pub fn handle_recv(&mut self, outcome: RecvOutcome) -> (step: InterceptStep)
        requires
            old(self).wf(),
        ensures
            final(self).wf(),
            final(self).xp_multicast_address == old(self).xp_multicast_address,
            final(self).timeout_duration_ms == old(self).timeout_duration_ms,
            match outcome {
                RecvOutcome::Datagram(bytes, src) => {
                    if spec_is_beacon_frame(bytes@) {
                        &&& step == InterceptStep::Accepted
                        &&& final(self).data matches Some(d) && d.spec_matches_frame(bytes@, src)
                        &&& final(self).parse_tries == old(self).parse_tries
                        &&& final(self).timeout_tries == old(self).timeout_tries
                    } else if old(self).parse_tries <= XP_MULTICAST_PARSE_MAX_TRIES {
                        &&& step == InterceptStep::Retry
                        &&& final(self).data == old(self).data
                        &&& final(self).parse_tries == old(self).parse_tries + 1
                        &&& final(self).timeout_tries == old(self).timeout_tries
                    } else {
                        &&& step == InterceptStep::GiveUp(XpError::ProtocolDecode)
                        &&& final(self).data == old(self).data
                        &&& final(self).parse_tries == old(self).parse_tries
                        &&& final(self).timeout_tries == old(self).timeout_tries
                    }
                },
                RecvOutcome::TimedOut => {
                    if old(self).timeout_tries <= XP_MULTICAST_TIMEOUT_MAX_TRIES {
                        &&& step == InterceptStep::Retry
                        &&& final(self).data == old(self).data
                        &&& final(self).parse_tries == old(self).parse_tries
                        &&& final(self).timeout_tries == old(self).timeout_tries + 1
                    } else {
                        &&& step == InterceptStep::GiveUp(XpError::NotFound)
                        &&& *final(self) == *old(self)
                    }
                },
                RecvOutcome::Failed => {
                    &&& step == InterceptStep::GiveUp(XpError::Transport)
                    &&& *final(self) == *old(self)
                },
            },
    {
        match outcome {
            RecvOutcome::Datagram(bytes, src) => {
                match self.parse_beacon_message(bytes.as_slice(), src) {
                    Ok(()) => InterceptStep::Accepted,
                    Err(_decode_error) => {
                        if self.parse_tries <= XP_MULTICAST_PARSE_MAX_TRIES {
                            self.parse_tries = self.parse_tries + 1;
                            InterceptStep::Retry
                        } else {
                            InterceptStep::GiveUp(XpError::ProtocolDecode)
                        }
                    },
                }
            },
            RecvOutcome::TimedOut => {
                if self.timeout_tries <= XP_MULTICAST_TIMEOUT_MAX_TRIES {
                    self.timeout_tries = self.timeout_tries + 1;
                    InterceptStep::Retry
                } else {
                    InterceptStep::GiveUp(XpError::NotFound)
                }
            },
            RecvOutcome::Failed => InterceptStep::GiveUp(XpError::Transport),
        }
    }

    pub fn get_beacon(&self) -> (d: &Option<BeaconData>)
        ensures
            *d == self.data,
    {
        &self.data
    }

    pub fn get_address(&self) -> (a: Endpoint)
        ensures
            a == self.xp_multicast_address,
    {
        self.xp_multicast_address
    }

    pub fn per_attempt_timeout_ms(&self) -> (t: u64)
        ensures
            t == self.timeout_duration_ms,
    {
        self.timeout_duration_ms
    }
}

} // verus!
