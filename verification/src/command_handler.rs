use vstd::prelude::*;

use vstd::string::StrSliceExecFns;
use vstd::string::StringSliceAdditionalSpecFns;

use crate::consts::ALERT_LINE_CAPACITY;
use crate::errors::XpError;

verus! {

/// A four-line text message for on-screen display by the simulator; each
/// line is held as UTF-8 bytes and is limited to the 240-byte capacity of
/// its wire-format field.
#[derive(Debug)]
pub struct AlertMessage {
    pub line0: Vec<u8>,
    pub line1: Vec<u8>,
    pub line2: Vec<u8>,
    pub line3: Vec<u8>,
}

impl AlertMessage {
    /// The four lines, in order.
    pub open spec fn spec_lines(self) -> Seq<Seq<u8>> {
        seq![self.line0@, self.line1@, self.line2@, self.line3@]
    }

    /// Every line fits its fixed 240-byte field.
    pub open spec fn wf(self) -> bool {
        &&& self.line0@.len() <= ALERT_LINE_CAPACITY
        &&& self.line1@.len() <= ALERT_LINE_CAPACITY
        &&& self.line2@.len() <= ALERT_LINE_CAPACITY
        &&& self.line3@.len() <= ALERT_LINE_CAPACITY
    }

    /// Replaces one of the four lines.
    ///
    /// Rejected with `InvalidInput` if the index is not 0 to 3 or the
    /// line's UTF-8 form exceeds the 240-byte field capacity; the message
    /// is unchanged in that case.
    pub fn set_line(&mut self, line: &str, index: usize) -> (r: Result<(), XpError>)
        ensures
            match r {
                Ok(()) => {
                    &&& index <= 3
                    &&& line.spec_bytes().len() <= ALERT_LINE_CAPACITY
                    &&& final(self).spec_lines() == old(self).spec_lines().update(
                        index as int,
                        line.spec_bytes(),
                    )
                },
                Err(e) => {
                    &&& e == XpError::InvalidInput
                    &&& (index > 3 || line.spec_bytes().len() > ALERT_LINE_CAPACITY)
                    &&& *final(self) == *old(self)
                },
            },
            old(self).wf() && r is Ok ==> final(self).wf(),
    {
        if index > 3 {
            return Err(XpError::InvalidInput);
        }
        let bytes: Vec<u8> = line.as_bytes_vec();
        if bytes.len() > ALERT_LINE_CAPACITY {
            return Err(XpError::InvalidInput);
        }
        match index {
            0 => self.line0 = bytes,
            1 => self.line1 = bytes,
            2 => self.line2 = bytes,
            _ => self.line3 = bytes,
        }
        proof {
            assert(self.spec_lines() =~= old(self).spec_lines().update(
                index as int,
                line.spec_bytes(),
            ));
        }
        Ok(())
    }
}

impl Default for AlertMessage {
    /// A message of four empty lines.
    fn default() -> (m: AlertMessage)
        ensures
            m.wf(),
            m.spec_lines() == seq![Seq::<u8>::empty(), Seq::<u8>::empty(), Seq::<u8>::empty(), Seq::<u8>::empty()],
    {
        let m = AlertMessage { line0: Vec::new(), line1: Vec::new(), line2: Vec::new(), line3: Vec::new() };
        proof {
            assert(m.spec_lines() =~= seq![
                Seq::<u8>::empty(),
                Seq::<u8>::empty(),
                Seq::<u8>::empty(),
                Seq::<u8>::empty(),
            ]);
        }
        m
    }
}

/// A line as it appears on the wire: the bytes, padded with NULs to the
/// fixed 240-byte field.
pub open spec fn spec_padded_line(line: Seq<u8>) -> Seq<u8>
    recommends
        line.len() <= ALERT_LINE_CAPACITY,
{
    line + Seq::<u8>::new((ALERT_LINE_CAPACITY - line.len()) as nat, |i: int| 0u8)
}

/// The encoded alert datagram: the ASCII tag `ALRT`, one pad byte, then
/// the four NUL-padded line fields, for 965 bytes in all.
pub open spec fn spec_alert_message(m: AlertMessage) -> Seq<u8> {
    seq![65u8, 76u8, 82u8, 84u8, 0u8] + spec_padded_line(m.line0@) + spec_padded_line(m.line1@)
        + spec_padded_line(m.line2@) + spec_padded_line(m.line3@)
}

/// The encoded command datagram: the ASCII tag `CMND`, a NUL, the command
/// name's bytes, and a closing NUL.
pub open spec fn spec_cmd_message(command: Seq<u8>) -> Seq<u8> {
    seq![67u8, 77u8, 78u8, 68u8, 0u8] + command + seq![0u8]
}

/// Appends one alert line and its NUL padding to the message being built.
fn push_padded_line(msg: &mut Vec<u8>, line: &Vec<u8>)
    requires
        line@.len() <= ALERT_LINE_CAPACITY,
    ensures
        final(msg)@ == old(msg)@ + spec_padded_line(line@),
{
    let mut i: usize = 0;
    while i < line.len()
        invariant
            0 <= i <= line@.len(),
            msg@ == old(msg)@ + line@.take(i as int),
        decreases line@.len() - i,
    {
        msg.push(line[i]);
        proof {
            assert(old(msg)@ + line@.take(i as int) + seq![line@[i as int]] =~= old(msg)@
                + line@.take(i as int + 1));
        }
        i = i + 1;
    }
    proof {
        assert(line@.take(line@.len() as int) =~= line@);
    }
    let mut pad: usize = line.len();
    while pad < ALERT_LINE_CAPACITY
        invariant
            line@.len() <= pad <= ALERT_LINE_CAPACITY,
            msg@ == old(msg)@ + line@ + Seq::<u8>::new((pad - line@.len()) as nat, |i: int| 0u8),
        decreases ALERT_LINE_CAPACITY - pad,
    {
        msg.push(0);
        proof {
            assert(old(msg)@ + line@ + Seq::<u8>::new((pad - line@.len()) as nat, |i: int| 0u8)
                + seq![0u8] =~= old(msg)@ + line@ + Seq::<u8>::new(
                (pad + 1 - line@.len()) as nat,
                |i: int| 0u8,
            ));
        }
        pad = pad + 1;
    }
    proof {
        assert(msg@ =~= old(msg)@ + spec_padded_line(line@));
    }
}

/// Builds the fire-and-forget command and alert datagrams; sending them is
/// the embedding code's business.
pub struct CommandHandler {}

impl CommandHandler {
    pub fn new() -> (h: CommandHandler)
        ensures
            h == (CommandHandler {  }),
    {
        CommandHandler {  }
    }

    /// Encodes a command datagram: `CMND`, a NUL, the name, a NUL.
    pub fn cmd_message(&self, command: &str) -> (msg: Vec<u8>)
        ensures
            msg@ == spec_cmd_message(command.spec_bytes()),
    {
        let bytes: Vec<u8> = command.as_bytes_vec();
        let mut msg: Vec<u8> = Vec::new();
        msg.push(67);
        msg.push(77);
        msg.push(78);
        msg.push(68);
        msg.push(0);
        let mut i: usize = 0;
        while i < bytes.len()
            invariant
                0 <= i <= bytes@.len(),
                msg@ == seq![67u8, 77u8, 78u8, 68u8, 0u8] + bytes@.take(i as int),
            decreases bytes@.len() - i,
        {
            msg.push(bytes[i]);
            proof {
                assert(seq![67u8, 77u8, 78u8, 68u8, 0u8] + bytes@.take(i as int) + seq![
                    bytes@[i as int],
                ] =~= seq![67u8, 77u8, 78u8, 68u8, 0u8] + bytes@.take(i as int + 1));
            }
            i = i + 1;
        }
        msg.push(0);
        proof {
            assert(msg@ =~= spec_cmd_message(command.spec_bytes()));
        }
        msg
    }

    /// Encodes an alert datagram from four bounded lines.
    pub fn alert_message(&self, alert_message: AlertMessage) -> (msg: Vec<u8>)
        requires
            alert_message.wf(),
        ensures
            msg@ == spec_alert_message(alert_message),
            msg@.len() == 5 + 4 * ALERT_LINE_CAPACITY,
    {
        let mut msg: Vec<u8> = Vec::new();
        msg.push(65);
        msg.push(76);
        msg.push(82);
        msg.push(84);
        msg.push(0);
        proof {
            assert(msg@ =~= seq![65u8, 76u8, 82u8, 84u8, 0u8]);
        }
        push_padded_line(&mut msg, &alert_message.line0);
        push_padded_line(&mut msg, &alert_message.line1);
        push_padded_line(&mut msg, &alert_message.line2);
        push_padded_line(&mut msg, &alert_message.line3);
        proof {
            assert(msg@ =~= spec_alert_message(alert_message));
        }
        msg
    }
}

} // verus!
