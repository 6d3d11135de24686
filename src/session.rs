//! Sessions of the message protocol, multiplexed over one device connection,
//! and the flow-controlled writer of one session.

use vstd::prelude::*;
use vstd::slice::{slice_subrange, slice_to_vec};

use crate::error::AdbError;
use crate::message::{Message, MessageView, A_CLSE, A_OKAY, A_OPEN, A_WRTE};

verus! {

/// The largest payload that one `WRTE` message carries.
pub const MAX_PAYLOAD: usize = 4096;

/// Where a session stands.
#[derive(Debug, Clone, Copy, PartialEq, Eq, Structural)]
pub enum SessionState {
    /// `OPEN` sent; the peer's id is not known yet.
    Opening,
    /// The peer acknowledged; its id is bound.
    Open,
    /// `CLSE` sent or received.
    Closing,
    /// Terminal.
    Closed,
}

/// One logical stream: our id, the peer's id, and its state.
#[derive(Debug, Clone, Copy, PartialEq, Eq, Structural)]
pub struct Session {
    pub local_id: u32,
    pub remote_id: u32,
    pub state: SessionState,
}

/// The views of a sequence of messages.
pub open spec fn message_views(v: Seq<Message>) -> Seq<MessageView> {
    v.map_values(|m: Message| m@)
}

/// The payloads of `ms`, one after another.
pub open spec fn payloads_concat(ms: Seq<MessageView>) -> Seq<u8>
    decreases ms.len(),
{
    if ms.len() == 0 {
        Seq::empty()
    } else {
        payloads_concat(ms.drop_last()) + ms.last().payload
    }
}

/// Writes of one open session: every chunk goes in its own `WRTE` message,
/// and the next is sent only once the peer has acknowledged the last.
#[derive(Debug, Clone, Copy, PartialEq, Eq, Structural)]
pub struct MessageWriter {
    pub local_id: u32,
    pub remote_id: u32,
}

/// What the peer's reply to a `WRTE` on `(local_id, remote_id)` means.
pub open spec fn ack_outcome(local_id: u32, remote_id: u32, m: MessageView) -> Result<(), AdbError> {
    if m.command == A_OKAY && m.arg0 == remote_id && m.arg1 == local_id {
        Ok(())
    } else if m.command == A_CLSE {
        Err(AdbError::PeerClosed)
    } else {
        Err(AdbError::ProtocolViolation)
    }
}

impl MessageWriter {
    pub fn new(local_id: u32, remote_id: u32) -> (r: MessageWriter)
        ensures
            r.local_id == local_id,
            r.remote_id == remote_id,
    {
        MessageWriter { local_id, remote_id }
    }

    /// The `WRTE` messages that carry `data`: chunks of `MAX_PAYLOAD` bytes,
    /// the last one possibly shorter, which together give `data` back.
    pub fn write_messages(&self, data: &[u8]) -> (r: Vec<Message>)
        ensures
            payloads_concat(message_views(r@)) == data@,
            forall|i: int|
                0 <= i < r@.len() ==> {
                    &&& (#[trigger] r@[i])@.well_formed()
                    &&& r@[i].command == A_WRTE
                    &&& r@[i].arg0 == self.local_id
                    &&& r@[i].arg1 == self.remote_id
                    &&& 0 < r@[i].payload@.len() <= MAX_PAYLOAD
                    &&& i < r@.len() - 1 ==> r@[i].payload@.len() == MAX_PAYLOAD
                },
            data@.len() > MAX_PAYLOAD ==> r@.len() > 1,
    {
        let mut r: Vec<Message> = Vec::new();
        let mut pos: usize = 0;
        while pos < data.len()
            invariant
                pos <= data@.len(),
                payloads_concat(message_views(r@)) == data@.subrange(0, pos as int),
                r@.len() > 0 ==> r@.last().payload@.len() < MAX_PAYLOAD ==> pos == data@.len(),
                forall|i: int|
                    0 <= i < r@.len() ==> {
                        &&& (#[trigger] r@[i])@.well_formed()
                        &&& r@[i].command == A_WRTE
                        &&& r@[i].arg0 == self.local_id
                        &&& r@[i].arg1 == self.remote_id
                        &&& 0 < r@[i].payload@.len() <= MAX_PAYLOAD
                        &&& i < r@.len() - 1 ==> r@[i].payload@.len() == MAX_PAYLOAD
                    },
            decreases data@.len() - pos,
        {
            let end: usize = if data.len() - pos > MAX_PAYLOAD {
                pos + MAX_PAYLOAD
            } else {
                data.len()
            };
            let chunk = slice_to_vec(slice_subrange(data, pos, end));
            let m = Message::new(A_WRTE, self.local_id, self.remote_id, chunk);
            let ghost prev = r@;
            r.push(m);
            proof {
                assert(message_views(r@).drop_last() =~= message_views(prev));
                assert(data@.subrange(0, pos as int) + data@.subrange(pos as int, end as int)
                    =~= data@.subrange(0, end as int));
            }
            pos = end;
        }
        assert(data@.subrange(0, pos as int) =~= data@);
        proof {
            if data@.len() > MAX_PAYLOAD && r@.len() <= 1 {
                if r@.len() == 1 {
                    let v = message_views(r@);
                    assert(v.drop_last() =~= Seq::<MessageView>::empty());
                    assert(payloads_concat(v.drop_last()) == Seq::<u8>::empty());
                    assert(v.last() == r@[0]@);
                    assert(payloads_concat(v) =~= r@[0].payload@);
                }
            }
        }
        r
    }

    /// Interprets the peer's reply to a `WRTE`: its `OKAY` for this session
    /// lets the next chunk go; a `CLSE` means the peer closed the session.
    pub fn handle_ack(&self, reply: &Message) -> (r: Result<(), AdbError>)
        ensures
            r == ack_outcome(self.local_id, self.remote_id, reply@),
    {
        if reply.command == A_OKAY && reply.arg0 == self.remote_id && reply.arg1 == self.local_id {
            Ok(())
        } else if reply.command == A_CLSE {
            Err(AdbError::PeerClosed)
        } else {
            Err(AdbError::ProtocolViolation)
        }
    }
}

/// The session with local id `id`: ids are handed out from 1 up, so it sits
/// at `id - 1`.
pub open spec fn session_at(s: Seq<Session>, id: u32) -> Option<Session> {
    if 1 <= id <= s.len() {
        Some(s[id - 1])
    } else {
        None
    }
}

/// Why a write on session `id` cannot go ahead, if it cannot: a session that
/// is closing or closed fails with the peer having closed it; one that is
/// unknown or not yet open is not connected.
pub open spec fn write_refusal(s: Seq<Session>, id: u32) -> Option<AdbError> {
    match session_at(s, id) {
        Some(sess) => match sess.state {
            SessionState::Open => None,
            SessionState::Opening => Some(AdbError::NotConnected),
            _ => Some(AdbError::PeerClosed),
        },
        None => Some(AdbError::NotConnected),
    }
}

/// `s` with the state of session `id` replaced.
pub open spec fn with_state(s: Seq<Session>, id: u32, state: SessionState) -> Seq<Session> {
    s.update(id - 1, Session { state, ..s[id - 1] })
}

/// The sessions and the outcome after the peer's first reply `m` to the
/// `OPEN` of session `id`: its `OKAY` binds the peer's id and opens the
/// session; a `CLSE` means the destination was refused, and the session is
/// closed.
pub open spec fn open_reply_outcome(s: Seq<Session>, id: u32, m: MessageView) -> (
    Seq<Session>,
    Result<(), AdbError>,
) {
    match session_at(s, id) {
        Some(sess) => if sess.state != SessionState::Opening {
            (s, Err(AdbError::ProtocolViolation))
        } else if m.command == A_OKAY && m.arg1 == id {
            (
                s.update(
                    id - 1,
                    Session { local_id: id, remote_id: m.arg0, state: SessionState::Open },
                ),
                Ok(()),
            )
        } else if m.command == A_CLSE {
            (with_state(s, id, SessionState::Closed), Err(AdbError::PeerClosed))
        } else {
            (s, Err(AdbError::ProtocolViolation))
        },
        None => (s, Err(AdbError::ProtocolViolation)),
    }
}

/// The sessions of one device connection.
pub struct Multiplexer {
    sessions: Vec<Session>,
}

impl View for Multiplexer {
    type V = Seq<Session>;

    closed spec fn view(&self) -> Seq<Session> {
        self.sessions@
    }
}

impl Multiplexer {
    /// Every session sits at its local id less one, and ids stay below
    /// `u32::MAX`.
    pub open spec fn well_formed(&self) -> bool {
        &&& self@.len() < u32::MAX
        &&& forall|i: int| 0 <= i < self@.len() ==> (#[trigger] self@[i]).local_id == i + 1
    }

    pub fn new() -> (r: Multiplexer)
        ensures
            r.well_formed(),
            r@ == Seq::<Session>::empty(),
    {
        Multiplexer { sessions: Vec::new() }
    }

    /// The session with local id `local_id`.
    pub fn session(&self, local_id: u32) -> (r: Option<Session>)
        requires
            self.well_formed(),
        ensures
            r == session_at(self@, local_id),
    {
        if 1 <= local_id && (local_id as usize) <= self.sessions.len() {
            Some(self.sessions[local_id as usize - 1])
        } else {
            None
        }
    }

    /// Opens a session to `destination`: allocates the next local id, which
    /// no earlier session has had, and returns it with the `OPEN` message to
    /// send. Fails when the ids are used up.
    pub fn open_session(&mut self, destination: &[u8]) -> (r: Result<(u32, Message), AdbError>)
        requires
            old(self).well_formed(),
            destination@.len() <= u32::MAX,
        ensures
            final(self).well_formed(),
            old(self)@.len() + 1 >= u32::MAX ==> r == Err::<(u32, Message), AdbError>(
                AdbError::ConversionError,
            ) && final(self)@ == old(self)@,
            old(self)@.len() + 1 < u32::MAX ==> {
                &&& r is Ok
                &&& r->Ok_0.0 == old(self)@.len() + 1
                &&& forall|i: int|
                    0 <= i < old(self)@.len() ==> (#[trigger] old(self)@[i]).local_id != r->Ok_0.0
                &&& final(self)@ == old(self)@.push(
                    Session { local_id: r->Ok_0.0, remote_id: 0, state: SessionState::Opening },
                )
                &&& r->Ok_0.1@.well_formed()
                &&& r->Ok_0.1.command == A_OPEN
                &&& r->Ok_0.1.arg0 == r->Ok_0.0
                &&& r->Ok_0.1.arg1 == 0
                &&& r->Ok_0.1.payload@ == destination@
            },
    {
        if self.sessions.len() >= (u32::MAX - 1) as usize {
            return Err(AdbError::ConversionError);
        }
        let id = (self.sessions.len() + 1) as u32;
        self.sessions.push(Session { local_id: id, remote_id: 0, state: SessionState::Opening });
        let m = Message::new(A_OPEN, id, 0, slice_to_vec(destination));
        Ok((id, m))
    }

    /// Takes the peer's first reply to the `OPEN` of session `local_id`.
    pub fn handle_open_reply(&mut self, local_id: u32, reply: &Message) -> (r: Result<(), AdbError>)
        requires
            old(self).well_formed(),
        ensures
            final(self).well_formed(),
            (final(self)@, r) == open_reply_outcome(old(self)@, local_id, reply@),
    {
        let sess = match self.session(local_id) {
            Some(s) => s,
            None => {
                return Err(AdbError::ProtocolViolation);
            },
        };
        if sess.state != SessionState::Opening {
            return Err(AdbError::ProtocolViolation);
        }
        let i = local_id as usize - 1;
        if reply.command == A_OKAY && reply.arg1 == local_id {
            self.sessions.set(
                i,
                Session { local_id, remote_id: reply.arg0, state: SessionState::Open },
            );
            Ok(())
        } else if reply.command == A_CLSE {
            self.sessions.set(i, Session { state: SessionState::Closed, ..sess });
            Err(AdbError::PeerClosed)
        } else {
            Err(AdbError::ProtocolViolation)
        }
    }

    /// The `WRTE` messages that carry `data` on session `local_id`, which
    /// must be open.
    pub fn write(&self, local_id: u32, data: &[u8]) -> (r: Result<Vec<Message>, AdbError>)
        requires
            self.well_formed(),
        ensures
            match write_refusal(self@, local_id) {
                Some(e) => r == Err::<Vec<Message>, AdbError>(e),
                None => r is Ok && payloads_concat(message_views(r->Ok_0@)) == data@ && forall|
                    i: int,
                | 0 <= i < r->Ok_0@.len() ==> {
                    &&& (#[trigger] r->Ok_0@[i])@.well_formed()
                    &&& r->Ok_0@[i].command == A_WRTE
                    &&& r->Ok_0@[i].arg0 == local_id
                    &&& r->Ok_0@[i].arg1 == session_at(self@, local_id)->Some_0.remote_id
                    &&& 0 < r->Ok_0@[i].payload@.len() <= MAX_PAYLOAD
                    &&& i < r->Ok_0@.len() - 1 ==> r->Ok_0@[i].payload@.len() == MAX_PAYLOAD
                },
            },
    {
        match self.session(local_id) {
            None => Err(AdbError::NotConnected),
            Some(sess) => match sess.state {
                SessionState::Open => {
                    let writer = MessageWriter::new(local_id, sess.remote_id);
                    Ok(writer.write_messages(data))
                },
                SessionState::Opening => Err(AdbError::NotConnected),
                _ => Err(AdbError::PeerClosed),
            },
        }
    }

    /// Takes the peer's reply to a `WRTE` on session `local_id`: its `OKAY`
    /// lets the next chunk go; a `CLSE` closes the session.
    pub fn handle_write_reply(&mut self, local_id: u32, reply: &Message) -> (r: Result<(), AdbError>)
        requires
            old(self).well_formed(),
        ensures
            final(self).well_formed(),
            write_refusal(old(self)@, local_id) is Some ==> r == Err::<(), AdbError>(
                write_refusal(old(self)@, local_id)->Some_0,
            ) && final(self)@ == old(self)@,
            write_refusal(old(self)@, local_id) is None ==> {
                let sess = session_at(old(self)@, local_id)->Some_0;
                &&& r == ack_outcome(local_id, sess.remote_id, reply@)
                &&& final(self)@ == if r == Err::<(), AdbError>(AdbError::PeerClosed) {
                    with_state(old(self)@, local_id, SessionState::Closed)
                } else {
                    old(self)@
                }
            },
    {
        let sess = match self.session(local_id) {
            Some(s) => s,
            None => {
                return Err(AdbError::NotConnected);
            },
        };
        match sess.state {
            SessionState::Open => {},
            SessionState::Opening => {
                return Err(AdbError::NotConnected);
            },
            _ => {
                return Err(AdbError::PeerClosed);
            },
        }
        let r = MessageWriter::new(local_id, sess.remote_id).handle_ack(reply);
        if reply.command != A_OKAY && reply.command == A_CLSE {
            self.sessions.set(local_id as usize - 1, Session { state: SessionState::Closed, ..sess });
        }
        r
    }

    /// Closes session `local_id`: returns the `CLSE` to send and marks the
    /// session closed at once, without waiting for the peer.
    pub fn close_session(&mut self, local_id: u32) -> (r: Result<Message, AdbError>)
        requires
            old(self).well_formed(),
        ensures
            final(self).well_formed(),
            match session_at(old(self)@, local_id) {
                None => r == Err::<Message, AdbError>(AdbError::NotConnected) && final(self)@
                    == old(self)@,
                Some(sess) => if sess.state == SessionState::Closed || sess.state
                    == SessionState::Closing {
                    r == Err::<Message, AdbError>(AdbError::PeerClosed) && final(self)@ == old(self)@
                } else {
                    &&& r is Ok
                    &&& r->Ok_0@.well_formed()
                    &&& r->Ok_0.command == A_CLSE
                    &&& r->Ok_0.arg0 == local_id
                    &&& r->Ok_0.arg1 == sess.remote_id
                    &&& r->Ok_0.payload@.len() == 0
                    &&& final(self)@ == with_state(old(self)@, local_id, SessionState::Closed)
                },
            },
    {
        let sess = match self.session(local_id) {
            Some(s) => s,
            None => {
                return Err(AdbError::NotConnected);
            },
        };
        if sess.state == SessionState::Closed || sess.state == SessionState::Closing {
            return Err(AdbError::PeerClosed);
        }
        self.sessions.set(local_id as usize - 1, Session { state: SessionState::Closed, ..sess });
        Ok(Message::new(A_CLSE, local_id, sess.remote_id, Vec::new()))
    }
}

/// What a message `m` that arrives on open session `(local_id, remote_id)`
/// means: a `WRTE` for it delivers its payload, which is acknowledged with
/// an `OKAY`; a `CLSE` ends the stream.
pub open spec fn receive_outcome(local_id: u32, remote_id: u32, m: MessageView) -> Result<
    Option<Seq<u8>>,
    AdbError,
> {
    if m.command == A_WRTE && m.arg0 == remote_id && m.arg1 == local_id {
        Ok(Some(m.payload))
    } else if m.command == A_CLSE {
        Ok(None)
    } else {
        Err(AdbError::ProtocolViolation)
    }
}

impl Multiplexer {
    /// Takes a message that arrived for session `local_id`. A `WRTE` for it
    /// yields its payload and the `OKAY` to send back; a `CLSE` closes the
    /// session and yields nothing.
    pub fn receive(&mut self, local_id: u32, m: &Message) -> (r: Result<
        Option<(Vec<u8>, Message)>,
        AdbError,
    >)
        requires
            old(self).well_formed(),
        ensures
            final(self).well_formed(),
            write_refusal(old(self)@, local_id) is Some ==> r == Err::<
                Option<(Vec<u8>, Message)>,
                AdbError,
            >(write_refusal(old(self)@, local_id)->Some_0) && final(self)@ == old(self)@,
            write_refusal(old(self)@, local_id) is None ==> {
                let sess = session_at(old(self)@, local_id)->Some_0;
                match receive_outcome(local_id, sess.remote_id, m@) {
                    Ok(Some(p)) => {
                        &&& r is Ok && r->Ok_0 is Some
                        &&& r->Ok_0->Some_0.0@ == p
                        &&& r->Ok_0->Some_0.1@.well_formed()
                        &&& r->Ok_0->Some_0.1.command == A_OKAY
                        &&& r->Ok_0->Some_0.1.arg0 == local_id
                        &&& r->Ok_0->Some_0.1.arg1 == sess.remote_id
                        &&& r->Ok_0->Some_0.1.payload@.len() == 0
                        &&& final(self)@ == old(self)@
                    },
                    Ok(None) => r is Ok && r->Ok_0 is None && final(self)@ == with_state(
                        old(self)@,
                        local_id,
                        SessionState::Closed,
                    ),
                    Err(e) => r == Err::<Option<(Vec<u8>, Message)>, AdbError>(e) && final(self)@ == old(self)@,
                }
            },
    {
        let sess = match self.session(local_id) {
            Some(s) => s,
            None => {
                return Err(AdbError::NotConnected);
            },
        };
        match sess.state {
            SessionState::Open => {},
            SessionState::Opening => {
                return Err(AdbError::NotConnected);
            },
            _ => {
                return Err(AdbError::PeerClosed);
            },
        }
        if m.command == A_WRTE && m.arg0 == sess.remote_id && m.arg1 == local_id {
            let ack = Message::new(A_OKAY, local_id, sess.remote_id, Vec::new());
            Ok(Some((m.payload.clone(), ack)))
        } else if m.command == A_CLSE {
            self.sessions.set(local_id as usize - 1, Session { state: SessionState::Closed, ..sess });
            Ok(None)
        } else {
            Err(AdbError::ProtocolViolation)
        }
    }
}

/// A peer `CLSE` in place of the `OKAY` to an `OPEN` leaves the session
/// closed, and every later write on it fails with the peer having closed it.
pub proof fn lemma_refused_open_closes(s: Seq<Session>, id: u32, m: MessageView)
    requires
        session_at(s, id) is Some,
        session_at(s, id)->Some_0.state == SessionState::Opening,
        m.command == A_CLSE,
    ensures
        open_reply_outcome(s, id, m).1 == Err::<(), AdbError>(AdbError::PeerClosed),
        session_at(open_reply_outcome(s, id, m).0, id)->Some_0.state == SessionState::Closed,
        write_refusal(open_reply_outcome(s, id, m).0, id) == Some(AdbError::PeerClosed),
{
}

} // verus!
