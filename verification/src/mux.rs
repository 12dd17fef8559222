use vstd::prelude::*;

verus! {

/// What the client's event loop observed this iteration: a queued line became
/// available, bytes arrived from the server (zero bytes meaning the server
/// closed), a read failed, or the previous transmit failed.
pub enum MuxEvent {
    Outbound(Vec<u8>),
    Inbound(Vec<u8>),
    ReadFailed,
    WriteFailed,
}

/// Spec-level image of a `MuxEvent`.
pub enum MuxEventV {
    Outbound(Seq<u8>),
    Inbound(Seq<u8>),
    ReadFailed,
    WriteFailed,
}

impl View for MuxEvent {
    type V = MuxEventV;

    open spec fn view(&self) -> MuxEventV {
        match self {
            MuxEvent::Outbound(m) => MuxEventV::Outbound(m@),
            MuxEvent::Inbound(d) => MuxEventV::Inbound(d@),
            MuxEvent::ReadFailed => MuxEventV::ReadFailed,
            MuxEvent::WriteFailed => MuxEventV::WriteFailed,
        }
    }
}

/// What the event loop must do with the event it drew.
pub enum MuxAction {
    /// Write exactly these bytes to the transport's write half.
    Transmit(Vec<u8>),
    /// Show exactly these bytes to the local user.
    Show(Vec<u8>),
    /// Terminate the loop.
    Stop,
}

/// Spec-level image of a `MuxAction`.
pub enum MuxActionV {
    Transmit(Seq<u8>),
    Show(Seq<u8>),
    Stop,
}

impl View for MuxAction {
    type V = MuxActionV;

    open spec fn view(&self) -> MuxActionV {
        match self {
            MuxAction::Transmit(m) => MuxActionV::Transmit(m@),
            MuxAction::Show(d) => MuxActionV::Show(d@),
            MuxAction::Stop => MuxActionV::Stop,
        }
    }
}

/// The multiplexer's whole decision for one iteration: a queued line is sent
/// verbatim; inbound bytes are shown verbatim; a zero-length read is the
/// server's orderly close; any transport failure terminates the loop.
pub open spec fn spec_mux_step(ev: MuxEventV) -> MuxActionV {
    match ev {
        MuxEventV::Outbound(m) => MuxActionV::Transmit(m),
        MuxEventV::Inbound(d) => if d.len() == 0 {
            MuxActionV::Stop
        } else {
            MuxActionV::Show(d)
        },
        MuxEventV::ReadFailed => MuxActionV::Stop,
        MuxEventV::WriteFailed => MuxActionV::Stop,
    }
}

/// One iteration of the client's event loop, over whichever of the two raced
/// suspension points completed first.
pub fn mux_step(ev: MuxEvent) -> (a: MuxAction)
    ensures
        a@ == spec_mux_step(ev@),
{
    match ev {
        MuxEvent::Outbound(m) => MuxAction::Transmit(m),
        MuxEvent::Inbound(d) => {
            if d.len() == 0 {
                MuxAction::Stop
            } else {
                MuxAction::Show(d)
            }
        },
        MuxEvent::ReadFailed => MuxAction::Stop,
        MuxEvent::WriteFailed => MuxAction::Stop,
    }
}

/// The bytes that reach the wire when messages are transmitted one after the
/// other in the given order.
pub open spec fn wire_of(msgs: Seq<Seq<u8>>) -> Seq<u8>
    decreases msgs.len(),
{
    if msgs.len() == 0 {
        Seq::empty()
    } else {
        wire_of(msgs.drop_last()) + msgs.last()
    }
}

/// Client ordering: transmitting one more queued line appends its bytes after
/// everything sent before it — what is already on the wire stays untouched, so
/// lines reach the server in exactly the order they were queued.
pub proof fn lemma_client_ordering(sent: Seq<Seq<u8>>, m: Seq<u8>)
    ensures
        wire_of(sent.push(m)) == wire_of(sent) + m,
        forall|i: int|
            0 <= i < wire_of(sent).len() ==> wire_of(sent.push(m))[i] == wire_of(sent)[i],
{
    assert(sent.push(m).drop_last() =~= sent);
    assert(sent.push(m).last() == m);
}

} // verus!
